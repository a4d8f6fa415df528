//! The escape-time engine: which points of a viewport are sampled, with what
//! iteration budget, and how the sampled counts become the finished grid.
//!
//! The arithmetic of the iteration rules is done by the caller, on the sample
//! points that a [`SamplePlan`] names. Everything around it is decided here:
//! the budget transform, adaptive coarse sampling with block replication, and
//! super-sampling with box-filter downsampling.

use vstd::prelude::*;
use crate::grid::{cells_at_most, grid_view, has_shape};
use crate::scalar::{Complex, Scalar};

verus! {

/// The bit pattern of 10.0, the zoom above which adaptive sampling sets in.
pub const ADAPTIVE_ZOOM_BITS: u64 = 0x4024_0000_0000_0000;

/// The smallest budget that performance mode works with.
pub const PERFORMANCE_FLOOR: u32 = 20;

/// The largest budget that quality mode works with.
pub const QUALITY_CEILING: u32 = 512;

/// The fractal families.
#[derive(Debug, Clone, PartialEq)]
pub enum FractalType {
    Mandelbrot,
    Julia { c: Complex },
    BurningShip,
    Tricorn,
    Multibrot { power: Scalar },
    Custom { equation: String },
}

/// The mathematical model of a [`FractalType`].
pub enum FractalTypeView {
    Mandelbrot,
    Julia { c: Complex },
    BurningShip,
    Tricorn,
    Multibrot { power: Scalar },
    Custom { equation: Seq<char> },
}

impl View for FractalType {
    type V = FractalTypeView;

    open spec fn view(&self) -> FractalTypeView {
        match *self {
            FractalType::Mandelbrot => FractalTypeView::Mandelbrot,
            FractalType::Julia { c } => FractalTypeView::Julia { c },
            FractalType::BurningShip => FractalTypeView::BurningShip,
            FractalType::Tricorn => FractalTypeView::Tricorn,
            FractalType::Multibrot { power } => FractalTypeView::Multibrot { power },
            FractalType::Custom { equation } => FractalTypeView::Custom { equation: equation@ },
        }
    }
}

/// The iteration rule that is applied at each sample point.
#[derive(Debug, Clone, Copy, PartialEq, Eq, Structural)]
pub enum EscapeRule {
    /// `z <- z^2 + c`, from zero, with `c` the sample point.
    Mandelbrot,
    /// `z <- z^2 + c`, from the sample point, with `c` fixed.
    Julia { c: Complex },
    /// `z <- (|Re z| + i|Im z|)^2 + c`, from zero, with `c` the sample point.
    BurningShip,
    /// `z <- conj(z)^2 + c`, from zero, with `c` the sample point.
    Tricorn,
    /// `z <- z^power + c`, from zero, with `c` the sample point.
    Multibrot { power: Scalar },
}

/// A viewport, a fractal family and an iteration budget.
#[derive(Debug, Clone)]
pub struct FractalParams {
    pub fractal_type: FractalType,
    pub width: usize,
    pub height: usize,
    pub zoom: Scalar,
    pub center_x: Scalar,
    pub center_y: Scalar,
    pub max_iterations: u32,
}

/// The quality and performance switches of the engine.
pub struct FractalGenerator {
    pub use_adaptive_sampling: bool,
    pub performance_mode: bool,
    pub quality_mode: bool,
    pub super_sampling: bool,
}

/// What has to be sampled for one request.
///
/// Sample `(sx, sy)`, with `sx < columns` and `sy < rows`, stands at pixel
/// `(sx * step, sy * step)` of an image of `image_width` by `image_height`
/// pixels laid over the viewport, and is iterated under `rule` for at most
/// `budget` steps.
#[derive(Debug, Clone, Copy, PartialEq, Eq, Structural)]
pub struct SamplePlan {
    pub rule: EscapeRule,
    pub image_width: usize,
    pub image_height: usize,
    pub step: usize,
    pub columns: usize,
    pub rows: usize,
    pub budget: u32,
}

/// The rule of a fractal family. A custom equation is iterated under the
/// Mandelbrot rule.
pub open spec fn rule_of(fractal_type: FractalType) -> EscapeRule {
    match fractal_type {
        FractalType::Mandelbrot => EscapeRule::Mandelbrot,
        FractalType::Julia { c } => EscapeRule::Julia { c },
        FractalType::BurningShip => EscapeRule::BurningShip,
        FractalType::Tricorn => EscapeRule::Tricorn,
        FractalType::Multibrot { power } => EscapeRule::Multibrot { power },
        FractalType::Custom { equation } => EscapeRule::Mandelbrot,
    }
}

/// The budget after the performance and quality transform. Performance mode
/// halves the budget but keeps it at 20 or more; otherwise quality mode raises
/// it by half but to no more than 512. Performance mode wins over quality mode.
pub open spec fn effective_budget(
    max_iterations: u32,
    performance_mode: bool,
    quality_mode: bool,
) -> int {
    if performance_mode {
        if max_iterations / 2 >= PERFORMANCE_FLOOR {
            max_iterations as int / 2
        } else {
            PERFORMANCE_FLOOR as int
        }
    } else if quality_mode {
        if max_iterations * 3 / 2 <= QUALITY_CEILING {
            max_iterations * 3 / 2
        } else {
            QUALITY_CEILING as int
        }
    } else {
        max_iterations as int
    }
}

/// The count of a point after its iteration ended with `z`, whose squared
/// magnitude is `norm`: an iteration that degenerated into a NaN counts as
/// one that did not escape, and holds the whole budget.
pub open spec fn settled_count(norm: Scalar, iterations: u32, budget: u32) -> u32 {
    if norm.is_nan() {
        budget
    } else {
        iterations
    }
}

/// The number of samples along an axis of `length` pixels when every
/// `step`-th pixel is sampled.
pub open spec fn sample_count(length: int, step: int) -> int {
    (length + step - 1) / step
}

/// A count, or the budget where the count lies above it.
pub open spec fn clamp_count(count: u32, budget: u32) -> u32 {
    if count <= budget {
        count
    } else {
        budget
    }
}

/// Row `y` of the image that block replication makes of the samples: pixel
/// `x` takes the clamped count of sample `(x / step, y / step)`.
pub open spec fn expanded_row(
    samples: Seq<Seq<u32>>,
    step: int,
    width: int,
    budget: u32,
    y: int,
) -> Seq<u32> {
    Seq::new(width as nat, |x: int| clamp_count(samples[y / step][x / step], budget))
}

/// The image of `width` by `height` pixels that block replication makes of the samples.
pub open spec fn expanded(
    samples: Seq<Seq<u32>>,
    step: int,
    width: int,
    height: int,
    budget: u32,
) -> Seq<Seq<u32>> {
    Seq::new(height as nat, |y: int| expanded_row(samples, step, width, budget, y))
}

/// The grid holds a cell at column `x` of row `y`.
pub open spec fn has_cell(data: Seq<Seq<u32>>, x: int, y: int) -> bool {
    0 <= y < data.len() && 0 <= x < data[y].len()
}

/// The cell at column `x` of row `y`, or zero where the grid holds none.
pub open spec fn cell_or_zero(data: Seq<Seq<u32>>, x: int, y: int) -> int {
    if has_cell(data, x, y) {
        data[y][x] as int
    } else {
        0
    }
}

/// One or zero, as the grid holds a cell at column `x` of row `y` or not.
pub open spec fn cell_weight(data: Seq<Seq<u32>>, x: int, y: int) -> int {
    if has_cell(data, x, y) {
        1
    } else {
        0
    }
}

/// The sum of the cells that the grid holds in the 2x2 block of output cell `(x, y)`.
pub open spec fn block_sum(data: Seq<Seq<u32>>, x: int, y: int) -> int {
    cell_or_zero(data, 2 * x, 2 * y) + cell_or_zero(data, 2 * x + 1, 2 * y) + cell_or_zero(
        data,
        2 * x,
        2 * y + 1,
    ) + cell_or_zero(data, 2 * x + 1, 2 * y + 1)
}

/// The number of cells that the grid holds in the 2x2 block of output cell `(x, y)`.
pub open spec fn block_count(data: Seq<Seq<u32>>, x: int, y: int) -> int {
    cell_weight(data, 2 * x, 2 * y) + cell_weight(data, 2 * x + 1, 2 * y) + cell_weight(
        data,
        2 * x,
        2 * y + 1,
    ) + cell_weight(data, 2 * x + 1, 2 * y + 1)
}

/// The box filter: the average, rounded down, of the cells that the grid holds
/// in the 2x2 block of output cell `(x, y)`; zero where it holds none.
pub open spec fn box_average(data: Seq<Seq<u32>>, x: int, y: int) -> int {
    if block_count(data, x, y) > 0 {
        block_sum(data, x, y) / block_count(data, x, y)
    } else {
        0
    }
}

/// Row `y` of the box-filtered grid.
pub open spec fn downsampled_row(data: Seq<Seq<u32>>, width: int, y: int) -> Seq<u32> {
    Seq::new(width as nat, |x: int| box_average(data, x, y) as u32)
}

/// The grid of `width` by `height` cells that the box filter makes of `data`.
pub open spec fn downsampled(data: Seq<Seq<u32>>, width: int, height: int) -> Seq<Seq<u32>> {
    Seq::new(height as nat, |y: int| downsampled_row(data, width, y))
}

impl FractalType {
    /// Copies the family with its parameters.
    pub fn duplicate(&self) -> (copy: FractalType)
        ensures
            copy@ == self@,
    {
        match self {
            FractalType::Mandelbrot => FractalType::Mandelbrot,
            FractalType::Julia { c } => FractalType::Julia { c: *c },
            FractalType::BurningShip => FractalType::BurningShip,
            FractalType::Tricorn => FractalType::Tricorn,
            FractalType::Multibrot { power } => FractalType::Multibrot { power: *power },
            FractalType::Custom { equation } => FractalType::Custom { equation: equation.clone() },
        }
    }

    /// The iteration rule of this family.
    pub fn rule(&self) -> (rule: EscapeRule)
        ensures
            rule == rule_of(*self),
    {
        match self {
            FractalType::Mandelbrot => EscapeRule::Mandelbrot,
            FractalType::Julia { c } => EscapeRule::Julia { c: *c },
            FractalType::BurningShip => EscapeRule::BurningShip,
            FractalType::Tricorn => EscapeRule::Tricorn,
            FractalType::Multibrot { power } => EscapeRule::Multibrot { power: *power },
            FractalType::Custom { equation: _ } => EscapeRule::Mandelbrot,
        }
    }
}

/// Settles the count of a point after its iteration ended: the budget where
/// the squared magnitude `norm` is a NaN, the iterations made otherwise.
pub fn settle(norm: Scalar, iterations: u32, budget: u32) -> (count: u32)
    ensures
        count == settled_count(norm, iterations, budget),
{
    if norm.check_nan() {
        budget
    } else {
        iterations
    }
}

impl FractalParams {
    /// The request is one that a caller may make: the grid has cells, the zoom
    /// is positive and the budget is not zero.
    pub open spec fn valid(self) -> bool {
        &&& self.width > 0
        &&& self.height > 0
        &&& self.zoom.exceeds(Scalar { bits: 0 })
        &&& self.max_iterations > 0
    }

    /// Tells whether the request is valid.
    pub fn is_valid(&self) -> (r: bool)
        ensures
            r == self.valid(),
    {
        self.width > 0 && self.height > 0 && self.zoom.gt(Scalar::from_bits(0))
            && self.max_iterations > 0
    }
}

impl SamplePlan {
    /// The samples have the shape that the plan asks for.
    pub open spec fn accepts(self, samples: Seq<Seq<u32>>) -> bool {
        has_shape(samples, self.columns as int, self.rows as int)
    }

    /// The plan is consistent: it samples every pixel or every second one, and
    /// covers the image.
    pub open spec fn well_formed(self) -> bool {
        &&& self.step == 1 || self.step == 2
        &&& self.columns == sample_count(self.image_width as int, self.step as int)
        &&& self.rows == sample_count(self.image_height as int, self.step as int)
    }

    /// Tells whether the plan is consistent.
    pub fn is_well_formed(&self) -> (r: bool)
        ensures
            r == self.well_formed(),
    {
        if self.step == 1 {
            self.columns == self.image_width && self.rows == self.image_height
        } else if self.step == 2 {
            self.columns == self.image_width / 2 + self.image_width % 2 && self.rows
                == self.image_height / 2 + self.image_height % 2
        } else {
            false
        }
    }

    /// Tells whether a grid of samples has the shape that the plan asks for.
    pub fn fits(&self, samples: &Vec<Vec<u32>>) -> (r: bool)
        ensures
            r == self.accepts(grid_view(samples@)),
    {
        if samples.len() != self.rows {
            return false;
        }
        let mut y: usize = 0;
        while y < samples.len()
            invariant
                y <= samples.len(),
                samples.len() == self.rows,
                forall|i: int| 0 <= i < y ==> (#[trigger] grid_view(samples@)[i]).len() == self.columns,
            decreases samples.len() - y,
        {
            if samples[y].len() != self.columns {
                assert(grid_view(samples@)[y as int].len() != self.columns);
                return false;
            }
            y += 1;
        }
        true
    }

    /// The pixel of the image at which sample `(sx, sy)` stands.
    pub fn pixel(&self, sx: usize, sy: usize) -> (at: (usize, usize))
        requires
            self.well_formed(),
            sx < self.columns,
            sy < self.rows,
        ensures
            at.0 == sx * self.step,
            at.1 == sy * self.step,
            at.0 < self.image_width,
            at.1 < self.image_height,
    {
        if self.step == 1 {
            (sx, sy)
        } else {
            (sx * 2, sy * 2)
        }
    }
}

impl FractalGenerator {
    /// The budget that this generator works with for a request of `max_iterations`.
    pub open spec fn budget_for(&self, max_iterations: u32) -> int {
        effective_budget(max_iterations, self.performance_mode, self.quality_mode)
    }

    /// Adaptive sampling applies: the switch is on and the zoom is above 10.
    pub open spec fn samples_coarsely(&self, params: FractalParams) -> bool {
        self.use_adaptive_sampling && params.zoom.exceeds(Scalar { bits: ADAPTIVE_ZOOM_BITS })
    }

    /// The distance between two sampled pixels.
    pub open spec fn step_for(&self, params: FractalParams) -> int {
        if self.samples_coarsely(params) {
            2
        } else {
            1
        }
    }

    /// The factor by which super-sampling enlarges the image.
    pub open spec fn scale(&self) -> int {
        if self.super_sampling {
            2
        } else {
            1
        }
    }

    /// What has to be sampled for `params`.
    pub open spec fn plan_for(&self, params: FractalParams) -> SamplePlan {
        SamplePlan {
            rule: rule_of(params.fractal_type),
            image_width: (self.scale() * params.width) as usize,
            image_height: (self.scale() * params.height) as usize,
            step: self.step_for(params) as usize,
            columns: sample_count(self.scale() * params.width, self.step_for(params)) as usize,
            rows: sample_count(self.scale() * params.height, self.step_for(params)) as usize,
            budget: self.budget_for(params.max_iterations) as u32,
        }
    }

    /// The grid that the samples give for `params`: the samples are clamped to
    /// the budget and replicated over the image, and a super-sampled image is
    /// box-filtered down to the requested size.
    pub open spec fn assembled(&self, params: FractalParams, samples: Seq<Seq<u32>>) -> Seq<
        Seq<u32>,
    > {
        let plan = self.plan_for(params);
        let image = expanded(
            samples,
            plan.step as int,
            plan.image_width as int,
            plan.image_height as int,
            plan.budget,
        );
        if self.super_sampling {
            downsampled(image, params.width as int, params.height as int)
        } else {
            image
        }
    }

    /// A generator with adaptive sampling and quality mode on, performance
    /// mode and super-sampling off.
    pub fn new() -> (g: FractalGenerator)
        ensures
            g.use_adaptive_sampling,
            !g.performance_mode,
            g.quality_mode,
            !g.super_sampling,
    {
        FractalGenerator {
            use_adaptive_sampling: true,
            performance_mode: false,
            quality_mode: true,
            super_sampling: false,
        }
    }

    pub fn set_performance_mode(&mut self, enabled: bool)
        ensures
            final(self).performance_mode == enabled,
            final(self).use_adaptive_sampling == old(self).use_adaptive_sampling,
            final(self).quality_mode == old(self).quality_mode,
            final(self).super_sampling == old(self).super_sampling,
    {
        self.performance_mode = enabled;
    }

    pub fn set_adaptive_sampling(&mut self, enabled: bool)
        ensures
            final(self).use_adaptive_sampling == enabled,
            final(self).performance_mode == old(self).performance_mode,
            final(self).quality_mode == old(self).quality_mode,
            final(self).super_sampling == old(self).super_sampling,
    {
        self.use_adaptive_sampling = enabled;
    }

    pub fn set_quality_mode(&mut self, enabled: bool)
        ensures
            final(self).quality_mode == enabled,
            final(self).use_adaptive_sampling == old(self).use_adaptive_sampling,
            final(self).performance_mode == old(self).performance_mode,
            final(self).super_sampling == old(self).super_sampling,
    {
        self.quality_mode = enabled;
    }

    pub fn set_super_sampling(&mut self, enabled: bool)
        ensures
            final(self).super_sampling == enabled,
            final(self).use_adaptive_sampling == old(self).use_adaptive_sampling,
            final(self).performance_mode == old(self).performance_mode,
            final(self).quality_mode == old(self).quality_mode,
    {
        self.super_sampling = enabled;
    }

    /// The budget after the performance and quality transform.
    pub fn effective_iterations(&self, max_iterations: u32) -> (budget: u32)
        ensures
            budget == self.budget_for(max_iterations),
    {
        if self.performance_mode {
            let half: u32 = max_iterations / 2;
            if half >= PERFORMANCE_FLOOR {
                half
            } else {
                PERFORMANCE_FLOOR
            }
        } else if self.quality_mode {
            if max_iterations <= 341 {
                max_iterations * 3 / 2
            } else {
                QUALITY_CEILING
            }
        } else {
            max_iterations
        }
    }

    /// Tells whether adaptive sampling applies to `params`.
    pub fn uses_adaptive_sampling(&self, params: &FractalParams) -> (r: bool)
        ensures
            r == self.samples_coarsely(*params),
    {
        self.use_adaptive_sampling && params.zoom.gt(Scalar::from_bits(ADAPTIVE_ZOOM_BITS))
    }

    /// Plans the sampling for `params`: the image size (doubled under
    /// super-sampling), the sampling step (two under adaptive sampling), the
    /// number of samples, the rule and the budget.
    pub fn sample_plan(&self, params: &FractalParams) -> (plan: SamplePlan)
        requires
            self.super_sampling ==> 2 * params.width <= usize::MAX && 2 * params.height
                <= usize::MAX,
        ensures
            plan == self.plan_for(*params),
            plan.well_formed(),
    {
        let image_width: usize = if self.super_sampling {
            params.width * 2
        } else {
            params.width
        };
        let image_height: usize = if self.super_sampling {
            params.height * 2
        } else {
            params.height
        };
        let coarse = self.uses_adaptive_sampling(params);
        let step: usize = if coarse {
            2
        } else {
            1
        };
        let columns: usize = if coarse {
            image_width / 2 + image_width % 2
        } else {
            image_width
        };
        let rows: usize = if coarse {
            image_height / 2 + image_height % 2
        } else {
            image_height
        };
        SamplePlan {
            rule: params.fractal_type.rule(),
            image_width,
            image_height,
            step,
            columns,
            rows,
            budget: self.effective_iterations(params.max_iterations),
        }
    }
}

impl Default for FractalGenerator {
    fn default() -> (g: FractalGenerator)
        ensures
            g.use_adaptive_sampling,
            !g.performance_mode,
            g.quality_mode,
            !g.super_sampling,
    {
        FractalGenerator::new()
    }
}

/// The box filter stays within the bound of the cells that it averages.
pub proof fn lemma_box_average_bounded(data: Seq<Seq<u32>>, x: int, y: int, bound: int)
    requires
        cells_at_most(data, bound),
        0 <= bound,
    ensures
        0 <= box_average(data, x, y) <= bound,
{
    let n = block_count(data, x, y);
    let s = block_sum(data, x, y);
    assert(0 <= cell_or_zero(data, 2 * x, 2 * y) <= bound * cell_weight(data, 2 * x, 2 * y));
    assert(0 <= cell_or_zero(data, 2 * x + 1, 2 * y) <= bound * cell_weight(
        data,
        2 * x + 1,
        2 * y,
    ));
    assert(0 <= cell_or_zero(data, 2 * x, 2 * y + 1) <= bound * cell_weight(
        data,
        2 * x,
        2 * y + 1,
    ));
    assert(0 <= cell_or_zero(data, 2 * x + 1, 2 * y + 1) <= bound * cell_weight(
        data,
        2 * x + 1,
        2 * y + 1,
    ));
    if n > 0 {
        assert(0 <= s <= bound * n) by (nonlinear_arith)
            requires
                0 <= s,
                s <= bound * cell_weight(data, 2 * x, 2 * y) + bound * cell_weight(
                    data,
                    2 * x + 1,
                    2 * y,
                ) + bound * cell_weight(data, 2 * x, 2 * y + 1) + bound * cell_weight(
                    data,
                    2 * x + 1,
                    2 * y + 1,
                ),
                n == cell_weight(data, 2 * x, 2 * y) + cell_weight(data, 2 * x + 1, 2 * y)
                    + cell_weight(data, 2 * x, 2 * y + 1) + cell_weight(
                    data,
                    2 * x + 1,
                    2 * y + 1,
                ),
        ;
        assert(0 <= s / n <= bound) by (nonlinear_arith)
            requires
                0 <= s <= bound * n,
                n > 0,
        ;
    }
}

/// The cell at column `x` of row `y`, if the grid holds one.
fn cell_at(data: &Vec<Vec<u32>>, x: usize, y: usize) -> (cell: Option<u32>)
    ensures
        cell.is_some() == has_cell(grid_view(data@), x as int, y as int),
        cell.is_some() ==> cell.unwrap() == grid_view(data@)[y as int][x as int],
{
    if y < data.len() {
        let row = &data[y];
        if x < row.len() {
            return Some(row[x]);
        }
    }
    None
}

/// The box filter at output cell `(x, y)`.
fn box_filter_cell(data: &Vec<Vec<u32>>, x: usize, y: usize) -> (average: u32)
    ensures
        average == box_average(grid_view(data@), x as int, y as int),
{
    if x > usize::MAX / 2 || y > usize::MAX / 2 {
        proof {
            let g = grid_view(data@);
            assert(g.len() == data.len());
            assert forall|cx: int, cy: int| cx > usize::MAX || cy > usize::MAX implies !has_cell(
                g,
                cx,
                cy,
            ) by {
                if 0 <= cy < g.len() {
                    assert(g[cy].len() == data[cy].len());
                }
            }
            assert(block_count(g, x as int, y as int) == 0);
        }
        return 0;
    }
    let mut sum: u64 = 0;
    let mut count: u64 = 0;
    let ghost g = grid_view(data@);
    let ghost gx = x as int;
    let ghost gy = y as int;
    match cell_at(data, x * 2, y * 2) {
        Some(v) => {
            sum = sum + v as u64;
            count = count + 1;
        },
        None => {},
    }
    assert(sum == cell_or_zero(g, 2 * gx, 2 * gy));
    assert(count == cell_weight(g, 2 * gx, 2 * gy));
    match cell_at(data, x * 2 + 1, y * 2) {
        Some(v) => {
            sum = sum + v as u64;
            count = count + 1;
        },
        None => {},
    }
    assert(sum == cell_or_zero(g, 2 * gx, 2 * gy) + cell_or_zero(g, 2 * gx + 1, 2 * gy));
    assert(count == cell_weight(g, 2 * gx, 2 * gy) + cell_weight(g, 2 * gx + 1, 2 * gy));
    match cell_at(data, x * 2, y * 2 + 1) {
        Some(v) => {
            sum = sum + v as u64;
            count = count + 1;
        },
        None => {},
    }
    assert(sum == cell_or_zero(g, 2 * gx, 2 * gy) + cell_or_zero(g, 2 * gx + 1, 2 * gy)
        + cell_or_zero(g, 2 * gx, 2 * gy + 1));
    assert(count == cell_weight(g, 2 * gx, 2 * gy) + cell_weight(g, 2 * gx + 1, 2 * gy)
        + cell_weight(g, 2 * gx, 2 * gy + 1));
    match cell_at(data, x * 2 + 1, y * 2 + 1) {
        Some(v) => {
            sum = sum + v as u64;
            count = count + 1;
        },
        None => {},
    }
    assert(sum == block_sum(g, gx, gy));
    assert(count == block_count(g, gx, gy));
    if count > 0 {
        proof {
            assert(cells_at_most(g, u32::MAX as int));
            lemma_box_average_bounded(g, gx, gy, u32::MAX as int);
        }
        let average: u64 = sum / count;
        average as u32
    } else {
        0
    }
}

impl FractalGenerator {
    /// Lays the samples of a plan out over its image: every pixel takes the
    /// count of the sample of its block, clamped to the budget.
    pub fn generate_standard(&self, plan: &SamplePlan, samples: &Vec<Vec<u32>>) -> (image: Vec<
        Vec<u32>,
    >)
        requires
            plan.well_formed(),
            plan.accepts(grid_view(samples@)),
        ensures
            grid_view(image@) == expanded(
                grid_view(samples@),
                plan.step as int,
                plan.image_width as int,
                plan.image_height as int,
                plan.budget,
            ),
            has_shape(grid_view(image@), plan.image_width as int, plan.image_height as int),
            cells_at_most(grid_view(image@), plan.budget as int),
    {
        let ghost source = grid_view(samples@);
        let mut image: Vec<Vec<u32>> = Vec::new();
        let mut y: usize = 0;
        while y < plan.image_height
            invariant
                y <= plan.image_height,
                image.len() == y,
                plan.well_formed(),
                plan.accepts(source),
                source == grid_view(samples@),
                forall|i: int|
                    0 <= i < y ==> (#[trigger] image[i])@ == expanded_row(
                        source,
                        plan.step as int,
                        plan.image_width as int,
                        plan.budget,
                        i,
                    ),
            decreases plan.image_height - y,
        {
            let sy: usize = y / plan.step;
            assert(source[sy as int].len() == plan.columns);
            let line = &samples[sy];
            let mut row: Vec<u32> = Vec::new();
            let mut x: usize = 0;
            while x < plan.image_width
                invariant
                    x <= plan.image_width,
                    row.len() == x,
                    plan.well_formed(),
                    line.len() == plan.columns,
                    forall|j: int|
                        0 <= j < x ==> (#[trigger] row[j]) == clamp_count(
                            line[j / (plan.step as int)],
                            plan.budget,
                        ),
                decreases plan.image_width - x,
            {
                let sx: usize = x / plan.step;
                let count: u32 = line[sx];
                if count <= plan.budget {
                    row.push(count);
                } else {
                    row.push(plan.budget);
                }
                x += 1;
            }
            assert(row@ =~= expanded_row(
                source,
                plan.step as int,
                plan.image_width as int,
                plan.budget,
                y as int,
            ));
            image.push(row);
            y += 1;
        }
        assert(grid_view(image@) =~= expanded(
            source,
            plan.step as int,
            plan.image_width as int,
            plan.image_height as int,
            plan.budget,
        ));
        image
    }

    /// Box-filters a grid down: each output cell is the average, rounded down,
    /// of the cells that `data` holds in its 2x2 block.
    pub fn downsample_fractal(
        &self,
        data: Vec<Vec<u32>>,
        target_width: usize,
        target_height: usize,
    ) -> (result: Vec<Vec<u32>>)
        ensures
            grid_view(result@) == downsampled(
                grid_view(data@),
                target_width as int,
                target_height as int,
            ),
            has_shape(grid_view(result@), target_width as int, target_height as int),
    {
        let ghost source = grid_view(data@);
        let mut result: Vec<Vec<u32>> = Vec::new();
        let mut y: usize = 0;
        while y < target_height
            invariant
                y <= target_height,
                result.len() == y,
                source == grid_view(data@),
                forall|i: int|
                    0 <= i < y ==> (#[trigger] result[i])@ == downsampled_row(
                        source,
                        target_width as int,
                        i,
                    ),
            decreases target_height - y,
        {
            let mut row: Vec<u32> = Vec::new();
            let mut x: usize = 0;
            while x < target_width
                invariant
                    x <= target_width,
                    row.len() == x,
                    source == grid_view(data@),
                    forall|j: int|
                        0 <= j < x ==> (#[trigger] row[j]) == box_average(source, j, y as int),
                decreases target_width - x,
            {
                let average = box_filter_cell(&data, x, y);
                row.push(average);
                x += 1;
            }
            assert(row@ =~= downsampled_row(source, target_width as int, y as int));
            result.push(row);
            y += 1;
        }
        assert(grid_view(result@) =~= downsampled(
            source,
            target_width as int,
            target_height as int,
        ));
        result
    }
}

/// Box-filtering keeps every cell within the bound of the source cells.
pub proof fn lemma_downsampled_bounded(data: Seq<Seq<u32>>, width: int, height: int, bound: u32)
    requires
        cells_at_most(data, bound as int),
        0 <= width,
        0 <= height,
    ensures
        cells_at_most(downsampled(data, width, height), bound as int),
{
    let out = downsampled(data, width, height);
    assert forall|y: int, x: int| 0 <= y < out.len() && 0 <= x < out[y].len() implies (
    #[trigger] out[y][x]) <= bound by {
        lemma_box_average_bounded(data, x, y, bound as int);
    }
}

/// The averaging identity: box-filtering a doubled grid whose cells all hold
/// one value gives that value in every output cell.
pub proof fn lemma_downsample_uniform(
    data: Seq<Seq<u32>>,
    width: int,
    height: int,
    value: u32,
    x: int,
    y: int,
)
    requires
        has_shape(data, 2 * width, 2 * height),
        forall|j: int, i: int|
            0 <= j < data.len() && 0 <= i < data[j].len() ==> (#[trigger] data[j][i]) == value,
        0 <= x < width,
        0 <= y < height,
    ensures
        downsampled(data, width, height)[y][x] == value,
{
    assert(data[2 * y].len() == 2 * width);
    assert(data[2 * y + 1].len() == 2 * width);
    assert(has_cell(data, 2 * x, 2 * y));
    assert(has_cell(data, 2 * x + 1, 2 * y));
    assert(has_cell(data, 2 * x, 2 * y + 1));
    assert(has_cell(data, 2 * x + 1, 2 * y + 1));
    assert(data[2 * y][2 * x] == value);
    assert(data[2 * y][2 * x + 1] == value);
    assert(data[2 * y + 1][2 * x] == value);
    assert(data[2 * y + 1][2 * x + 1] == value);
    assert(block_count(data, x, y) == 4);
    assert(block_sum(data, x, y) == 4 * value);
}

/// Block uniformity: where adaptive sampling applies and the grid is not
/// super-sampled, every cell equals the cell at the even origin of its 2x2
/// block, so the cells of a block are all equal.
pub proof fn lemma_adaptive_blocks_uniform(
    generator: FractalGenerator,
    params: FractalParams,
    samples: Seq<Seq<u32>>,
    x: int,
    y: int,
)
    requires
        generator.samples_coarsely(params),
        !generator.super_sampling,
        0 <= x < params.width,
        0 <= y < params.height,
    ensures
        generator.assembled(params, samples)[y][x] == generator.assembled(params, samples)[y - y
            % 2][x - x % 2],
{
    let plan = generator.plan_for(params);
    assert(plan.step == 2);
    assert(plan.image_width == params.width);
    assert(plan.image_height == params.height);
    let grid = generator.assembled(params, samples);
    let oy = y - y % 2;
    let ox = x - x % 2;
    assert(oy / 2 == y / 2);
    assert(ox / 2 == x / 2);
    assert(grid[y] == expanded_row(samples, 2, params.width as int, plan.budget, y));
    assert(grid[oy] == expanded_row(samples, 2, params.width as int, plan.budget, oy));
}

/// A point that did not escape: without super-sampling, a cell whose sample
/// reached the budget holds the effective budget itself.
pub proof fn lemma_unescaped_sample_holds_the_budget(
    generator: FractalGenerator,
    params: FractalParams,
    samples: Seq<Seq<u32>>,
    x: int,
    y: int,
)
    requires
        !generator.super_sampling,
        0 <= x < params.width,
        0 <= y < params.height,
        samples[y / generator.step_for(params)][x / generator.step_for(params)]
            >= generator.budget_for(params.max_iterations),
    ensures
        generator.assembled(params, samples)[y][x] == generator.budget_for(params.max_iterations),
{
    let plan = generator.plan_for(params);
    assert(generator.assembled(params, samples)[y] == expanded_row(
        samples,
        plan.step as int,
        params.width as int,
        plan.budget,
        y,
    ));
}

/// Replication of the even-origin sample: let `count` give the count of every
/// pixel, let the coarse samples hold it at every second pixel and the full
/// samples at every pixel. Then, without super-sampling, a cell of the
/// adaptive grid equals the cell of the full grid at the even origin of its
/// 2x2 block: the coarse grid replicates, it does not interpolate.
pub proof fn lemma_adaptive_grid_replicates_even_origins(
    adaptive: FractalGenerator,
    full: FractalGenerator,
    params: FractalParams,
    count: spec_fn(int, int) -> u32,
    coarse_samples: Seq<Seq<u32>>,
    full_samples: Seq<Seq<u32>>,
    x: int,
    y: int,
)
    requires
        adaptive.samples_coarsely(params),
        !full.use_adaptive_sampling,
        adaptive.performance_mode == full.performance_mode,
        adaptive.quality_mode == full.quality_mode,
        !adaptive.super_sampling,
        !full.super_sampling,
        0 <= x < params.width,
        0 <= y < params.height,
        forall|sx: int, sy: int|
            0 <= sx < sample_count(params.width as int, 2) && 0 <= sy < sample_count(
                params.height as int,
                2,
            ) ==> #[trigger] coarse_samples[sy][sx] == count(2 * sx, 2 * sy),
        forall|px: int, py: int|
            0 <= px < params.width && 0 <= py < params.height ==> #[trigger] full_samples[py][px]
                == count(px, py),
    ensures
        adaptive.assembled(params, coarse_samples)[y][x] == full.assembled(
            params,
            full_samples,
        )[y - y % 2][x - x % 2],
{
    let budget = adaptive.plan_for(params).budget;
    let oy = y - y % 2;
    let ox = x - x % 2;
    assert(full.plan_for(params).budget == budget);
    assert(adaptive.plan_for(params).step == 2);
    assert(full.plan_for(params).step == 1);
    assert(adaptive.assembled(params, coarse_samples)[y] == expanded_row(
        coarse_samples,
        2,
        params.width as int,
        budget,
        y,
    ));
    assert(full.assembled(params, full_samples)[oy] == expanded_row(
        full_samples,
        1,
        params.width as int,
        budget,
        oy,
    ));
    assert(2 * (y / 2) == oy && 2 * (x / 2) == ox);
    assert(coarse_samples[y / 2][x / 2] == count(2 * (x / 2), 2 * (y / 2)));
    assert(full_samples[oy][ox] == count(ox, oy));
}

/// Both strategies at once: where adaptive sampling applies to a super-sampled
/// request, every block of the doubled image is uniform, so the box filter
/// gives each cell of the grid the clamped count of its own sample.
pub proof fn lemma_coarse_super_sampling_keeps_samples(
    generator: FractalGenerator,
    params: FractalParams,
    samples: Seq<Seq<u32>>,
    x: int,
    y: int,
)
    requires
        generator.samples_coarsely(params),
        generator.super_sampling,
        2 * params.width <= usize::MAX,
        2 * params.height <= usize::MAX,
        0 <= x < params.width,
        0 <= y < params.height,
    ensures
        generator.assembled(params, samples)[y][x] == clamp_count(
            samples[y][x],
            generator.plan_for(params).budget,
        ),
{
    let plan = generator.plan_for(params);
    let image = expanded(
        samples,
        2,
        plan.image_width as int,
        plan.image_height as int,
        plan.budget,
    );
    let value = clamp_count(samples[y][x], plan.budget);
    assert(plan.step == 2);
    assert(plan.image_width == 2 * params.width);
    assert(plan.image_height == 2 * params.height);
    assert(image[2 * y] == expanded_row(samples, 2, plan.image_width as int, plan.budget, 2 * y));
    assert(image[2 * y + 1] == expanded_row(
        samples,
        2,
        plan.image_width as int,
        plan.budget,
        2 * y + 1,
    ));
    assert((2 * y) / 2 == y && (2 * y + 1) / 2 == y);
    assert((2 * x) / 2 == x && (2 * x + 1) / 2 == x);
    assert(has_cell(image, 2 * x, 2 * y));
    assert(has_cell(image, 2 * x + 1, 2 * y));
    assert(has_cell(image, 2 * x, 2 * y + 1));
    assert(has_cell(image, 2 * x + 1, 2 * y + 1));
    assert(image[2 * y][2 * x] == value);
    assert(image[2 * y][2 * x + 1] == value);
    assert(image[2 * y + 1][2 * x] == value);
    assert(image[2 * y + 1][2 * x + 1] == value);
    assert(block_count(image, x, y) == 4);
    assert(block_sum(image, x, y) == 4 * value);
    assert(generator.assembled(params, samples)[y] == downsampled_row(
        image,
        params.width as int,
        y,
    ));
}

impl FractalGenerator {
    /// Assembles a super-sampled grid: the samples are laid out over the
    /// doubled image, which is then box-filtered down to the requested size.
    pub fn generate_with_super_sampling(
        &self,
        params: &FractalParams,
        samples: &Vec<Vec<u32>>,
    ) -> (grid: Vec<Vec<u32>>)
        requires
            self.super_sampling,
            2 * params.width <= usize::MAX,
            2 * params.height <= usize::MAX,
            self.plan_for(*params).accepts(grid_view(samples@)),
        ensures
            grid_view(grid@) == self.assembled(*params, grid_view(samples@)),
            has_shape(grid_view(grid@), params.width as int, params.height as int),
            cells_at_most(grid_view(grid@), self.budget_for(params.max_iterations)),
    {
        let plan = self.sample_plan(params);
        let image = self.generate_standard(&plan, samples);
        proof {
            lemma_downsampled_bounded(
                grid_view(image@),
                params.width as int,
                params.height as int,
                plan.budget,
            );
        }
        self.downsample_fractal(image, params.width, params.height)
    }

    /// Assembles the grid of a request from the counts sampled for its plan.
    ///
    /// The grid has `height` rows of `width` cells, each within the effective
    /// budget. Without super-sampling each cell holds the clamped count of the
    /// sample of its block; with it, the box-filtered average of the doubled
    /// image.
    pub fn generate(&self, params: &FractalParams, samples: &Vec<Vec<u32>>) -> (grid: Vec<
        Vec<u32>,
    >)
        requires
            self.super_sampling ==> 2 * params.width <= usize::MAX && 2 * params.height
                <= usize::MAX,
            self.plan_for(*params).accepts(grid_view(samples@)),
        ensures
            grid_view(grid@) == self.assembled(*params, grid_view(samples@)),
            has_shape(grid_view(grid@), params.width as int, params.height as int),
            cells_at_most(grid_view(grid@), self.budget_for(params.max_iterations)),
    {
        if self.super_sampling {
            self.generate_with_super_sampling(params, samples)
        } else {
            let plan = self.sample_plan(params);
            self.generate_standard(&plan, samples)
        }
    }
}

impl FractalGenerator {
    /// The machine can hold the image of the request: under super-sampling
    /// the doubled width and height are still sizes.
    pub open spec fn can_hold(&self, params: FractalParams) -> bool {
        self.super_sampling ==> 2 * params.width <= usize::MAX && 2 * params.height <= usize::MAX
    }

    /// Tells whether the machine can hold the image of the request.
    pub fn can_plan(&self, params: &FractalParams) -> (r: bool)
        ensures
            r == self.can_hold(*params),
    {
        !self.super_sampling || (params.width <= usize::MAX / 2 && params.height <= usize::MAX
            / 2)
    }

    /// Plans the sampling for any request: the plan, or nothing where the
    /// machine cannot hold the doubled image of a super-sampled request.
    pub fn try_sample_plan(&self, params: &FractalParams) -> (plan: Option<SamplePlan>)
        ensures
            plan.is_some() == self.can_hold(*params),
            plan matches Some(made) ==> made == self.plan_for(*params) && made.well_formed(),
    {
        if self.can_plan(params) {
            Some(self.sample_plan(params))
        } else {
            None
        }
    }

    /// Assembles the grid of any request from any samples: the grid, or
    /// nothing where the machine cannot hold the image of the request or the
    /// samples do not have the shape of its plan. A grid that is returned has
    /// `height` rows of `width` cells, each within the effective budget.
    pub fn try_generate(&self, params: &FractalParams, samples: &Vec<Vec<u32>>) -> (grid: Option<
        Vec<Vec<u32>>,
    >)
        ensures
            grid.is_some() == (self.can_hold(*params) && self.plan_for(*params).accepts(
                grid_view(samples@),
            )),
            grid matches Some(cells) ==> {
                &&& grid_view(cells@) == self.assembled(*params, grid_view(samples@))
                &&& has_shape(grid_view(cells@), params.width as int, params.height as int)
                &&& cells_at_most(grid_view(cells@), self.budget_for(params.max_iterations))
            },
    {
        match self.try_sample_plan(params) {
            Some(plan) => {
                if plan.fits(samples) {
                    Some(self.generate(params, samples))
                } else {
                    None
                }
            },
            None => None,
        }
    }
}

} // verus!

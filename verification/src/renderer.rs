//! The glyph quantizer: turns a grid of iteration counts into lines of
//! character cells, whole or windowed, and into plain text.

use vstd::prelude::*;
use crate::grid::{clone_grid, grid_view, is_rectangular};
use crate::palette::{glyph_and_color, quantize_count, Color};

verus! {

/// `String::push` appends the character to the string.
pub assume_specification[ String::push ](s: &mut String, c: char)
    ensures
        final(s)@ == old(s)@.push(c),
;

/// One character cell of a rendered line: a glyph, and the foreground colour
/// it is drawn in; a cell without a colour is drawn unstyled.
#[derive(Clone, Copy, Debug, PartialEq, Eq)]
pub struct RenderedCell {
    pub glyph: char,
    pub color: Option<Color>,
}

/// The quantizer: its palette and detail selectors, and the grid it rendered
/// last, kept for differential rendering.
pub struct TerminalRenderer {
    pub use_colors: bool,
    pub use_unicode: bool,
    pub use_fast_rendering: bool,
    pub quality_mode: bool,
    pub super_sampling: bool,
    pub last_rendered_data: Option<Vec<Vec<u32>>>,
}

/// The mathematical model of a [`TerminalRenderer`].
pub struct RendererState {
    pub use_colors: bool,
    pub use_unicode: bool,
    pub use_fast_rendering: bool,
    pub quality_mode: bool,
    pub super_sampling: bool,
    pub last: Option<Seq<Seq<u32>>>,
}

impl View for TerminalRenderer {
    type V = RendererState;

    open spec fn view(&self) -> RendererState {
        RendererState {
            use_colors: self.use_colors,
            use_unicode: self.use_unicode,
            use_fast_rendering: self.use_fast_rendering,
            quality_mode: self.quality_mode,
            super_sampling: self.super_sampling,
            last: match self.last_rendered_data {
                Some(grid) => Some(grid_view(grid@)),
                None => None,
            },
        }
    }
}

/// The rows of rendered lines as mathematical sequences.
pub open spec fn lines_view(lines: Seq<Vec<RenderedCell>>) -> Seq<Seq<RenderedCell>> {
    Seq::new(lines.len(), |i: int| lines[i]@)
}

/// The placeholder that differential rendering writes for an unchanged cell.
pub open spec fn blank_cell() -> RenderedCell {
    RenderedCell { glyph: ' ', color: None }
}

/// An unstyled cell that shows `glyph`.
pub open spec fn raw_cell(glyph: char) -> RenderedCell {
    RenderedCell { glyph, color: None }
}

/// The line that stands for a grid without rows.
pub open spec fn no_data_line() -> Seq<RenderedCell> {
    Seq::new("No fractal data"@.len(), |i: int| raw_cell("No fractal data"@[i]))
}

/// The smaller of two lengths.
pub open spec fn shorter(a: int, b: int) -> int {
    if a <= b {
        a
    } else {
        b
    }
}

/// The margin that centres `display` cells inside `target` cells.
pub open spec fn centering_offset(display: int, target: int) -> int {
    if display < target {
        (target - display) / 2
    } else {
        0
    }
}

impl RendererState {
    /// A retained grid, if there is one, has rows of one length.
    pub open spec fn well_formed(self) -> bool {
        self.last matches Some(last) ==> is_rectangular(last)
    }

    /// The cell that the count `n` is drawn as.
    pub open spec fn cell_for(self, n: u32) -> RenderedCell {
        let cell = glyph_and_color(self.use_unicode, self.quality_mode, n);
        RenderedCell {
            glyph: cell.0,
            color: if self.use_colors {
                Some(cell.1)
            } else {
                None
            },
        }
    }

    /// The cell that fills the space around a window.
    pub open spec fn padding_cell(self) -> RenderedCell {
        RenderedCell {
            glyph: ' ',
            color: if self.use_colors {
                Some(Color::Black)
            } else {
                None
            },
        }
    }

    /// Differential rendering applies to `data`: fast rendering is on and the
    /// retained grid has the dimensions of `data`.
    pub open spec fn differential(self, data: Seq<Seq<u32>>) -> bool {
        &&& self.use_fast_rendering
        &&& self.last matches Some(last)
        &&& last.len() == data.len()
        &&& last[0].len() == data[0].len()
    }

    /// The cell rendered for column `x` of row `y` of `data`: the blank
    /// placeholder where differential rendering applies and the count is the
    /// retained one, the quantized count otherwise.
    pub open spec fn text_cell(self, data: Seq<Seq<u32>>, x: int, y: int) -> RenderedCell {
        if self.differential(data) && self.last.unwrap()[y][x] == data[y][x] {
            blank_cell()
        } else {
            self.cell_for(data[y][x])
        }
    }

    /// The first `columns` cells of row `y` of `data`, rendered.
    pub open spec fn text_row(self, data: Seq<Seq<u32>>, columns: int, y: int) -> Seq<
        RenderedCell,
    > {
        Seq::new(columns as nat, |x: int| self.text_cell(data, x, y))
    }

    /// The lines rendered for `data` inside a target of `target_width` by
    /// `target_height` cells: the grid is cut to the target, not scaled. A grid
    /// without rows gives the single line that says so.
    pub open spec fn text(self, data: Seq<Seq<u32>>, target_width: int, target_height: int) -> Seq<
        Seq<RenderedCell>,
    > {
        if data.len() == 0 {
            seq![no_data_line()]
        } else {
            Seq::new(
                shorter(target_height, data.len() as int) as nat,
                |y: int| self.text_row(data, shorter(target_width, data[0].len() as int), y),
            )
        }
    }

    /// The state after `data` was rendered: with fast rendering on, a grid with
    /// rows is retained.
    pub open spec fn after_text(self, data: Seq<Seq<u32>>) -> RendererState {
        if data.len() > 0 && self.use_fast_rendering {
            RendererState { last: Some(data), ..self }
        } else {
            self
        }
    }

    /// The cell at column `tx` of line `ty` of a windowed rendering. The
    /// window of `display_width` by `display_height` cells is centred in the
    /// target; inside it the cell shows the grid cell that lies `start_x`,
    /// `start_y` further on, where the grid has one; everywhere else it is
    /// padding.
    pub open spec fn window_cell(
        self,
        data: Seq<Seq<u32>>,
        start_x: int,
        start_y: int,
        display_width: int,
        display_height: int,
        target_width: int,
        target_height: int,
        tx: int,
        ty: int,
    ) -> RenderedCell {
        let left = centering_offset(display_width, target_width);
        let top = centering_offset(display_height, target_height);
        let fx = start_x + (tx - left);
        let fy = start_y + (ty - top);
        if top <= ty < top + display_height && left <= tx < left + display_width && fy
            < data.len() && fx < data[0].len() {
            self.cell_for(data[fy][fx])
        } else {
            self.padding_cell()
        }
    }

    /// Line `ty` of a windowed rendering.
    pub open spec fn window_row(
        self,
        data: Seq<Seq<u32>>,
        start_x: int,
        start_y: int,
        display_width: int,
        display_height: int,
        target_width: int,
        target_height: int,
        ty: int,
    ) -> Seq<RenderedCell> {
        Seq::new(
            target_width as nat,
            |tx: int|
                self.window_cell(
                    data,
                    start_x,
                    start_y,
                    display_width,
                    display_height,
                    target_width,
                    target_height,
                    tx,
                    ty,
                ),
        )
    }

    /// The lines of a windowed rendering: `target_height` lines of
    /// `target_width` cells; a grid without rows gives the single line that
    /// says so.
    pub open spec fn window(
        self,
        data: Seq<Seq<u32>>,
        start_x: int,
        start_y: int,
        display_width: int,
        display_height: int,
        target_width: int,
        target_height: int,
    ) -> Seq<Seq<RenderedCell>> {
        if data.len() == 0 {
            seq![no_data_line()]
        } else {
            Seq::new(
                target_height as nat,
                |ty: int|
                    self.window_row(
                        data,
                        start_x,
                        start_y,
                        display_width,
                        display_height,
                        target_width,
                        target_height,
                        ty,
                    ),
            )
        }
    }

    /// The glyphs of one grid row, followed by a line feed.
    pub open spec fn string_row(self, row: Seq<u32>) -> Seq<char> {
        Seq::new(
            row.len(),
            |x: int| glyph_and_color(self.use_unicode, self.quality_mode, row[x]).0,
        ).push('\n')
    }

    /// The plain text of a grid: its rows in order, each as its glyphs and a
    /// line feed.
    pub open spec fn string_of(self, data: Seq<Seq<u32>>) -> Seq<char>
        decreases data.len(),
    {
        if data.len() == 0 {
            Seq::empty()
        } else {
            self.string_of(data.drop_last()) + self.string_row(data.last())
        }
    }
}

/// Builds the line that stands for a grid without rows.
fn no_data_message() -> (line: Vec<RenderedCell>)
    ensures
        line@ == no_data_line(),
{
    let text = "No fractal data";
    let length = text.unicode_len();
    let mut line: Vec<RenderedCell> = Vec::new();
    let mut i: usize = 0;
    while i < length
        invariant
            i <= length,
            length == text@.len(),
            text@ == "No fractal data"@,
            line.len() == i,
            forall|j: int| 0 <= j < i ==> (#[trigger] line[j]) == raw_cell(text@[j]),
        decreases length - i,
    {
        line.push(RenderedCell { glyph: text.get_char(i), color: None });
        i += 1;
    }
    assert(line@ =~= no_data_line());
    line
}

impl TerminalRenderer {
    /// A renderer with colours, block glyphs and high detail, without fast
    /// rendering, and with no grid retained.
    pub fn new() -> (renderer: TerminalRenderer)
        ensures
            renderer@ == (RendererState {
                use_colors: true,
                use_unicode: true,
                use_fast_rendering: false,
                quality_mode: true,
                super_sampling: false,
                last: None,
            }),
    {
        TerminalRenderer {
            use_colors: true,
            use_unicode: true,
            use_fast_rendering: false,
            quality_mode: true,
            super_sampling: false,
            last_rendered_data: None,
        }
    }

    /// Switches differential rendering on or off; the retained grid stays.
    pub fn set_fast_rendering(&mut self, enabled: bool)
        ensures
            final(self)@ == (RendererState { use_fast_rendering: enabled, ..old(self)@ }),
    {
        self.use_fast_rendering = enabled;
    }

    /// Selects high or standard detail.
    pub fn set_quality_mode(&mut self, enabled: bool)
        ensures
            final(self)@ == (RendererState { quality_mode: enabled, ..old(self)@ }),
    {
        self.quality_mode = enabled;
    }

    /// Records whether the grids to come are super-sampled.
    pub fn set_super_sampling(&mut self, enabled: bool)
        ensures
            final(self)@ == (RendererState { super_sampling: enabled, ..old(self)@ }),
    {
        self.super_sampling = enabled;
    }

    /// Selects styled or unstyled cells.
    pub fn set_use_colors(&mut self, use_colors: bool)
        ensures
            final(self)@ == (RendererState { use_colors: use_colors, ..old(self)@ }),
    {
        self.use_colors = use_colors;
    }

    /// Selects the block-glyph or the plain-ASCII palette.
    pub fn set_use_unicode(&mut self, use_unicode: bool)
        ensures
            final(self)@ == (RendererState { use_unicode: use_unicode, ..old(self)@ }),
    {
        self.use_unicode = use_unicode;
    }

    /// The glyph and colour of a count under the selected palette and detail.
    pub fn iterations_to_char_and_color(&self, iterations: u32) -> (cell: (char, Color))
        ensures
            cell == glyph_and_color(self.use_unicode, self.quality_mode, iterations),
    {
        quantize_count(self.use_unicode, self.quality_mode, iterations)
    }

    /// The cell that a count is drawn as: styled with its colour where colours
    /// are on, unstyled otherwise.
    fn quantized_cell(&self, iterations: u32) -> (cell: RenderedCell)
        ensures
            cell == self@.cell_for(iterations),
    {
        let pair = self.iterations_to_char_and_color(iterations);
        if self.use_colors {
            RenderedCell { glyph: pair.0, color: Some(pair.1) }
        } else {
            RenderedCell { glyph: pair.0, color: None }
        }
    }

    /// Tells whether differential rendering applies to a grid of
    /// `data_height` rows of `data_width` cells.
    fn retained_matches(&self, data_height: usize, data_width: usize) -> (r: bool)
        requires
            data_height > 0,
        ensures
            r == (self.use_fast_rendering && match self@.last {
                Some(last) => last.len() == data_height && last[0].len() == data_width,
                None => false,
            }),
    {
        if !self.use_fast_rendering {
            return false;
        }
        match &self.last_rendered_data {
            Some(last) => {
                if last.len() == data_height {
                    assert(grid_view(last@)[0] == last[0]@);
                    last[0].len() == data_width
                } else {
                    false
                }
            },
            None => false,
        }
    }

    /// Tells whether the retained grid holds `iterations` at column `x` of row `y`.
    fn retained_equals(&self, x: usize, y: usize, iterations: u32) -> (r: bool)
        requires
            self@.last is Some,
            y < self@.last.unwrap().len(),
            x < self@.last.unwrap()[y as int].len(),
        ensures
            r == (self@.last.unwrap()[y as int][x as int] == iterations),
    {
        match &self.last_rendered_data {
            Some(last) => {
                assert(grid_view(last@)[y as int] == last[y as int]@);
                last[y][x] == iterations
            },
            None => false,
        }
    }

    /// Renders a grid into lines of cells, cut to the target size.
    ///
    /// With fast rendering on and a retained grid of the same dimensions, a
    /// cell whose count is the retained one is rendered as the blank
    /// placeholder. With fast rendering on the grid is retained afterwards.
    pub fn render_to_text(
        &mut self,
        fractal_data: &[Vec<u32>],
        target_width: usize,
        target_height: usize,
    ) -> (lines: Vec<Vec<RenderedCell>>)
        requires
            old(self)@.well_formed(),
            is_rectangular(grid_view(fractal_data@)),
        ensures
            lines_view(lines@) == old(self)@.text(
                grid_view(fractal_data@),
                target_width as int,
                target_height as int,
            ),
            final(self)@ == old(self)@.after_text(grid_view(fractal_data@)),
            final(self)@.well_formed(),
    {
        let ghost data = grid_view(fractal_data@);
        let ghost state = self@;
        if fractal_data.len() == 0 {
            let mut lines: Vec<Vec<RenderedCell>> = Vec::new();
            lines.push(no_data_message());
            assert(lines_view(lines@) =~= seq![no_data_line()]);
            return lines;
        }
        let data_height = fractal_data.len();
        assert(data[0] == fractal_data[0]@);
        let data_width = fractal_data[0].len();
        let use_differential = self.retained_matches(data_height, data_width);
        assert(use_differential == state.differential(data));
        let rows: usize = if target_height < data_height {
            target_height
        } else {
            data_height
        };
        let columns: usize = if target_width < data_width {
            target_width
        } else {
            data_width
        };
        let mut lines: Vec<Vec<RenderedCell>> = Vec::new();
        let mut y: usize = 0;
        while y < rows
            invariant
                y <= rows <= data_height,
                columns <= data_width,
                data_height == fractal_data.len(),
                data == grid_view(fractal_data@),
                data.len() == data_height,
                data[0].len() == data_width,
                is_rectangular(data),
                self@ == state,
                state.well_formed(),
                use_differential == state.differential(data),
                lines.len() == y,
                forall|i: int|
                    0 <= i < y ==> (#[trigger] lines[i])@ == state.text_row(data, columns as int, i),
            decreases rows - y,
        {
            assert(data[y as int] == fractal_data[y as int]@);
            let source = &fractal_data[y];
            let mut spans: Vec<RenderedCell> = Vec::new();
            let mut x: usize = 0;
            while x < columns
                invariant
                    x <= columns <= data_width,
                    y < data_height,
                    data.len() == data_height,
                    data[0].len() == data_width,
                    source@ == data[y as int],
                    source.len() == data_width,
                    self@ == state,
                    state.well_formed(),
                    use_differential == state.differential(data),
                    spans.len() == x,
                    forall|j: int|
                        0 <= j < x ==> (#[trigger] spans[j]) == state.text_cell(data, j, y as int),
                decreases columns - x,
            {
                let iterations = source[x];
                let unchanged = use_differential && self.retained_equals(x, y, iterations);
                if unchanged {
                    spans.push(RenderedCell { glyph: ' ', color: None });
                } else {
                    spans.push(self.quantized_cell(iterations));
                }
                x += 1;
            }
            assert(spans@ =~= state.text_row(data, columns as int, y as int));
            lines.push(spans);
            y += 1;
        }
        assert(lines_view(lines@) =~= state.text(data, target_width as int, target_height as int));
        if self.use_fast_rendering {
            self.last_rendered_data = Some(clone_grid(fractal_data));
        }
        lines
    }
}

/// The legend of the palette: eight ranges of counts, each with the colour
/// that stands for it.
pub open spec fn color_legend() -> Seq<(Seq<char>, Color)> {
    seq![
        ("Very Low (0-5)"@, Color::Black),
        ("Low (6-15)"@, Color::DarkGray),
        ("Medium-Low (16-25)"@, Color::Blue),
        ("Medium (26-40)"@, Color::Green),
        ("Medium-High (41-70)"@, Color::Yellow),
        ("High (71-100)"@, Color::Red),
        ("Very High (101-200)"@, Color::Magenta),
        ("Extreme (200+)"@, Color::White),
    ]
}

/// The entries of a legend, each label as its characters.
pub open spec fn legend_view(info: Seq<(String, Color)>) -> Seq<(Seq<char>, Color)> {
    Seq::new(info.len(), |i: int| (info[i].0@, info[i].1))
}

/// Rendering the plain text of a grid row by row: the text of the first
/// `n + 1` rows is the text of the first `n` rows followed by row `n`.
proof fn lemma_string_of_step(state: RendererState, data: Seq<Seq<u32>>, n: int)
    requires
        0 <= n < data.len(),
    ensures
        state.string_of(data.take(n + 1)) == state.string_of(data.take(n)) + state.string_row(
            data[n],
        ),
{
    assert(data.take(n + 1).drop_last() =~= data.take(n));
    assert(data.take(n + 1).last() == data[n]);
}

impl TerminalRenderer {
    /// Renders a window of a grid, centred in a target of `target_width` by
    /// `target_height` cells.
    ///
    /// Every line has `target_width` cells. A cell inside the centred window
    /// shows the grid cell that lies `start_x`, `start_y` beyond its place in
    /// the window, where the grid has one; all other cells are padding.
    pub fn render_to_text_with_bounds(
        &mut self,
        fractal_data: &[Vec<u32>],
        start_x: usize,
        start_y: usize,
        display_width: usize,
        display_height: usize,
        target_width: usize,
        target_height: usize,
    ) -> (lines: Vec<Vec<RenderedCell>>)
        requires
            is_rectangular(grid_view(fractal_data@)),
        ensures
            lines_view(lines@) == old(self)@.window(
                grid_view(fractal_data@),
                start_x as int,
                start_y as int,
                display_width as int,
                display_height as int,
                target_width as int,
                target_height as int,
            ),
            final(self)@ == old(self)@,
    {
        let ghost data = grid_view(fractal_data@);
        let ghost state = self@;
        if fractal_data.len() == 0 {
            let mut lines: Vec<Vec<RenderedCell>> = Vec::new();
            lines.push(no_data_message());
            assert(lines_view(lines@) =~= seq![no_data_line()]);
            return lines;
        }
        let data_height = fractal_data.len();
        assert(data[0] == fractal_data[0]@);
        let data_width = fractal_data[0].len();
        let center_offset_x: usize = if display_width < target_width {
            (target_width - display_width) / 2
        } else {
            0
        };
        let center_offset_y: usize = if display_height < target_height {
            (target_height - display_height) / 2
        } else {
            0
        };
        let padding = if self.use_colors {
            RenderedCell { glyph: ' ', color: Some(Color::Black) }
        } else {
            RenderedCell { glyph: ' ', color: None }
        };
        let mut lines: Vec<Vec<RenderedCell>> = Vec::new();
        let mut target_y: usize = 0;
        while target_y < target_height
            invariant
                target_y <= target_height,
                data == grid_view(fractal_data@),
                data.len() == data_height,
                data_height == fractal_data.len(),
                data[0].len() == data_width,
                is_rectangular(data),
                self@ == state,
                padding == state.padding_cell(),
                center_offset_x == centering_offset(display_width as int, target_width as int),
                center_offset_y == centering_offset(display_height as int, target_height as int),
                lines.len() == target_y,
                forall|i: int|
                    0 <= i < target_y ==> (#[trigger] lines[i])@ == state.window_row(
                        data,
                        start_x as int,
                        start_y as int,
                        display_width as int,
                        display_height as int,
                        target_width as int,
                        target_height as int,
                        i,
                    ),
            decreases target_height - target_y,
        {
            let mut spans: Vec<RenderedCell> = Vec::new();
            let mut target_x: usize = 0;
            while target_x < target_width
                invariant
                    target_x <= target_width,
                    target_y < target_height,
                    data == grid_view(fractal_data@),
                    data.len() == data_height,
                    data_height == fractal_data.len(),
                    data[0].len() == data_width,
                    is_rectangular(data),
                    self@ == state,
                    padding == state.padding_cell(),
                    center_offset_x == centering_offset(display_width as int, target_width as int),
                    center_offset_y == centering_offset(
                        display_height as int,
                        target_height as int,
                    ),
                    spans.len() == target_x,
                    forall|j: int|
                        0 <= j < target_x ==> (#[trigger] spans[j]) == state.window_cell(
                            data,
                            start_x as int,
                            start_y as int,
                            display_width as int,
                            display_height as int,
                            target_width as int,
                            target_height as int,
                            j,
                            target_y as int,
                        ),
                decreases target_width - target_x,
            {
                let mut cell = padding;
                if target_y >= center_offset_y && target_y - center_offset_y < display_height
                    && target_x >= center_offset_x && target_x - center_offset_x < display_width {
                    let dx: usize = target_x - center_offset_x;
                    let dy: usize = target_y - center_offset_y;
                    if dy < data_height && start_y < data_height - dy && dx < data_width && start_x
                        < data_width - dx {
                        let fractal_x: usize = start_x + dx;
                        let fractal_y: usize = start_y + dy;
                        assert(data[fractal_y as int] == fractal_data[fractal_y as int]@);
                        let iterations = fractal_data[fractal_y][fractal_x];
                        cell = self.quantized_cell(iterations);
                    }
                }
                spans.push(cell);
                target_x += 1;
            }
            assert(spans@ =~= state.window_row(
                data,
                start_x as int,
                start_y as int,
                display_width as int,
                display_height as int,
                target_width as int,
                target_height as int,
                target_y as int,
            ));
            lines.push(spans);
            target_y += 1;
        }
        assert(lines_view(lines@) =~= state.window(
            data,
            start_x as int,
            start_y as int,
            display_width as int,
            display_height as int,
            target_width as int,
            target_height as int,
        ));
        lines
    }

    /// Renders a grid as plain text: the glyphs of each row, then a line feed.
    pub fn render_to_string(&self, fractal_data: &[Vec<u32>]) -> (text: String)
        ensures
            text@ == self@.string_of(grid_view(fractal_data@)),
    {
        let ghost data = grid_view(fractal_data@);
        let ghost state = self@;
        let mut result = String::new();
        let mut y: usize = 0;
        assert(data.take(0) =~= Seq::<Seq<u32>>::empty());
        while y < fractal_data.len()
            invariant
                y <= fractal_data.len(),
                data == grid_view(fractal_data@),
                state == self@,
                result@ == state.string_of(data.take(y as int)),
            decreases fractal_data.len() - y,
        {
            let row = &fractal_data[y];
            let ghost before = result@;
            let mut x: usize = 0;
            while x < row.len()
                invariant
                    x <= row.len(),
                    state == self@,
                    result@ == before + Seq::new(
                        x as nat,
                        |j: int| glyph_and_color(state.use_unicode, state.quality_mode, row[j]).0,
                    ),
                decreases row.len() - x,
            {
                let pair = self.iterations_to_char_and_color(row[x]);
                result.push(pair.0);
                x += 1;
                assert(result@ =~= before + Seq::new(
                    x as nat,
                    |j: int| glyph_and_color(state.use_unicode, state.quality_mode, row[j]).0,
                ));
            }
            result.push('\n');
            proof {
                lemma_string_of_step(state, data, y as int);
                assert(data[y as int] == row@);
                assert(result@ =~= before + state.string_row(row@));
            }
            y += 1;
        }
        assert(data.take(y as int) =~= data);
        result
    }

    /// The legend of the palette.
    pub fn get_color_info(&self) -> (info: Vec<(String, Color)>)
        ensures
            legend_view(info@) == color_legend(),
    {
        let mut info: Vec<(String, Color)> = Vec::new();
        info.push(("Very Low (0-5)".to_string(), Color::Black));
        info.push(("Low (6-15)".to_string(), Color::DarkGray));
        info.push(("Medium-Low (16-25)".to_string(), Color::Blue));
        info.push(("Medium (26-40)".to_string(), Color::Green));
        info.push(("Medium-High (41-70)".to_string(), Color::Yellow));
        info.push(("High (71-100)".to_string(), Color::Red));
        info.push(("Very High (101-200)".to_string(), Color::Magenta));
        info.push(("Extreme (200+)".to_string(), Color::White));
        assert(legend_view(info@) =~= color_legend());
        info
    }
}

impl Default for TerminalRenderer {
    fn default() -> (renderer: TerminalRenderer)
        ensures
            renderer@ == (RendererState {
                use_colors: true,
                use_unicode: true,
                use_fast_rendering: false,
                quality_mode: true,
                super_sampling: false,
                last: None,
            }),
    {
        TerminalRenderer::new()
    }
}

/// Differential rendering of an unchanged grid: once a grid with rows was
/// rendered with fast rendering on, rendering the same grid again gives the
/// blank placeholder in every cell.
pub proof fn lemma_unchanged_grid_renders_blank(
    state: RendererState,
    data: Seq<Seq<u32>>,
    target_width: int,
    target_height: int,
    x: int,
    y: int,
)
    requires
        state.use_fast_rendering,
        0 <= y < data.len(),
        y < target_height,
        0 <= x < data[0].len(),
        x < target_width,
    ensures
        state.after_text(data).text(data, target_width, target_height)[y][x] == blank_cell(),
{
    let next = state.after_text(data);
    assert(next.last == Some(data));
    assert(next.differential(data));
    assert(next.text(data, target_width, target_height)[y] == next.text_row(
        data,
        shorter(target_width, data[0].len() as int),
        y,
    ));
}

/// Rendering after a change of dimensions: where no grid is retained, or the
/// retained grid differs from `data` in height or width, or fast rendering is
/// off, every cell is rendered as its quantized count.
pub proof fn lemma_dimension_change_renders_all(
    state: RendererState,
    data: Seq<Seq<u32>>,
    target_width: int,
    target_height: int,
    x: int,
    y: int,
)
    requires
        !state.differential(data),
        0 <= y < data.len(),
        y < target_height,
        0 <= x < data[0].len(),
        x < target_width,
    ensures
        state.text(data, target_width, target_height)[y][x] == state.cell_for(data[y][x]),
{
    assert(state.text(data, target_width, target_height)[y] == state.text_row(
        data,
        shorter(target_width, data[0].len() as int),
        y,
    ));
}

/// Differential rendering never hides a change: a cell whose count differs
/// from the retained one is rendered as its quantized count.
pub proof fn lemma_changed_cell_is_rendered(
    state: RendererState,
    data: Seq<Seq<u32>>,
    target_width: int,
    target_height: int,
    x: int,
    y: int,
)
    requires
        state.differential(data),
        state.last.unwrap()[y][x] != data[y][x],
        0 <= y < data.len(),
        y < target_height,
        0 <= x < data[0].len(),
        x < target_width,
    ensures
        state.text(data, target_width, target_height)[y][x] == state.cell_for(data[y][x]),
{
    assert(state.text(data, target_width, target_height)[y] == state.text_row(
        data,
        shorter(target_width, data[0].len() as int),
        y,
    ));
}

} // verus!

//! The decisions of an interactive session: what a key press means, how the
//! iteration budget moves, how large the grid is and which part of it is
//! shown. The caller turns keys into [`Key`] values, performs the arithmetic
//! on the viewport and draws; everything discrete is decided here.

use vstd::prelude::*;
use vstd::utf8::encode_utf8;
use crate::cache::{CacheState, FractalCache, DEFAULT_CAPACITY, DEFAULT_INSERT_CEILING};
use crate::fractal::{FractalGenerator, FractalParams, FractalType, FractalTypeView};
use crate::renderer::{RendererState, TerminalRenderer};
use crate::scalar::{Complex, Scalar};

verus! {

broadcast use vstd::string::group_string_axioms;

/// `String::pop` removes the last character of the string and returns it, or
/// returns `None` and leaves the string as it is where the string is empty.
pub assume_specification[ String::pop ](s: &mut String) -> (last: Option<char>)
    ensures
        old(s)@.len() == 0 ==> last.is_none() && final(s)@ == old(s)@,
        old(s)@.len() > 0 ==> last == Some(old(s)@.last()) && final(s)@ == old(s)@.drop_last(),
;

/// The largest iteration budget that a key press sets.
pub const ITERATIONS_CEILING: u32 = 1000;

/// The smallest iteration budget that a key press sets.
pub const ITERATIONS_FLOOR: u32 = 10;

/// The amount by which a key press moves the iteration budget.
pub const ITERATIONS_STEP: u32 = 10;

/// The number of bytes from which on the equation editor takes no more characters.
pub const EQUATION_LIMIT: usize = 50;

/// The last phase of an automatic tour; the phase after it restarts the tour.
pub const LAST_AUTO_PHASE: u32 = 600;

/// The bit pattern of 1.0, the zoom of the view that a session starts with.
pub const START_ZOOM_BITS: u64 = 0x3FF0_0000_0000_0000;

/// The bit pattern of -0.5, the real part of the centre that a session starts with.
pub const START_CENTER_X_BITS: u64 = 0xBFE0_0000_0000_0000;

/// The bit pattern of 0.0, the imaginary part of the centre that a session starts with.
pub const START_CENTER_Y_BITS: u64 = 0;

/// The bit pattern of 10.0.
pub const TEN_BITS: u64 = 0x4024_0000_0000_0000;

/// The bit pattern of 5.0.
pub const FIVE_BITS: u64 = 0x4014_0000_0000_0000;

/// The bit pattern of 30.0.
pub const THIRTY_BITS: u64 = 0x403E_0000_0000_0000;

/// The bit pattern of 3.0.
pub const THREE_BITS: u64 = 0x4008_0000_0000_0000;

/// The bit pattern of -0.7269, the real part of the Julia preset.
pub const JULIA_PRESET_RE_BITS: u64 = 0xBFE7_42C3_C9EE_CBFB;

/// The bit pattern of 0.1889, the imaginary part of the Julia preset.
pub const JULIA_PRESET_IM_BITS: u64 = 0x3FC8_2DE0_0D1B_7176;

#[derive(Debug, Clone, Copy, PartialEq, Eq, Structural)]
pub enum AppMode {
    Interactive,
    AutoGenerate,
    EquationEditor,
}

#[derive(Debug, Clone, Copy, PartialEq, Eq, Structural)]
pub enum InputMode {
    Normal,
    Editing,
}

/// A key press.
#[derive(Debug, Clone, Copy, PartialEq, Eq, Structural)]
pub enum Key {
    Char(char),
    Esc,
    Enter,
    Backspace,
    Up,
    Down,
    Left,
    Right,
    F(u8),
    Other,
}

/// What a key press asks for outside the equation editor.
#[derive(Debug, Clone, Copy, PartialEq, Eq, Structural)]
pub enum Command {
    Quit,
    ToggleHelp,
    EnterInteractive,
    EnterAutoGenerate,
    EnterEquationEditor,
    Regenerate,
    ZoomIn,
    ZoomOut,
    PanUp,
    PanDown,
    PanLeft,
    PanRight,
    IncreaseIterations,
    DecreaseIterations,
    ResetView,
    PresetBurningShip,
    PresetJulia,
    PresetTricorn,
    TogglePerformanceMode,
    ToggleAdaptiveSampling,
    ClearCache,
    ShowStatistics,
    ToggleQualityMode,
    ToggleSuperSampling,
    Nothing,
}

/// What the caller has to do to the viewport.
#[derive(Debug, Clone, Copy, PartialEq, Eq, Structural)]
pub enum Motion {
    Stay,
    ZoomIn,
    ZoomOut,
    PanUp,
    PanDown,
    PanLeft,
    PanRight,
}

/// What the status line has to report.
#[derive(Debug, Clone, Copy, PartialEq, Eq, Structural)]
pub enum Notice {
    Unchanged,
    SwitchedToInteractive,
    SwitchedToAutoGenerate,
    SwitchedToEquationEditor,
    Regenerated,
    ZoomedIn,
    ZoomedOut,
    Panned,
    IterationsIncreased { to: u32 },
    IterationsDecreased { to: u32 },
    ViewReset,
    BurningShipSelected,
    JuliaSelected,
    TricornSelected,
    PerformanceMode { on: bool },
    AdaptiveSampling { on: bool },
    CacheCleared { entries: usize },
    Statistics,
    QualityMode { on: bool },
    SuperSampling { on: bool },
    EquationApplied,
    EquationInvalid,
    EditingCancelled,
    Resized { width: u16, height: u16 },
}

/// What remains for the caller to do after a key press.
#[derive(Debug, Clone, Copy, PartialEq, Eq, Structural)]
pub struct Reaction {
    /// The change to make to the viewport.
    pub motion: Motion,
    /// The grid has to be generated anew, after the viewport was changed.
    pub regenerate: bool,
    /// The timer of the automatic tour has to be restarted.
    pub restart_timer: bool,
    /// The equation in the editor has to be resolved and handed back.
    pub resolve_equation: bool,
    /// The message for the status line.
    pub notice: Notice,
    /// The message is to be written after the grid was generated, so that it
    /// is the one that stays on the status line.
    pub report_last: bool,
}

/// The stretch of an automatic tour that a phase belongs to.
#[derive(Debug, Clone, Copy, PartialEq, Eq, Structural)]
pub enum AutoPhase {
    /// Wander around the main bulb.
    MainBulb,
    /// Move towards a point of interest; `pick_point` asks for a new one.
    Approach { pick_point: bool },
    /// Zoom in deeply, with small movements.
    DeepZoom,
    /// The tour is over: the session was reset and the next family selected.
    Restart,
}

/// The size of the area in which the grid is shown, border included.
#[derive(Debug, Clone, Copy, PartialEq, Eq, Structural)]
pub struct DisplayArea {
    pub width: u16,
    pub height: u16,
}

/// The part of a grid that is shown, and the room it is shown in.
#[derive(Debug, Clone, Copy, PartialEq, Eq, Structural)]
pub struct WindowPlacement {
    pub start_x: usize,
    pub start_y: usize,
    pub display_width: usize,
    pub display_height: usize,
    pub content_width: usize,
    pub content_height: usize,
}

/// What a key press asks for outside the equation editor.
pub open spec fn command_of(key: Key) -> Command {
    match key {
        Key::Char(c) => if c == 'q' {
            Command::Quit
        } else if c == 'h' {
            Command::ToggleHelp
        } else if c == '1' {
            Command::EnterInteractive
        } else if c == '2' {
            Command::EnterAutoGenerate
        } else if c == '3' {
            Command::EnterEquationEditor
        } else if c == 'r' || c == ' ' {
            Command::Regenerate
        } else if c == '+' || c == '=' {
            Command::ZoomIn
        } else if c == '-' || c == '_' {
            Command::ZoomOut
        } else if c == 'i' {
            Command::IncreaseIterations
        } else if c == 'd' {
            Command::DecreaseIterations
        } else if c == 'c' {
            Command::ResetView
        } else {
            Command::Nothing
        },
        Key::Esc => Command::Quit,
        Key::Up => Command::PanUp,
        Key::Down => Command::PanDown,
        Key::Left => Command::PanLeft,
        Key::Right => Command::PanRight,
        Key::F(n) => if n == 1 {
            Command::ToggleHelp
        } else if n == 2 {
            Command::PresetBurningShip
        } else if n == 3 {
            Command::PresetJulia
        } else if n == 4 {
            Command::PresetTricorn
        } else if n == 5 {
            Command::TogglePerformanceMode
        } else if n == 6 {
            Command::ToggleAdaptiveSampling
        } else if n == 7 {
            Command::ClearCache
        } else if n == 8 {
            Command::ShowStatistics
        } else if n == 9 {
            Command::ToggleQualityMode
        } else if n == 10 {
            Command::ToggleSuperSampling
        } else {
            Command::Nothing
        },
        _ => Command::Nothing,
    }
}

/// The budget after a step up: ten more, but no more than 1000.
pub open spec fn increased_iterations(max_iterations: u32) -> u32 {
    if max_iterations + ITERATIONS_STEP <= ITERATIONS_CEILING {
        (max_iterations + ITERATIONS_STEP) as u32
    } else {
        ITERATIONS_CEILING
    }
}

/// The budget after a step down: ten fewer, but no fewer than 10.
pub open spec fn decreased_iterations(max_iterations: u32) -> u32 {
    if max_iterations - ITERATIONS_STEP >= ITERATIONS_FLOOR {
        (max_iterations - ITERATIONS_STEP) as u32
    } else {
        ITERATIONS_FLOOR
    }
}

/// The budget after the session adapted it to the frame rate. A poor rate,
/// above 0 and below 10 frames a second, takes a tenth off a budget above 50,
/// down to 50 at most. A good rate, above 30, adds a tenth to a budget below
/// 200, up to 200 at most, where the zoom is above 5.
pub open spec fn tuned_iterations(fps: Scalar, zoom: Scalar, max_iterations: u32) -> u32 {
    if (Scalar { bits: TEN_BITS }).exceeds(fps) && fps.exceeds(Scalar { bits: 0 }) {
        if max_iterations > 50 {
            if max_iterations * 9 / 10 >= 50 {
                (max_iterations * 9 / 10) as u32
            } else {
                50
            }
        } else {
            max_iterations
        }
    } else if fps.exceeds(Scalar { bits: THIRTY_BITS }) {
        if max_iterations < 200 && zoom.exceeds(Scalar { bits: FIVE_BITS }) {
            if max_iterations * 11 / 10 <= 200 {
                (max_iterations * 11 / 10) as u32
            } else {
                200
            }
        } else {
            max_iterations
        }
    } else {
        max_iterations
    }
}

/// The budget of a deep view in an automatic tour: above a zoom of 10 it is
/// 100 plus twice the zoom, but no more than 500; otherwise it stays.
pub open spec fn toured_iterations(zoom: Scalar, doubled_zoom: u32, max_iterations: u32) -> u32 {
    if zoom.exceeds(Scalar { bits: TEN_BITS }) {
        if 100 + doubled_zoom <= 500 {
            (100 + doubled_zoom) as u32
        } else {
            500
        }
    } else {
        max_iterations
    }
}

/// The stretch of the tour that `phase` belongs to.
pub open spec fn phase_of(phase: u32) -> AutoPhase {
    if phase <= 200 {
        AutoPhase::MainBulb
    } else if phase <= 400 {
        AutoPhase::Approach { pick_point: phase == 201 }
    } else if phase <= LAST_AUTO_PHASE {
        AutoPhase::DeepZoom
    } else {
        AutoPhase::Restart
    }
}

/// A length without the two cells of a border.
pub open spec fn inside_border(length: u16) -> int {
    if length >= 2 {
        length - 2
    } else {
        0
    }
}

/// The larger of two lengths.
pub open spec fn at_least(length: int, floor: int) -> int {
    if length >= floor {
        length
    } else {
        floor
    }
}

/// The size of the grid to generate, width first: the size that was asked
/// for; else what the display area leaves inside its border, but at least 20
/// by 10; else 80 by 24.
pub open spec fn grid_size(size_override: Option<(usize, usize)>, area: Option<DisplayArea>) -> (
    int,
    int,
) {
    match size_override {
        Some(size) => (size.0 as int, size.1 as int),
        None => match area {
            Some(area) => (
                at_least(inside_border(area.width), 20),
                at_least(inside_border(area.height), 10),
            ),
            None => (80, 24),
        },
    }
}

/// The first cell to show along an axis: a grid that is longer than the room
/// is shown from so far in that its middle is in view.
pub open spec fn window_start(grid_length: int, room: int) -> int {
    if grid_length < room {
        0
    } else {
        (grid_length - room) / 2
    }
}

/// The part of a grid of `grid_width` by `grid_height` cells that is shown in
/// a display area, and the room that the area has inside its border.
pub open spec fn placement_of(area: DisplayArea, grid_width: usize, grid_height: usize)
    -> WindowPlacement {
    let content_width = inside_border(area.width);
    let content_height = inside_border(area.height);
    WindowPlacement {
        start_x: window_start(grid_width as int, content_width) as usize,
        start_y: window_start(grid_height as int, content_height) as usize,
        display_width: (if content_width <= grid_width {
            content_width
        } else {
            grid_width as int
        }) as usize,
        display_height: (if content_height <= grid_height {
            content_height
        } else {
            grid_height as int
        }) as usize,
        content_width: content_width as usize,
        content_height: content_height as usize,
    }
}

/// The display area differs in size from the one recorded before, or none was recorded.
pub open spec fn area_differs(recorded: Option<DisplayArea>, area: DisplayArea) -> bool {
    match recorded {
        Some(old_area) => old_area.width != area.width || old_area.height != area.height,
        None => true,
    }
}

/// Maps a key press outside the equation editor to what it asks for.
pub fn normal_key_command(key: Key) -> (command: Command)
    ensures
        command == command_of(key),
{
    match key {
        Key::Char(c) => {
            if c == 'q' {
                Command::Quit
            } else if c == 'h' {
                Command::ToggleHelp
            } else if c == '1' {
                Command::EnterInteractive
            } else if c == '2' {
                Command::EnterAutoGenerate
            } else if c == '3' {
                Command::EnterEquationEditor
            } else if c == 'r' || c == ' ' {
                Command::Regenerate
            } else if c == '+' || c == '=' {
                Command::ZoomIn
            } else if c == '-' || c == '_' {
                Command::ZoomOut
            } else if c == 'i' {
                Command::IncreaseIterations
            } else if c == 'd' {
                Command::DecreaseIterations
            } else if c == 'c' {
                Command::ResetView
            } else {
                Command::Nothing
            }
        },
        Key::Esc => Command::Quit,
        Key::Up => Command::PanUp,
        Key::Down => Command::PanDown,
        Key::Left => Command::PanLeft,
        Key::Right => Command::PanRight,
        Key::F(n) => {
            if n == 1 {
                Command::ToggleHelp
            } else if n == 2 {
                Command::PresetBurningShip
            } else if n == 3 {
                Command::PresetJulia
            } else if n == 4 {
                Command::PresetTricorn
            } else if n == 5 {
                Command::TogglePerformanceMode
            } else if n == 6 {
                Command::ToggleAdaptiveSampling
            } else if n == 7 {
                Command::ClearCache
            } else if n == 8 {
                Command::ShowStatistics
            } else if n == 9 {
                Command::ToggleQualityMode
            } else if n == 10 {
                Command::ToggleSuperSampling
            } else {
                Command::Nothing
            }
        },
        _ => Command::Nothing,
    }
}

/// The stretch of the tour that `phase` belongs to.
pub fn auto_phase(phase: u32) -> (kind: AutoPhase)
    ensures
        kind == phase_of(phase),
{
    if phase <= 200 {
        AutoPhase::MainBulb
    } else if phase <= 400 {
        AutoPhase::Approach { pick_point: phase == 201 }
    } else if phase <= LAST_AUTO_PHASE {
        AutoPhase::DeepZoom
    } else {
        AutoPhase::Restart
    }
}

/// The size of the grid to generate, width first.
pub fn fractal_size(size_override: Option<(usize, usize)>, area: Option<DisplayArea>) -> (size: (
    usize,
    usize,
))
    ensures
        (size.0 as int, size.1 as int) == grid_size(size_override, area),
{
    match size_override {
        Some(size) => size,
        None => match area {
            Some(area) => {
                let inner_width: u16 = if area.width >= 2 {
                    area.width - 2
                } else {
                    0
                };
                let inner_height: u16 = if area.height >= 2 {
                    area.height - 2
                } else {
                    0
                };
                let width: usize = if inner_width >= 20 {
                    inner_width as usize
                } else {
                    20
                };
                let height: usize = if inner_height >= 10 {
                    inner_height as usize
                } else {
                    10
                };
                (width, height)
            },
            None => (80, 24),
        },
    }
}

/// Places a grid of `grid_width` by `grid_height` cells in a display area.
pub fn window_placement(area: DisplayArea, grid_width: usize, grid_height: usize) -> (placement:
    WindowPlacement)
    ensures
        placement == placement_of(area, grid_width, grid_height),
{
    let content_width: usize = if area.width >= 2 {
        (area.width - 2) as usize
    } else {
        0
    };
    let content_height: usize = if area.height >= 2 {
        (area.height - 2) as usize
    } else {
        0
    };
    WindowPlacement {
        start_x: if grid_width < content_width {
            0
        } else {
            (grid_width - content_width) / 2
        },
        start_y: if grid_height < content_height {
            0
        } else {
            (grid_height - content_height) / 2
        },
        display_width: if content_width <= grid_width {
            content_width
        } else {
            grid_width
        },
        display_height: if content_height <= grid_height {
            content_height
        } else {
            grid_height
        },
        content_width,
        content_height,
    }
}

/// Adapts an iteration budget to the frame rate.
pub fn optimize_iterations(fps: Scalar, zoom: Scalar, max_iterations: u32) -> (tuned: u32)
    ensures
        tuned == tuned_iterations(fps, zoom, max_iterations),
{
    if fps.lt(Scalar::from_bits(TEN_BITS)) && fps.gt(Scalar::from_bits(0)) {
        if max_iterations > 50 {
            let reduced: u64 = max_iterations as u64 * 9 / 10;
            if reduced >= 50 {
                reduced as u32
            } else {
                50
            }
        } else {
            max_iterations
        }
    } else if fps.gt(Scalar::from_bits(THIRTY_BITS)) {
        if max_iterations < 200 && zoom.gt(Scalar::from_bits(FIVE_BITS)) {
            let raised: u32 = max_iterations * 11 / 10;
            if raised <= 200 {
                raised
            } else {
                200
            }
        } else {
            max_iterations
        }
    } else {
        max_iterations
    }
}

/// The discrete state of an interactive session.
pub struct Session {
    pub should_quit: bool,
    pub mode: AppMode,
    pub input_mode: InputMode,
    pub show_help: bool,
    pub max_iterations: u32,
    pub auto_generation_phase: u32,
    pub current_equation: String,
    pub current_fractal_type: FractalType,
    pub fractal_generator: FractalGenerator,
    pub renderer: TerminalRenderer,
    pub fractal_cache: FractalCache,
    pub fractal_display_area: Option<DisplayArea>,
    pub last_terminal_size: Option<(u16, u16)>,
    pub zoom_factor: Scalar,
    pub center_x: Scalar,
    pub center_y: Scalar,
    pub frame_count: u32,
    pub fps: Scalar,
}

/// The mathematical model of a [`Session`].
pub struct SessionView {
    pub should_quit: bool,
    pub mode: AppMode,
    pub input_mode: InputMode,
    pub show_help: bool,
    pub max_iterations: u32,
    pub auto_generation_phase: u32,
    pub current_equation: Seq<char>,
    pub current_fractal_type: FractalTypeView,
    pub fractal_generator: FractalGenerator,
    pub renderer: RendererState,
    pub fractal_cache: CacheState,
    pub fractal_display_area: Option<DisplayArea>,
    pub last_terminal_size: Option<(u16, u16)>,
    pub zoom_factor: Scalar,
    pub center_x: Scalar,
    pub center_y: Scalar,
    pub frame_count: u32,
    pub fps: Scalar,
}

impl View for Session {
    type V = SessionView;

    open spec fn view(&self) -> SessionView {
        SessionView {
            should_quit: self.should_quit,
            mode: self.mode,
            input_mode: self.input_mode,
            show_help: self.show_help,
            max_iterations: self.max_iterations,
            auto_generation_phase: self.auto_generation_phase,
            current_equation: self.current_equation@,
            current_fractal_type: self.current_fractal_type@,
            fractal_generator: self.fractal_generator,
            renderer: self.renderer@,
            fractal_cache: self.fractal_cache@,
            fractal_display_area: self.fractal_display_area,
            last_terminal_size: self.last_terminal_size,
            zoom_factor: self.zoom_factor,
            center_x: self.center_x,
            center_y: self.center_y,
            frame_count: self.frame_count,
            fps: self.fps,
        }
    }
}

/// The length of an equation in bytes of its UTF-8 encoding, as the machine
/// counts it.
pub open spec fn equation_bytes(equation: Seq<char>) -> usize {
    encode_utf8(equation).len() as usize
}

/// The Julia set that the preset key and the automatic tour select.
pub open spec fn julia_preset() -> FractalTypeView {
    FractalTypeView::Julia {
        c: Complex {
            re: Scalar { bits: JULIA_PRESET_RE_BITS },
            im: Scalar { bits: JULIA_PRESET_IM_BITS },
        },
    }
}

/// The family that follows `current` in an automatic tour.
pub open spec fn next_family(current: FractalTypeView) -> FractalTypeView {
    match current {
        FractalTypeView::Mandelbrot => FractalTypeView::BurningShip,
        FractalTypeView::BurningShip => julia_preset(),
        FractalTypeView::Julia { c } => FractalTypeView::Tricorn,
        FractalTypeView::Tricorn => FractalTypeView::Multibrot {
            power: Scalar { bits: THREE_BITS },
        },
        FractalTypeView::Multibrot { power } => FractalTypeView::Mandelbrot,
        FractalTypeView::Custom { equation } => FractalTypeView::Mandelbrot,
    }
}

/// The label of the family that follows `current` in an automatic tour.
pub open spec fn next_family_label(current: FractalTypeView) -> Seq<char> {
    match current {
        FractalTypeView::Mandelbrot => "Burning Ship"@,
        FractalTypeView::BurningShip => "Julia Set"@,
        FractalTypeView::Julia { c } => "Tricorn"@,
        FractalTypeView::Tricorn => "Multibrot z^3"@,
        FractalTypeView::Multibrot { power } => "z^2 + c"@,
        FractalTypeView::Custom { equation } => "z^2 + c"@,
    }
}

/// A reaction that asks for nothing.
pub open spec fn no_reaction() -> Reaction {
    Reaction {
        motion: Motion::Stay,
        regenerate: false,
        restart_timer: false,
        resolve_equation: false,
        notice: Notice::Unchanged,
        report_last: false,
    }
}

/// A reaction that reports `notice` and asks for nothing else.
pub open spec fn report(notice: Notice) -> Reaction {
    Reaction { notice, ..no_reaction() }
}

/// A reaction that reports `notice` and asks for the grid to be generated anew.
pub open spec fn redraw(notice: Notice) -> Reaction {
    Reaction { notice, regenerate: true, ..no_reaction() }
}

/// A reaction that asks for a change of the viewport, reports `notice` and
/// asks for the grid to be generated anew.
pub open spec fn travel(motion: Motion, notice: Notice) -> Reaction {
    Reaction { motion, notice, regenerate: true, ..no_reaction() }
}

impl SessionView {
    /// The parts that have an invariant of their own are well formed.
    pub open spec fn well_formed(self) -> bool {
        self.fractal_cache.well_formed() && self.renderer.well_formed()
    }

    /// The session after `command` was carried out.
    pub open spec fn after_command(self, command: Command) -> SessionView {
        match command {
            Command::Quit => SessionView { should_quit: true, ..self },
            Command::ToggleHelp => SessionView { show_help: !self.show_help, ..self },
            Command::EnterInteractive => SessionView { mode: AppMode::Interactive, ..self },
            Command::EnterAutoGenerate => SessionView {
                mode: AppMode::AutoGenerate,
                auto_generation_phase: 0,
                ..self
            },
            Command::EnterEquationEditor => SessionView {
                mode: AppMode::EquationEditor,
                input_mode: InputMode::Editing,
                ..self
            },
            Command::IncreaseIterations => SessionView {
                max_iterations: increased_iterations(self.max_iterations),
                ..self
            },
            Command::DecreaseIterations => SessionView {
                max_iterations: decreased_iterations(self.max_iterations),
                ..self
            },
            Command::PresetBurningShip => SessionView {
                current_fractal_type: FractalTypeView::BurningShip,
                current_equation: "Burning Ship"@,
                ..self
            },
            Command::PresetJulia => SessionView {
                current_fractal_type: julia_preset(),
                current_equation: "Julia: c = -0.7269 + 0.1889i"@,
                ..self
            },
            Command::PresetTricorn => SessionView {
                current_fractal_type: FractalTypeView::Tricorn,
                current_equation: "Tricorn"@,
                ..self
            },
            Command::TogglePerformanceMode => SessionView {
                fractal_generator: FractalGenerator {
                    performance_mode: !self.fractal_generator.performance_mode,
                    ..self.fractal_generator
                },
                fractal_cache: self.fractal_cache.cleared(),
                ..self
            },
            Command::ToggleAdaptiveSampling => SessionView {
                fractal_generator: FractalGenerator {
                    use_adaptive_sampling: !self.fractal_generator.use_adaptive_sampling,
                    ..self.fractal_generator
                },
                fractal_cache: self.fractal_cache.cleared(),
                ..self
            },
            Command::ClearCache => SessionView {
                fractal_cache: self.fractal_cache.cleared(),
                ..self
            },
            Command::ToggleQualityMode => SessionView {
                fractal_generator: FractalGenerator {
                    quality_mode: !self.fractal_generator.quality_mode,
                    ..self.fractal_generator
                },
                renderer: RendererState {
                    quality_mode: !self.fractal_generator.quality_mode,
                    ..self.renderer
                },
                fractal_cache: self.fractal_cache.cleared(),
                ..self
            },
            Command::ToggleSuperSampling => SessionView {
                fractal_generator: FractalGenerator {
                    super_sampling: !self.fractal_generator.super_sampling,
                    ..self.fractal_generator
                },
                renderer: RendererState {
                    super_sampling: !self.fractal_generator.super_sampling,
                    ..self.renderer
                },
                fractal_cache: self.fractal_cache.cleared(),
                ..self
            },
            Command::ResetView => SessionView {
                zoom_factor: Scalar { bits: START_ZOOM_BITS },
                center_x: Scalar { bits: START_CENTER_X_BITS },
                center_y: Scalar { bits: START_CENTER_Y_BITS },
                ..self
            },
            _ => self,
        }
    }

    /// What remains for the caller to do after `command`.
    pub open spec fn reaction_to(self, command: Command) -> Reaction {
        match command {
            Command::Quit => no_reaction(),
            Command::ToggleHelp => no_reaction(),
            Command::EnterInteractive => report(Notice::SwitchedToInteractive),
            Command::EnterAutoGenerate => Reaction {
                restart_timer: true,
                ..report(Notice::SwitchedToAutoGenerate)
            },
            Command::EnterEquationEditor => report(Notice::SwitchedToEquationEditor),
            Command::Regenerate => Reaction { report_last: true, ..redraw(Notice::Regenerated) },
            Command::ZoomIn => travel(Motion::ZoomIn, Notice::ZoomedIn),
            Command::ZoomOut => travel(Motion::ZoomOut, Notice::ZoomedOut),
            Command::PanUp => travel(Motion::PanUp, Notice::Panned),
            Command::PanDown => travel(Motion::PanDown, Notice::Panned),
            Command::PanLeft => travel(Motion::PanLeft, Notice::Panned),
            Command::PanRight => travel(Motion::PanRight, Notice::Panned),
            Command::IncreaseIterations => redraw(
                Notice::IterationsIncreased { to: increased_iterations(self.max_iterations) },
            ),
            Command::DecreaseIterations => redraw(
                Notice::IterationsDecreased { to: decreased_iterations(self.max_iterations) },
            ),
            Command::ResetView => redraw(Notice::ViewReset),
            Command::PresetBurningShip => redraw(Notice::BurningShipSelected),
            Command::PresetJulia => redraw(Notice::JuliaSelected),
            Command::PresetTricorn => redraw(Notice::TricornSelected),
            Command::TogglePerformanceMode => redraw(
                Notice::PerformanceMode { on: !self.fractal_generator.performance_mode },
            ),
            Command::ToggleAdaptiveSampling => redraw(
                Notice::AdaptiveSampling { on: !self.fractal_generator.use_adaptive_sampling },
            ),
            Command::ClearCache => report(
                Notice::CacheCleared { entries: self.fractal_cache.len() as usize },
            ),
            Command::ShowStatistics => report(Notice::Statistics),
            Command::ToggleQualityMode => redraw(
                Notice::QualityMode { on: !self.fractal_generator.quality_mode },
            ),
            Command::ToggleSuperSampling => redraw(
                Notice::SuperSampling { on: !self.fractal_generator.super_sampling },
            ),
            Command::Nothing => no_reaction(),
        }
    }

    /// The session after a key press in the equation editor. Escape leaves the
    /// editor, backspace deletes the last character, and a character is
    /// appended while the equation is shorter than 50 bytes. The enter key
    /// changes nothing yet: the equation has to be resolved first.
    pub open spec fn after_editing_key(self, key: Key) -> SessionView {
        match key {
            Key::Esc => SessionView {
                input_mode: InputMode::Normal,
                mode: AppMode::Interactive,
                ..self
            },
            Key::Backspace => SessionView {
                current_equation: if self.current_equation.len() > 0 {
                    self.current_equation.drop_last()
                } else {
                    self.current_equation
                },
                ..self
            },
            Key::Char(c) => SessionView {
                current_equation: if equation_bytes(self.current_equation) < EQUATION_LIMIT {
                    self.current_equation.push(c)
                } else {
                    self.current_equation
                },
                ..self
            },
            _ => self,
        }
    }

    /// What remains for the caller to do after a key press in the equation editor.
    pub open spec fn editing_reaction(self, key: Key) -> Reaction {
        match key {
            Key::Enter => Reaction { resolve_equation: true, ..no_reaction() },
            Key::Esc => report(Notice::EditingCancelled),
            _ => no_reaction(),
        }
    }

    /// The session after a key press, in whichever input mode it is.
    pub open spec fn after_key(self, key: Key) -> SessionView {
        match self.input_mode {
            InputMode::Normal => self.after_command(command_of(key)),
            InputMode::Editing => self.after_editing_key(key),
        }
    }

    /// What remains for the caller to do after a key press.
    pub open spec fn key_reaction(self, key: Key) -> Reaction {
        match self.input_mode {
            InputMode::Normal => self.reaction_to(command_of(key)),
            InputMode::Editing => self.editing_reaction(key),
        }
    }

    /// The session after the equation in the editor was resolved: a resolved
    /// equation selects its family, takes its label and ends the editing; an
    /// equation that could not be resolved changes nothing.
    pub open spec fn after_equation(self, resolved: Option<(FractalTypeView, Seq<char>)>)
        -> SessionView {
        match resolved {
            Some(choice) => SessionView {
                current_fractal_type: choice.0,
                current_equation: choice.1,
                input_mode: InputMode::Normal,
                mode: AppMode::Interactive,
                ..self
            },
            None => self,
        }
    }

    /// The session after the terminal reported its size: a new size is
    /// recorded, the display area is forgotten and the cache emptied.
    pub open spec fn after_resize(self, width: u16, height: u16) -> SessionView {
        if self.last_terminal_size != Some((width, height)) {
            SessionView {
                last_terminal_size: Some((width, height)),
                fractal_display_area: None,
                fractal_cache: self.fractal_cache.cleared(),
                ..self
            }
        } else {
            self
        }
    }

    /// The session at the start of a step of the automatic tour: after the
    /// last phase the tour restarts with the next family at 100 iterations;
    /// in every other phase nothing changes yet.
    pub open spec fn after_auto_begin(self) -> SessionView {
        if self.auto_generation_phase > LAST_AUTO_PHASE {
            SessionView {
                auto_generation_phase: 0,
                max_iterations: 100,
                current_fractal_type: next_family(self.current_fractal_type),
                current_equation: next_family_label(self.current_fractal_type),
                ..self
            }
        } else {
            self
        }
    }

    /// The session at the end of a step of the automatic tour, at the zoom
    /// that the step arrived at: the budget follows the zoom, and the phase
    /// moves on by one.
    pub open spec fn after_auto_finish(self, doubled_zoom: u32) -> SessionView {
        SessionView {
            max_iterations: toured_iterations(
                self.zoom_factor,
                doubled_zoom,
                self.max_iterations,
            ),
            auto_generation_phase: if self.auto_generation_phase < u32::MAX {
                (self.auto_generation_phase + 1) as u32
            } else {
                self.auto_generation_phase
            },
            ..self
        }
    }

    /// The request for the grid of this session: its family, the size of the
    /// grid, its viewport and its budget.
    pub open spec fn request(self, size_override: Option<(usize, usize)>) -> (
        FractalTypeView,
        int,
        int,
        Scalar,
        Scalar,
        Scalar,
        u32,
    ) {
        (
            self.current_fractal_type,
            grid_size(size_override, self.fractal_display_area).0,
            grid_size(size_override, self.fractal_display_area).1,
            self.zoom_factor,
            self.center_x,
            self.center_y,
            self.max_iterations,
        )
    }

    /// The session after a frame was counted.
    pub open spec fn after_frame(self) -> SessionView {
        SessionView {
            frame_count: if self.frame_count < u32::MAX {
                (self.frame_count + 1) as u32
            } else {
                self.frame_count
            },
            ..self
        }
    }

    /// The session after the frame rate was measured: the rate is recorded
    /// and the count of frames starts anew.
    pub open spec fn after_measurement(self, fps: Scalar) -> SessionView {
        SessionView { fps, frame_count: 0, ..self }
    }

    /// The session after the caller moved the viewport.
    pub open spec fn after_move(self, zoom_factor: Scalar, center_x: Scalar, center_y: Scalar)
        -> SessionView {
        SessionView { zoom_factor, center_x, center_y, ..self }
    }
}

/// The session that a program starts with: interactive, at the Mandelbrot set
/// with 100 iterations, viewed at zoom 1 around -0.5 + 0i, with the switches
/// of a new generator and a new renderer, an empty cache, and no frame
/// counted yet.
pub open spec fn initial_session() -> SessionView {
    SessionView {
        should_quit: false,
        mode: AppMode::Interactive,
        input_mode: InputMode::Normal,
        show_help: false,
        max_iterations: 100,
        auto_generation_phase: 0,
        current_equation: "z^2 + c"@,
        current_fractal_type: FractalTypeView::Mandelbrot,
        fractal_generator: FractalGenerator {
            use_adaptive_sampling: true,
            performance_mode: false,
            quality_mode: true,
            super_sampling: false,
        },
        renderer: RendererState {
            use_colors: true,
            use_unicode: true,
            use_fast_rendering: false,
            quality_mode: true,
            super_sampling: false,
            last: None,
        },
        fractal_cache: CacheState {
            entries: Seq::empty(),
            insert_ceiling: DEFAULT_INSERT_CEILING as nat,
            capacity: DEFAULT_CAPACITY as nat,
        },
        fractal_display_area: None,
        last_terminal_size: None,
        zoom_factor: Scalar { bits: START_ZOOM_BITS },
        center_x: Scalar { bits: START_CENTER_X_BITS },
        center_y: Scalar { bits: START_CENTER_Y_BITS },
        frame_count: 0,
        fps: Scalar { bits: 0 },
    }
}

/// Builds a reaction.
fn react(motion: Motion, regenerate: bool, notice: Notice) -> (reaction: Reaction)
    ensures
        reaction == (Reaction { motion, regenerate, notice, ..no_reaction() }),
{
    Reaction {
        motion,
        regenerate,
        restart_timer: false,
        resolve_equation: false,
        notice,
        report_last: false,
    }
}

/// The budget after a step up.
pub fn increase_iterations(max_iterations: u32) -> (raised: u32)
    ensures
        raised == increased_iterations(max_iterations),
{
    if max_iterations <= ITERATIONS_CEILING - ITERATIONS_STEP {
        max_iterations + ITERATIONS_STEP
    } else {
        ITERATIONS_CEILING
    }
}

/// The budget after a step down.
pub fn decrease_iterations(max_iterations: u32) -> (lowered: u32)
    ensures
        lowered == decreased_iterations(max_iterations),
{
    if max_iterations >= ITERATIONS_FLOOR + ITERATIONS_STEP {
        max_iterations - ITERATIONS_STEP
    } else {
        ITERATIONS_FLOOR
    }
}

/// The budget of a deep view in an automatic tour.
pub fn tour_iterations(zoom: Scalar, doubled_zoom: u32, max_iterations: u32) -> (budget: u32)
    ensures
        budget == toured_iterations(zoom, doubled_zoom, max_iterations),
{
    if zoom.gt(Scalar::from_bits(TEN_BITS)) {
        if doubled_zoom <= 400 {
            100 + doubled_zoom
        } else {
            500
        }
    } else {
        max_iterations
    }
}

impl Session {
    /// The session that a program starts with.
    pub fn new() -> (session: Session)
        ensures
            session@ == initial_session(),
            session@.well_formed(),
    {
        let cache = FractalCache::new();
        assert(cache@.entries =~= Seq::empty());
        Session {
            should_quit: false,
            mode: AppMode::Interactive,
            input_mode: InputMode::Normal,
            show_help: false,
            max_iterations: 100,
            auto_generation_phase: 0,
            current_equation: "z^2 + c".to_string(),
            current_fractal_type: FractalType::Mandelbrot,
            fractal_generator: FractalGenerator::new(),
            renderer: TerminalRenderer::new(),
            fractal_cache: cache,
            fractal_display_area: None,
            last_terminal_size: None,
            zoom_factor: Scalar::from_bits(START_ZOOM_BITS),
            center_x: Scalar::from_bits(START_CENTER_X_BITS),
            center_y: Scalar::from_bits(START_CENTER_Y_BITS),
            frame_count: 0,
            fps: Scalar::from_bits(0),
        }
    }

    /// Carries out a key press outside the equation editor and tells what
    /// remains for the caller to do.
    pub fn handle_normal_key_event(&mut self, key: Key) -> (reaction: Reaction)
        requires
            old(self)@.well_formed(),
        ensures
            final(self)@ == old(self)@.after_command(command_of(key)),
            reaction == old(self)@.reaction_to(command_of(key)),
            final(self)@.well_formed(),
    {
        match normal_key_command(key) {
            Command::Quit => {
                self.should_quit = true;
                react(Motion::Stay, false, Notice::Unchanged)
            },
            Command::ToggleHelp => {
                self.show_help = !self.show_help;
                react(Motion::Stay, false, Notice::Unchanged)
            },
            Command::EnterInteractive => {
                self.mode = AppMode::Interactive;
                react(Motion::Stay, false, Notice::SwitchedToInteractive)
            },
            Command::EnterAutoGenerate => {
                self.mode = AppMode::AutoGenerate;
                self.auto_generation_phase = 0;
                Reaction {
                    motion: Motion::Stay,
                    regenerate: false,
                    restart_timer: true,
                    resolve_equation: false,
                    notice: Notice::SwitchedToAutoGenerate,
                    report_last: false,
                }
            },
            Command::EnterEquationEditor => {
                self.mode = AppMode::EquationEditor;
                self.input_mode = InputMode::Editing;
                react(Motion::Stay, false, Notice::SwitchedToEquationEditor)
            },
            Command::Regenerate => Reaction {
                motion: Motion::Stay,
                regenerate: true,
                restart_timer: false,
                resolve_equation: false,
                notice: Notice::Regenerated,
                report_last: true,
            },
            Command::ZoomIn => react(Motion::ZoomIn, true, Notice::ZoomedIn),
            Command::ZoomOut => react(Motion::ZoomOut, true, Notice::ZoomedOut),
            Command::PanUp => react(Motion::PanUp, true, Notice::Panned),
            Command::PanDown => react(Motion::PanDown, true, Notice::Panned),
            Command::PanLeft => react(Motion::PanLeft, true, Notice::Panned),
            Command::PanRight => react(Motion::PanRight, true, Notice::Panned),
            Command::IncreaseIterations => {
                self.max_iterations = increase_iterations(self.max_iterations);
                react(Motion::Stay, true, Notice::IterationsIncreased { to: self.max_iterations })
            },
            Command::DecreaseIterations => {
                self.max_iterations = decrease_iterations(self.max_iterations);
                react(Motion::Stay, true, Notice::IterationsDecreased { to: self.max_iterations })
            },
            Command::ResetView => {
                self.zoom_factor = Scalar::from_bits(START_ZOOM_BITS);
                self.center_x = Scalar::from_bits(START_CENTER_X_BITS);
                self.center_y = Scalar::from_bits(START_CENTER_Y_BITS);
                react(Motion::Stay, true, Notice::ViewReset)
            },
            Command::PresetBurningShip => {
                self.current_fractal_type = FractalType::BurningShip;
                self.current_equation = "Burning Ship".to_string();
                react(Motion::Stay, true, Notice::BurningShipSelected)
            },
            Command::PresetJulia => {
                self.current_fractal_type = FractalType::Julia {
                    c: Complex {
                        re: Scalar::from_bits(JULIA_PRESET_RE_BITS),
                        im: Scalar::from_bits(JULIA_PRESET_IM_BITS),
                    },
                };
                self.current_equation = "Julia: c = -0.7269 + 0.1889i".to_string();
                react(Motion::Stay, true, Notice::JuliaSelected)
            },
            Command::PresetTricorn => {
                self.current_fractal_type = FractalType::Tricorn;
                self.current_equation = "Tricorn".to_string();
                react(Motion::Stay, true, Notice::TricornSelected)
            },
            Command::TogglePerformanceMode => {
                let on = !self.fractal_generator.performance_mode;
                self.fractal_generator.set_performance_mode(on);
                self.fractal_cache.clear();
                react(Motion::Stay, true, Notice::PerformanceMode { on })
            },
            Command::ToggleAdaptiveSampling => {
                let on = !self.fractal_generator.use_adaptive_sampling;
                self.fractal_generator.set_adaptive_sampling(on);
                self.fractal_cache.clear();
                react(Motion::Stay, true, Notice::AdaptiveSampling { on })
            },
            Command::ClearCache => {
                let entries = self.fractal_cache.len();
                self.fractal_cache.clear();
                react(Motion::Stay, false, Notice::CacheCleared { entries })
            },
            Command::ShowStatistics => react(Motion::Stay, false, Notice::Statistics),
            Command::ToggleQualityMode => {
                let on = !self.fractal_generator.quality_mode;
                self.fractal_generator.set_quality_mode(on);
                self.renderer.set_quality_mode(on);
                self.fractal_cache.clear();
                react(Motion::Stay, true, Notice::QualityMode { on })
            },
            Command::ToggleSuperSampling => {
                let on = !self.fractal_generator.super_sampling;
                self.fractal_generator.set_super_sampling(on);
                self.renderer.set_super_sampling(on);
                self.fractal_cache.clear();
                react(Motion::Stay, true, Notice::SuperSampling { on })
            },
            Command::Nothing => react(Motion::Stay, false, Notice::Unchanged),
        }
    }

    /// Carries out a key press in the equation editor and tells what remains
    /// for the caller to do.
    pub fn handle_editing_key_event(&mut self, key: Key) -> (reaction: Reaction)
        ensures
            final(self)@ == old(self)@.after_editing_key(key),
            reaction == old(self)@.editing_reaction(key),
    {
        match key {
            Key::Enter => Reaction {
                motion: Motion::Stay,
                regenerate: false,
                restart_timer: false,
                resolve_equation: true,
                notice: Notice::Unchanged,
                report_last: false,
            },
            Key::Esc => {
                self.input_mode = InputMode::Normal;
                self.mode = AppMode::Interactive;
                react(Motion::Stay, false, Notice::EditingCancelled)
            },
            Key::Backspace => {
                let _ = self.current_equation.pop();
                react(Motion::Stay, false, Notice::Unchanged)
            },
            Key::Char(c) => {
                if self.current_equation.as_str().len() < EQUATION_LIMIT {
                    self.current_equation.push(c);
                }
                react(Motion::Stay, false, Notice::Unchanged)
            },
            _ => react(Motion::Stay, false, Notice::Unchanged),
        }
    }

    /// Carries out a key press in the current input mode.
    pub fn handle_key_event(&mut self, key: Key) -> (reaction: Reaction)
        requires
            old(self)@.well_formed(),
        ensures
            final(self)@ == old(self)@.after_key(key),
            reaction == old(self)@.key_reaction(key),
            final(self)@.well_formed(),
    {
        match self.input_mode {
            InputMode::Normal => self.handle_normal_key_event(key),
            InputMode::Editing => self.handle_editing_key_event(key),
        }
    }

    /// Takes the resolution of the equation in the editor: a resolved equation
    /// is applied and the grid asked for, an unresolved one is reported.
    pub fn apply_equation(&mut self, resolved: Option<(FractalType, String)>) -> (reaction:
        Reaction)
        ensures
            final(self)@ == old(self)@.after_equation(
                match resolved {
                    Some(choice) => Some((choice.0@, choice.1@)),
                    None => None,
                },
            ),
            reaction == (if resolved.is_some() {
                redraw(Notice::EquationApplied)
            } else {
                report(Notice::EquationInvalid)
            }),
    {
        match resolved {
            Some(choice) => {
                self.current_fractal_type = choice.0;
                self.current_equation = choice.1;
                self.input_mode = InputMode::Normal;
                self.mode = AppMode::Interactive;
                react(Motion::Stay, true, Notice::EquationApplied)
            },
            None => react(Motion::Stay, false, Notice::EquationInvalid),
        }
    }

    /// Takes the size that the terminal reported. A new size is recorded, the
    /// display area forgotten and the cache emptied.
    pub fn handle_resize_event(&mut self, width: u16, height: u16) -> (changed: bool)
        ensures
            final(self)@ == old(self)@.after_resize(width, height),
            changed == (old(self).last_terminal_size != Some((width, height))),
            old(self)@.well_formed() ==> final(self)@.well_formed(),
    {
        let same = match self.last_terminal_size {
            Some(size) => size.0 == width && size.1 == height,
            None => false,
        };
        if !same {
            self.last_terminal_size = Some((width, height));
            self.fractal_display_area = None;
            self.fractal_cache.clear();
            true
        } else {
            false
        }
    }

    /// Records the display area and tells whether its size is new.
    pub fn record_display_area(&mut self, area: DisplayArea) -> (changed: bool)
        ensures
            changed == area_differs(old(self).fractal_display_area, area),
            final(self)@ == (SessionView {
                fractal_display_area: if changed {
                    Some(area)
                } else {
                    old(self).fractal_display_area
                },
                ..old(self)@
            }),
    {
        let changed = match self.fractal_display_area {
            Some(old_area) => old_area.width != area.width || old_area.height != area.height,
            None => true,
        };
        if changed {
            self.fractal_display_area = Some(area);
        }
        changed
    }

    /// Starts a step of the automatic tour and tells which stretch of the tour
    /// it belongs to. After the last phase the tour is restarted with the next
    /// family.
    pub fn begin_auto_update(&mut self) -> (kind: AutoPhase)
        ensures
            kind == phase_of(old(self).auto_generation_phase),
            final(self)@ == old(self)@.after_auto_begin(),
    {
        let kind = auto_phase(self.auto_generation_phase);
        match kind {
            AutoPhase::Restart => {
                self.auto_generation_phase = 0;
                self.max_iterations = 100;
                let ghost before = self.current_fractal_type@;
                let next = match &self.current_fractal_type {
                    FractalType::Mandelbrot => {
                        self.current_equation = "Burning Ship".to_string();
                        FractalType::BurningShip
                    },
                    FractalType::BurningShip => {
                        self.current_equation = "Julia Set".to_string();
                        FractalType::Julia {
                            c: Complex {
                                re: Scalar::from_bits(JULIA_PRESET_RE_BITS),
                                im: Scalar::from_bits(JULIA_PRESET_IM_BITS),
                            },
                        }
                    },
                    FractalType::Julia { .. } => {
                        self.current_equation = "Tricorn".to_string();
                        FractalType::Tricorn
                    },
                    FractalType::Tricorn => {
                        self.current_equation = "Multibrot z^3".to_string();
                        FractalType::Multibrot { power: Scalar::from_bits(THREE_BITS) }
                    },
                    FractalType::Multibrot { .. } => {
                        self.current_equation = "z^2 + c".to_string();
                        FractalType::Mandelbrot
                    },
                    FractalType::Custom { .. } => {
                        self.current_equation = "z^2 + c".to_string();
                        FractalType::Mandelbrot
                    },
                };
                assert(next@ == next_family(before));
                self.current_fractal_type = next;
            },
            _ => {},
        }
        kind
    }

    /// Ends a step of the automatic tour at the zoom that the viewport arrived
    /// at; `doubled_zoom` is twice that zoom as a whole number.
    pub fn finish_auto_update(&mut self, doubled_zoom: u32)
        ensures
            final(self)@ == old(self)@.after_auto_finish(doubled_zoom),
    {
        self.max_iterations = tour_iterations(self.zoom_factor, doubled_zoom, self.max_iterations);
        if self.auto_generation_phase < u32::MAX {
            self.auto_generation_phase = self.auto_generation_phase + 1;
        }
    }

    /// Adapts the iteration budget to the frame rate that was measured last,
    /// at the zoom of the viewport.
    pub fn optimize_parameters_for_performance(&mut self)
        ensures
            final(self)@ == (SessionView {
                max_iterations: tuned_iterations(
                    old(self).fps,
                    old(self).zoom_factor,
                    old(self).max_iterations,
                ),
                ..old(self)@
            }),
    {
        self.max_iterations = optimize_iterations(self.fps, self.zoom_factor, self.max_iterations);
    }

    /// Takes the viewport that the caller moved to.
    pub fn set_viewport(&mut self, zoom_factor: Scalar, center_x: Scalar, center_y: Scalar)
        ensures
            final(self)@ == old(self)@.after_move(zoom_factor, center_x, center_y),
    {
        self.zoom_factor = zoom_factor;
        self.center_x = center_x;
        self.center_y = center_y;
    }

    /// Counts a frame; the count stops at the largest number it can hold.
    pub fn count_frame(&mut self)
        ensures
            final(self)@ == old(self)@.after_frame(),
    {
        if self.frame_count < u32::MAX {
            self.frame_count = self.frame_count + 1;
        }
    }

    /// Takes the frame rate that the caller measured over the frames counted,
    /// and starts the count anew.
    pub fn set_frame_rate(&mut self, fps: Scalar)
        ensures
            final(self)@ == old(self)@.after_measurement(fps),
    {
        self.fps = fps;
        self.frame_count = 0;
    }

    /// The request for the grid of this session.
    pub fn fractal_params(&self, size_override: Option<(usize, usize)>) -> (params: FractalParams)
        ensures
            (
                params.fractal_type@,
                params.width as int,
                params.height as int,
                params.zoom,
                params.center_x,
                params.center_y,
                params.max_iterations,
            ) == self@.request(size_override),
    {
        let size = fractal_size(size_override, self.fractal_display_area);
        FractalParams {
            fractal_type: self.current_fractal_type.duplicate(),
            width: size.0,
            height: size.1,
            zoom: self.zoom_factor,
            center_x: self.center_x,
            center_y: self.center_y,
            max_iterations: self.max_iterations,
        }
    }
}

impl Default for Session {
    fn default() -> (session: Session)
        ensures
            session@ == initial_session(),
            session@.well_formed(),
    {
        Session::new()
    }
}

/// The command changes a switch that the keys of the cache do not hold.
pub open spec fn changes_a_switch(command: Command) -> bool {
    command == Command::TogglePerformanceMode || command == Command::ToggleAdaptiveSampling
        || command == Command::ToggleQualityMode || command == Command::ToggleSuperSampling
}

/// Invalidation: a change of the performance, sampling or quality switches
/// leaves no grid in the cache, and neither does the clear command.
pub proof fn lemma_switches_empty_the_cache(state: SessionView, command: Command)
    requires
        changes_a_switch(command) || command == Command::ClearCache,
    ensures
        state.after_command(command).fractal_cache.len() == 0,
        state.after_command(command).fractal_cache.insert_ceiling
            == state.fractal_cache.insert_ceiling,
        state.after_command(command).fractal_cache.capacity == state.fractal_cache.capacity,
{
}

/// Invalidation: a new terminal size leaves no grid in the cache.
pub proof fn lemma_resize_empties_the_cache(state: SessionView, width: u16, height: u16)
    requires
        state.last_terminal_size != Some((width, height)),
    ensures
        state.after_resize(width, height).fractal_cache.len() == 0,
        state.after_resize(width, height).fractal_display_area.is_none(),
{
}

/// The number of points of interest that an automatic tour chooses from.
pub const INTERESTING_POINTS: usize = 5;

/// The points of interest of an automatic tour: a spiral at
/// -0.7269 + 0.1889i, the seahorse valley at -0.8 + 0.156i, lightning at
/// -0.74529 + 0.11307i, the rabbit ears at -0.1 + 0.651i and the needle point
/// at -0.75.
pub open spec fn interesting_point(index: int) -> Complex {
    if index == 0 {
        Complex {
            re: Scalar { bits: JULIA_PRESET_RE_BITS },
            im: Scalar { bits: JULIA_PRESET_IM_BITS },
        }
    } else if index == 1 {
        Complex {
            re: Scalar { bits: 0xBFE9_9999_9999_999A },
            im: Scalar { bits: 0x3FC3_F7CE_D916_872B },
        }
    } else if index == 2 {
        Complex {
            re: Scalar { bits: 0xBFE7_D96A_6A01_259A },
            im: Scalar { bits: 0x3FBC_F227_D028_A1E0 },
        }
    } else if index == 3 {
        Complex {
            re: Scalar { bits: 0xBFB9_9999_9999_999A },
            im: Scalar { bits: 0x3FE4_D4FD_F3B6_45A2 },
        }
    } else {
        Complex { re: Scalar { bits: 0xBFE8_0000_0000_0000 }, im: Scalar { bits: 0 } }
    }
}

/// The point of interest with the given number. Which number an automatic
/// tour takes is left to chance, and the caller draws it.
pub fn point_of_interest(index: usize) -> (point: Complex)
    requires
        index < INTERESTING_POINTS,
    ensures
        point == interesting_point(index as int),
{
    if index == 0 {
        Complex {
            re: Scalar::from_bits(JULIA_PRESET_RE_BITS),
            im: Scalar::from_bits(JULIA_PRESET_IM_BITS),
        }
    } else if index == 1 {
        Complex {
            re: Scalar::from_bits(0xBFE9_9999_9999_999A),
            im: Scalar::from_bits(0x3FC3_F7CE_D916_872B),
        }
    } else if index == 2 {
        Complex {
            re: Scalar::from_bits(0xBFE7_D96A_6A01_259A),
            im: Scalar::from_bits(0x3FBC_F227_D028_A1E0),
        }
    } else if index == 3 {
        Complex {
            re: Scalar::from_bits(0xBFB9_9999_9999_999A),
            im: Scalar::from_bits(0x3FE4_D4FD_F3B6_45A2),
        }
    } else {
        Complex { re: Scalar::from_bits(0xBFE8_0000_0000_0000), im: Scalar::from_bits(0) }
    }
}

} // verus!

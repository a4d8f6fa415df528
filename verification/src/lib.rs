//! Escape-time fractals for character-cell displays: sampling plans and grid
//! assembly, a bounded result cache, and the quantizer that turns iteration
//! counts into glyphs and colours.

pub mod app;
pub mod cache;
pub mod config;
pub mod equation;
pub mod fractal;
pub mod grid;
pub mod palette;
pub mod renderer;
pub mod scalar;
pub mod ui;

pub use app::{AppMode, InputMode, Session};
pub use cache::{create_cache_key, CacheKey, FractalCache};
pub use config::Config;
pub use fractal::{EscapeRule, FractalGenerator, FractalParams, FractalType, SamplePlan};
pub use palette::Color;
pub use renderer::{RenderedCell, TerminalRenderer};
pub use scalar::{Complex, Rounded, Scalar};
pub use ui::UI;

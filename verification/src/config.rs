//! Start-up defaults for the display, the engine and the controls, and the
//! rules a configuration has to meet.

use vstd::prelude::*;
use crate::scalar::Scalar;

verus! {

broadcast use vstd::string::group_string_axioms;

/// The bit pattern of 0.0.
pub const ZERO_BITS: u64 = 0;

/// The bit pattern of 1.0.
pub const ONE_BITS: u64 = 0x3FF0_0000_0000_0000;

/// The bit pattern of -0.5.
pub const MINUS_HALF_BITS: u64 = 0xBFE0_0000_0000_0000;

/// The bit pattern of 1.5.
pub const ONE_AND_A_HALF_BITS: u64 = 0x3FF8_0000_0000_0000;

/// The bit pattern of 0.1.
pub const ONE_TENTH_BITS: u64 = 0x3FB9_9999_9999_999A;

#[derive(Debug, Clone)]
pub struct Config {
    pub display: DisplayConfig,
    pub fractal: FractalConfig,
    pub performance: PerformanceConfig,
    pub controls: ControlsConfig,
}

#[derive(Debug, Clone)]
pub struct DisplayConfig {
    pub use_colors: bool,
    pub use_unicode: bool,
    pub default_width: usize,
    pub default_height: usize,
    pub color_scheme: String,
    pub quality_mode: bool,
    pub super_sampling: bool,
}

#[derive(Debug, Clone)]
pub struct FractalConfig {
    pub default_zoom: Scalar,
    pub default_center_x: Scalar,
    pub default_center_y: Scalar,
    pub default_max_iterations: u32,
    pub auto_generation_interval_ms: u64,
    pub zoom_step: Scalar,
    pub pan_step: Scalar,
}

#[derive(Debug, Clone)]
pub struct PerformanceConfig {
    pub use_parallel_processing: bool,
    pub thread_count: Option<usize>,
    pub enable_caching: bool,
    pub max_cache_size: usize,
}

#[derive(Debug, Clone)]
pub struct ControlsConfig {
    pub zoom_in_key: String,
    pub zoom_out_key: String,
    pub pan_speed: Scalar,
    pub zoom_speed: Scalar,
    pub iteration_step: u32,
}

/// The rules of a configuration, in the order in which they are checked.
#[derive(Clone, Copy, Debug, PartialEq, Eq, Structural)]
pub enum ConfigFault {
    /// A display dimension is zero.
    DisplayDimensions,
    /// The iteration budget is zero.
    MaxIterations,
    /// The zoom step is zero or negative.
    ZoomStep,
    /// The auto-generation interval is zero.
    AutoGenerationInterval,
    /// A thread count is given and is zero.
    ThreadCount,
}

/// The message that reports a broken rule.
pub open spec fn fault_message(fault: ConfigFault) -> Seq<char> {
    match fault {
        ConfigFault::DisplayDimensions => "Display dimensions must be greater than 0"@,
        ConfigFault::MaxIterations => "Max iterations must be greater than 0"@,
        ConfigFault::ZoomStep => "Zoom step must be positive"@,
        ConfigFault::AutoGenerationInterval => "Auto generation interval must be greater than 0"@,
        ConfigFault::ThreadCount => "Thread count must be greater than 0"@,
    }
}

impl Config {
    /// The first rule that the configuration breaks, if it breaks one.
    pub open spec fn first_fault(self) -> Option<ConfigFault> {
        if self.display.default_width == 0 || self.display.default_height == 0 {
            Some(ConfigFault::DisplayDimensions)
        } else if self.fractal.default_max_iterations == 0 {
            Some(ConfigFault::MaxIterations)
        } else if (Scalar { bits: ZERO_BITS }).at_least(self.fractal.zoom_step) {
            Some(ConfigFault::ZoomStep)
        } else if self.fractal.auto_generation_interval_ms == 0 {
            Some(ConfigFault::AutoGenerationInterval)
        } else if self.performance.thread_count == Some(0usize) {
            Some(ConfigFault::ThreadCount)
        } else {
            None
        }
    }

    /// Finds the first rule that the configuration breaks.
    pub fn check(&self) -> (fault: Option<ConfigFault>)
        ensures
            fault == self.first_fault(),
    {
        if self.display.default_width == 0 || self.display.default_height == 0 {
            return Some(ConfigFault::DisplayDimensions);
        }
        if self.fractal.default_max_iterations == 0 {
            return Some(ConfigFault::MaxIterations);
        }
        if self.fractal.zoom_step.le(Scalar::from_bits(ZERO_BITS)) {
            return Some(ConfigFault::ZoomStep);
        }
        if self.fractal.auto_generation_interval_ms == 0 {
            return Some(ConfigFault::AutoGenerationInterval);
        }
        match self.performance.thread_count {
            Some(thread_count) => {
                if thread_count == 0 {
                    return Some(ConfigFault::ThreadCount);
                }
            },
            None => {},
        }
        None
    }

    /// Validates the configuration: `Ok` where no rule is broken, otherwise the
    /// message of the first broken rule.
    pub fn validate(&self) -> (result: Result<(), String>)
        ensures
            result.is_ok() == self.first_fault().is_none(),
            result matches Err(message) ==> message@ == fault_message(
                self.first_fault().unwrap(),
            ),
    {
        match self.check() {
            None => Ok(()),
            Some(ConfigFault::DisplayDimensions) => Err(
                "Display dimensions must be greater than 0".to_string(),
            ),
            Some(ConfigFault::MaxIterations) => Err(
                "Max iterations must be greater than 0".to_string(),
            ),
            Some(ConfigFault::ZoomStep) => Err("Zoom step must be positive".to_string()),
            Some(ConfigFault::AutoGenerationInterval) => Err(
                "Auto generation interval must be greater than 0".to_string(),
            ),
            Some(ConfigFault::ThreadCount) => Err(
                "Thread count must be greater than 0".to_string(),
            ),
        }
    }

    /// The default grid size, width first.
    pub fn get_display_size(&self) -> (size: (usize, usize))
        ensures
            size == (self.display.default_width, self.display.default_height),
    {
        (self.display.default_width, self.display.default_height)
    }

    /// The default zoom, centre and iteration budget.
    pub fn get_default_fractal_params(&self) -> (defaults: (Scalar, Scalar, Scalar, u32))
        ensures
            defaults == (
                self.fractal.default_zoom,
                self.fractal.default_center_x,
                self.fractal.default_center_y,
                self.fractal.default_max_iterations,
            ),
    {
        (
            self.fractal.default_zoom,
            self.fractal.default_center_x,
            self.fractal.default_center_y,
            self.fractal.default_max_iterations,
        )
    }

    pub fn should_use_colors(&self) -> (r: bool)
        ensures
            r == self.display.use_colors,
    {
        self.display.use_colors
    }

    pub fn should_use_unicode(&self) -> (r: bool)
        ensures
            r == self.display.use_unicode,
    {
        self.display.use_unicode
    }

    /// The auto-generation interval in milliseconds.
    pub fn get_auto_generation_interval(&self) -> (milliseconds: u64)
        ensures
            milliseconds == self.fractal.auto_generation_interval_ms,
    {
        self.fractal.auto_generation_interval_ms
    }

    pub fn set_display_colors(&mut self, use_colors: bool)
        ensures
            final(self).display.use_colors == use_colors,
            final(self).display.use_unicode == old(self).display.use_unicode,
            final(self).display.default_width == old(self).display.default_width,
            final(self).display.default_height == old(self).display.default_height,
            final(self).display.color_scheme == old(self).display.color_scheme,
            final(self).display.quality_mode == old(self).display.quality_mode,
            final(self).display.super_sampling == old(self).display.super_sampling,
            final(self).fractal == old(self).fractal,
            final(self).performance == old(self).performance,
            final(self).controls == old(self).controls,
    {
        self.display.use_colors = use_colors;
    }

    pub fn set_display_unicode(&mut self, use_unicode: bool)
        ensures
            final(self).display.use_unicode == use_unicode,
            final(self).display.use_colors == old(self).display.use_colors,
            final(self).display.default_width == old(self).display.default_width,
            final(self).display.default_height == old(self).display.default_height,
            final(self).display.color_scheme == old(self).display.color_scheme,
            final(self).display.quality_mode == old(self).display.quality_mode,
            final(self).display.super_sampling == old(self).display.super_sampling,
            final(self).fractal == old(self).fractal,
            final(self).performance == old(self).performance,
            final(self).controls == old(self).controls,
    {
        self.display.use_unicode = use_unicode;
    }

    pub fn set_fractal_defaults(
        &mut self,
        zoom: Scalar,
        center_x: Scalar,
        center_y: Scalar,
        max_iterations: u32,
    )
        ensures
            final(self).fractal.default_zoom == zoom,
            final(self).fractal.default_center_x == center_x,
            final(self).fractal.default_center_y == center_y,
            final(self).fractal.default_max_iterations == max_iterations,
            final(self).fractal.auto_generation_interval_ms == old(
                self,
            ).fractal.auto_generation_interval_ms,
            final(self).fractal.zoom_step == old(self).fractal.zoom_step,
            final(self).fractal.pan_step == old(self).fractal.pan_step,
            final(self).display == old(self).display,
            final(self).performance == old(self).performance,
            final(self).controls == old(self).controls,
    {
        self.fractal.default_zoom = zoom;
        self.fractal.default_center_x = center_x;
        self.fractal.default_center_y = center_y;
        self.fractal.default_max_iterations = max_iterations;
    }

    pub fn toggle_parallel_processing(&mut self)
        ensures
            final(self).performance.use_parallel_processing == !old(
                self,
            ).performance.use_parallel_processing,
            final(self).performance.thread_count == old(self).performance.thread_count,
            final(self).performance.enable_caching == old(self).performance.enable_caching,
            final(self).performance.max_cache_size == old(self).performance.max_cache_size,
            final(self).display == old(self).display,
            final(self).fractal == old(self).fractal,
            final(self).controls == old(self).controls,
    {
        self.performance.use_parallel_processing = !self.performance.use_parallel_processing;
    }
}

impl Default for Config {
    /// Colours and block glyphs on a grid of 80 by 40, high detail without
    /// super-sampling; zoom 1 at (-0.5, 0) with 100 iterations, a zoom step of
    /// 1.5, a pan step of 0.1 and two seconds between auto-generated views;
    /// parallel processing on as many threads as there are cores, with a cache
    /// of up to 100 grids; `+` and `-` for zooming at unit speed and ten
    /// iterations per step. It breaks no rule.
    fn default() -> (config: Config)
        ensures
            config.display.use_colors,
            config.display.use_unicode,
            config.display.default_width == 80,
            config.display.default_height == 40,
            config.display.color_scheme@ == "default"@,
            config.display.quality_mode,
            !config.display.super_sampling,
            config.fractal.default_zoom.bits == ONE_BITS,
            config.fractal.default_center_x.bits == MINUS_HALF_BITS,
            config.fractal.default_center_y.bits == ZERO_BITS,
            config.fractal.default_max_iterations == 100,
            config.fractal.auto_generation_interval_ms == 2000,
            config.fractal.zoom_step.bits == ONE_AND_A_HALF_BITS,
            config.fractal.pan_step.bits == ONE_TENTH_BITS,
            config.performance.use_parallel_processing,
            config.performance.thread_count.is_none(),
            config.performance.enable_caching,
            config.performance.max_cache_size == 100,
            config.controls.zoom_in_key@ == "+"@,
            config.controls.zoom_out_key@ == "-"@,
            config.controls.pan_speed.bits == ONE_BITS,
            config.controls.zoom_speed.bits == ONE_BITS,
            config.controls.iteration_step == 10,
            config.first_fault().is_none(),
    {
        Config {
            display: DisplayConfig {
                use_colors: true,
                use_unicode: true,
                default_width: 80,
                default_height: 40,
                color_scheme: "default".to_string(),
                quality_mode: true,
                super_sampling: false,
            },
            fractal: FractalConfig {
                default_zoom: Scalar::from_bits(ONE_BITS),
                default_center_x: Scalar::from_bits(MINUS_HALF_BITS),
                default_center_y: Scalar::from_bits(ZERO_BITS),
                default_max_iterations: 100,
                auto_generation_interval_ms: 2000,
                zoom_step: Scalar::from_bits(ONE_AND_A_HALF_BITS),
                pan_step: Scalar::from_bits(ONE_TENTH_BITS),
            },
            performance: PerformanceConfig {
                use_parallel_processing: true,
                thread_count: None,
                enable_caching: true,
                max_cache_size: 100,
            },
            controls: ControlsConfig {
                zoom_in_key: "+".to_string(),
                zoom_out_key: "-".to_string(),
                pan_speed: Scalar::from_bits(ONE_BITS),
                zoom_speed: Scalar::from_bits(ONE_BITS),
                iteration_step: 10,
            },
        }
    }
}

} // verus!

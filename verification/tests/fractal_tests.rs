use fractal_generator::{
    Complex, EscapeRule, FractalGenerator, FractalParams, FractalType, SamplePlan, Scalar,
};
use num_complex::Complex as NumComplex;

fn scalar(x: f64) -> Scalar {
    Scalar::from_bits(x.to_bits())
}

fn number(s: Scalar) -> f64 {
    f64::from_bits(s.to_bits())
}

fn escape_time(rule: EscapeRule, point: NumComplex<f64>, budget: u32) -> u32 {
    let (mut z, c) = match rule {
        EscapeRule::Julia { c } => (point, NumComplex::new(number(c.re), number(c.im))),
        _ => (NumComplex::new(0.0, 0.0), point),
    };
    let mut iterations = 0;
    while iterations < budget && z.norm_sqr() <= 4.0 {
        z = match rule {
            EscapeRule::Mandelbrot | EscapeRule::Julia { .. } => z * z + c,
            EscapeRule::BurningShip => {
                let folded = NumComplex::new(z.re.abs(), z.im.abs());
                folded * folded + c
            }
            EscapeRule::Tricorn => z.conj() * z.conj() + c,
            EscapeRule::Multibrot { power } => z.powf(number(power)) + c,
        };
        iterations += 1;
    }
    fractal_generator::fractal::settle(scalar(z.norm_sqr()), iterations, budget)
}

fn sample(plan: &SamplePlan, params: &FractalParams) -> Vec<Vec<u32>> {
    let zoom = number(params.zoom);
    let x_min = number(params.center_x) - 2.0 / zoom;
    let x_max = number(params.center_x) + 2.0 / zoom;
    let y_min = number(params.center_y) - 2.0 / zoom;
    let y_max = number(params.center_y) + 2.0 / zoom;
    let x_scale = (x_max - x_min) / plan.image_width as f64;
    let y_scale = (y_max - y_min) / plan.image_height as f64;
    (0..plan.rows)
        .map(|sy| {
            (0..plan.columns)
                .map(|sx| {
                    let (px, py) = plan.pixel(sx, sy);
                    let point = NumComplex::new(x_min + px as f64 * x_scale, y_min + py as f64 * y_scale);
                    escape_time(plan.rule, point, plan.budget)
                })
                .collect()
        })
        .collect()
}

fn generate(generator: &FractalGenerator, params: &FractalParams) -> Vec<Vec<u32>> {
    let plan = generator.sample_plan(params);
    let samples = sample(&plan, params);
    assert!(plan.fits(&samples));
    generator.generate(params, &samples)
}

fn plain_generator() -> FractalGenerator {
    let mut generator = FractalGenerator::new();
    generator.set_adaptive_sampling(false);
    generator.set_quality_mode(false);
    generator
}

fn params(width: usize, height: usize, zoom: f64, max_iterations: u32) -> FractalParams {
    FractalParams {
        fractal_type: FractalType::Mandelbrot,
        width,
        height,
        zoom: scalar(zoom),
        center_x: scalar(-0.5),
        center_y: scalar(0.0),
        max_iterations,
    }
}

#[test]
fn budget_is_unchanged_without_modes() {
    let generator = plain_generator();
    assert_eq!(generator.effective_iterations(0), 0);
    assert_eq!(generator.effective_iterations(100), 100);
    assert_eq!(generator.effective_iterations(u32::MAX), u32::MAX);
}

#[test]
fn budget_in_performance_mode_is_half_but_at_least_twenty() {
    let mut generator = plain_generator();
    generator.set_performance_mode(true);
    assert_eq!(generator.effective_iterations(100), 50);
    assert_eq!(generator.effective_iterations(41), 20);
    assert_eq!(generator.effective_iterations(40), 20);
    assert_eq!(generator.effective_iterations(39), 20);
    assert_eq!(generator.effective_iterations(0), 20);
    assert_eq!(generator.effective_iterations(u32::MAX), u32::MAX / 2);
}

#[test]
fn budget_in_quality_mode_is_one_and_a_half_but_at_most_512() {
    let mut generator = plain_generator();
    generator.set_quality_mode(true);
    assert_eq!(generator.effective_iterations(100), 150);
    assert_eq!(generator.effective_iterations(101), 151);
    assert_eq!(generator.effective_iterations(341), 511);
    assert_eq!(generator.effective_iterations(342), 512);
    assert_eq!(generator.effective_iterations(1000), 512);
    assert_eq!(generator.effective_iterations(u32::MAX), 512);
    assert_eq!(generator.effective_iterations(0), 0);
    assert_eq!(generator.effective_iterations(1), 1);
}

#[test]
fn performance_mode_wins_over_quality_mode() {
    let mut generator = plain_generator();
    generator.set_quality_mode(true);
    generator.set_performance_mode(true);
    assert_eq!(generator.effective_iterations(100), 50);
    assert_eq!(generator.effective_iterations(1000), 500);
}

#[test]
fn adaptive_sampling_needs_the_switch_and_a_zoom_above_ten() {
    let mut generator = FractalGenerator::new();
    assert!(!generator.uses_adaptive_sampling(&params(4, 4, 10.0, 50)));
    assert!(generator.uses_adaptive_sampling(&params(4, 4, 10.000000000000002, 50)));
    assert!(generator.uses_adaptive_sampling(&params(4, 4, 15.0, 50)));
    assert!(generator.uses_adaptive_sampling(&params(4, 4, f64::INFINITY, 50)));
    assert!(!generator.uses_adaptive_sampling(&params(4, 4, f64::NAN, 50)));
    assert!(!generator.uses_adaptive_sampling(&params(4, 4, -15.0, 50)));
    assert!(!generator.uses_adaptive_sampling(&params(4, 4, 1.0, 50)));
    generator.set_adaptive_sampling(false);
    assert!(!generator.uses_adaptive_sampling(&params(4, 4, 15.0, 50)));
}

#[test]
fn plan_of_a_plain_request_samples_every_pixel() {
    let generator = plain_generator();
    let plan = generator.sample_plan(&params(7, 5, 1.0, 80));
    assert_eq!(
        plan,
        SamplePlan {
            rule: EscapeRule::Mandelbrot,
            image_width: 7,
            image_height: 5,
            step: 1,
            columns: 7,
            rows: 5,
            budget: 80,
        }
    );
    assert_eq!(plan.pixel(6, 4), (6, 4));
}

#[test]
fn plan_of_an_adaptive_request_samples_every_second_pixel() {
    let mut generator = plain_generator();
    generator.set_adaptive_sampling(true);
    let plan = generator.sample_plan(&params(7, 4, 15.0, 80));
    assert_eq!((plan.image_width, plan.image_height), (7, 4));
    assert_eq!(plan.step, 2);
    assert_eq!((plan.columns, plan.rows), (4, 2));
    assert_eq!(plan.pixel(3, 1), (6, 2));
}

#[test]
fn plan_of_a_super_sampled_request_doubles_the_image() {
    let mut generator = plain_generator();
    generator.set_super_sampling(true);
    let plan = generator.sample_plan(&params(7, 4, 15.0, 80));
    assert_eq!((plan.image_width, plan.image_height), (14, 8));
    assert_eq!(plan.step, 1);
    assert_eq!((plan.columns, plan.rows), (14, 8));
    generator.set_adaptive_sampling(true);
    let coarse = generator.sample_plan(&params(7, 4, 15.0, 80));
    assert_eq!((coarse.image_width, coarse.image_height), (14, 8));
    assert_eq!(coarse.step, 2);
    assert_eq!((coarse.columns, coarse.rows), (7, 4));
}

#[test]
fn plan_carries_the_rule_and_custom_falls_back_to_mandelbrot() {
    let generator = plain_generator();
    let c = Complex { re: scalar(-0.7), im: scalar(0.27) };
    let mut request = params(2, 2, 1.0, 10);
    request.fractal_type = FractalType::Julia { c };
    assert_eq!(generator.sample_plan(&request).rule, EscapeRule::Julia { c });
    request.fractal_type = FractalType::BurningShip;
    assert_eq!(generator.sample_plan(&request).rule, EscapeRule::BurningShip);
    request.fractal_type = FractalType::Tricorn;
    assert_eq!(generator.sample_plan(&request).rule, EscapeRule::Tricorn);
    request.fractal_type = FractalType::Multibrot { power: scalar(3.0) };
    assert_eq!(
        generator.sample_plan(&request).rule,
        EscapeRule::Multibrot { power: scalar(3.0) }
    );
    request.fractal_type = FractalType::Custom { equation: "sin(z) + c".to_string() };
    assert_eq!(generator.sample_plan(&request).rule, EscapeRule::Mandelbrot);
    assert_eq!(FractalType::Custom { equation: String::new() }.rule(), EscapeRule::Mandelbrot);
}

#[test]
fn plan_fits_only_samples_of_its_shape() {
    let generator = plain_generator();
    let plan = generator.sample_plan(&params(3, 2, 1.0, 10));
    assert!(plan.fits(&vec![vec![0, 1, 2], vec![3, 4, 5]]));
    assert!(!plan.fits(&vec![vec![0, 1, 2]]));
    assert!(!plan.fits(&vec![vec![0, 1, 2], vec![3, 4]]));
    assert!(!plan.fits(&vec![vec![0, 1], vec![3, 4, 5]]));
    assert!(!plan.fits(&vec![vec![0, 1, 2], vec![3, 4, 5], vec![6, 7, 8]]));
    assert!(!plan.fits(&Vec::new()));
}

#[test]
fn generate_copies_the_samples_and_clamps_them_to_the_budget() {
    let generator = plain_generator();
    let request = params(3, 2, 1.0, 10);
    let samples = vec![vec![0, 10, 11], vec![4, u32::MAX, 9]];
    assert_eq!(generator.generate(&request, &samples), vec![vec![0, 10, 10], vec![4, 10, 9]]);
}

#[test]
fn generate_replicates_coarse_samples_over_blocks() {
    let mut generator = plain_generator();
    generator.set_adaptive_sampling(true);
    let request = params(5, 3, 11.0, 100);
    let samples = vec![vec![1, 2, 3], vec![4, 5, 200]];
    assert_eq!(
        generator.generate(&request, &samples),
        vec![vec![1, 1, 2, 2, 3], vec![1, 1, 2, 2, 3], vec![4, 4, 5, 5, 100]]
    );
}

#[test]
fn generate_averages_a_super_sampled_image() {
    let mut generator = plain_generator();
    generator.set_super_sampling(true);
    let request = params(2, 1, 1.0, 100);
    let samples = vec![vec![1, 2, 10, 20], vec![3, 5, 30, 43]];
    // (1 + 2 + 3 + 5) / 4 = 2 and (10 + 20 + 30 + 43) / 4 = 25, both rounded down
    assert_eq!(generator.generate(&request, &samples), vec![vec![2, 25]]);
}

#[test]
fn generate_with_both_strategies_gives_one_sample_per_cell() {
    let mut generator = plain_generator();
    generator.set_super_sampling(true);
    generator.set_adaptive_sampling(true);
    let request = params(3, 2, 20.0, 100);
    let samples = vec![vec![1, 2, 3], vec![4, 5, 600]];
    let grid = generator.generate(&request, &samples);
    assert_eq!(grid, vec![vec![1, 2, 3], vec![4, 5, 100]]);
    // the blocks of the finished grid are not uniform in this combination
    assert_ne!(grid[0][0], grid[0][1]);
}

#[test]
fn generated_grids_have_the_requested_shape_and_stay_within_the_budget() {
    for &(performance, quality, adaptive, supersampled) in &[
        (false, false, false, false),
        (true, false, false, false),
        (false, true, false, false),
        (false, false, true, false),
        (false, false, false, true),
        (true, true, true, true),
        (false, true, true, true),
    ] {
        let mut generator = FractalGenerator::new();
        generator.set_performance_mode(performance);
        generator.set_quality_mode(quality);
        generator.set_adaptive_sampling(adaptive);
        generator.set_super_sampling(supersampled);
        for &(width, height, zoom) in &[(1, 1, 1.0), (7, 3, 1.0), (6, 5, 12.5), (9, 9, 300.0)] {
            let request = params(width, height, zoom, 60);
            let budget = generator.effective_iterations(60);
            let grid = generate(&generator, &request);
            assert_eq!(grid.len(), height);
            for row in &grid {
                assert_eq!(row.len(), width);
                for &cell in row {
                    assert!(cell <= budget);
                }
            }
        }
    }
}

#[test]
fn the_cell_nearest_the_origin_never_escapes() {
    for &max_iterations in &[50u32, 100, 256] {
        for &(performance, quality) in &[(false, false), (true, false), (false, true)] {
            let mut generator = plain_generator();
            generator.set_performance_mode(performance);
            generator.set_quality_mode(quality);
            let grid = generate(&generator, &params(10, 10, 1.0, max_iterations));
            // pixel (6, 5) maps to -0.1 + 0i, the pixel nearest to the origin
            assert_eq!(grid[5][6], generator.effective_iterations(max_iterations));
        }
    }
}

#[test]
fn adaptive_grids_are_uniform_on_aligned_blocks() {
    let mut generator = plain_generator();
    generator.set_adaptive_sampling(true);
    for &(width, height) in &[(10usize, 10usize), (7, 5), (1, 1), (2, 3)] {
        let mut request = params(width, height, 15.0, 100);
        request.center_x = scalar(-0.745);
        request.center_y = scalar(0.113);
        let grid = generate(&generator, &request);
        for y in 0..height {
            for x in 0..width {
                assert_eq!(grid[y][x], grid[y - y % 2][x - x % 2]);
            }
        }
    }
}

#[test]
fn downsampling_a_uniform_doubled_grid_gives_the_constant() {
    let generator = FractalGenerator::new();
    for &value in &[0u32, 1, 7, 255, u32::MAX] {
        let doubled = vec![vec![value; 6]; 4];
        assert_eq!(generator.downsample_fractal(doubled, 3, 2), vec![vec![value; 3]; 2]);
    }
}

#[test]
fn downsampling_averages_what_is_there_at_the_edges() {
    let generator = FractalGenerator::new();
    let data = vec![vec![10, 20, 31], vec![30, 40]];
    // cell (0, 0): (10 + 20 + 30 + 40) / 4; cell (1, 0): only 31; row 1 has no source
    assert_eq!(generator.downsample_fractal(data, 3, 2), vec![vec![25, 31, 0], vec![0, 0, 0]]);
    assert_eq!(generator.downsample_fractal(Vec::new(), 2, 1), vec![vec![0, 0]]);
    assert_eq!(generator.downsample_fractal(vec![vec![5]], 0, 0), Vec::<Vec<u32>>::new());
    let large = vec![vec![u32::MAX, u32::MAX - 1], vec![u32::MAX - 2, u32::MAX - 4]];
    assert_eq!(generator.downsample_fractal(large, 1, 1), vec![vec![u32::MAX - 2]]);
}

#[test]
fn generate_standard_lays_samples_out_by_the_plan() {
    let generator = FractalGenerator::new();
    let plan = SamplePlan {
        rule: EscapeRule::Tricorn,
        image_width: 3,
        image_height: 3,
        step: 2,
        columns: 2,
        rows: 2,
        budget: 8,
    };
    assert_eq!(
        generator.generate_standard(&plan, &vec![vec![1, 2], vec![9, 4]]),
        vec![vec![1, 1, 2], vec![1, 1, 2], vec![8, 8, 4]]
    );
}

#[test]
fn an_empty_request_gives_an_empty_grid() {
    let generator = FractalGenerator::new();
    assert_eq!(generate(&generator, &params(0, 3, 1.0, 10)), vec![Vec::<u32>::new(); 3]);
    assert_eq!(generate(&generator, &params(3, 0, 1.0, 10)), Vec::<Vec<u32>>::new());
}

#[test]
fn identical_requests_give_identical_grids() {
    let mut generator = FractalGenerator::new();
    generator.set_super_sampling(true);
    let mut request = params(12, 9, 37.5, 120);
    request.fractal_type = FractalType::Multibrot { power: scalar(3.0) };
    assert_eq!(generate(&generator, &request), generate(&generator, &request));
}

#[test]
fn default_generator_is_a_new_generator() {
    let generator = FractalGenerator::default();
    assert!(generator.use_adaptive_sampling);
    assert!(!generator.performance_mode);
    assert!(generator.quality_mode);
    assert!(!generator.super_sampling);
}

#[test]
fn valid_requests_have_cells_a_positive_zoom_and_a_budget() {
    assert!(params(1, 1, 5e-324, 1).is_valid());
    assert!(params(80, 24, 1.0, 100).is_valid());
    assert!(params(80, 24, f64::INFINITY, 100).is_valid());
    assert!(!params(0, 24, 1.0, 100).is_valid());
    assert!(!params(80, 0, 1.0, 100).is_valid());
    assert!(!params(80, 24, 0.0, 100).is_valid());
    assert!(!params(80, 24, -0.0, 100).is_valid());
    assert!(!params(80, 24, -1.0, 100).is_valid());
    assert!(!params(80, 24, f64::NAN, 100).is_valid());
    assert!(!params(80, 24, 1.0, 0).is_valid());
}

#[test]
fn adaptive_grids_replicate_the_even_origin_cells_of_the_full_grid() {
    for fractal_type in [
        FractalType::Mandelbrot,
        FractalType::BurningShip,
        FractalType::Julia { c: Complex { re: scalar(-0.7269), im: scalar(0.1889) } },
    ] {
        for &(width, height) in &[(12usize, 12usize), (9, 7), (1, 1)] {
            let mut request = params(width, height, 25.0, 80);
            request.fractal_type = fractal_type.clone();
            request.center_x = scalar(-0.745);
            request.center_y = scalar(0.113);
            let mut generator = plain_generator();
            let full = generate(&generator, &request);
            generator.set_adaptive_sampling(true);
            let adaptive = generate(&generator, &request);
            for y in 0..height {
                for x in 0..width {
                    assert_eq!(adaptive[y][x], full[y - y % 2][x - x % 2]);
                }
            }
        }
    }
}

#[test]
fn a_sample_that_did_not_escape_holds_the_budget() {
    let mut generator = plain_generator();
    generator.set_quality_mode(true);
    let request = params(2, 2, 1.0, 100);
    let budget = generator.effective_iterations(100);
    assert_eq!(budget, 150);
    let grid = generator.generate(&request, &vec![vec![150, 149], vec![151, u32::MAX]]);
    assert_eq!(grid, vec![vec![150, 149], vec![150, 150]]);
}

#[test]
fn a_degenerate_iteration_counts_as_not_escaped() {
    // an exponent that is no number makes the first step a NaN at every point
    let mut request = params(3, 3, 1.0, 40);
    request.fractal_type = FractalType::Multibrot { power: scalar(f64::NAN) };
    let generator = plain_generator();
    assert_eq!(generate(&generator, &request), vec![vec![40; 3]; 3]);
}

#[test]
fn a_nan_settles_on_the_budget_and_a_number_on_the_iterations() {
    for norm in [f64::NAN, -f64::NAN, f64::INFINITY - f64::INFINITY] {
        assert_eq!(fractal_generator::fractal::settle(scalar(norm), 3, 40), 40);
        assert_eq!(fractal_generator::fractal::settle(scalar(norm), 0, 0), 0);
    }
    for norm in [0.0, -0.0, 3.9, 4.0, 4.1, 1e300, f64::INFINITY, f64::NEG_INFINITY, 5e-324] {
        assert_eq!(fractal_generator::fractal::settle(scalar(norm), 3, 40), 3);
        assert_eq!(fractal_generator::fractal::settle(scalar(norm), 40, 40), 40);
        assert_eq!(fractal_generator::fractal::settle(scalar(norm), 0, 40), 0);
    }
}

#[test]
fn plans_of_the_generator_are_well_formed() {
    for &(adaptive, supersampled) in &[(false, false), (true, false), (false, true), (true, true)] {
        let mut generator = FractalGenerator::new();
        generator.set_adaptive_sampling(adaptive);
        generator.set_super_sampling(supersampled);
        for &(width, height) in &[(0usize, 0usize), (1, 1), (7, 4), (8, 9)] {
            let plan = generator.sample_plan(&params(width, height, 15.0, 10));
            assert!(plan.is_well_formed());
            let mut broken = plan;
            broken.columns += 1;
            assert!(!broken.is_well_formed());
            broken = plan;
            broken.step = 3;
            assert!(!broken.is_well_formed());
            broken.step = 0;
            assert!(!broken.is_well_formed());
        }
    }
}

#[test]
fn any_request_and_any_samples_get_an_answer() {
    let mut generator = plain_generator();
    let request = params(3, 2, 1.0, 10);
    let samples = vec![vec![0, 10, 11], vec![4, 99, 9]];
    assert!(generator.can_plan(&request));
    assert_eq!(generator.try_sample_plan(&request), Some(generator.sample_plan(&request)));
    assert_eq!(
        generator.try_generate(&request, &samples),
        Some(vec![vec![0, 10, 10], vec![4, 10, 9]])
    );
    assert_eq!(generator.try_generate(&request, &vec![vec![0, 10, 11]]), None);
    assert_eq!(generator.try_generate(&request, &vec![vec![0, 10], vec![4, 99]]), None);
    assert_eq!(generator.try_generate(&request, &Vec::new()), None);

    // sizes that cannot be doubled are refused under super-sampling only
    let huge = params(usize::MAX / 2 + 1, 1, 1.0, 10);
    let tall = params(1, usize::MAX, 1.0, 10);
    assert!(generator.can_plan(&huge));
    assert!(generator.try_sample_plan(&huge).is_some());
    generator.set_super_sampling(true);
    for request in [&huge, &tall] {
        assert!(!generator.can_plan(request));
        assert_eq!(generator.try_sample_plan(request), None);
        assert_eq!(generator.try_generate(request, &Vec::new()), None);
    }
    let widest = params(usize::MAX / 2, 0, 1.0, 10);
    assert!(generator.can_plan(&widest));
    assert_eq!(generator.try_generate(&widest, &Vec::new()), Some(Vec::new()));
}

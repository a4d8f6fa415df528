use fractal_generator::app::{
    auto_phase, decrease_iterations, fractal_size, increase_iterations, normal_key_command,
    optimize_iterations, point_of_interest, tour_iterations,
    window_placement, AutoPhase, Command, DisplayArea, Key, Motion, Notice, Reaction,
    WindowPlacement,
};
use fractal_generator::{
    create_cache_key, AppMode, Complex, FractalType, InputMode, Scalar, Session, UI,
};

fn scalar(x: f64) -> Scalar {
    Scalar::from_bits(x.to_bits())
}

fn quiet() -> Reaction {
    Reaction {
        motion: Motion::Stay,
        regenerate: false,
        restart_timer: false,
        resolve_equation: false,
        notice: Notice::Unchanged,
        report_last: false,
    }
}

fn report(notice: Notice) -> Reaction {
    Reaction { notice, ..quiet() }
}

fn redraw(notice: Notice) -> Reaction {
    Reaction { notice, regenerate: true, ..quiet() }
}

fn travel(motion: Motion, notice: Notice) -> Reaction {
    Reaction { motion, notice, regenerate: true, ..quiet() }
}

fn julia_preset() -> FractalType {
    FractalType::Julia { c: Complex { re: scalar(-0.7269), im: scalar(0.1889) } }
}

#[test]
fn a_new_session_is_interactive_at_the_mandelbrot_set() {
    for session in [Session::new(), Session::default()] {
        assert!(!session.should_quit);
        assert_eq!(session.mode, AppMode::Interactive);
        assert_eq!(session.input_mode, InputMode::Normal);
        assert!(!session.show_help);
        assert_eq!(session.max_iterations, 100);
        assert_eq!(session.auto_generation_phase, 0);
        assert_eq!(session.current_equation, "z^2 + c");
        assert_eq!(session.current_fractal_type, FractalType::Mandelbrot);
        assert!(session.fractal_generator.use_adaptive_sampling);
        assert!(session.fractal_generator.quality_mode);
        assert!(session.renderer.use_colors);
        assert!(session.fractal_cache.is_empty());
        assert_eq!(session.fractal_display_area, None);
        assert_eq!(session.last_terminal_size, None);
        assert_eq!(session.zoom_factor, scalar(1.0));
        assert_eq!(session.center_x, scalar(-0.5));
        assert_eq!(session.center_y, scalar(0.0));
        assert_eq!(session.frame_count, 0);
        assert_eq!(session.fps, scalar(0.0));
    }
}

#[test]
fn keys_map_to_commands() {
    let table = [
        (Key::Char('q'), Command::Quit),
        (Key::Esc, Command::Quit),
        (Key::Char('h'), Command::ToggleHelp),
        (Key::F(1), Command::ToggleHelp),
        (Key::Char('1'), Command::EnterInteractive),
        (Key::Char('2'), Command::EnterAutoGenerate),
        (Key::Char('3'), Command::EnterEquationEditor),
        (Key::Char('r'), Command::Regenerate),
        (Key::Char(' '), Command::Regenerate),
        (Key::Char('+'), Command::ZoomIn),
        (Key::Char('='), Command::ZoomIn),
        (Key::Char('-'), Command::ZoomOut),
        (Key::Char('_'), Command::ZoomOut),
        (Key::Up, Command::PanUp),
        (Key::Down, Command::PanDown),
        (Key::Left, Command::PanLeft),
        (Key::Right, Command::PanRight),
        (Key::Char('i'), Command::IncreaseIterations),
        (Key::Char('d'), Command::DecreaseIterations),
        (Key::Char('c'), Command::ResetView),
        (Key::F(2), Command::PresetBurningShip),
        (Key::F(3), Command::PresetJulia),
        (Key::F(4), Command::PresetTricorn),
        (Key::F(5), Command::TogglePerformanceMode),
        (Key::F(6), Command::ToggleAdaptiveSampling),
        (Key::F(7), Command::ClearCache),
        (Key::F(8), Command::ShowStatistics),
        (Key::F(9), Command::ToggleQualityMode),
        (Key::F(10), Command::ToggleSuperSampling),
        (Key::F(0), Command::Nothing),
        (Key::F(11), Command::Nothing),
        (Key::Char('Q'), Command::Nothing),
        (Key::Char('x'), Command::Nothing),
        (Key::Enter, Command::Nothing),
        (Key::Backspace, Command::Nothing),
        (Key::Other, Command::Nothing),
    ];
    for (key, command) in table {
        assert_eq!(normal_key_command(key), command, "{key:?}");
    }
}

#[test]
fn quit_and_help_keys_set_their_flags() {
    let mut session = Session::new();
    assert_eq!(session.handle_key_event(Key::Char('h')), quiet());
    assert!(session.show_help);
    assert_eq!(session.handle_key_event(Key::F(1)), quiet());
    assert!(!session.show_help);
    assert_eq!(session.handle_key_event(Key::Char('q')), quiet());
    assert!(session.should_quit);
    let mut other = Session::new();
    other.handle_normal_key_event(Key::Esc);
    assert!(other.should_quit);
}

#[test]
fn mode_keys_switch_the_mode() {
    let mut session = Session::new();
    session.auto_generation_phase = 77;
    assert_eq!(
        session.handle_key_event(Key::Char('2')),
        Reaction { restart_timer: true, ..report(Notice::SwitchedToAutoGenerate) }
    );
    assert_eq!(session.mode, AppMode::AutoGenerate);
    assert_eq!(session.auto_generation_phase, 0);
    assert_eq!(session.handle_key_event(Key::Char('1')), report(Notice::SwitchedToInteractive));
    assert_eq!(session.mode, AppMode::Interactive);
    assert_eq!(session.handle_key_event(Key::Char('3')), report(Notice::SwitchedToEquationEditor));
    assert_eq!(session.mode, AppMode::EquationEditor);
    assert_eq!(session.input_mode, InputMode::Editing);
}

#[test]
fn navigation_keys_ask_for_motion_and_a_new_grid() {
    let mut session = Session::new();
    let table = [
        (Key::Char('+'), travel(Motion::ZoomIn, Notice::ZoomedIn)),
        (Key::Char('-'), travel(Motion::ZoomOut, Notice::ZoomedOut)),
        (Key::Up, travel(Motion::PanUp, Notice::Panned)),
        (Key::Down, travel(Motion::PanDown, Notice::Panned)),
        (Key::Left, travel(Motion::PanLeft, Notice::Panned)),
        (Key::Right, travel(Motion::PanRight, Notice::Panned)),
        (Key::Char('c'), redraw(Notice::ViewReset)),
        (Key::Char('r'), Reaction { report_last: true, ..redraw(Notice::Regenerated) }),
        (Key::Char(' '), Reaction { report_last: true, ..redraw(Notice::Regenerated) }),
        (Key::F(8), report(Notice::Statistics)),
        (Key::Char('x'), quiet()),
    ];
    for (key, reaction) in table {
        assert_eq!(session.handle_key_event(key), reaction, "{key:?}");
    }
    assert_eq!(session.max_iterations, 100);
    assert_eq!(session.mode, AppMode::Interactive);
    assert!(!session.should_quit);
}

#[test]
fn iteration_keys_step_by_ten_within_ten_and_a_thousand() {
    assert_eq!(increase_iterations(100), 110);
    assert_eq!(increase_iterations(990), 1000);
    assert_eq!(increase_iterations(991), 1000);
    assert_eq!(increase_iterations(1000), 1000);
    assert_eq!(increase_iterations(5000), 1000);
    assert_eq!(increase_iterations(u32::MAX), 1000);
    assert_eq!(increase_iterations(0), 10);
    assert_eq!(decrease_iterations(100), 90);
    assert_eq!(decrease_iterations(20), 10);
    assert_eq!(decrease_iterations(19), 10);
    assert_eq!(decrease_iterations(10), 10);
    assert_eq!(decrease_iterations(0), 10);
    assert_eq!(decrease_iterations(u32::MAX), u32::MAX - 10);

    let mut session = Session::new();
    assert_eq!(
        session.handle_key_event(Key::Char('i')),
        redraw(Notice::IterationsIncreased { to: 110 })
    );
    assert_eq!(session.max_iterations, 110);
    assert_eq!(
        session.handle_key_event(Key::Char('d')),
        redraw(Notice::IterationsDecreased { to: 100 })
    );
    assert_eq!(session.max_iterations, 100);
}

#[test]
fn preset_keys_select_a_family_and_its_label() {
    let mut session = Session::new();
    assert_eq!(session.handle_key_event(Key::F(2)), redraw(Notice::BurningShipSelected));
    assert_eq!(session.current_fractal_type, FractalType::BurningShip);
    assert_eq!(session.current_equation, "Burning Ship");
    assert_eq!(session.handle_key_event(Key::F(3)), redraw(Notice::JuliaSelected));
    assert_eq!(session.current_fractal_type, julia_preset());
    assert_eq!(session.current_equation, "Julia: c = -0.7269 + 0.1889i");
    assert_eq!(session.handle_key_event(Key::F(4)), redraw(Notice::TricornSelected));
    assert_eq!(session.current_fractal_type, FractalType::Tricorn);
    assert_eq!(session.current_equation, "Tricorn");
}

fn with_cached_grid() -> Session {
    let mut session = Session::new();
    let request = session.fractal_params(None);
    session.fractal_cache.store(create_cache_key(&request), &vec![vec![1]]);
    assert_eq!(session.fractal_cache.len(), 1);
    session
}

#[test]
fn toggles_flip_a_switch_and_empty_the_cache() {
    let mut session = with_cached_grid();
    assert_eq!(session.handle_key_event(Key::F(5)), redraw(Notice::PerformanceMode { on: true }));
    assert!(session.fractal_generator.performance_mode);
    assert!(session.fractal_cache.is_empty());
    assert_eq!(session.handle_key_event(Key::F(5)), redraw(Notice::PerformanceMode { on: false }));
    assert!(!session.fractal_generator.performance_mode);

    let mut session = with_cached_grid();
    assert_eq!(session.handle_key_event(Key::F(6)), redraw(Notice::AdaptiveSampling { on: false }));
    assert!(!session.fractal_generator.use_adaptive_sampling);
    assert!(session.fractal_cache.is_empty());

    let mut session = with_cached_grid();
    assert_eq!(session.handle_key_event(Key::F(9)), redraw(Notice::QualityMode { on: false }));
    assert!(!session.fractal_generator.quality_mode);
    assert!(!session.renderer.quality_mode);
    assert!(session.fractal_cache.is_empty());
    session.renderer.set_quality_mode(false);
    assert_eq!(session.handle_key_event(Key::F(9)), redraw(Notice::QualityMode { on: true }));
    assert!(session.fractal_generator.quality_mode);
    assert!(session.renderer.quality_mode);

    let mut session = with_cached_grid();
    assert_eq!(session.handle_key_event(Key::F(10)), redraw(Notice::SuperSampling { on: true }));
    assert!(session.fractal_generator.super_sampling);
    assert!(session.renderer.super_sampling);
    assert!(session.fractal_cache.is_empty());
}

#[test]
fn the_clear_key_reports_how_many_grids_went() {
    let mut session = with_cached_grid();
    assert_eq!(session.handle_key_event(Key::F(7)), report(Notice::CacheCleared { entries: 1 }));
    assert!(session.fractal_cache.is_empty());
    assert_eq!(session.handle_key_event(Key::F(7)), report(Notice::CacheCleared { entries: 0 }));
}

#[test]
fn the_editor_takes_characters_up_to_fifty_bytes() {
    let mut session = Session::new();
    session.handle_key_event(Key::Char('3'));
    for _ in 0..7 {
        assert_eq!(session.handle_key_event(Key::Backspace), quiet());
    }
    assert_eq!(session.current_equation, "");
    assert_eq!(session.handle_key_event(Key::Backspace), quiet());
    assert_eq!(session.current_equation, "");
    for _ in 0..49 {
        assert_eq!(session.handle_key_event(Key::Char('q')), quiet());
    }
    assert_eq!(session.current_equation.len(), 49);
    assert!(!session.should_quit);
    // the last character may carry the equation over the limit
    session.handle_key_event(Key::Char('é'));
    assert_eq!(session.current_equation.len(), 51);
    session.handle_key_event(Key::Char('z'));
    assert_eq!(session.current_equation.len(), 51);
    session.handle_key_event(Key::Backspace);
    assert_eq!(session.current_equation.len(), 49);
    session.handle_key_event(Key::Char('z'));
    assert_eq!(session.current_equation, format!("{}z", "q".repeat(49)));
    for key in [Key::Up, Key::F(5), Key::Other] {
        assert_eq!(session.handle_key_event(key), quiet());
    }
    assert!(!session.fractal_generator.performance_mode);
    assert_eq!(session.input_mode, InputMode::Editing);
}

#[test]
fn escape_leaves_the_editor() {
    let mut session = Session::new();
    session.handle_key_event(Key::Char('3'));
    session.handle_key_event(Key::Char('x'));
    assert_eq!(session.handle_key_event(Key::Esc), report(Notice::EditingCancelled));
    assert_eq!(session.input_mode, InputMode::Normal);
    assert_eq!(session.mode, AppMode::Interactive);
    assert_eq!(session.current_equation, "z^2 + cx");
    assert!(!session.should_quit);
}

#[test]
fn enter_asks_for_the_equation_to_be_resolved() {
    let mut session = Session::new();
    session.handle_key_event(Key::Char('3'));
    assert_eq!(
        session.handle_key_event(Key::Enter),
        Reaction { resolve_equation: true, ..quiet() }
    );
    assert_eq!(session.input_mode, InputMode::Editing);
    assert_eq!(session.apply_equation(None), report(Notice::EquationInvalid));
    assert_eq!(session.input_mode, InputMode::Editing);
    assert_eq!(session.mode, AppMode::EquationEditor);
    assert_eq!(session.current_fractal_type, FractalType::Mandelbrot);
    let choice = (FractalType::Multibrot { power: scalar(4.0) }, "z^4 + c".to_string());
    assert_eq!(session.apply_equation(Some(choice)), redraw(Notice::EquationApplied));
    assert_eq!(session.input_mode, InputMode::Normal);
    assert_eq!(session.mode, AppMode::Interactive);
    assert_eq!(session.current_fractal_type, FractalType::Multibrot { power: scalar(4.0) });
    assert_eq!(session.current_equation, "z^4 + c");
}

#[test]
fn a_new_terminal_size_empties_the_cache() {
    let mut session = with_cached_grid();
    session.fractal_display_area = Some(DisplayArea { width: 80, height: 30 });
    assert!(session.handle_resize_event(120, 40));
    assert_eq!(session.last_terminal_size, Some((120, 40)));
    assert_eq!(session.fractal_display_area, None);
    assert!(session.fractal_cache.is_empty());

    let request = session.fractal_params(None);
    session.fractal_cache.store(create_cache_key(&request), &vec![vec![1]]);
    session.fractal_display_area = Some(DisplayArea { width: 80, height: 30 });
    assert!(!session.handle_resize_event(120, 40));
    assert_eq!(session.fractal_cache.len(), 1);
    assert_eq!(session.fractal_display_area, Some(DisplayArea { width: 80, height: 30 }));
    assert!(session.handle_resize_event(120, 41));
    assert!(session.fractal_cache.is_empty());
}

#[test]
fn the_display_area_is_recorded_when_its_size_is_new() {
    let mut session = Session::new();
    assert!(session.record_display_area(DisplayArea { width: 80, height: 30 }));
    assert_eq!(session.fractal_display_area, Some(DisplayArea { width: 80, height: 30 }));
    assert!(!session.record_display_area(DisplayArea { width: 80, height: 30 }));
    assert!(session.record_display_area(DisplayArea { width: 81, height: 30 }));
    assert!(session.record_display_area(DisplayArea { width: 81, height: 29 }));
    assert_eq!(session.fractal_display_area, Some(DisplayArea { width: 81, height: 29 }));
}

#[test]
fn the_grid_fits_the_display_area_inside_its_border() {
    assert_eq!(fractal_size(None, None), (80, 24));
    assert_eq!(fractal_size(Some((3, 5)), None), (3, 5));
    assert_eq!(fractal_size(Some((3, 5)), Some(DisplayArea { width: 80, height: 30 })), (3, 5));
    assert_eq!(fractal_size(None, Some(DisplayArea { width: 80, height: 30 })), (78, 28));
    assert_eq!(fractal_size(None, Some(DisplayArea { width: 22, height: 12 })), (20, 10));
    assert_eq!(fractal_size(None, Some(DisplayArea { width: 21, height: 11 })), (20, 10));
    assert_eq!(fractal_size(None, Some(DisplayArea { width: 0, height: 1 })), (20, 10));
    assert_eq!(
        fractal_size(None, Some(DisplayArea { width: u16::MAX, height: u16::MAX })),
        (65533, 65533)
    );

    let mut session = Session::new();
    session.max_iterations = 70;
    session.current_fractal_type = FractalType::Tricorn;
    session.record_display_area(DisplayArea { width: 80, height: 30 });
    session.set_viewport(scalar(2.0), scalar(0.25), scalar(-1.0));
    let request = session.fractal_params(None);
    assert_eq!(request.fractal_type, FractalType::Tricorn);
    assert_eq!((request.width, request.height), (78, 28));
    assert_eq!((request.zoom, request.center_x, request.center_y), (scalar(2.0), scalar(0.25), scalar(-1.0)));
    assert_eq!(request.max_iterations, 70);
    let sized = session.fractal_params(Some((5, 6)));
    assert_eq!((sized.width, sized.height), (5, 6));
}

#[test]
fn the_window_shows_the_middle_of_a_grid_that_is_too_large() {
    assert_eq!(
        window_placement(DisplayArea { width: 12, height: 7 }, 30, 4),
        WindowPlacement {
            start_x: 10,
            start_y: 0,
            display_width: 10,
            display_height: 4,
            content_width: 10,
            content_height: 5,
        }
    );
    assert_eq!(
        window_placement(DisplayArea { width: 1, height: 2 }, 5, 5),
        WindowPlacement {
            start_x: 2,
            start_y: 2,
            display_width: 0,
            display_height: 0,
            content_width: 0,
            content_height: 0,
        }
    );
    assert_eq!(
        window_placement(DisplayArea { width: 12, height: 7 }, 10, 5),
        WindowPlacement {
            start_x: 0,
            start_y: 0,
            display_width: 10,
            display_height: 5,
            content_width: 10,
            content_height: 5,
        }
    );
    assert_eq!(window_placement(DisplayArea { width: 12, height: 7 }, 0, 0).display_width, 0);
    assert_eq!(window_placement(DisplayArea { width: 12, height: 7 }, 13, 8).start_x, 1);
    assert_eq!(window_placement(DisplayArea { width: 12, height: 7 }, 13, 8).start_y, 1);
}

#[test]
fn the_tour_has_four_stretches() {
    assert_eq!(auto_phase(0), AutoPhase::MainBulb);
    assert_eq!(auto_phase(200), AutoPhase::MainBulb);
    assert_eq!(auto_phase(201), AutoPhase::Approach { pick_point: true });
    assert_eq!(auto_phase(202), AutoPhase::Approach { pick_point: false });
    assert_eq!(auto_phase(400), AutoPhase::Approach { pick_point: false });
    assert_eq!(auto_phase(401), AutoPhase::DeepZoom);
    assert_eq!(auto_phase(600), AutoPhase::DeepZoom);
    assert_eq!(auto_phase(601), AutoPhase::Restart);
    assert_eq!(auto_phase(u32::MAX), AutoPhase::Restart);
}

#[test]
fn a_step_of_the_tour_moves_the_phase_and_the_budget() {
    let mut session = Session::new();
    assert_eq!(session.begin_auto_update(), AutoPhase::MainBulb);
    assert_eq!(session.auto_generation_phase, 0);
    session.set_viewport(scalar(1.02), scalar(-0.5), scalar(0.0));
    session.finish_auto_update(2);
    assert_eq!(session.auto_generation_phase, 1);
    assert_eq!(session.max_iterations, 100);
    session.max_iterations = 37;
    session.set_viewport(scalar(10.0), scalar(-0.5), scalar(0.0));
    session.finish_auto_update(20);
    assert_eq!(session.max_iterations, 37);
    session.set_viewport(scalar(10.5), scalar(-0.5), scalar(0.0));
    session.finish_auto_update(21);
    assert_eq!(session.max_iterations, 121);
    session.set_viewport(scalar(250.0), scalar(-0.5), scalar(0.0));
    session.finish_auto_update(500);
    assert_eq!(session.max_iterations, 500);
    assert_eq!(session.auto_generation_phase, 4);
    session.auto_generation_phase = u32::MAX;
    session.set_viewport(scalar(1.0), scalar(-0.5), scalar(0.0));
    session.finish_auto_update(2);
    assert_eq!(session.auto_generation_phase, u32::MAX);

    assert_eq!(tour_iterations(scalar(11.0), 22, 5), 122);
    assert_eq!(tour_iterations(scalar(200.0), 400, 5), 500);
    assert_eq!(tour_iterations(scalar(200.5), 401, 5), 500);
    assert_eq!(tour_iterations(scalar(1e300), u32::MAX, 5), 500);
    assert_eq!(tour_iterations(scalar(f64::NAN), 0, 5), 5);
    assert_eq!(tour_iterations(scalar(9.0), 18, 5), 5);
}

#[test]
fn the_tour_restarts_with_the_next_family() {
    let mut session = Session::new();
    let cycle = [
        (FractalType::BurningShip, "Burning Ship"),
        (julia_preset(), "Julia Set"),
        (FractalType::Tricorn, "Tricorn"),
        (FractalType::Multibrot { power: scalar(3.0) }, "Multibrot z^3"),
        (FractalType::Mandelbrot, "z^2 + c"),
        (FractalType::BurningShip, "Burning Ship"),
    ];
    for (family, label) in cycle {
        session.auto_generation_phase = 601;
        session.max_iterations = 321;
        assert_eq!(session.begin_auto_update(), AutoPhase::Restart);
        assert_eq!(session.auto_generation_phase, 0);
        assert_eq!(session.max_iterations, 100);
        assert_eq!(session.current_fractal_type, family);
        assert_eq!(session.current_equation, label);
    }
    session.current_fractal_type = FractalType::Custom { equation: "sin(z)".to_string() };
    session.auto_generation_phase = 900;
    assert_eq!(session.begin_auto_update(), AutoPhase::Restart);
    assert_eq!(session.current_fractal_type, FractalType::Mandelbrot);
    assert_eq!(session.current_equation, "z^2 + c");

    session.auto_generation_phase = 201;
    session.max_iterations = 64;
    assert_eq!(session.begin_auto_update(), AutoPhase::Approach { pick_point: true });
    assert_eq!(session.auto_generation_phase, 201);
    assert_eq!(session.max_iterations, 64);
    assert_eq!(session.current_fractal_type, FractalType::Mandelbrot);
}

#[test]
fn the_budget_follows_the_frame_rate() {
    let zoomed = scalar(6.0);
    // a poor rate takes a tenth off a budget above fifty
    assert_eq!(optimize_iterations(scalar(5.0), zoomed, 100), 90);
    assert_eq!(optimize_iterations(scalar(9.99), zoomed, 55), 50);
    assert_eq!(optimize_iterations(scalar(9.99), zoomed, 56), 50);
    assert_eq!(optimize_iterations(scalar(9.99), zoomed, 57), 51);
    assert_eq!(optimize_iterations(scalar(5.0), zoomed, 50), 50);
    assert_eq!(optimize_iterations(scalar(5.0), zoomed, 7), 7);
    assert_eq!(optimize_iterations(scalar(5.0), zoomed, u32::MAX), 3865470565);
    // rates that are neither poor nor good change nothing
    for fps in [0.0, -0.0, -3.0, 10.0, 20.0, 30.0, f64::NAN] {
        assert_eq!(optimize_iterations(scalar(fps), zoomed, 100), 100);
    }
    // a good rate adds a tenth below two hundred, at a zoom above five
    assert_eq!(optimize_iterations(scalar(31.0), zoomed, 100), 110);
    assert_eq!(optimize_iterations(scalar(31.0), zoomed, 181), 199);
    assert_eq!(optimize_iterations(scalar(31.0), zoomed, 182), 200);
    assert_eq!(optimize_iterations(scalar(31.0), zoomed, 199), 200);
    assert_eq!(optimize_iterations(scalar(31.0), zoomed, 200), 200);
    assert_eq!(optimize_iterations(scalar(31.0), zoomed, 300), 300);
    assert_eq!(optimize_iterations(scalar(31.0), scalar(5.0), 100), 100);
    assert_eq!(optimize_iterations(scalar(f64::INFINITY), zoomed, 9), 9);
    assert_eq!(optimize_iterations(scalar(f64::INFINITY), zoomed, 10), 11);

    let mut session = Session::new();
    session.set_frame_rate(scalar(4.0));
    session.optimize_parameters_for_performance();
    assert_eq!(session.max_iterations, 90);
    session.set_frame_rate(scalar(60.0));
    session.optimize_parameters_for_performance();
    assert_eq!(session.max_iterations, 90);
    session.set_viewport(scalar(8.0), scalar(-0.5), scalar(0.0));
    session.optimize_parameters_for_performance();
    assert_eq!(session.max_iterations, 99);
}

#[test]
fn a_popup_is_centred_by_equal_margins() {
    let _ui = UI::new();
    let _other = UI::default();
    assert_eq!(UI::centered_percentages(60), (20, 60, 20));
    assert_eq!(UI::centered_percentages(20), (40, 20, 40));
    assert_eq!(UI::centered_percentages(70), (15, 70, 15));
    assert_eq!(UI::centered_percentages(100), (0, 100, 0));
    assert_eq!(UI::centered_percentages(0), (50, 0, 50));
    assert_eq!(UI::centered_percentages(61), (19, 61, 19));
}

fn points_of_interest() -> [Complex; 5] {
    [
        Complex { re: scalar(-0.7269), im: scalar(0.1889) },
        Complex { re: scalar(-0.8), im: scalar(0.156) },
        Complex { re: scalar(-0.74529), im: scalar(0.11307) },
        Complex { re: scalar(-0.1), im: scalar(0.651) },
        Complex { re: scalar(-0.75), im: scalar(0.0) },
    ]
}

#[test]
fn the_points_of_interest_are_the_five_documented_ones() {
    for (index, point) in points_of_interest().into_iter().enumerate() {
        assert_eq!(point_of_interest(index), point);
    }
}

#[test]
fn the_reset_key_restores_the_starting_viewport() {
    let mut session = Session::new();
    session.set_viewport(scalar(37.5), scalar(0.25), scalar(-1.0));
    assert_eq!(
        (session.zoom_factor, session.center_x, session.center_y),
        (scalar(37.5), scalar(0.25), scalar(-1.0))
    );
    session.max_iterations = 70;
    assert_eq!(session.handle_key_event(Key::Char('c')), redraw(Notice::ViewReset));
    assert_eq!(
        (session.zoom_factor, session.center_x, session.center_y),
        (scalar(1.0), scalar(-0.5), scalar(0.0))
    );
    assert_eq!(session.max_iterations, 70);
}

#[test]
fn navigation_keys_leave_the_viewport_to_the_caller() {
    let mut session = Session::new();
    session.set_viewport(scalar(3.0), scalar(0.5), scalar(0.75));
    for key in [Key::Char('+'), Key::Char('-'), Key::Up, Key::Down, Key::Left, Key::Right] {
        session.handle_key_event(key);
        assert_eq!(
            (session.zoom_factor, session.center_x, session.center_y),
            (scalar(3.0), scalar(0.5), scalar(0.75))
        );
    }
}

#[test]
fn only_the_regenerate_keys_report_after_the_grid() {
    let mut session = Session::new();
    for code in 0..=128u8 {
        let key = Key::Char(code as char);
        let reaction = session.handle_normal_key_event(key);
        assert_eq!(reaction.report_last, key == Key::Char('r') || key == Key::Char(' '));
    }
    for key in [Key::Up, Key::F(2), Key::F(5), Key::F(7), Key::F(9), Key::Esc, Key::Enter] {
        assert!(!session.handle_normal_key_event(key).report_last);
    }
}

#[test]
fn frames_are_counted_until_the_rate_is_measured() {
    let mut session = Session::new();
    session.count_frame();
    session.count_frame();
    session.count_frame();
    assert_eq!(session.frame_count, 3);
    assert_eq!(session.fps, scalar(0.0));
    session.set_frame_rate(scalar(2.5));
    assert_eq!(session.frame_count, 0);
    assert_eq!(session.fps, scalar(2.5));
    session.count_frame();
    assert_eq!(session.frame_count, 1);
    assert_eq!(session.fps, scalar(2.5));
    session.frame_count = u32::MAX - 1;
    session.count_frame();
    assert_eq!(session.frame_count, u32::MAX);
    session.count_frame();
    assert_eq!(session.frame_count, u32::MAX);
}

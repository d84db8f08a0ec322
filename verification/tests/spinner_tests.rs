use dream_spinner::app_settings::{SettingsRaw, ViewportMode};
use dream_spinner::display::{
    find_primary, resolve_topology, DisplaySurface, TopologyError, ViewportIdentity,
};
use dream_spinner::color::Color;
use dream_spinner::color_scheme::ColorScheme;
use dream_spinner::dreams::{build_dream_by_id, ADream, DreamUpdateRate};
use dream_spinner::dreamspinner::{
    request_updates, DreamSpinner, FPSMeasureData, FrameRate, RepaintRequest, SecondaryViewport,
    StartupError, ViewportCommand, ViewportTarget, RENDER_MEASURE_SIZE,
};

fn display(id: u32, name: &str, x: i32, y: i32, is_primary: bool) -> DisplaySurface {
    DisplaySurface {
        id,
        name: name.to_string(),
        x,
        y,
        scale_bits: 2.0f32.to_bits(),
        is_primary,
    }
}

fn three_displays() -> Vec<DisplaySurface> {
    vec![
        display(10, "right", 1920, 0, false),
        display(11, "main", 0, 0, true),
        display(12, "left", -1920, 40, false),
    ]
}

#[test]
fn the_monitor_reports_nothing_until_its_batch_is_full() {
    assert_eq!(RENDER_MEASURE_SIZE, 10);
    let mut monitor = FPSMeasureData::new();
    assert_eq!(monitor.avg(), None);
    assert_eq!(monitor.worst(), None);
    for i in 0..9u64 {
        monitor.record_timestamp(1_000 + i * 16);
        assert_eq!(monitor.avg(), None);
        assert_eq!(monitor.worst(), None);
    }
    monitor.record_timestamp(1_000 + 9 * 16);
    assert_eq!(monitor.avg(), Some(FrameRate { frames: 9, nanos: 144 }));
    assert_eq!(monitor.worst(), Some(FrameRate { frames: 1, nanos: 16 }));
}

#[test]
fn the_monitor_measures_in_batches() {
    let mut monitor = FPSMeasureData::new();
    let stamps = [0u64, 10, 20, 50, 60, 70, 80, 90, 100, 110];
    for t in stamps {
        monitor.record_timestamp(t);
    }
    assert_eq!(monitor.avg(), Some(FrameRate { frames: 9, nanos: 110 }));
    assert_eq!(monitor.worst(), Some(FrameRate { frames: 1, nanos: 30 }));
    // The rates stay while the next batch is filled.
    for i in 0..9u64 {
        monitor.record_timestamp(1_000 + i * 5);
        assert_eq!(monitor.avg(), Some(FrameRate { frames: 9, nanos: 110 }));
    }
    monitor.record_timestamp(2_000);
    assert_eq!(monitor.avg(), Some(FrameRate { frames: 9, nanos: 1_000 }));
    assert_eq!(monitor.worst(), Some(FrameRate { frames: 1, nanos: 960 }));
}

#[test]
fn rising_time_stamps_give_positive_rates() {
    let mut monitor = FPSMeasureData::new();
    let mut now: u64 = 5;
    let mut v: u32 = 11;
    for _ in 0..10 {
        v = v.wrapping_mul(1_664_525).wrapping_add(1_013_904_223);
        now += 1 + (v >> 12) as u64;
        monitor.record_timestamp(now);
    }
    let avg = monitor.avg().unwrap();
    let worst = monitor.worst().unwrap();
    assert!(avg.frames > 0 && avg.nanos > 0);
    assert!(worst.frames > 0 && worst.nanos > 0);
    let avg_rate = avg.frames as f64 * 1e9 / avg.nanos as f64;
    let worst_rate = worst.frames as f64 * 1e9 / worst.nanos as f64;
    assert!(avg_rate > 0.0 && worst_rate > 0.0 && worst_rate <= avg_rate);
}

#[test]
fn time_that_runs_backwards_counts_as_no_time() {
    let mut monitor = FPSMeasureData::new();
    for t in [100u64, 90, 80, 70, 60, 50, 40, 30, 20, 10] {
        monitor.record_timestamp(t);
    }
    assert_eq!(monitor.avg(), Some(FrameRate { frames: 9, nanos: 0 }));
    assert_eq!(monitor.worst(), Some(FrameRate { frames: 1, nanos: 0 }));
}

#[test]
fn repaint_requests() {
    let rates = [DreamUpdateRate::Smooth, DreamUpdateRate::Fixed(500_000_000)];
    for rate in rates {
        assert_eq!(
            request_updates(ViewportMode::Immediate, false, rate),
            RepaintRequest::NotRequested
        );
    }
    for (mode, primary) in [
        (ViewportMode::Immediate, true),
        (ViewportMode::Deferred, true),
        (ViewportMode::Deferred, false),
    ] {
        assert_eq!(
            request_updates(mode, primary, DreamUpdateRate::Smooth),
            RepaintRequest::AsSoonAsPossible
        );
        assert_eq!(
            request_updates(mode, primary, DreamUpdateRate::Fixed(500_000_000)),
            RepaintRequest::After(500_000_000)
        );
    }
}

#[test]
fn a_released_pointer_closes_every_viewport() {
    let viewports = vec![
        ViewportTarget::Primary,
        ViewportTarget::Secondary(ViewportIdentity { native_id: 4, ordinal: 0 }),
        ViewportTarget::Secondary(ViewportIdentity { native_id: 4, ordinal: 1 }),
    ];
    assert_eq!(DreamSpinner::set_input(false, &viewports), Vec::new());
    assert_eq!(
        DreamSpinner::set_input(true, &viewports),
        vec![
            (viewports[0], ViewportCommand::Close),
            (viewports[1], ViewportCommand::Close),
            (viewports[2], ViewportCommand::Close),
        ]
    );
    assert_eq!(DreamSpinner::set_input(true, &Vec::new()), Vec::new());
}

#[test]
fn eligible_dreams_are_known_and_offered() {
    let mut settings = SettingsRaw::default();
    settings.set_dream_selected("monet", true);
    settings.set_dream_selected("solid_color", true);
    settings.set_dream_selected("dream_of_tomorrow", true);
    assert_eq!(
        DreamSpinner::eligible_dreams(&settings),
        vec!["fractal_clock".to_string(), "solid_color".to_string()]
    );
    settings.set_allow_dev_dreams(true);
    assert_eq!(
        DreamSpinner::eligible_dreams(&settings),
        vec!["fractal_clock".to_string(), "monet".to_string(), "solid_color".to_string()]
    );
    assert_eq!(DreamSpinner::pick_active_dream(&settings, 0).id(), "fractal_clock");
    assert_eq!(DreamSpinner::pick_active_dream(&settings, 1).id(), "monet");
    assert_eq!(DreamSpinner::pick_active_dream(&settings, 2).id(), "solid_color");
}

#[test]
fn the_active_dream_is_one_of_the_eligible_ones() {
    let mut settings = SettingsRaw::default();
    settings.set_dream_selected("solid_color", true);
    settings.set_dream_selected("monet", true);
    settings.set_dream_selected("unknown", true);
    settings.store_dream_settings("solid_color", "s".to_string());
    settings.store_dream_settings("fractal_clock", "f".to_string());
    let mut seen_clock = false;
    let mut seen_solid = false;
    for _ in 0..200 {
        let dream = DreamSpinner::select_active_dream(&settings).unwrap();
        match dream.id() {
            "fractal_clock" => {
                seen_clock = true;
                assert_eq!(dream.settings(), "f");
            }
            "solid_color" => {
                seen_solid = true;
                assert_eq!(dream.settings(), "s");
            }
            other => panic!("{} is not eligible", other),
        }
    }
    assert!(seen_clock && seen_solid);
}

#[test]
fn a_single_eligible_dream_is_always_chosen() {
    let settings = SettingsRaw::default();
    for _ in 0..50 {
        assert_eq!(DreamSpinner::select_active_dream(&settings).unwrap().id(), "fractal_clock");
    }
}

#[test]
fn no_eligible_dream_is_an_error() {
    let mut settings = SettingsRaw::default();
    settings.set_dream_selected("monet", true);
    settings.set_dream_selected("fractal_clock", false);
    assert_eq!(DreamSpinner::eligible_dreams(&settings), Vec::<String>::new());
    assert_eq!(
        DreamSpinner::select_active_dream(&settings).err(),
        Some(StartupError::NoEligibleDream)
    );
    assert_eq!(
        DreamSpinner::new(three_displays(), &settings).err(),
        Some(StartupError::NoEligibleDream)
    );
}

#[test]
fn usable_displays_are_told_before_startup() {
    let settings = SettingsRaw::default();
    assert_eq!(find_primary(&Vec::new()), Err(TopologyError::NoDisplays));
    assert_eq!(find_primary(&vec![display(1, "a", 0, 0, false)]), Err(TopologyError::NoPrimary));
    let displays = three_displays();
    assert_eq!(find_primary(&displays), Ok(1));
    let spinner = DreamSpinner::new(displays, &settings).unwrap();
    assert_eq!(spinner.displays().primary().id, 11);
}

#[test]
fn the_chosen_clock_paints_with_the_scheme_of_the_settings() {
    let mut settings = SettingsRaw::default();
    let mut scheme = ColorScheme::default();
    scheme.name = "Night".to_string();
    scheme.foreground = Color::new(1, 2, 3);
    settings.set_color_scheme(scheme.duplicate());
    let dream = DreamSpinner::select_active_dream(&settings).unwrap();
    match &dream {
        ADream::FractalClock(clock) => assert!(clock.color_scheme().same_as(&scheme)),
        other => panic!("{} was not selected", other.id()),
    }
    let spinner = DreamSpinner::new(three_displays(), &settings).unwrap();
    match spinner.dream() {
        ADream::FractalClock(clock) => assert!(clock.color_scheme().same_as(&scheme)),
        other => panic!("{} was not selected", other.id()),
    }
}

#[test]
fn the_first_frame_places_the_primary_viewport_and_later_frames_do_not() {
    let settings = SettingsRaw::default();
    let mut spinner = DreamSpinner::new(three_displays(), &settings).unwrap();
    assert_eq!(spinner.dream().id(), "fractal_clock");
    let plan = spinner.update(&settings, 0);
    assert_eq!(
        plan.primary_commands,
        vec![
            ViewportCommand::OuterPosition { x: 0, y: 0, scale_bits: 2.0f32.to_bits() },
            ViewportCommand::Fullscreen(true),
        ]
    );
    assert_eq!(plan.secondary, Vec::new());
    assert!(!plan.show_fps);
    for now in 1..5 {
        let plan = spinner.update(&settings, now);
        assert_eq!(plan.primary_commands, Vec::new());
        assert_eq!(plan.secondary, Vec::new());
    }
    assert_eq!(spinner.fps_measurement().avg(), None);
}

#[test]
fn every_frame_shows_the_secondary_viewports() {
    let mut settings = SettingsRaw::default();
    settings.set_attempt_multiscreen(true);
    let mut spinner = DreamSpinner::new(three_displays(), &settings).unwrap();
    assert_eq!(spinner.displays().secondary_len(), 2);
    let want = |mode: ViewportMode| {
        vec![
            SecondaryViewport {
                identity: ViewportIdentity { native_id: 12, ordinal: 0 },
                x: -1920,
                y: 40,
                scale_bits: 2.0f32.to_bits(),
                mode,
            },
            SecondaryViewport {
                identity: ViewportIdentity { native_id: 10, ordinal: 1 },
                x: 1920,
                y: 0,
                scale_bits: 2.0f32.to_bits(),
                mode,
            },
        ]
    };
    let plan = spinner.update(&settings, 0);
    assert_eq!(plan.primary_commands.len(), 2);
    assert_eq!(plan.secondary, want(ViewportMode::Immediate));
    settings.set_viewport_mode(ViewportMode::Deferred);
    let plan = spinner.update(&settings, 1);
    assert_eq!(plan.primary_commands, Vec::new());
    assert_eq!(plan.secondary, want(ViewportMode::Deferred));
    assert_eq!(
        spinner.known_viewports(),
        vec![
            ViewportTarget::Primary,
            ViewportTarget::Secondary(ViewportIdentity { native_id: 12, ordinal: 0 }),
            ViewportTarget::Secondary(ViewportIdentity { native_id: 10, ordinal: 1 }),
        ]
    );
}

#[test]
fn the_frame_rate_is_measured_only_while_it_is_shown() {
    let mut settings = SettingsRaw::default();
    let mut spinner = DreamSpinner::new(three_displays(), &settings).unwrap();
    for now in 0..20 {
        assert!(!spinner.update(&settings, now * 10).show_fps);
    }
    assert_eq!(spinner.fps_measurement().avg(), None);
    settings.set_show_fps(true);
    for now in 0..9 {
        assert!(spinner.update(&settings, 1_000 + now * 10).show_fps);
        assert_eq!(spinner.fps_measurement().avg(), None);
    }
    spinner.update(&settings, 1_090);
    assert_eq!(spinner.fps_measurement().avg(), Some(FrameRate { frames: 9, nanos: 90 }));
    assert_eq!(spinner.fps_measurement().worst(), Some(FrameRate { frames: 1, nanos: 10 }));
}

#[test]
fn after_painting_a_surface() {
    let mut settings = SettingsRaw::default();
    settings.set_attempt_multiscreen(true);
    settings.set_dream_selected("solid_color", true);
    settings.set_dream_selected("fractal_clock", false);
    let topology = resolve_topology(three_displays(), true).unwrap();
    let dream = build_dream_by_id("solid_color", &settings);
    let spinner = DreamSpinner::with_dream(topology, dream);

    let (commands, request) = spinner.after_paint(&settings, true, false);
    assert_eq!(commands, Vec::new());
    assert_eq!(request, RepaintRequest::After(5_000_000_000));
    let (commands, request) = spinner.after_paint(&settings, false, false);
    assert_eq!(commands, Vec::new());
    assert_eq!(request, RepaintRequest::NotRequested);

    settings.set_viewport_mode(ViewportMode::Deferred);
    let (commands, request) = spinner.after_paint(&settings, false, true);
    assert_eq!(request, RepaintRequest::After(5_000_000_000));
    assert_eq!(
        commands,
        vec![
            (ViewportTarget::Primary, ViewportCommand::Close),
            (
                ViewportTarget::Secondary(ViewportIdentity { native_id: 12, ordinal: 0 }),
                ViewportCommand::Close
            ),
            (
                ViewportTarget::Secondary(ViewportIdentity { native_id: 10, ordinal: 1 }),
                ViewportCommand::Close
            ),
        ]
    );
}

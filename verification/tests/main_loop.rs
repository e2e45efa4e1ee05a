use ne_app::event::{
    AppExit, Events, OnCursorEntered, OnCursorLeft, OnFileDragAndDrop, OnReceivedCharacter,
    OnRedrawRequested, OnWindowCloseRequested, OnWindowFocused, OnWindowResized,
    OnWindowScaleFactorChanged,
};
use ne_app::input::{ElementState, KeyCode, MouseButton, PhysicalSize, WindowEvent, WindowId};
use ne_app::main_loop::{
    init_renderer, to_world_event, CursorReaction, FrameOutcome, MainLoop, Phase, Tick, WorldEvent,
};
use ne_app::render::{Acquisition, InputRoute, Pass, State, SurfaceError};
use ne_app::window::{
    Fullscreen, PresentMode, ScaleFactor, VideoMode, WindowError, WindowMode, WindowSettings,
};

const WINDOW: WindowId = WindowId(1);
const OTHER_WINDOW: WindowId = WindowId(2);

fn size(width: u32, height: u32) -> PhysicalSize {
    PhysicalSize { width, height }
}

fn main_loop_with(drawables: Vec<u64>, overlay: bool) -> MainLoop<u8> {
    let state = State::new(
        size(640, 480),
        Acquisition::Acquired { formats: vec![7u8] },
        PresentMode::Immediate,
        drawables,
        overlay,
    )
    .unwrap();
    MainLoop::new(state, WINDOW, 1_000)
}

fn main_loop() -> MainLoop<u8> {
    main_loop_with(vec![1, 2], false)
}

fn escape() -> WindowEvent {
    WindowEvent::KeyboardInput { key: Some(KeyCode::Escape), state: ElementState::Pressed }
}

fn dimensions(main_loop: &MainLoop<u8>) -> (u32, u32) {
    let config = main_loop.state.surface_config();
    (config.width, config.height)
}

#[test]
fn a_new_loop_is_ready() {
    let main_loop = main_loop();
    assert_eq!(main_loop.phase, Phase::Ready);
    assert_eq!(main_loop.window, WINDOW);
    assert_eq!(main_loop.last_render_time, 1_000);
    assert!(main_loop.is_listening(WINDOW));
    assert!(!main_loop.is_listening(OTHER_WINDOW));
}

#[test]
fn each_turn_asks_for_a_redraw_and_ticks_the_app() {
    let main_loop = main_loop();
    assert_eq!(main_loop.main_events_cleared(), Tick { request_redraw: true, update: true });
}

#[test]
fn window_events_become_world_events() {
    let inner = size(800, 600);
    let cases = vec![
        (
            WindowEvent::CloseRequested,
            Some(WorldEvent::WindowCloseRequested(OnWindowCloseRequested { id: WINDOW })),
        ),
        (
            WindowEvent::Resized(size(1, 2)),
            Some(WorldEvent::WindowResized(OnWindowResized { id: WINDOW, width: 800, height: 600 })),
        ),
        (
            WindowEvent::ScaleFactorChanged {
                scale_factor: ScaleFactor { bits: 1.5f64.to_bits() },
                new_inner_size: size(3, 4),
            },
            Some(WorldEvent::WindowScaleFactorChanged(OnWindowScaleFactorChanged {
                id: WINDOW,
                scale_factor: ScaleFactor { bits: 1.5f64.to_bits() },
            })),
        ),
        (
            WindowEvent::Focused(true),
            Some(WorldEvent::WindowFocused(OnWindowFocused { id: WINDOW, focused: true })),
        ),
        (
            WindowEvent::Focused(false),
            Some(WorldEvent::WindowFocused(OnWindowFocused { id: WINDOW, focused: false })),
        ),
        (
            WindowEvent::HoveredFile("/tmp/a.obj".to_string()),
            Some(WorldEvent::FileDragAndDrop(OnFileDragAndDrop::HoveredFile {
                id: WINDOW,
                path_buf: "/tmp/a.obj".to_string(),
            })),
        ),
        (
            WindowEvent::DroppedFile("/tmp/b.obj".to_string()),
            Some(WorldEvent::FileDragAndDrop(OnFileDragAndDrop::DroppedFile {
                id: WINDOW,
                path_buf: "/tmp/b.obj".to_string(),
            })),
        ),
        (
            WindowEvent::CursorEntered,
            Some(WorldEvent::CursorEntered(OnCursorEntered { id: WINDOW })),
        ),
        (WindowEvent::CursorLeft, Some(WorldEvent::CursorLeft(OnCursorLeft { id: WINDOW }))),
        (
            WindowEvent::ReceivedCharacter('q'),
            Some(WorldEvent::ReceivedCharacter(OnReceivedCharacter { id: WINDOW, char: 'q' })),
        ),
        (WindowEvent::CursorMoved, None),
        (WindowEvent::MouseWheel, None),
        (escape(), None),
        (
            WindowEvent::MouseInput { button: MouseButton::Left, state: ElementState::Pressed },
            None,
        ),
        (WindowEvent::Other, None),
    ];
    for (event, expected) in cases {
        assert_eq!(to_world_event(WINDOW, &event, inner), expected);
        let mut main_loop = main_loop();
        let reaction = main_loop.window_event(WINDOW, &event, false, inner);
        assert_eq!(reaction.send, expected);
    }
}

#[test]
fn a_resize_reconfigures_and_is_reported_with_the_inner_size() {
    let mut main_loop = main_loop();
    let reaction =
        main_loop.window_event(WINDOW, &WindowEvent::Resized(size(800, 600)), false, size(801, 601));
    let reconfigure = reaction.reconfigure.unwrap();
    assert_eq!((reconfigure.width, reconfigure.height), (800, 600));
    assert_eq!(dimensions(&main_loop), (800, 600));
    assert_eq!(main_loop.state.aspect(), size(800, 600));
    assert_eq!(
        reaction.send,
        Some(WorldEvent::WindowResized(OnWindowResized { id: WINDOW, width: 801, height: 601 }))
    );
    assert!(!reaction.exit);
    assert!(!reaction.overlay);
}

#[test]
fn resize_events_through_a_minimised_window() {
    let mut main_loop = main_loop();
    let mut seen = vec![];
    for new_size in [size(800, 600), size(0, 0), size(1024, 768)] {
        let reaction =
            main_loop.window_event(WINDOW, &WindowEvent::Resized(new_size), false, new_size);
        seen.push((reaction.reconfigure.is_some(), dimensions(&main_loop)));
        assert!(reaction.send.is_some());
    }
    assert_eq!(seen, vec![(true, (800, 600)), (false, (800, 600)), (true, (1024, 768))]);
}

#[test]
fn a_change_of_scale_resizes_too() {
    let mut main_loop = main_loop();
    let event = WindowEvent::ScaleFactorChanged {
        scale_factor: ScaleFactor { bits: 2.0f64.to_bits() },
        new_inner_size: size(1280, 960),
    };
    let reaction = main_loop.window_event(WINDOW, &event, false, size(1280, 960));
    assert!(reaction.reconfigure.is_some());
    assert_eq!(dimensions(&main_loop), (1280, 960));
    assert!(matches!(reaction.send, Some(WorldEvent::WindowScaleFactorChanged(_))));
}

#[test]
fn escape_stops_the_loop() {
    let mut main_loop = main_loop();
    let reaction = main_loop.window_event(WINDOW, &escape(), false, size(640, 480));
    assert!(reaction.exit);
    assert_eq!(reaction.send, None);
    assert!(reaction.reconfigure.is_none());
    assert_eq!(main_loop.phase, Phase::Exiting);
    let released =
        WindowEvent::KeyboardInput { key: Some(KeyCode::Escape), state: ElementState::Released };
    let mut other = self::main_loop();
    assert!(!other.window_event(WINDOW, &released, false, size(640, 480)).exit);
    assert_eq!(other.phase, Phase::Ready);
}

#[test]
fn events_that_were_dealt_with_or_are_of_another_window_do_nothing() {
    let mut main_loop = main_loop_with(vec![], true);
    for (window, handled) in [(WINDOW, true), (OTHER_WINDOW, false), (OTHER_WINDOW, true)] {
        for event in [escape(), WindowEvent::Resized(size(800, 600)), WindowEvent::CloseRequested] {
            let reaction = main_loop.window_event(window, &event, handled, size(800, 600));
            assert!(!reaction.overlay);
            assert!(!reaction.exit);
            assert!(reaction.send.is_none());
            assert!(reaction.reconfigure.is_none());
        }
    }
    assert_eq!(main_loop.phase, Phase::Ready);
    assert_eq!(dimensions(&main_loop), (640, 480));
    let reaction = main_loop.window_event(WINDOW, &WindowEvent::CursorMoved, false, size(1, 1));
    assert!(reaction.overlay);
    assert!(reaction.send.is_none());
}

#[test]
fn input_is_routed_for_the_window_of_the_loop_only() {
    let mut main_loop = main_loop();
    let right = WindowEvent::MouseInput { button: MouseButton::Right, state: ElementState::Pressed };
    assert_eq!(main_loop.input(OTHER_WINDOW, &right), InputRoute::Unhandled);
    assert!(!main_loop.state.is_right_mouse_pressed());
    assert_eq!(main_loop.input(WINDOW, &right), InputRoute::RightButton);
    assert!(main_loop.state.is_right_mouse_pressed());
    assert_eq!(
        main_loop.input(WINDOW, &escape()),
        InputRoute::CameraKey { key: KeyCode::Escape, state: ElementState::Pressed }
    );
}

#[test]
fn the_mouse_turns_the_camera_while_the_right_button_is_held() {
    let mut main_loop = main_loop();
    assert_eq!(
        main_loop.mouse_motion(size(641, 480)),
        Some(CursorReaction { turn_camera: false, cursor_visible: true, cursor_position: None })
    );
    let right = WindowEvent::MouseInput { button: MouseButton::Right, state: ElementState::Pressed };
    main_loop.input(WINDOW, &right);
    assert_eq!(
        main_loop.mouse_motion(size(641, 480)),
        Some(CursorReaction {
            turn_camera: true,
            cursor_visible: false,
            cursor_position: Some(size(320, 240)),
        })
    );
}

#[test]
fn a_frame_begins_with_the_time_since_the_last_one() {
    let mut main_loop = main_loop();
    assert_eq!(main_loop.redraw_requested(WINDOW, 1_016), Some(16));
    assert_eq!(main_loop.last_render_time, 1_016);
    assert_eq!(main_loop.redraw_requested(OTHER_WINDOW, 2_000), None);
    assert_eq!(main_loop.last_render_time, 1_016);
    assert_eq!(main_loop.redraw_requested(WINDOW, 1_016), Some(0));
    assert_eq!(main_loop.redraw_requested(WINDOW, 1_000), Some(0));
    assert_eq!(main_loop.last_render_time, 1_000);
}

#[test]
fn a_frame_with_a_texture_is_presented_whole() {
    let mut main_loop = main_loop_with(vec![5, 6], true);
    let reaction = main_loop.frame_acquired(Ok(()));
    assert!(matches!(reaction.outcome, FrameOutcome::Present));
    assert_eq!(
        reaction.passes,
        vec![Pass::Clear, Pass::Draw { drawable: 5 }, Pass::Draw { drawable: 6 }, Pass::Overlay]
    );
    assert_eq!(reaction.send, Some(OnRedrawRequested {}));
    assert_eq!(main_loop.phase, Phase::Ready);
}

#[test]
fn a_lost_surface_is_configured_again_and_the_next_frame_presented() {
    for cause in [SurfaceError::Lost, SurfaceError::Outdated] {
        let mut main_loop = main_loop();
        let failed = main_loop.frame_acquired(Err(cause));
        match failed.outcome {
            FrameOutcome::Reconfigure(Some(config)) => {
                assert_eq!((config.width, config.height), (640, 480));
                assert_eq!(config.format, 7);
            }
            _ => panic!("the surface is to be configured again"),
        }
        assert!(failed.passes.is_empty());
        assert_eq!(failed.send, Some(OnRedrawRequested {}));
        assert_eq!(main_loop.phase, Phase::Ready);
        assert_eq!(dimensions(&main_loop), (640, 480));
        let next = main_loop.frame_acquired(Ok(()));
        assert!(matches!(next.outcome, FrameOutcome::Present));
        assert_eq!(
            next.passes,
            vec![Pass::Clear, Pass::Draw { drawable: 1 }, Pass::Draw { drawable: 2 }]
        );
    }
}

#[test]
fn no_frame_is_drawn_for_a_window_without_pixels() {
    let state =
        State::new(size(0, 0), Acquisition::Acquired { formats: vec![7u8] }, PresentMode::Fifo, vec![], false)
            .unwrap();
    let mut main_loop = MainLoop::new(state, WINDOW, 0);
    assert_eq!(main_loop.redraw_requested(WINDOW, 10), None);
    assert_eq!(main_loop.last_render_time, 0);
    let frame = main_loop.frame_acquired(Err(SurfaceError::Lost));
    assert!(matches!(frame.outcome, FrameOutcome::Skip));
    assert_eq!(frame.send, None);
    assert_eq!(main_loop.phase, Phase::Ready);
}

#[test]
fn rendering_is_suppressed_from_an_empty_resize_to_the_next_resize_with_pixels() {
    let mut main_loop = main_loop();
    assert_eq!(main_loop.redraw_requested(WINDOW, 1_010), Some(10));
    let minimised =
        main_loop.window_event(WINDOW, &WindowEvent::Resized(size(0, 0)), false, size(0, 0));
    assert!(minimised.reconfigure.is_none());
    assert!(minimised.send.is_some());
    assert_eq!(main_loop.phase, Phase::Ready);
    assert_eq!(dimensions(&main_loop), (640, 480));
    assert_eq!(main_loop.state.aspect(), size(640, 480));
    for now in [1_020, 1_030, 1_040] {
        assert_eq!(main_loop.redraw_requested(WINDOW, now), None);
        assert_eq!(main_loop.last_render_time, 1_010);
        let frame = main_loop.frame_acquired(Ok(()));
        assert!(matches!(frame.outcome, FrameOutcome::Skip));
        assert!(frame.passes.is_empty());
        assert_eq!(frame.send, None);
    }
    let right = WindowEvent::MouseInput { button: MouseButton::Right, state: ElementState::Pressed };
    main_loop.input(WINDOW, &right);
    main_loop.window_event(WINDOW, &WindowEvent::Focused(true), false, size(0, 0));
    main_loop.window_event(WINDOW, &WindowEvent::Resized(size(0, 600)), false, size(0, 600));
    assert_eq!(main_loop.redraw_requested(WINDOW, 1_050), None);
    assert_eq!(main_loop.main_events_cleared(), Tick { request_redraw: true, update: true });
    let restored =
        main_loop.window_event(WINDOW, &WindowEvent::Resized(size(800, 600)), false, size(800, 600));
    assert!(restored.reconfigure.is_some());
    assert_eq!(main_loop.redraw_requested(WINDOW, 1_060), Some(50));
    let frame = main_loop.frame_acquired(Ok(()));
    assert!(matches!(frame.outcome, FrameOutcome::Present));
    assert_eq!(frame.passes.len(), 3);
    assert_eq!(dimensions(&main_loop), (800, 600));
}

#[test]
fn a_change_of_scale_to_no_pixels_suppresses_rendering_too() {
    let mut main_loop = main_loop();
    let event = WindowEvent::ScaleFactorChanged {
        scale_factor: ScaleFactor { bits: 2.0f64.to_bits() },
        new_inner_size: size(0, 0),
    };
    main_loop.window_event(WINDOW, &event, false, size(0, 0));
    assert!(main_loop.state.is_suppressed());
    assert_eq!(main_loop.redraw_requested(WINDOW, 2_000), None);
    assert_eq!(dimensions(&main_loop), (640, 480));
}

#[test]
fn input_leaves_the_size_alone() {
    let mut main_loop = main_loop();
    let right = WindowEvent::MouseInput { button: MouseButton::Right, state: ElementState::Pressed };
    main_loop.input(WINDOW, &right);
    main_loop.input(WINDOW, &escape());
    main_loop.input(WINDOW, &WindowEvent::Resized(size(1, 1)));
    assert_eq!(dimensions(&main_loop), (640, 480));
    assert_eq!(main_loop.state.size(), size(640, 480));
    assert_eq!(main_loop.state.aspect(), size(640, 480));
    assert!(!main_loop.state.is_suppressed());
}

#[test]
fn a_timeout_skips_the_frame() {
    let mut main_loop = main_loop();
    for _ in 0..3 {
        let reaction = main_loop.frame_acquired(Err(SurfaceError::Timeout));
        assert!(matches!(reaction.outcome, FrameOutcome::Skip));
        assert!(reaction.passes.is_empty());
        assert_eq!(reaction.send, Some(OnRedrawRequested {}));
        assert_eq!(main_loop.phase, Phase::Ready);
    }
    assert!(matches!(main_loop.frame_acquired(Ok(())).outcome, FrameOutcome::Present));
}

#[test]
fn out_of_memory_stops_the_loop() {
    let mut main_loop = main_loop();
    let reaction = main_loop.frame_acquired(Err(SurfaceError::OutOfMemory));
    assert!(matches!(reaction.outcome, FrameOutcome::Exit));
    assert!(reaction.passes.is_empty());
    assert_eq!(reaction.send, Some(OnRedrawRequested {}));
    assert_eq!(main_loop.phase, Phase::Exiting);
}

#[test]
fn an_exit_event_stops_the_loop_within_the_turn() {
    let mut main_loop = main_loop();
    let mut exits: Events<AppExit> = Events::new();
    assert!(!main_loop.redraw_events_cleared(None));
    assert!(!main_loop.redraw_events_cleared(Some(&exits)));
    assert_eq!(main_loop.phase, Phase::Ready);
    exits.send(AppExit {});
    assert!(main_loop.redraw_events_cleared(Some(&exits)));
    assert_eq!(main_loop.phase, Phase::Exiting);
}

#[test]
fn an_exit_event_is_seen_once() {
    let mut exits: Events<AppExit> = Events::new();
    exits.send(AppExit {});
    let mut main_loop = main_loop();
    let mut reader = main_loop.app_exit_event_reader;
    assert_eq!(reader.iter(&exits).len(), 1);
    main_loop.app_exit_event_reader = reader;
    assert!(!main_loop.redraw_events_cleared(Some(&exits)));
    assert_eq!(main_loop.phase, Phase::Ready);
    exits.update();
    exits.send(AppExit {});
    assert!(main_loop.redraw_events_cleared(Some(&exits)));
}

#[test]
fn nothing_happens_once_the_loop_is_exiting() {
    let mut main_loop = main_loop();
    main_loop.window_event(WINDOW, &escape(), false, size(640, 480));
    assert_eq!(main_loop.phase, Phase::Exiting);
    assert_eq!(main_loop.main_events_cleared(), Tick { request_redraw: false, update: false });
    let reaction =
        main_loop.window_event(WINDOW, &WindowEvent::Resized(size(800, 600)), false, size(800, 600));
    assert!(reaction.reconfigure.is_none());
    assert!(reaction.send.is_none());
    assert_eq!(dimensions(&main_loop), (640, 480));
    assert_eq!(main_loop.redraw_requested(WINDOW, 5_000), None);
    assert_eq!(main_loop.last_render_time, 1_000);
    let frame = main_loop.frame_acquired(Ok(()));
    assert!(matches!(frame.outcome, FrameOutcome::Skip));
    assert!(frame.passes.is_empty());
    assert_eq!(frame.send, None);
    assert_eq!(main_loop.mouse_motion(size(640, 480)), None);
    let right = WindowEvent::MouseInput { button: MouseButton::Right, state: ElementState::Pressed };
    assert_eq!(main_loop.input(WINDOW, &right), InputRoute::Unhandled);
    assert!(!main_loop.state.is_right_mouse_pressed());
    let mut exits: Events<AppExit> = Events::new();
    exits.send(AppExit {});
    assert!(!main_loop.redraw_events_cleared(Some(&exits)));
    assert_eq!(main_loop.phase, Phase::Exiting);
}

#[test]
fn the_renderer_starts_from_the_settings_of_the_world_or_the_default_ones() {
    let monitors = vec![vec![VideoMode {
        width: 1920,
        height: 1080,
        bit_depth: 32,
        refresh_rate_millihertz: 60_000,
    }]];
    let (settings, plan) = init_renderer(None, &monitors).unwrap();
    assert_eq!(settings.title, "app");
    assert_eq!(settings.window_mode, WindowMode::Windowed);
    assert_eq!((plan.width, plan.height), (1280, 720));
    assert_eq!(plan.fullscreen, None);
    let given = WindowSettings {
        title: "given".to_string(),
        window_mode: WindowMode::Fullscreen,
        ..WindowSettings::default()
    };
    let (settings, plan) = init_renderer(Some(given), &monitors).unwrap();
    assert_eq!(settings.title, "given");
    assert_eq!(plan.title, "given");
    assert_eq!(plan.fullscreen, Some(Fullscreen::Exclusive { monitor: 0, video_mode: 0 }));
    let sized = WindowSettings { window_mode: WindowMode::SizedFullscreen, ..WindowSettings::default() };
    assert_eq!(init_renderer(Some(sized), &monitors).err(), Some(WindowError::UnsupportedMode));
}

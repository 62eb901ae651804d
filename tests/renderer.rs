use pentagon_renderer::color::{ClearColor, CursorPosition, PixelSize, Ratio};
use pentagon_renderer::state::{
    FramePlan, Key, LoopAction, RendererState, SetupError, WindowSignal,
};
use pentagon_renderer::surface::MAX_FRAME_LATENCY;
use wgpu::{CompositeAlphaMode, PresentMode, SurfaceError, TextureFormat};

fn state(width: u32, height: u32) -> RendererState {
    RendererState::new(
        PixelSize { width, height },
        &vec![TextureFormat::Bgra8Unorm, TextureFormat::Bgra8UnormSrgb],
        &vec![PresentMode::Fifo, PresentMode::Mailbox],
        &vec![CompositeAlphaMode::Opaque, CompositeAlphaMode::PreMultiplied],
    )
    .unwrap()
}

fn value(r: Ratio) -> f64 {
    r.num as f64 / r.den as f64
}

#[test]
fn setup_takes_first_srgb_format_and_first_modes() {
    let s = state(800, 600);
    assert_eq!(s.settings.format, TextureFormat::Bgra8UnormSrgb);
    assert_eq!(s.settings.present_mode, PresentMode::Fifo);
    assert_eq!(s.settings.alpha_mode, CompositeAlphaMode::Opaque);
    assert_eq!(s.settings.width, 800);
    assert_eq!(s.settings.height, 600);
    assert_eq!(s.settings.max_frame_latency, MAX_FRAME_LATENCY);
    assert_eq!(s.size, PixelSize { width: 800, height: 600 });
    assert_eq!(s.num_vertices, 5);
    assert_eq!(s.num_indices, 9);
    assert_eq!(
        s.clear_color,
        ClearColor {
            r: Ratio { num: 1, den: 10 },
            g: Ratio { num: 2, den: 10 },
            b: Ratio { num: 3, den: 10 },
            a: Ratio { num: 1, den: 1 },
        }
    );
}

#[test]
fn setup_falls_back_to_first_format_without_srgb() {
    let s = RendererState::new(
        PixelSize { width: 10, height: 10 },
        &vec![TextureFormat::Rgba16Float, TextureFormat::Bgra8Unorm],
        &vec![PresentMode::Immediate],
        &vec![CompositeAlphaMode::Auto],
    )
    .unwrap();
    assert_eq!(s.settings.format, TextureFormat::Rgba16Float);
    assert_eq!(s.settings.present_mode, PresentMode::Immediate);
}

#[test]
fn setup_errors() {
    let size = PixelSize { width: 10, height: 10 };
    let f = vec![TextureFormat::Bgra8UnormSrgb];
    let p = vec![PresentMode::Fifo];
    let a = vec![CompositeAlphaMode::Opaque];
    assert_eq!(RendererState::new(size, &vec![], &p, &a), Err(SetupError::NoSurfaceFormat));
    assert_eq!(RendererState::new(size, &f, &vec![], &a), Err(SetupError::NoPresentMode));
    assert_eq!(RendererState::new(size, &f, &p, &vec![]), Err(SetupError::NoAlphaMode));
    assert_eq!(RendererState::new(size, &vec![], &vec![], &vec![]), Err(SetupError::NoSurfaceFormat));
}

#[test]
fn resize_to_non_zero_size_updates_settings_and_size() {
    let mut s = state(800, 600);
    assert!(s.resize(PixelSize { width: 1024, height: 768 }));
    assert_eq!(s.settings.width, 1024);
    assert_eq!(s.settings.height, 768);
    assert_eq!(s.size, PixelSize { width: 1024, height: 768 });
    assert_eq!(s.settings.format, TextureFormat::Bgra8UnormSrgb);
    assert_eq!(s.settings.present_mode, PresentMode::Fifo);
    assert_eq!(s.settings.alpha_mode, CompositeAlphaMode::Opaque);
    assert!(s.resize(PixelSize { width: 1, height: 1 }));
    assert_eq!((s.settings.width, s.settings.height), (1, 1));
}

#[test]
fn resize_with_a_zero_side_is_ignored() {
    let mut s = state(800, 600);
    let before = s;
    assert!(!s.resize(PixelSize { width: 0, height: 150 }));
    assert_eq!(s, before);
    assert!(!s.resize(PixelSize { width: 150, height: 0 }));
    assert_eq!(s, before);
    assert!(!s.resize(PixelSize { width: 0, height: 0 }));
    assert_eq!(s, before);
}

#[test]
fn resize_to_largest_size() {
    let mut s = state(800, 600);
    assert!(s.resize(PixelSize { width: u32::MAX, height: u32::MAX }));
    assert_eq!(s.settings.width, u32::MAX);
    assert_eq!(s.size.height, u32::MAX);
}

#[test]
fn cursor_scenario_in_800_by_600_window() {
    let mut s = state(800, 600);
    assert!(s.input(CursorPosition { x: 0, y: 0 }));
    let c = s.clear_color;
    assert_eq!((value(c.r), value(c.g), value(c.b), value(c.a)), (0.0, 0.0, 0.3, 1.0));
    assert!(s.input(CursorPosition { x: 800, y: 600 }));
    let c = s.clear_color;
    assert_eq!((value(c.r), value(c.g), value(c.b), value(c.a)), (1.0, 1.0, 0.3, 1.0));
    let before = s;
    assert!(!s.resize(PixelSize { width: 0, height: 150 }));
    assert_eq!(s.settings, before.settings);
    assert_eq!(s, before);
}

#[test]
fn cursor_colour_is_exact_quotient() {
    let mut s = state(800, 600);
    s.input(CursorPosition { x: 200, y: 450 });
    assert_eq!(s.clear_color.r, Ratio { num: 200, den: 800 });
    assert_eq!(s.clear_color.g, Ratio { num: 450, den: 600 });
    assert_eq!(value(s.clear_color.r), 0.25);
    assert_eq!(value(s.clear_color.g), 0.75);
    assert_eq!(s.clear_color.b, Ratio { num: 3, den: 10 });
    assert_eq!(s.clear_color.a, Ratio { num: 1, den: 1 });
}

#[test]
fn cursor_outside_window_is_not_clamped() {
    let mut s = state(100, 50);
    s.input(CursorPosition { x: -20, y: 150 });
    assert_eq!(value(s.clear_color.r), -0.2);
    assert_eq!(value(s.clear_color.g), 3.0);
}

#[test]
fn same_cursor_position_twice_gives_same_colour() {
    let mut s = state(640, 480);
    s.input(CursorPosition { x: 13, y: 77 });
    let once = s;
    s.input(CursorPosition { x: 13, y: 77 });
    assert_eq!(s, once);
}

#[test]
fn cursor_colour_follows_resized_window() {
    let mut s = state(800, 600);
    s.resize(PixelSize { width: 400, height: 300 });
    s.input(CursorPosition { x: 400, y: 150 });
    assert_eq!(value(s.clear_color.r), 1.0);
    assert_eq!(value(s.clear_color.g), 0.5);
}

#[test]
fn frame_plan_draws_whole_index_list_once() {
    let mut s = state(800, 600);
    s.input(CursorPosition { x: 400, y: 300 });
    assert_eq!(s.frame(), FramePlan { clear: s.clear_color, index_count: 9, instance_count: 1 });
}

#[test]
fn window_signals() {
    let mut s = state(800, 600);
    let before = s;
    assert_eq!(s.handle_event(WindowSignal::CloseRequested), LoopAction::Exit);
    assert_eq!(s.handle_event(WindowSignal::KeyInput(Key::Backspace)), LoopAction::Exit);
    assert_eq!(s.handle_event(WindowSignal::KeyInput(Key::Other)), LoopAction::Continue);
    assert_eq!(s.handle_event(WindowSignal::Idle), LoopAction::RequestRedraw);
    assert_eq!(
        s.handle_event(WindowSignal::RedrawRequested { own_window: true }),
        LoopAction::Render
    );
    assert_eq!(
        s.handle_event(WindowSignal::RedrawRequested { own_window: false }),
        LoopAction::Continue
    );
    assert_eq!(s, before);
    assert_eq!(
        s.handle_event(WindowSignal::Resized(PixelSize { width: 0, height: 10 })),
        LoopAction::Continue
    );
    assert_eq!(s, before);
    assert_eq!(
        s.handle_event(WindowSignal::Resized(PixelSize { width: 300, height: 200 })),
        LoopAction::Reconfigure
    );
    assert_eq!(s.size, PixelSize { width: 300, height: 200 });
    assert_eq!(
        s.handle_event(WindowSignal::CursorMoved(CursorPosition { x: 150, y: 50 })),
        LoopAction::Continue
    );
    assert_eq!(value(s.clear_color.r), 0.5);
    assert_eq!(value(s.clear_color.g), 0.25);
}

#[test]
fn frame_outcomes() {
    let mut s = state(800, 600);
    let before = s;
    assert_eq!(s.after_frame(Ok(())), LoopAction::Continue);
    assert_eq!(s.after_frame(Err(SurfaceError::Lost)), LoopAction::Reconfigure);
    assert_eq!(s.after_frame(Err(SurfaceError::OutOfMemory)), LoopAction::Exit);
    assert_eq!(s.after_frame(Err(SurfaceError::Timeout)), LoopAction::LogAndContinue);
    assert_eq!(s.after_frame(Err(SurfaceError::Outdated)), LoopAction::LogAndContinue);
    assert_eq!(s, before);
}

#[test]
fn lost_surface_with_zero_size_is_not_configured() {
    let mut s = state(0, 600);
    let before = s;
    assert_eq!(s.after_frame(Err(SurfaceError::Lost)), LoopAction::Continue);
    assert_eq!(s, before);
}

#[test]
fn setup_resize_to_same_size_and_frame_keep_settings() {
    let mut s = state(800, 600);
    let set_up = s;
    assert!(s.resize(PixelSize { width: 800, height: 600 }));
    s.frame();
    s.after_frame(Err(SurfaceError::Lost));
    assert_eq!(s, set_up);
    assert_eq!(s.settings.format, set_up.settings.format);
    assert_eq!(s.settings.present_mode, set_up.settings.present_mode);
    assert_eq!(s.settings.alpha_mode, set_up.settings.alpha_mode);
}

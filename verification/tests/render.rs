use rdp_remote::render::{
    choose_surface_format, window_action, RenderError, RendererState, WindowAction, WindowEventKind, QUAD_INDICES,
};

fn ready_state() -> RendererState {
    RendererState {
        has_queue: true,
        has_surface: true,
        has_device: true,
        has_pipeline: true,
        has_config: true,
        ..RendererState::new()
    }
}

#[test]
fn texture_needs_queue_and_enough_bytes() {
    let mut s = RendererState::new();
    assert_eq!(s.update_texture(16, 2, 2), Err(RenderError::QueueNotInitialized));
    let mut s = ready_state();
    let e = s.update_texture(15, 2, 2).unwrap_err();
    assert_eq!(e, RenderError::InvalidTextureData { expected: 16, got: 15 });
    assert_eq!(e.to_string(), "Invalid texture data: expected 16 bytes, got 15");
    assert_eq!((s.width, s.height, s.has_texture), (0, 0, false));
}

#[test]
fn texture_is_remade_only_when_size_changes() {
    let mut s = ready_state();
    let u = s.update_texture(16, 2, 2).unwrap();
    assert!(u.recreate);
    assert_eq!((u.bytes_per_row, u.rows_per_image), (8, 2));
    let u = s.update_texture(100, 2, 2).unwrap();
    assert!(!u.recreate);
    let u = s.update_texture(36, 3, 3).unwrap();
    assert!(u.recreate);
    assert_eq!((s.width, s.height), (3, 3));
}

#[test]
fn resize_ignores_zero_and_needs_surface() {
    let mut s = RendererState::new();
    assert_eq!(s.resize(0, 10), Ok(false));
    assert_eq!(s.resize(10, 10), Err(RenderError::SurfaceNotInitialized));
    let mut s = ready_state();
    assert_eq!(s.resize(800, 600), Ok(true));
    assert_eq!(s.size(None), (800, 600));
    assert_eq!(s.size(Some((1, 2))), (1, 2));
}

#[test]
fn render_needs_everything() {
    let s = RendererState::new();
    assert_eq!(s.ready_to_render(), Err(RenderError::SurfaceNotInitialized));
    let mut s = ready_state();
    assert_eq!(s.ready_to_render(), Err(RenderError::BindGroupNotInitialized));
    s.update_texture(4, 1, 1).unwrap();
    assert_eq!(s.ready_to_render(), Ok(()));
    assert_eq!(RenderError::BindGroupNotInitialized.to_string(), "Bind group not initialized");
}

#[test]
fn window_events_and_formats() {
    assert_eq!(window_action(WindowEventKind::CloseRequested), WindowAction::Exit);
    assert_eq!(
        window_action(WindowEventKind::Resized { width: 4, height: 5 }),
        WindowAction::Resize { width: 4, height: 5 }
    );
    assert_eq!(window_action(WindowEventKind::RedrawRequested), WindowAction::Render);
    assert_eq!(window_action(WindowEventKind::Other), WindowAction::Ignore);
    assert_eq!(choose_surface_format(&[false, true, true]), 1);
    assert_eq!(choose_surface_format(&[false, false]), 0);
    assert_eq!(QUAD_INDICES, [0, 1, 2, 2, 1, 3]);
}

use wayland_window::Location;
use wayland_window::frame::CreationError;
use wayland_window::frame::Frame;
use wayland_window::frame::RedrawAction;
use wayland_window::frame::State;
use wayland_window::meta::FrameMetadata;
use wayland_window::shell::Request;
use wayland_window::shell::Shell;
use wayland_window::shell::WireRequest;
use wayland_window::shell::XdgState;
use wayland_window::shell::configure_legacy;
use wayland_window::shell::configure_toplevel;
use wayland_window::shell::contains_state;
use wayland_window::shell::mark_ready;
use wayland_window::shell::parse_states;
use wayland_window::shell::route_request;

fn plain_meta(w: i32, h: i32) -> FrameMetadata {
    FrameMetadata {
        dimensions: (w, h),
        decorate: false,
        fullscreen: false,
        maximized: false,
        min_size: None,
        max_size: None,
        old_size: None,
        activated: true,
        ready: true,
        need_redraw: false,
        ptr_location: Location::Outside,
    }
}

#[test]
fn creation_rejects_bad_dimensions() {
    assert!(matches!(
        Frame::new(0, 100, false),
        Err(CreationError::InvalidDimensions)
    ));
    assert!(matches!(
        Frame::new(100, -3, true),
        Err(CreationError::InvalidDimensions)
    ));
    assert!(Frame::new(1, 1, false).is_ok());
}

#[test]
fn creation_initial_state() {
    let f = Frame::new(300, 200, true).unwrap();
    assert_eq!(f.meta.dimensions, (300, 200));
    assert!(!f.meta.decorate);
    assert!(!f.meta.ready);
    assert!(f.meta.need_redraw);
    assert!(f.meta.activated);
    assert_eq!(f.canvas.contents.len(), 100);
    let g = Frame::new(300, 200, false).unwrap();
    assert!(g.meta.ready);
    assert!(!g.meta.need_redraw);
}

#[test]
fn resize_clamps_and_marks_dirty() {
    let mut f = Frame::new(100, 100, false).unwrap();
    f.resize(-5, 0);
    assert_eq!(f.meta.dimensions, (1, 1));
    assert!(f.meta.need_redraw);
    f.resize(250, 350);
    assert_eq!(f.meta.dimensions, (250, 350));
}

#[test]
fn refresh_idempotent() {
    let mut f = Frame::new(300, 200, false).unwrap();
    f.set_decorate(true);
    let mut repaints = 0;
    if f.refresh().is_some() {
        repaints += 1;
    }
    if f.refresh().is_some() {
        repaints += 1;
    }
    assert_eq!(repaints, 1);
    assert!(!f.meta.need_redraw);
}

#[test]
fn refresh_waits_for_readiness() {
    let mut f = Frame::new(300, 200, true).unwrap();
    f.set_decorate(true);
    assert!(f.refresh().is_none());
    assert!(f.meta.need_redraw);
    mark_ready(&mut f.meta);
    assert!(matches!(f.refresh(), Some(RedrawAction::Repaint { .. })));
    assert!(!f.meta.need_redraw);
}

#[test]
fn redraw_blank_when_undecorated() {
    let mut f = Frame::new(100, 100, false).unwrap();
    f.canvas.contents[0] = 7;
    let action = f.redraw();
    assert!(matches!(action, Some(RedrawAction::Blank)));
    assert_eq!(&f.canvas.contents[0..4], &[0, 0, 0, 0]);
    assert!(!f.meta.need_redraw);
}

#[test]
fn redraw_paints_decorations() {
    let mut f = Frame::new(100, 50, false).unwrap();
    f.set_decorate(true);
    match f.refresh().unwrap() {
        RedrawAction::Repaint {
            full_width,
            full_height,
            stride,
            pool_resized,
        } => {
            assert_eq!(full_width, 116);
            assert_eq!(full_height, 82);
            assert_eq!(stride, 464);
            assert!(pool_resized);
        }
        RedrawAction::Blank => panic!("expected a repaint"),
    }
    assert_eq!(f.canvas.contents.len(), 4 * 116 * 82);
    // activated border grey at the top-left corner
    assert_eq!(&f.canvas.contents[0..4], &[0x80, 0x80, 0x80, 0xFF]);
    // interior pixel untouched: the pool was zero-filled
    let pi = (40 * 116 + 50) * 4;
    assert_eq!(&f.canvas.contents[pi..pi + 4], &[0, 0, 0, 0]);
    // close button regular red
    let ci = (10 * 116 + 100) * 4;
    assert_eq!(&f.canvas.contents[ci..ci + 4], &[0x40, 0x40, 0xB0, 0xFF]);
    // maximize button regular yellow
    let mi = (10 * 116 + 60) * 4;
    assert_eq!(&f.canvas.contents[mi..mi + 4], &[0x40, 0xB0, 0xB0, 0xFF]);
    // minimize button regular green
    let ni = (10 * 116 + 30) * 4;
    assert_eq!(&f.canvas.contents[ni..ni + 4], &[0x40, 0xB0, 0x40, 0xFF]);
}

#[test]
fn redraw_inactive_and_hover_colors() {
    let mut f = Frame::new(100, 50, false).unwrap();
    f.set_decorate(true);
    f.meta.activated = false;
    f.meta.ptr_location = Location::Button(wayland_window::UIButton::Close);
    f.refresh().unwrap();
    // inactive border grey
    assert_eq!(&f.canvas.contents[0..4], &[0x60, 0x60, 0x60, 0xFF]);
    // hovered close button bright red
    let ci = (10 * 116 + 100) * 4;
    assert_eq!(&f.canvas.contents[ci..ci + 4], &[0x40, 0x40, 0xFF, 0xFF]);
}

#[test]
fn redraw_maximize_disabled_color() {
    let mut f = Frame::new(100, 50, false).unwrap();
    f.set_decorate(true);
    f.set_max_size(Some((200, 200)));
    f.refresh().unwrap();
    let mi = (10 * 116 + 60) * 4;
    assert_eq!(&f.canvas.contents[mi..mi + 4], &[0x20, 0x80, 0x80, 0xFF]);
}

#[test]
fn buffer_never_shrinks() {
    let mut f = Frame::new(100, 100, false).unwrap();
    f.set_decorate(true);
    f.refresh();
    f.resize(400, 400);
    f.refresh();
    let cap_large = f.canvas.contents.len();
    assert_eq!(cap_large, 4 * 416 * 432);
    f.resize(50, 50);
    f.refresh();
    assert!(f.canvas.contents.len() >= cap_large);
}

#[test]
fn clamp_conflict_min_wins() {
    let mut meta = plain_meta(300, 200);
    meta.min_size = Some((100, 100));
    meta.max_size = Some((50, 50));
    for &size in &[(0, 0), (10, 10), (75, 75), (500, 500)] {
        assert_eq!(meta.clamp_to_limits(size), (100, 100));
    }
    let mut decorated = meta;
    decorated.decorate = true;
    assert_eq!(decorated.clamp_to_limits((500, 500)), (100, 100));
}

#[test]
fn clamp_applies_constraints() {
    let mut meta = plain_meta(300, 200);
    meta.min_size = Some((100, 120));
    meta.max_size = Some((400, 380));
    assert_eq!(meta.clamp_to_limits((50, 50)), (100, 120));
    assert_eq!(meta.clamp_to_limits((500, 500)), (400, 380));
    assert_eq!(meta.clamp_to_limits((250, 250)), (250, 250));
    meta.decorate = true;
    // borders are removed before clamping
    assert_eq!(meta.clamp_to_limits((116, 132)), (100, 120));
}

#[test]
fn zero_size_configure_leaves_dimensions() {
    let mut meta = plain_meta(300, 200);
    let states = parse_states(&vec![4u32]);
    let newsize = configure_toplevel(&mut meta, 0, 0, &states);
    assert!(newsize.is_none());
    assert_eq!(meta.dimensions, (300, 200));
    // activation state unchanged: not marked dirty
    assert!(!meta.need_redraw);
    // losing activation is a visible change and marks dirty
    let newsize = configure_toplevel(&mut meta, 0, 0, &parse_states(&vec![]));
    assert!(newsize.is_none());
    assert!(meta.need_redraw);
    assert!(!meta.activated);
}

#[test]
fn maximize_restore() {
    let mut meta = plain_meta(300, 200);
    let maximized = parse_states(&vec![1u32, 4u32]);
    let newsize = configure_toplevel(&mut meta, 800, 600, &maximized);
    assert_eq!(newsize, Some((800, 600)));
    assert!(meta.maximized);
    assert_eq!(meta.old_size, Some((300, 200)));
    // leaving maximized with a zero suggestion restores the snapshot
    let newsize = configure_toplevel(&mut meta, 0, 0, &parse_states(&vec![4u32]));
    assert_eq!(newsize, Some((300, 200)));
    assert!(!meta.maximized);
    assert_eq!(meta.old_size, None);
}

#[test]
fn configure_clamps_suggestion() {
    let mut meta = plain_meta(300, 200);
    meta.decorate = true;
    meta.min_size = Some((100, 100));
    let states = parse_states(&vec![4u32]);
    let newsize = configure_toplevel(&mut meta, 116, 132, &states);
    assert_eq!(newsize, Some((100, 100)));
    assert!(meta.need_redraw);
}

#[test]
fn configure_legacy_clamps() {
    let mut meta = plain_meta(300, 200);
    meta.decorate = true;
    let newsize = configure_legacy(&mut meta, 116, 132);
    assert_eq!(newsize, Some((100, 100)));
    assert!(meta.need_redraw);
    // a zero suggestion leaves the choice to the client
    let mut meta2 = plain_meta(300, 200);
    assert!(configure_legacy(&mut meta2, 0, 0).is_none());
    assert!(!meta2.need_redraw);
}

#[test]
fn parse_states_filters_unknown_codes() {
    let parsed = parse_states(&vec![1u32, 99u32, 4u32, 0u32]);
    assert_eq!(parsed, vec![XdgState::Maximized, XdgState::Activated]);
    assert!(contains_state(&parsed, XdgState::Maximized));
    assert!(contains_state(&parsed, XdgState::Activated));
    assert!(!contains_state(&parsed, XdgState::Fullscreen));
    assert!(parse_states(&vec![]).is_empty());
}

#[test]
fn shell_readiness() {
    assert!(Shell::Xdg.needs_readiness());
    assert!(!Shell::Wl.needs_readiness());
}

#[test]
fn request_routing() {
    assert_eq!(
        route_request(Shell::Xdg, Request::SetMinimized),
        Some(WireRequest::XdgSetMinimized)
    );
    // the legacy shell cannot minimize: silently a no-op
    assert_eq!(route_request(Shell::Wl, Request::SetMinimized), None);
    assert_eq!(route_request(Shell::Wl, Request::SetMinSize), None);
    assert_eq!(route_request(Shell::Wl, Request::SetMaxSize), None);
    // leaving maximized or fullscreen on the legacy shell both fall back to
    // the plain top-level role
    assert_eq!(
        route_request(Shell::Wl, Request::UnsetMaximized),
        Some(WireRequest::WlSetToplevel)
    );
    assert_eq!(
        route_request(Shell::Wl, Request::UnsetFullscreen),
        Some(WireRequest::WlSetToplevel)
    );
    assert_eq!(
        route_request(Shell::Wl, Request::SetAppId),
        Some(WireRequest::WlSetClass)
    );
    assert_eq!(
        route_request(Shell::Xdg, Request::Resize),
        Some(WireRequest::XdgResize)
    );
    assert_eq!(
        route_request(Shell::Xdg, Request::SetMaxSize),
        Some(WireRequest::XdgSetMaxSize)
    );
}

#[test]
fn set_state_request_sequences() {
    let f = Frame::new(100, 100, false).unwrap();
    assert_eq!(
        f.set_state(State::Regular),
        vec![Request::UnsetFullscreen, Request::UnsetMaximized]
    );
    assert_eq!(
        f.set_state(State::Minimized),
        vec![Request::UnsetFullscreen, Request::SetMinimized]
    );
    assert_eq!(
        f.set_state(State::Maximized),
        vec![Request::UnsetFullscreen, Request::SetMaximized]
    );
    assert_eq!(f.set_state(State::Fullscreen), vec![Request::SetFullscreen]);
}

#[test]
fn min_max_size_advertised_with_borders() {
    let mut f = Frame::new(100, 100, false).unwrap();
    assert_eq!(f.set_min_size(Some((100, 100))), Some((100, 100)));
    f.set_decorate(true);
    assert_eq!(f.set_min_size(Some((100, 100))), Some((116, 132)));
    assert_eq!(f.meta.min_size, Some((100, 100)));
    assert_eq!(f.set_max_size(Some((200, 150))), Some((216, 182)));
    assert_eq!(f.meta.max_size, Some((200, 150)));
    assert_eq!(f.set_max_size(None), None);
    assert_eq!(f.meta.max_size, None);
}

#[test]
fn set_decorate_returns_content_offset() {
    let mut f = Frame::new(100, 100, false).unwrap();
    assert_eq!(f.set_decorate(true), (8, 24));
    assert!(f.meta.need_redraw);
    f.refresh();
    assert_eq!(f.set_decorate(false), (0, 0));
    assert!(f.meta.need_redraw);
}

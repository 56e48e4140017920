use wayland_window::Location;
use wayland_window::UIButton;
use wayland_window::legacy::BORDER_BOTTOM;
use wayland_window::legacy::BORDER_LEFT;
use wayland_window::legacy::BORDER_RIGHT;
use wayland_window::legacy::BORDER_TOP;
use wayland_window::legacy::LegacyAction;
use wayland_window::legacy::LegacyPointerState;
use wayland_window::legacy::PtrLocation;
use wayland_window::legacy::SurfaceMetadata;
use wayland_window::legacy::border_buffers;
use wayland_window::legacy::initial_pxcount;
use wayland_window::legacy::legacy_border_pixel;
use wayland_window::legacy::legacy_pointer_action;
use wayland_window::legacy::plan_resize;
use wayland_window::legacy::required_pxcount;
use wayland_window::meta::FrameMetadata;
use wayland_window::pointer::CursorShape;
use wayland_window::pointer::PointerState;
use wayland_window::pointer::PressAction;
use wayland_window::pointer::cursor_shape;
use wayland_window::shell::ResizeEdge;

fn decorated_meta(w: i32, h: i32) -> FrameMetadata {
    FrameMetadata {
        dimensions: (w, h),
        decorate: true,
        fullscreen: false,
        maximized: false,
        min_size: None,
        max_size: None,
        old_size: None,
        activated: true,
        ready: true,
        need_redraw: false,
        ptr_location: Location::Outside,
    }
}

#[test]
fn cursor_shape_table() {
    assert_eq!(cursor_shape(Location::Top), CursorShape::TopSide);
    assert_eq!(cursor_shape(Location::TopRight), CursorShape::TopRightCorner);
    assert_eq!(cursor_shape(Location::Right), CursorShape::RightSide);
    assert_eq!(
        cursor_shape(Location::BottomRight),
        CursorShape::BottomRightCorner
    );
    assert_eq!(cursor_shape(Location::Bottom), CursorShape::BottomSide);
    assert_eq!(
        cursor_shape(Location::BottomLeft),
        CursorShape::BottomLeftCorner
    );
    assert_eq!(cursor_shape(Location::Left), CursorShape::LeftSide);
    assert_eq!(cursor_shape(Location::TopLeft), CursorShape::TopLeftCorner);
    assert_eq!(cursor_shape(Location::TopBar), CursorShape::LeftPtr);
    assert_eq!(cursor_shape(Location::Inside), CursorShape::LeftPtr);
    assert_eq!(
        cursor_shape(Location::Button(UIButton::Close)),
        CursorShape::LeftPtr
    );
}

#[test]
fn pointer_enter_motion_leave() {
    let mut meta = decorated_meta(200, 200);
    let mut ps = PointerState::new();
    // enter over the left border
    let shape = ps.pointer_entered(&mut meta, true, 5, 100);
    assert_eq!(shape, Some(CursorShape::LeftSide));
    assert_eq!(ps.location, Location::Left);
    assert_eq!(meta.ptr_location, Location::Left);
    assert!(!meta.need_redraw);
    // move onto the close button: hover highlight needs a repaint
    let (dirty, shape) = ps.pointer_motion(&mut meta, 200, 16);
    assert!(dirty);
    assert_eq!(shape, Some(CursorShape::LeftPtr));
    assert_eq!(meta.ptr_location, Location::Button(UIButton::Close));
    meta.need_redraw = false;
    // unchanged location: no cursor change, no repaint
    let (dirty, shape) = ps.pointer_motion(&mut meta, 201, 17);
    assert!(!dirty);
    assert!(shape.is_none());
    // leave resets everything
    let shape = ps.pointer_left(&mut meta);
    assert_eq!(shape, CursorShape::LeftPtr);
    assert_eq!(ps.location, Location::Outside);
    assert_eq!(meta.ptr_location, Location::Outside);
    // motion while outside is ignored until a fresh enter
    let (dirty, shape) = ps.pointer_motion(&mut meta, 100, 100);
    assert!(!dirty);
    assert!(shape.is_none());
    assert_eq!(ps.location, Location::Outside);
}

#[test]
fn pointer_foreign_surface() {
    let mut meta = decorated_meta(200, 200);
    let mut ps = PointerState::new();
    let shape = ps.pointer_entered(&mut meta, false, 50, 50);
    assert!(shape.is_none());
    assert_eq!(ps.location, Location::Outside);
    assert_eq!(meta.ptr_location, Location::Outside);
}

#[test]
fn pointer_undecorated_is_inside() {
    let mut meta = decorated_meta(200, 200);
    meta.decorate = false;
    let mut ps = PointerState::new();
    let shape = ps.pointer_entered(&mut meta, true, 2, 2);
    assert_eq!(shape, Some(CursorShape::LeftPtr));
    assert_eq!(ps.location, Location::Inside);
    // fullscreen suppresses classification too
    let mut meta2 = decorated_meta(200, 200);
    meta2.fullscreen = true;
    let mut ps2 = PointerState::new();
    ps2.pointer_entered(&mut meta2, true, 2, 2);
    assert_eq!(ps2.location, Location::Inside);
}

#[test]
fn press_actions_by_zone() {
    let meta = decorated_meta(200, 200);
    let mut ps = PointerState::new();
    let mut m = meta;
    ps.pointer_entered(&mut m, true, 100, 4);
    assert_eq!(
        ps.press_action(&m, 0x110, true),
        PressAction::InteractiveResize(ResizeEdge::Top)
    );
    ps.pointer_motion(&mut m, 60, 16);
    assert_eq!(ps.press_action(&m, 0x110, true), PressAction::InteractiveMove);
    ps.pointer_motion(&mut m, 215, 225);
    assert_eq!(
        ps.press_action(&m, 0x110, true),
        PressAction::InteractiveResize(ResizeEdge::BottomRight)
    );
    ps.pointer_motion(&mut m, 200, 16);
    assert_eq!(ps.press_action(&m, 0x110, true), PressAction::Close);
    // only the primary button acts, and only on press
    assert_eq!(ps.press_action(&m, 0x111, true), PressAction::Nothing);
    assert_eq!(ps.press_action(&m, 0x110, false), PressAction::Nothing);
}

#[test]
fn maximize_button_gating() {
    let mut m = decorated_meta(200, 200);
    let mut ps = PointerState::new();
    ps.pointer_entered(&mut m, true, 170, 16);
    assert_eq!(m.ptr_location, Location::Button(UIButton::Maximize));
    assert_eq!(ps.press_action(&m, 0x110, true), PressAction::Maximize);
    m.maximized = true;
    assert_eq!(ps.press_action(&m, 0x110, true), PressAction::Unmaximize);
    // a maximum size constraint greys the button out
    m.max_size = Some((300, 300));
    assert_eq!(ps.press_action(&m, 0x110, true), PressAction::Nothing);
}

#[test]
fn minimize_button_press() {
    let mut m = decorated_meta(200, 200);
    let mut ps = PointerState::new();
    ps.pointer_entered(&mut m, true, 130, 16);
    assert_eq!(m.ptr_location, Location::Button(UIButton::Minimize));
    assert_eq!(ps.press_action(&m, 0x110, true), PressAction::Minimize);
}

#[test]
fn legacy_border_buffer_layout() {
    let b = border_buffers(100, 50);
    assert_eq!(b[BORDER_TOP].width, 116);
    assert_eq!(b[BORDER_TOP].height, 24);
    assert_eq!(b[BORDER_TOP].stride, 464);
    assert_eq!((b[BORDER_TOP].x, b[BORDER_TOP].y), (-8, -24));
    assert_eq!(b[BORDER_RIGHT].width, 8);
    assert_eq!(b[BORDER_RIGHT].height, 50);
    assert_eq!(b[BORDER_RIGHT].stride, 32);
    assert_eq!((b[BORDER_RIGHT].x, b[BORDER_RIGHT].y), (100, 0));
    assert_eq!(b[BORDER_BOTTOM].width, 116);
    assert_eq!(b[BORDER_BOTTOM].height, 8);
    assert_eq!((b[BORDER_BOTTOM].x, b[BORDER_BOTTOM].y), (-8, 50));
    assert_eq!(b[BORDER_LEFT].width, 8);
    assert_eq!(b[BORDER_LEFT].height, 50);
    assert_eq!((b[BORDER_LEFT].x, b[BORDER_LEFT].y), (-8, 0));
}

#[test]
fn legacy_pxcounts() {
    // the top strip dominates for wide windows
    assert_eq!(required_pxcount(100, 100), 24 * 116);
    // the side borders dominate for very tall windows
    assert_eq!(required_pxcount(10, 16000), 8 * 16000);
    assert_eq!(initial_pxcount(100, 100), 24 * 100);
    assert_eq!(initial_pxcount(0, 0), 24 * 8);
}

#[test]
fn legacy_plan_resize() {
    let mut meta = SurfaceMetadata::new(10, 10, true);
    let plan = plan_resize(&mut meta, 100, 100, 100).unwrap();
    assert_eq!(meta.dimensions, (100, 100));
    assert_eq!(plan.new_capacity, 4 * 24 * 116);
    assert!(plan.pool_resized);
    // large enough pool: no growth, capacity kept
    let plan2 = plan_resize(&mut meta, plan.new_capacity, 50, 50).unwrap();
    assert_eq!(plan2.new_capacity, plan.new_capacity);
    assert!(!plan2.pool_resized);
    // not decorating: nothing to plan
    let mut bare = SurfaceMetadata::new(10, 10, false);
    assert!(plan_resize(&mut bare, 100, 60, 60).is_none());
    assert_eq!(bare.dimensions, (60, 60));
}

#[test]
fn legacy_border_fill_pixel() {
    assert_eq!(legacy_border_pixel(), [0x44, 0x44, 0x44, 0xFF]);
}

#[test]
fn legacy_pointer_corners() {
    let mut ps = LegacyPointerState::new();
    // enter the top border near its left corner
    let shape = ps.pointer_entered(Some(BORDER_TOP), 5, 5, 100);
    assert_eq!(shape, Some(CursorShape::TopLeftCorner));
    assert!(ps.cornered);
    assert!(ps.topped);
    // move to the middle of the thin strip
    ps.coordinates = (50, 5);
    let shape = ps.update(100, false);
    assert_eq!(shape, Some(CursorShape::TopSide));
    assert!(!ps.cornered);
    // move down into the title area: default arrow
    ps.coordinates = (50, 20);
    let shape = ps.update(100, false);
    assert_eq!(shape, Some(CursorShape::LeftPtr));
    assert!(!ps.topped);
    // no flag change: no cursor change
    ps.coordinates = (60, 20);
    assert!(ps.update(100, false).is_none());
    // right corner of the bottom border
    let shape = ps.pointer_entered(Some(BORDER_BOTTOM), 109, 4, 100);
    assert_eq!(shape, Some(CursorShape::BottomRightCorner));
    // plain side borders
    assert_eq!(
        ps.pointer_entered(Some(BORDER_LEFT), 4, 40, 100),
        Some(CursorShape::LeftSide)
    );
    assert_eq!(
        ps.pointer_entered(Some(BORDER_RIGHT), 4, 40, 100),
        Some(CursorShape::RightSide)
    );
    // a foreign surface resets the location
    assert!(ps.pointer_entered(None, 0, 0, 100).is_none());
    assert_eq!(ps.location, PtrLocation::Outside);
    // leave resets too
    ps.pointer_entered(Some(BORDER_TOP), 50, 5, 100);
    assert_eq!(ps.pointer_left(), CursorShape::LeftPtr);
    assert_eq!(ps.location, PtrLocation::Outside);
}

#[test]
fn legacy_pointer_actions() {
    assert_eq!(
        legacy_pointer_action(PtrLocation::Top, 5, 5, 100),
        Some(LegacyAction::Resize(ResizeEdge::TopLeft))
    );
    assert_eq!(
        legacy_pointer_action(PtrLocation::Top, 50, 5, 100),
        Some(LegacyAction::Resize(ResizeEdge::Top))
    );
    assert_eq!(
        legacy_pointer_action(PtrLocation::Top, 120, 5, 100),
        Some(LegacyAction::Resize(ResizeEdge::TopRight))
    );
    assert_eq!(
        legacy_pointer_action(PtrLocation::Top, 50, 20, 100),
        Some(LegacyAction::Move)
    );
    assert_eq!(
        legacy_pointer_action(PtrLocation::Top, 5, 20, 100),
        Some(LegacyAction::Resize(ResizeEdge::Left))
    );
    assert_eq!(
        legacy_pointer_action(PtrLocation::Bottom, 120, 3, 100),
        Some(LegacyAction::Resize(ResizeEdge::BottomRight))
    );
    assert_eq!(
        legacy_pointer_action(PtrLocation::Bottom, 50, 3, 100),
        Some(LegacyAction::Resize(ResizeEdge::Bottom))
    );
    assert_eq!(
        legacy_pointer_action(PtrLocation::Left, 0, 0, 100),
        Some(LegacyAction::Resize(ResizeEdge::Left))
    );
    assert_eq!(
        legacy_pointer_action(PtrLocation::Right, 0, 0, 100),
        Some(LegacyAction::Resize(ResizeEdge::Right))
    );
    assert_eq!(legacy_pointer_action(PtrLocation::Outside, 0, 0, 100), None);
}

#[test]
fn legacy_metadata_constraints() {
    let mut meta = SurfaceMetadata::new(300, 200, true);
    assert_eq!(meta.set_min_size(Some((100, 100))), Some((116, 132)));
    assert_eq!(meta.min_size, Some((100, 100)));
    assert_eq!(meta.set_max_size(Some((400, 400))), Some((416, 432)));
    assert_eq!(meta.clamp_to_limits((116, 132)), (100, 100));
    meta.set_decorate(false);
    assert_eq!(meta.set_min_size(Some((100, 100))), Some((100, 100)));
    assert_eq!(meta.set_min_size(None), None);
    meta.set_fullscreen();
    assert!(!meta.decorate);
}

use wayland_window::Location;
use wayland_window::UIButton;
use wayland_window::canvas::Canvas;
use wayland_window::theme::add_borders;
use wayland_window::theme::compute_location;
use wayland_window::theme::pxcount;
use wayland_window::theme::subsurface_offset;
use wayland_window::theme::subtract_borders;

#[test]
fn border_round_trip() {
    for &(w, h) in &[(1, 1), (40, 25), (200, 300), (16384, 16384)] {
        let (dw, dh) = add_borders(w, h);
        assert_eq!(subtract_borders(dw, dh), (w, h));
    }
}

#[test]
fn border_formulas() {
    assert_eq!(add_borders(100, 100), (116, 132));
    assert_eq!(subtract_borders(116, 132), (100, 100));
    assert_eq!(subtract_borders(10, 10), (-6, -22));
    assert_eq!(subsurface_offset(), (8, 24));
}

#[test]
fn pxcount_formula() {
    assert_eq!(pxcount(100, 100), 116 * 132);
    assert_eq!(pxcount(0, 0), 16 * 32);
    assert_eq!(pxcount(400, 400), 416 * 432);
}

#[test]
fn location_boundary_topleft_vs_top() {
    // exactly on the corner/edge boundary: the boundary column belongs to
    // the top edge
    assert_eq!(compute_location((8, 24), (200, 200)), Location::Top);
    assert_eq!(compute_location((7, 23), (200, 200)), Location::TopLeft);
}

#[test]
fn location_zones() {
    let size = (200, 200);
    assert_eq!(compute_location((0, 0), size), Location::TopLeft);
    assert_eq!(compute_location((100, 4), size), Location::Top);
    assert_eq!(compute_location((210, 3), size), Location::TopRight);
    assert_eq!(compute_location((210, 24), size), Location::TopRight);
    assert_eq!(compute_location((3, 100), size), Location::Left);
    assert_eq!(compute_location((100, 100), size), Location::Inside);
    assert_eq!(compute_location((215, 100), size), Location::Right);
    assert_eq!(compute_location((3, 225), size), Location::BottomLeft);
    assert_eq!(compute_location((100, 225), size), Location::Bottom);
    assert_eq!(compute_location((215, 225), size), Location::BottomRight);
    // title bar between the buttons and the left corner
    assert_eq!(compute_location((60, 16), size), Location::TopBar);
}

#[test]
fn location_buttons_wide() {
    let size = (200, 200);
    // close anchored to the right edge, then maximize, then minimize
    assert_eq!(
        compute_location((200, 16), size),
        Location::Button(UIButton::Close)
    );
    assert_eq!(
        compute_location((170, 16), size),
        Location::Button(UIButton::Maximize)
    );
    assert_eq!(
        compute_location((130, 16), size),
        Location::Button(UIButton::Minimize)
    );
    // gaps between the buttons are title bar
    assert_eq!(compute_location((180, 16), size), Location::TopBar);
    assert_eq!(compute_location((150, 16), size), Location::TopBar);
}

#[test]
fn button_hitbox_gating_narrow_width() {
    // content width 40: only the close button exists
    let size = (40, 200);
    assert_eq!(
        compute_location((38, 16), size),
        Location::Button(UIButton::Close)
    );
    // where maximize and minimize would sit on a wider window: title bar
    assert_eq!(compute_location((20, 16), size), Location::TopBar);
    assert_eq!(compute_location((12, 20), size), Location::TopBar);
    // sweep the whole top band: no maximize, no minimize anywhere
    for x in -10..70 {
        for y in -10..30 {
            let loc = compute_location((x, y), size);
            assert_ne!(loc, Location::Button(UIButton::Maximize));
            assert_ne!(loc, Location::Button(UIButton::Minimize));
        }
    }
}

#[test]
fn button_thresholds() {
    // below 24 pixels not even the close button fits
    let size = (23, 100);
    for x in -10..50 {
        for y in -10..30 {
            let loc = compute_location((x, y), size);
            assert!(!matches!(loc, Location::Button(_)));
        }
    }
    // at 56 the maximize button appears
    assert_eq!(
        compute_location((20, 16), (56, 100)),
        Location::Button(UIButton::Maximize)
    );
    // at 88 the minimize button appears
    assert_eq!(
        compute_location((20, 16), (88, 100)),
        Location::Button(UIButton::Minimize)
    );
}

#[test]
fn canvas_put_pixel() {
    let bytes = vec![0u8; 4 * 4 * 4];
    let mut canvas = Canvas::new(4, 4, bytes);
    canvas.put_pixel(2, 1, [1, 2, 3, 4]);
    let idx = (1 * 4 + 2) * 4;
    assert_eq!(&canvas.contents[idx..idx + 4], &[1, 2, 3, 4]);
    assert_eq!(&canvas.contents[0..4], &[0, 0, 0, 0]);
}

#[test]
fn canvas_fill_rect() {
    let bytes = vec![9u8; 8 * 8 * 4];
    let mut canvas = Canvas::new(8, 8, bytes);
    canvas.fill_rect(2, 3, 4, 2, [7, 7, 7, 7]);
    for x in 0..8usize {
        for y in 0..8usize {
            let idx = (y * 8 + x) * 4;
            let expect = if (2..6).contains(&x) && (3..5).contains(&y) {
                [7u8, 7, 7, 7]
            } else {
                [9u8, 9, 9, 9]
            };
            assert_eq!(&canvas.contents[idx..idx + 4], &expect);
        }
    }
}

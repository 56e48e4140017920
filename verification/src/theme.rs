//! Pure decoration geometry: conversion between content size and decorated
//! size, classification of pointer coordinates into semantic zones, and the
//! total pixel count of the decorated rectangle.

use vstd::prelude::*;

use crate::canvas::Canvas;
use crate::canvas::pixel_of;
use crate::Location;
use crate::UIButton;

verus! {

/// Thickness in pixels of the left, right and bottom decoration borders.
pub const BORDER_SIZE: i32 = 8;

/// Thickness in pixels of the top decoration margin (title bar included).
pub const TOP_BAR_SIZE: i32 = 24;

/// Largest content width or height the engine accepts; keeps every pixel
/// computation comfortably inside `i32`.
pub const MAX_DIM: i32 = 16384;

/// The decorated size obtained by adding the border margins to a content
/// size.
pub open spec fn add_borders_spec(width: int, height: int) -> (int, int) {
    (
        width + 2 * (BORDER_SIZE as int),
        height + BORDER_SIZE as int + TOP_BAR_SIZE as int,
    )
}

/// The content size obtained by removing the border margins from a
/// decorated size.
pub open spec fn subtract_borders_spec(width: int, height: int) -> (int, int) {
    (
        width - 2 * (BORDER_SIZE as int),
        height - BORDER_SIZE as int - TOP_BAR_SIZE as int,
    )
}

/// Adds the border dimensions to the given content dimensions.
pub fn add_borders(width: i32, height: i32) -> (r: (i32, i32))
    requires
        width + 2 * (BORDER_SIZE as int) <= i32::MAX,
        height + BORDER_SIZE as int + TOP_BAR_SIZE as int <= i32::MAX,
    ensures
        (r.0 as int, r.1 as int) == add_borders_spec(width as int, height as int),
{
    (
        width + 2 * BORDER_SIZE,
        height + BORDER_SIZE + TOP_BAR_SIZE,
    )
}

/// Subtracts the border dimensions from the given decorated dimensions.
///
/// The result may be zero or negative when the input is smaller than the
/// decoration margins; callers that need a positive content size must clamp
/// it themselves.
pub fn subtract_borders(width: i32, height: i32) -> (r: (i32, i32))
    requires
        width - 2 * (BORDER_SIZE as int) >= i32::MIN,
        height - BORDER_SIZE as int - TOP_BAR_SIZE as int >= i32::MIN,
    ensures
        (r.0 as int, r.1 as int) == subtract_borders_spec(width as int, height as int),
{
    (
        width - 2 * BORDER_SIZE,
        height - BORDER_SIZE - TOP_BAR_SIZE,
    )
}

/// Adding the borders to a content size and removing them again gives the
/// content size back, for every size.
pub proof fn lemma_border_round_trip(width: int, height: int)
    ensures
        subtract_borders_spec(
            add_borders_spec(width, height).0,
            add_borders_spec(width, height).1,
        ) == (width, height),
{
}

/// Offset of the content area relative to the top-left corner of the
/// decorated rectangle.
pub fn subsurface_offset() -> (r: (i32, i32))
    ensures
        r == (BORDER_SIZE, TOP_BAR_SIZE),
{
    (BORDER_SIZE, TOP_BAR_SIZE)
}

/// Total number of pixels of the decorated rectangle for the given content
/// size.
pub open spec fn pxcount_spec(width: int, height: int) -> int {
    (width + 2 * (BORDER_SIZE as int)) * (height + BORDER_SIZE as int + TOP_BAR_SIZE as int)
}

/// Total number of pixels of the rectangle containing the whole decorated
/// window.
pub fn pxcount(w: i32, h: i32) -> (r: i32)
    requires
        0 <= w <= MAX_DIM,
        0 <= h <= MAX_DIM,
    ensures
        r as int == pxcount_spec(w as int, h as int),
{
    proof {
        assert(0 <= (w as int + 16) * (h as int + 32) <= 16400 * 16416) by (nonlinear_arith)
            requires
                0 <= w <= 16384,
                0 <= h <= 16384,
        ;
    }
    (w + 2 * BORDER_SIZE) * (h + BORDER_SIZE + TOP_BAR_SIZE)
}

/// Whether `(x, y)` lies in the close-button hit box for content width `w`.
///
/// The button boxes are anchored to the right edge of the title bar; each
/// exists only once the content is wide enough that the box cannot collide
/// with the left corner zone.
pub open spec fn in_close_hitbox(x: int, y: int, w: int) -> bool {
    &&& w >= 24
    &&& w + BORDER_SIZE as int - 24 < x && x <= w + BORDER_SIZE as int
    &&& (BORDER_SIZE as int) < y && y <= BORDER_SIZE as int + 16
}

/// Whether `(x, y)` lies in the maximize-button hit box for content width
/// `w`.
pub open spec fn in_maximize_hitbox(x: int, y: int, w: int) -> bool {
    &&& w >= 56
    &&& w + BORDER_SIZE as int - 56 < x && x <= w + BORDER_SIZE as int - 32
    &&& (BORDER_SIZE as int) < y && y <= BORDER_SIZE as int + 16
}

/// Whether `(x, y)` lies in the minimize-button hit box for content width
/// `w`.
pub open spec fn in_minimize_hitbox(x: int, y: int, w: int) -> bool {
    &&& w >= 88
    &&& w + BORDER_SIZE as int - 88 < x && x <= w + BORDER_SIZE as int - 64
    &&& (BORDER_SIZE as int) < y && y <= BORDER_SIZE as int + 16
}

/// The semantic zone of point `(x, y)` over a decorated window with content
/// size `(w, h)`, in coordinates of the decorated rectangle.
///
/// The bands are classified by `y` first (top margin, content rows, bottom
/// margin), then by `x`. A corner zone claims the columns strictly left of
/// the content (`x < BORDER_SIZE`) and strictly right of it
/// (`x > w + BORDER_SIZE`); the boundary columns themselves, and the thin
/// outer strip, count as the top resize edge, which buttons never override.
pub open spec fn location_of(x: int, y: int, w: int, h: int) -> Location {
    if y <= TOP_BAR_SIZE as int {
        if x < BORDER_SIZE as int {
            Location::TopLeft
        } else if x > w + BORDER_SIZE as int {
            Location::TopRight
        } else if y <= BORDER_SIZE as int || x == BORDER_SIZE as int || x == w
            + BORDER_SIZE as int {
            Location::Top
        } else if in_close_hitbox(x, y, w) {
            Location::Button(UIButton::Close)
        } else if in_maximize_hitbox(x, y, w) {
            Location::Button(UIButton::Maximize)
        } else if in_minimize_hitbox(x, y, w) {
            Location::Button(UIButton::Minimize)
        } else {
            Location::TopBar
        }
    } else if y <= TOP_BAR_SIZE as int + h {
        if x < BORDER_SIZE as int {
            Location::Left
        } else if x > w + BORDER_SIZE as int {
            Location::Right
        } else {
            Location::Inside
        }
    } else {
        if x < BORDER_SIZE as int {
            Location::BottomLeft
        } else if x > w + BORDER_SIZE as int {
            Location::BottomRight
        } else {
            Location::Bottom
        }
    }
}

/// Computes on which part of the decorated window the given point falls.
pub fn compute_location(pointer: (i32, i32), size: (i32, i32)) -> (loc: Location)
    requires
        0 <= size.0 <= MAX_DIM,
        0 <= size.1 <= MAX_DIM,
    ensures
        loc == location_of(pointer.0 as int, pointer.1 as int, size.0 as int, size.1 as int),
{
    let (x, y) = pointer;
    let (w, h) = size;
    if y <= TOP_BAR_SIZE {
        if x < BORDER_SIZE {
            Location::TopLeft
        } else if x > w + BORDER_SIZE {
            Location::TopRight
        } else if y <= BORDER_SIZE || x == BORDER_SIZE || x == w + BORDER_SIZE {
            Location::Top
        } else if w >= 24 && x > w + BORDER_SIZE - 24 && y <= BORDER_SIZE + 16 {
            Location::Button(UIButton::Close)
        } else if w >= 56 && x > w + BORDER_SIZE - 56 && x <= w + BORDER_SIZE - 32 && y
            <= BORDER_SIZE + 16 {
            Location::Button(UIButton::Maximize)
        } else if w >= 88 && x > w + BORDER_SIZE - 88 && x <= w + BORDER_SIZE - 64 && y
            <= BORDER_SIZE + 16 {
            Location::Button(UIButton::Minimize)
        } else {
            Location::TopBar
        }
    } else if y <= TOP_BAR_SIZE + h {
        if x < BORDER_SIZE {
            Location::Left
        } else if x > w + BORDER_SIZE {
            Location::Right
        } else {
            Location::Inside
        }
    } else {
        if x < BORDER_SIZE {
            Location::BottomLeft
        } else if x > w + BORDER_SIZE {
            Location::BottomRight
        } else {
            Location::Bottom
        }
    }
}

/// For a content width that fits only the close button, no point classifies
/// as the maximize or minimize button.
pub proof fn lemma_narrow_width_gates_buttons(x: int, y: int, w: int, h: int)
    requires
        w < 56,
    ensures
        location_of(x, y, w, h) != Location::Button(UIButton::Maximize),
        location_of(x, y, w, h) != Location::Button(UIButton::Minimize),
{
}

/// As soon as the content is at least 24 pixels wide, some point classifies
/// as the close button.
pub proof fn lemma_close_button_reachable(w: int, h: int)
    requires
        24 <= w,
    ensures
        exists|x: int, y: int| location_of(x, y, w, h) == Location::Button(UIButton::Close),
{
    assert(location_of(w + BORDER_SIZE as int - 1, BORDER_SIZE as int + 2, w, h)
        == Location::Button(UIButton::Close));
}

/// The fixed palette of the decoration painter.
#[derive(Clone, Copy, Debug, PartialEq, Eq, Structural)]
pub enum Color {
    /// Border grey while the window is not activated.
    InactiveBorder,
    /// Border grey while the window is activated.
    ActiveBorder,
    /// The close button.
    CloseRegular,
    /// The close button under the pointer.
    CloseHover,
    /// The maximize button.
    MaximizeRegular,
    /// The maximize button under the pointer.
    MaximizeHover,
    /// The maximize button when a maximum size constraint disables it.
    MaximizeDisabled,
    /// The minimize button.
    MinimizeRegular,
    /// The minimize button under the pointer.
    MinimizeHover,
}

/// The four bytes of a palette color, in ARGB8888 little-endian order
/// (blue, green, red, alpha).
pub open spec fn color_bytes(c: Color) -> Seq<u8> {
    match c {
        Color::InactiveBorder => seq![0x60u8, 0x60u8, 0x60u8, 0xFFu8],
        Color::ActiveBorder => seq![0x80u8, 0x80u8, 0x80u8, 0xFFu8],
        Color::CloseRegular => seq![0x40u8, 0x40u8, 0xB0u8, 0xFFu8],
        Color::CloseHover => seq![0x40u8, 0x40u8, 0xFFu8, 0xFFu8],
        Color::MaximizeRegular => seq![0x40u8, 0xB0u8, 0xB0u8, 0xFFu8],
        Color::MaximizeHover => seq![0x40u8, 0xFFu8, 0xFFu8, 0xFFu8],
        Color::MaximizeDisabled => seq![0x20u8, 0x80u8, 0x80u8, 0xFFu8],
        Color::MinimizeRegular => seq![0x40u8, 0xB0u8, 0x40u8, 0xFFu8],
        Color::MinimizeHover => seq![0x40u8, 0xFFu8, 0x40u8, 0xFFu8],
    }
}

/// The pixel value of a palette color.
pub fn color_of(c: Color) -> (r: [u8; 4])
    ensures
        r@ == color_bytes(c),
{
    match c {
        Color::InactiveBorder => {
            let r = [0x60u8, 0x60u8, 0x60u8, 0xFFu8];
            proof { assert(r@ =~= color_bytes(c)); }
            r
        },
        Color::ActiveBorder => {
            let r = [0x80u8, 0x80u8, 0x80u8, 0xFFu8];
            proof { assert(r@ =~= color_bytes(c)); }
            r
        },
        Color::CloseRegular => {
            let r = [0x40u8, 0x40u8, 0xB0u8, 0xFFu8];
            proof { assert(r@ =~= color_bytes(c)); }
            r
        },
        Color::CloseHover => {
            let r = [0x40u8, 0x40u8, 0xFFu8, 0xFFu8];
            proof { assert(r@ =~= color_bytes(c)); }
            r
        },
        Color::MaximizeRegular => {
            let r = [0x40u8, 0xB0u8, 0xB0u8, 0xFFu8];
            proof { assert(r@ =~= color_bytes(c)); }
            r
        },
        Color::MaximizeHover => {
            let r = [0x40u8, 0xFFu8, 0xFFu8, 0xFFu8];
            proof { assert(r@ =~= color_bytes(c)); }
            r
        },
        Color::MaximizeDisabled => {
            let r = [0x20u8, 0x80u8, 0x80u8, 0xFFu8];
            proof { assert(r@ =~= color_bytes(c)); }
            r
        },
        Color::MinimizeRegular => {
            let r = [0x40u8, 0xB0u8, 0x40u8, 0xFFu8];
            proof { assert(r@ =~= color_bytes(c)); }
            r
        },
        Color::MinimizeHover => {
            let r = [0x40u8, 0xFFu8, 0x40u8, 0xFFu8];
            proof { assert(r@ =~= color_bytes(c)); }
            r
        },
    }
}

/// The rectangle painted for the close button, for content width `w`.
pub open spec fn in_close_drawbox(x: int, y: int, w: int) -> bool {
    w >= 24 && w - 16 <= x && x < w + 8 && 8 <= y && y < 24
}

/// The rectangle painted for the maximize button, for content width `w`.
pub open spec fn in_maximize_drawbox(x: int, y: int, w: int) -> bool {
    w >= 56 && w - 48 <= x && x < w - 24 && 8 <= y && y < 24
}

/// The rectangle painted for the minimize button, for content width `w`.
pub open spec fn in_minimize_drawbox(x: int, y: int, w: int) -> bool {
    w >= 88 && w - 80 <= x && x < w - 56 && 8 <= y && y < 24
}

/// The union of the four border rectangles of the decoration, in
/// coordinates of the decorated rectangle for content size `(w, h)`.
pub open spec fn in_border_rects(x: int, y: int, w: int, h: int) -> bool {
    ||| y < 25
    ||| (x < 9 && 24 <= y && y < 24 + h)
    ||| (w + 7 <= x && x < w + 16 && 24 <= y && y < 24 + h)
    ||| (h + 23 <= y && y < h + 32)
}

/// What the decoration painter leaves at pixel `(x, y)`: a palette color,
/// or `None` where the pixel is not touched.
///
/// Button rectangles lie inside the top border rectangle and are painted
/// over it; the three buttons never overlap one another.
pub open spec fn decor_color_at(
    w: int,
    h: int,
    activated: bool,
    maximizable: bool,
    hover: Location,
    x: int,
    y: int,
) -> Option<Color> {
    if in_close_drawbox(x, y, w) {
        Some(
            if hover == Location::Button(UIButton::Close) {
                Color::CloseHover
            } else {
                Color::CloseRegular
            },
        )
    } else if in_maximize_drawbox(x, y, w) {
        Some(
            if !maximizable {
                Color::MaximizeDisabled
            } else if hover == Location::Button(UIButton::Maximize) {
                Color::MaximizeHover
            } else {
                Color::MaximizeRegular
            },
        )
    } else if in_minimize_drawbox(x, y, w) {
        Some(
            if hover == Location::Button(UIButton::Minimize) {
                Color::MinimizeHover
            } else {
                Color::MinimizeRegular
            },
        )
    } else if in_border_rects(x, y, w, h) {
        Some(
            if activated {
                Color::ActiveBorder
            } else {
                Color::InactiveBorder
            },
        )
    } else {
        None
    }
}

/// Draws the decorations on the rectangle: the four border strips in one of
/// two greys depending on `activated`, then up to three buttons, each
/// hover-highlighted when `ptr_location` is over it; the maximize button is
/// greyed out whenever `maximizable` is false. The actual contents of the
/// window are drawn on top by the host.
pub fn draw_contents(
    canvas: &mut Canvas,
    w: u32,
    h: u32,
    activated: bool,
    _maximized: bool,
    maximizable: bool,
    ptr_location: Location,
)
    requires
        old(canvas).wf(),
        old(canvas).width == w + 16,
        old(canvas).height == h + 32,
        w <= 16384,
        h <= 16384,
    ensures
        final(canvas).wf(),
        final(canvas).width == old(canvas).width,
        final(canvas).height == old(canvas).height,
        final(canvas).contents@.len() == old(canvas).contents@.len(),
        forall|px: int, py: int|
            0 <= px < w + 16 && 0 <= py < h + 32 ==> #[trigger] pixel_of(
                final(canvas).contents@,
                w as int + 16,
                px,
                py,
            ) == match decor_color_at(
                w as int,
                h as int,
                activated,
                maximizable,
                ptr_location,
                px,
                py,
            ) {
                Some(c) => color_bytes(c),
                None => pixel_of(old(canvas).contents@, w as int + 16, px, py),
            },
        forall|k: int|
            4 * ((w + 16) * (h + 32)) <= k < old(canvas).contents@.len()
                ==> final(canvas).contents@[k] == old(canvas).contents@[k],
{
    let border_color = if activated {
        color_of(Color::ActiveBorder)
    } else {
        color_of(Color::InactiveBorder)
    };
    // the four border rectangles; they overlap at the corners, all in the
    // same color
    canvas.fill_rect(0, 0, w + 16, 25, border_color);
    canvas.fill_rect(0, 24, 9, h, border_color);
    canvas.fill_rect(w + 7, 24, 9, h, border_color);
    canvas.fill_rect(0, h + 23, w + 16, 9, border_color);
    // the close button
    if w >= 24 {
        let c = if matches!(ptr_location, Location::Button(UIButton::Close)) {
            Color::CloseHover
        } else {
            Color::CloseRegular
        };
        canvas.fill_rect(w - 16, 8, 24, 16, color_of(c));
    }
    // the maximize button
    if w >= 56 {
        let c = if !maximizable {
            Color::MaximizeDisabled
        } else if matches!(ptr_location, Location::Button(UIButton::Maximize)) {
            Color::MaximizeHover
        } else {
            Color::MaximizeRegular
        };
        canvas.fill_rect(w - 48, 8, 24, 16, color_of(c));
    }
    // the minimize button
    if w >= 88 {
        let c = if matches!(ptr_location, Location::Button(UIButton::Minimize)) {
            Color::MinimizeHover
        } else {
            Color::MinimizeRegular
        };
        canvas.fill_rect(w - 80, 8, 24, 16, color_of(c));
    }
}

} // verus!

//! The legacy decoration variant: four border sub-surfaces carved out of
//! one shared pixel pool, a coarser per-surface pointer state, and the
//! corresponding resize planning.

use vstd::prelude::*;

use crate::meta::clamp_size_spec;
use crate::meta::clamp_size;
use crate::pointer::CursorShape;
use crate::shell::ResizeEdge;
use crate::theme::BORDER_SIZE;
use crate::theme::MAX_DIM;
use crate::theme::TOP_BAR_SIZE;
use crate::theme::add_borders_spec;

verus! {

/// Index of the top border surface.
pub const BORDER_TOP: usize = 0;

/// Index of the right border surface.
pub const BORDER_RIGHT: usize = 1;

/// Index of the bottom border surface.
pub const BORDER_BOTTOM: usize = 2;

/// Index of the left border surface.
pub const BORDER_LEFT: usize = 3;

/// The metadata of a legacy decorated surface.
#[derive(Clone, Copy, Debug)]
pub struct SurfaceMetadata {
    /// Current content (undecorated) size.
    pub dimensions: (i32, i32),
    /// Whether the borders are drawn at all.
    pub decorate: bool,
    /// Client-declared lower bound on the content size.
    pub min_size: Option<(i32, i32)>,
    /// Client-declared upper bound on the content size.
    pub max_size: Option<(i32, i32)>,
}

impl SurfaceMetadata {
    /// All sizes stay within the machine bounds of the pixel arithmetic.
    pub open spec fn wf(self) -> bool {
        &&& 0 <= self.dimensions.0 <= MAX_DIM
        &&& 0 <= self.dimensions.1 <= MAX_DIM
        &&& match self.min_size {
            Some((w, h)) => 0 <= w <= MAX_DIM && 0 <= h <= MAX_DIM,
            None => true,
        }
        &&& match self.max_size {
            Some((w, h)) => 0 <= w <= MAX_DIM && 0 <= h <= MAX_DIM,
            None => true,
        }
    }

    /// The metadata of a freshly created legacy surface: the given size,
    /// the given decoration choice, no size constraints.
    pub fn new(width: i32, height: i32, decorate: bool) -> (r: SurfaceMetadata)
        requires
            0 <= width <= MAX_DIM,
            0 <= height <= MAX_DIM,
        ensures
            r.wf(),
            r == (SurfaceMetadata {
                dimensions: (width, height),
                decorate,
                min_size: None,
                max_size: None,
            }),
    {
        SurfaceMetadata { dimensions: (width, height), decorate, min_size: None, max_size: None }
    }

    /// Clamps a server-suggested decorated size against this surface's
    /// constraints, exactly as the frame metadata does.
    pub fn clamp_to_limits(&self, size: (i32, i32)) -> (r: (i32, i32))
        requires
            size.0 >= 0,
            size.1 >= 0,
        ensures
            (r.0 as int, r.1 as int) == clamp_size_spec(
                self.decorate,
                self.min_size,
                self.max_size,
                size.0 as int,
                size.1 as int,
            ),
    {
        clamp_size(self.decorate, self.min_size, self.max_size, size)
    }

    /// Turns decoration drawing on or off; the host must replan the borders
    /// afterwards.
    pub fn set_decorate(&mut self, decorate: bool)
        ensures
            *final(self) == (SurfaceMetadata { decorate, ..*old(self) }),
    {
        self.decorate = decorate;
    }

    /// Going fullscreen suppresses the borders.
    pub fn set_fullscreen(&mut self)
        ensures
            *final(self) == (SurfaceMetadata { decorate: false, ..*old(self) }),
    {
        self.decorate = false;
    }

    /// Records the minimum content size and returns the size to advertise:
    /// the decorated size while decorating, the content size otherwise.
    pub fn set_min_size(&mut self, size: Option<(i32, i32)>) -> (advertised: Option<(i32, i32)>)
        requires
            match size {
                Some((w, h)) => 0 <= w <= MAX_DIM && 0 <= h <= MAX_DIM,
                None => true,
            },
        ensures
            *final(self) == (SurfaceMetadata { min_size: size, ..*old(self) }),
            crate::shell::opt_size_view(advertised) == match size {
                Some((w, h)) => Some(
                    if old(self).decorate {
                        add_borders_spec(w as int, h as int)
                    } else {
                        (w as int, h as int)
                    },
                ),
                None => None::<(int, int)>,
            },
    {
        self.min_size = size;
        match size {
            Some((w, h)) => {
                if self.decorate {
                    Some(crate::theme::add_borders(w, h))
                } else {
                    Some((w, h))
                }
            },
            None => None,
        }
    }

    /// Records the maximum content size and returns the size to advertise,
    /// as for the minimum size.
    pub fn set_max_size(&mut self, size: Option<(i32, i32)>) -> (advertised: Option<(i32, i32)>)
        requires
            match size {
                Some((w, h)) => 0 <= w <= MAX_DIM && 0 <= h <= MAX_DIM,
                None => true,
            },
        ensures
            *final(self) == (SurfaceMetadata { max_size: size, ..*old(self) }),
            crate::shell::opt_size_view(advertised) == match size {
                Some((w, h)) => Some(
                    if old(self).decorate {
                        add_borders_spec(w as int, h as int)
                    } else {
                        (w as int, h as int)
                    },
                ),
                None => None::<(int, int)>,
            },
    {
        self.max_size = size;
        match size {
            Some((w, h)) => {
                if self.decorate {
                    Some(crate::theme::add_borders(w, h))
                } else {
                    Some((w, h))
                }
            },
            None => None,
        }
    }
}

/// The pixel count the shared pool must hold so that each of the four
/// border buffers fits it on its own (they all start at offset zero): the
/// largest of the top strip, the title-bar-high content width, and the
/// border-wide content height.
pub open spec fn required_pxcount_spec(w: int, h: int) -> int {
    let a = (TOP_BAR_SIZE as int) * (2 * (BORDER_SIZE as int) + w);
    let b = (TOP_BAR_SIZE as int) * w;
    let c = (BORDER_SIZE as int) * h;
    if a >= b && a >= c {
        a
    } else if b >= c {
        b
    } else {
        c
    }
}

/// The pool pixel count a legacy resize to content size `(w, h)` needs.
pub fn required_pxcount(w: i32, h: i32) -> (r: i32)
    requires
        0 <= w <= MAX_DIM,
        0 <= h <= MAX_DIM,
    ensures
        r as int == required_pxcount_spec(w as int, h as int),
{
    let a = TOP_BAR_SIZE * (2 * BORDER_SIZE + w);
    let b = TOP_BAR_SIZE * w;
    let c = BORDER_SIZE * h;
    if a >= b && a >= c {
        a
    } else if b >= c {
        b
    } else {
        c
    }
}

/// The pool pixel count allocated when a legacy surface is created, before
/// any resize: the larger of the title-bar-high content width, the
/// border-wide content height, and one title-bar-high border square.
pub fn initial_pxcount(w: i32, h: i32) -> (r: i32)
    requires
        0 <= w <= MAX_DIM,
        0 <= h <= MAX_DIM,
    ensures
        r as int == ({
            let a = (TOP_BAR_SIZE as int) * (BORDER_SIZE as int);
            let b = (TOP_BAR_SIZE as int) * (w as int);
            let c = (BORDER_SIZE as int) * (h as int);
            if a >= b && a >= c {
                a
            } else if b >= c {
                b
            } else {
                c
            }
        }),
{
    let a = TOP_BAR_SIZE * BORDER_SIZE;
    let b = TOP_BAR_SIZE * w;
    let c = BORDER_SIZE * h;
    if a >= b && a >= c {
        a
    } else if b >= c {
        b
    } else {
        c
    }
}

/// One border buffer to carve out of the shared pool: its size and stride,
/// and the position of its sub-surface relative to the content surface.
#[derive(Clone, Copy, Debug, PartialEq, Eq, Structural)]
pub struct BorderBuffer {
    /// Buffer width in pixels.
    pub width: i32,
    /// Buffer height in pixels.
    pub height: i32,
    /// Bytes per buffer row.
    pub stride: i32,
    /// Horizontal position of the border sub-surface.
    pub x: i32,
    /// Vertical position of the border sub-surface.
    pub y: i32,
}

/// The four border buffers for content size `(w, h)`, indexed by
/// `BORDER_TOP`, `BORDER_RIGHT`, `BORDER_BOTTOM` and `BORDER_LEFT`. All
/// start at pool offset zero; the pool is filled with one solid color, so
/// they may overlap freely.
pub fn border_buffers(w: i32, h: i32) -> (r: [BorderBuffer; 4])
    requires
        0 <= w <= MAX_DIM,
        0 <= h <= MAX_DIM,
    ensures
        r@[BORDER_TOP as int] == (BorderBuffer {
            width: (w + 2 * BORDER_SIZE) as i32,
            height: TOP_BAR_SIZE,
            stride: ((w + 2 * BORDER_SIZE) * 4) as i32,
            x: (-BORDER_SIZE) as i32,
            y: (-TOP_BAR_SIZE) as i32,
        }),
        r@[BORDER_RIGHT as int] == (BorderBuffer {
            width: BORDER_SIZE,
            height: h,
            stride: (BORDER_SIZE * 4) as i32,
            x: w,
            y: 0,
        }),
        r@[BORDER_BOTTOM as int] == (BorderBuffer {
            width: (w + 2 * BORDER_SIZE) as i32,
            height: BORDER_SIZE,
            stride: ((w + 2 * BORDER_SIZE) * 4) as i32,
            x: (-BORDER_SIZE) as i32,
            y: h,
        }),
        r@[BORDER_LEFT as int] == (BorderBuffer {
            width: BORDER_SIZE,
            height: h,
            stride: (BORDER_SIZE * 4) as i32,
            x: (-BORDER_SIZE) as i32,
            y: 0,
        }),
{
    let top = BorderBuffer {
        width: w + 2 * BORDER_SIZE,
        height: TOP_BAR_SIZE,
        stride: (w + 2 * BORDER_SIZE) * 4,
        x: -BORDER_SIZE,
        y: -TOP_BAR_SIZE,
    };
    let right = BorderBuffer {
        width: BORDER_SIZE,
        height: h,
        stride: BORDER_SIZE * 4,
        x: w,
        y: 0,
    };
    let bottom = BorderBuffer {
        width: w + 2 * BORDER_SIZE,
        height: BORDER_SIZE,
        stride: (w + 2 * BORDER_SIZE) * 4,
        x: -BORDER_SIZE,
        y: h,
    };
    let left = BorderBuffer {
        width: BORDER_SIZE,
        height: h,
        stride: BORDER_SIZE * 4,
        x: -BORDER_SIZE,
        y: 0,
    };
    [top, right, bottom, left]
}

/// The solid pixel the legacy variant fills its whole pool with, in
/// ARGB8888 little-endian order: a dark grey.
pub fn legacy_border_pixel() -> (r: [u8; 4])
    ensures
        r@ == seq![0x44u8, 0x44u8, 0x44u8, 0xFFu8],
{
    let r = [0x44u8, 0x44u8, 0x44u8, 0xFFu8];
    proof {
        assert(r@ =~= seq![0x44u8, 0x44u8, 0x44u8, 0xFFu8]);
    }
    r
}

/// Everything the host must do to the pool and the border surfaces for one
/// legacy resize.
#[derive(Clone, Copy, Debug, PartialEq, Eq, Structural)]
pub struct LegacyResize {
    /// The pool length in bytes after the resize.
    pub new_capacity: usize,
    /// Whether the pool must be grown to that length first.
    pub pool_resized: bool,
}

/// Plans a legacy resize: records the new content size and, while
/// decorating, returns how the pool must grow; the pool never shrinks.
/// Without decorations there is no plan and the host detaches the borders.
pub fn plan_resize(meta: &mut SurfaceMetadata, capacity: usize, width: i32, height: i32) -> (r:
    Option<LegacyResize>)
    requires
        old(meta).wf(),
        0 <= width <= MAX_DIM,
        0 <= height <= MAX_DIM,
    ensures
        final(meta).wf(),
        *final(meta) == (SurfaceMetadata { dimensions: (width, height), ..*old(meta) }),
        !old(meta).decorate ==> r is None,
        old(meta).decorate ==> ({
            let needed = 4 * required_pxcount_spec(width as int, height as int);
            r == Some(
                LegacyResize {
                    new_capacity: (if needed > capacity {
                        needed
                    } else {
                        capacity as int
                    }) as usize,
                    pool_resized: needed > capacity,
                },
            )
        }),
{
    meta.dimensions = (width, height);
    if !meta.decorate {
        return None;
    }
    let count = required_pxcount(width, height);
    proof {
        assert(required_pxcount_spec(width as int, height as int) <= 24 * (16 + 16384))
            by (nonlinear_arith)
            requires
                0 <= width <= 16384,
                0 <= height <= 16384,
        ;
    }
    let needed = (count as usize) * 4;
    if needed > capacity {
        Some(LegacyResize { new_capacity: needed, pool_resized: true })
    } else {
        Some(LegacyResize { new_capacity: capacity, pool_resized: false })
    }
}

/// The border surface the legacy pointer is over.
#[derive(Clone, Copy, Debug, PartialEq, Eq, Structural)]
pub enum PtrLocation {
    /// Not over any border surface that this crate manages.
    Outside,
    /// Over the top border surface.
    Top,
    /// Over the right border surface.
    Right,
    /// Over the bottom border surface.
    Bottom,
    /// Over the left border surface.
    Left,
}

/// The border surface denoted by a border-surface index.
pub open spec fn ptr_location_of_index(i: int) -> PtrLocation {
    if i == BORDER_TOP {
        PtrLocation::Top
    } else if i == BORDER_RIGHT {
        PtrLocation::Right
    } else if i == BORDER_BOTTOM {
        PtrLocation::Bottom
    } else {
        PtrLocation::Left
    }
}

/// The cursor shape the legacy pointer shows, from the border surface, the
/// corner and top flags, and the horizontal coordinate.
pub open spec fn legacy_cursor_spec(
    loc: PtrLocation,
    cornered: bool,
    topped: bool,
    x: int,
) -> CursorShape {
    if cornered {
        match loc {
            PtrLocation::Top => if x <= BORDER_SIZE as int {
                CursorShape::TopLeftCorner
            } else {
                CursorShape::TopRightCorner
            },
            PtrLocation::Bottom => if x <= BORDER_SIZE as int {
                CursorShape::BottomLeftCorner
            } else {
                CursorShape::BottomRightCorner
            },
            _ => CursorShape::LeftPtr,
        }
    } else {
        match loc {
            PtrLocation::Top => if topped {
                CursorShape::TopSide
            } else {
                CursorShape::LeftPtr
            },
            PtrLocation::Bottom => CursorShape::BottomSide,
            PtrLocation::Right => CursorShape::RightSide,
            PtrLocation::Left => CursorShape::LeftSide,
            PtrLocation::Outside => CursorShape::LeftPtr,
        }
    }
}

/// The legacy pointer state: which border surface the pointer is over,
/// where, and whether it is in a corner zone or on the thin top strip.
pub struct LegacyPointerState {
    /// The border surface the pointer is over.
    pub location: PtrLocation,
    /// The last reported coordinates, relative to that border surface.
    pub coordinates: (i32, i32),
    /// Whether the pointer is over a corner zone of the top or bottom
    /// border.
    pub cornered: bool,
    /// Whether the pointer is on the thin outer strip of the top border.
    pub topped: bool,
}

impl LegacyPointerState {
    /// A pointer that has not entered any border surface yet.
    pub fn new() -> (r: LegacyPointerState)
        ensures
            r.location == PtrLocation::Outside,
            r.coordinates == (0i32, 0i32),
            !r.cornered,
            !r.topped,
    {
        LegacyPointerState {
            location: PtrLocation::Outside,
            coordinates: (0, 0),
            cornered: false,
            topped: false,
        }
    }

    /// Recomputes the corner and top flags from the current coordinates
    /// and, when one of them changed (or `force` is set), returns the new
    /// cursor shape.
    pub fn update(&mut self, surface_width: i32, force: bool) -> (r: Option<CursorShape>)
        requires
            0 <= surface_width <= MAX_DIM,
        ensures
            ({
                let x = old(self).coordinates.0 as int;
                let y = old(self).coordinates.1 as int;
                let cornered = (old(self).location == PtrLocation::Top || old(self).location
                    == PtrLocation::Bottom) && (x <= BORDER_SIZE as int || x >= surface_width as int
                    + BORDER_SIZE as int);
                let topped = old(self).location == PtrLocation::Top && y <= BORDER_SIZE as int;
                &&& *final(self) == (LegacyPointerState { cornered, topped, ..*old(self) })
                &&& r == if force || cornered != old(self).cornered || topped != old(self).topped {
                    Some(legacy_cursor_spec(old(self).location, cornered, topped, x))
                } else {
                    None::<CursorShape>
                }
            }),
    {
        let old_cornered = self.cornered;
        let x = self.coordinates.0;
        self.cornered = (matches!(self.location, PtrLocation::Top) || matches!(
            self.location,
            PtrLocation::Bottom,
        )) && (x <= BORDER_SIZE || x >= surface_width + BORDER_SIZE);
        let old_topped = self.topped;
        self.topped = matches!(self.location, PtrLocation::Top) && self.coordinates.1
            <= BORDER_SIZE;
        if force || (self.cornered != old_cornered) || (old_topped != self.topped) {
            let shape = if self.cornered {
                match self.location {
                    PtrLocation::Top => if x <= BORDER_SIZE {
                        CursorShape::TopLeftCorner
                    } else {
                        CursorShape::TopRightCorner
                    },
                    PtrLocation::Bottom => if x <= BORDER_SIZE {
                        CursorShape::BottomLeftCorner
                    } else {
                        CursorShape::BottomRightCorner
                    },
                    _ => CursorShape::LeftPtr,
                }
            } else {
                match self.location {
                    PtrLocation::Top => if self.topped {
                        CursorShape::TopSide
                    } else {
                        CursorShape::LeftPtr
                    },
                    PtrLocation::Bottom => CursorShape::BottomSide,
                    PtrLocation::Right => CursorShape::RightSide,
                    PtrLocation::Left => CursorShape::LeftSide,
                    PtrLocation::Outside => CursorShape::LeftPtr,
                }
            };
            Some(shape)
        } else {
            None
        }
    }

    /// Handles a pointer-enter event, given which border surface matched
    /// (if any) as its index. A foreign surface resets the state; a managed
    /// one recomputes the flags with the force flag set.
    pub fn pointer_entered(
        &mut self,
        border: Option<usize>,
        x: i32,
        y: i32,
        surface_width: i32,
    ) -> (r: Option<CursorShape>)
        requires
            0 <= surface_width <= MAX_DIM,
            border is Some ==> border->0 < 4,
        ensures
            final(self).coordinates == (x, y),
            border is None ==> {
                &&& final(self).location == PtrLocation::Outside
                &&& final(self).cornered == old(self).cornered
                &&& final(self).topped == old(self).topped
                &&& r is None
            },
            border is Some ==> ({
                let loc = ptr_location_of_index(border->0 as int);
                let cornered = (loc == PtrLocation::Top || loc == PtrLocation::Bottom) && (
                x as int <= BORDER_SIZE as int || x as int >= surface_width as int
                    + BORDER_SIZE as int);
                let topped = loc == PtrLocation::Top && y as int <= BORDER_SIZE as int;
                &&& final(self).location == loc
                &&& final(self).cornered == cornered
                &&& final(self).topped == topped
                &&& r == Some(legacy_cursor_spec(loc, cornered, topped, x as int))
            }),
    {
        self.coordinates = (x, y);
        match border {
            None => {
                // a surface that we don't manage
                self.location = PtrLocation::Outside;
                None
            },
            Some(i) => {
                self.location = if i == BORDER_TOP {
                    PtrLocation::Top
                } else if i == BORDER_RIGHT {
                    PtrLocation::Right
                } else if i == BORDER_BOTTOM {
                    PtrLocation::Bottom
                } else {
                    PtrLocation::Left
                };
                self.update(surface_width, true)
            },
        }
    }

    /// Handles a pointer-leave event: the location is reset and the cursor
    /// falls back to the default arrow.
    pub fn pointer_left(&mut self) -> (r: CursorShape)
        ensures
            *final(self) == (LegacyPointerState { location: PtrLocation::Outside, ..*old(self) }),
            r == CursorShape::LeftPtr,
    {
        self.location = PtrLocation::Outside;
        CursorShape::LeftPtr
    }
}

/// What a legacy primary-button press triggers.
#[derive(Clone, Copy, Debug, PartialEq, Eq, Structural)]
pub enum LegacyAction {
    /// Ask the server for an interactive move.
    Move,
    /// Ask the server for an interactive resize along the given edge.
    Resize(ResizeEdge),
}

/// The action of a legacy primary-button press: which edge or corner to
/// resize along, from the border surface and the coordinates over it, or a
/// move from the middle of the top border.
pub open spec fn legacy_action_spec(loc: PtrLocation, x: int, y: int, w: int) -> Option<
    LegacyAction,
> {
    match loc {
        PtrLocation::Top => if y < BORDER_SIZE as int {
            if x < BORDER_SIZE as int {
                Some(LegacyAction::Resize(ResizeEdge::TopLeft))
            } else if x > w + BORDER_SIZE as int {
                Some(LegacyAction::Resize(ResizeEdge::TopRight))
            } else {
                Some(LegacyAction::Resize(ResizeEdge::Top))
            }
        } else {
            if x < BORDER_SIZE as int {
                Some(LegacyAction::Resize(ResizeEdge::Left))
            } else if x > w + BORDER_SIZE as int {
                Some(LegacyAction::Resize(ResizeEdge::Right))
            } else {
                Some(LegacyAction::Move)
            }
        },
        PtrLocation::Bottom => if x < BORDER_SIZE as int {
            Some(LegacyAction::Resize(ResizeEdge::BottomLeft))
        } else if x > w + BORDER_SIZE as int {
            Some(LegacyAction::Resize(ResizeEdge::BottomRight))
        } else {
            Some(LegacyAction::Resize(ResizeEdge::Bottom))
        },
        PtrLocation::Left => Some(LegacyAction::Resize(ResizeEdge::Left)),
        PtrLocation::Right => Some(LegacyAction::Resize(ResizeEdge::Right)),
        PtrLocation::Outside => None,
    }
}

/// Translates a legacy primary-button press into a window action.
pub fn legacy_pointer_action(loc: PtrLocation, x: i32, y: i32, w: i32) -> (r: Option<LegacyAction>)
    requires
        0 <= w <= MAX_DIM,
    ensures
        r == legacy_action_spec(loc, x as int, y as int, w as int),
{
    match loc {
        PtrLocation::Top => {
            if y < BORDER_SIZE {
                if x < BORDER_SIZE {
                    Some(LegacyAction::Resize(ResizeEdge::TopLeft))
                } else if x > w + BORDER_SIZE {
                    Some(LegacyAction::Resize(ResizeEdge::TopRight))
                } else {
                    Some(LegacyAction::Resize(ResizeEdge::Top))
                }
            } else {
                if x < BORDER_SIZE {
                    Some(LegacyAction::Resize(ResizeEdge::Left))
                } else if x > w + BORDER_SIZE {
                    Some(LegacyAction::Resize(ResizeEdge::Right))
                } else {
                    Some(LegacyAction::Move)
                }
            }
        },
        PtrLocation::Bottom => {
            if x < BORDER_SIZE {
                Some(LegacyAction::Resize(ResizeEdge::BottomLeft))
            } else if x > w + BORDER_SIZE {
                Some(LegacyAction::Resize(ResizeEdge::BottomRight))
            } else {
                Some(LegacyAction::Resize(ResizeEdge::Bottom))
            }
        },
        PtrLocation::Left => Some(LegacyAction::Resize(ResizeEdge::Left)),
        PtrLocation::Right => Some(LegacyAction::Resize(ResizeEdge::Right)),
        PtrLocation::Outside => None,
    }
}

} // verus!

//! The pointer state machine: tracking of the current hover zone over the
//! decoration, selection of the cursor shape, and translation of button
//! presses into window actions.

use vstd::prelude::*;

use crate::meta::FrameMetadata;
use crate::shell::ResizeEdge;
use crate::theme::compute_location;
use crate::theme::location_of;
use crate::Location;
use crate::UIButton;

verus! {

/// The button code of the primary (left) pointer button; presses of any
/// other button are ignored.
pub const BTN_LEFT: u32 = 0x110;

/// A named cursor image, selected purely from the hover zone.
#[derive(Clone, Copy, Debug, PartialEq, Eq, Structural)]
pub enum CursorShape {
    /// The default arrow.
    LeftPtr,
    /// The top resize arrow.
    TopSide,
    /// The top-right resize arrow.
    TopRightCorner,
    /// The right resize arrow.
    RightSide,
    /// The bottom-right resize arrow.
    BottomRightCorner,
    /// The bottom resize arrow.
    BottomSide,
    /// The bottom-left resize arrow.
    BottomLeftCorner,
    /// The left resize arrow.
    LeftSide,
    /// The top-left resize arrow.
    TopLeftCorner,
}

/// The cursor shape shown over each hover zone.
pub open spec fn cursor_shape_spec(loc: Location) -> CursorShape {
    match loc {
        Location::Top => CursorShape::TopSide,
        Location::TopRight => CursorShape::TopRightCorner,
        Location::Right => CursorShape::RightSide,
        Location::BottomRight => CursorShape::BottomRightCorner,
        Location::Bottom => CursorShape::BottomSide,
        Location::BottomLeft => CursorShape::BottomLeftCorner,
        Location::Left => CursorShape::LeftSide,
        Location::TopLeft => CursorShape::TopLeftCorner,
        _ => CursorShape::LeftPtr,
    }
}

/// Selects the cursor shape for a hover zone.
pub fn cursor_shape(loc: Location) -> (r: CursorShape)
    ensures
        r == cursor_shape_spec(loc),
{
    match loc {
        Location::Top => CursorShape::TopSide,
        Location::TopRight => CursorShape::TopRightCorner,
        Location::Right => CursorShape::RightSide,
        Location::BottomRight => CursorShape::BottomRightCorner,
        Location::Bottom => CursorShape::BottomSide,
        Location::BottomLeft => CursorShape::BottomLeftCorner,
        Location::Left => CursorShape::LeftSide,
        Location::TopLeft => CursorShape::TopLeftCorner,
        _ => CursorShape::LeftPtr,
    }
}

/// The hover zone for pointer coordinates over a frame: the geometric
/// classification while decorations are shown, and the content area
/// otherwise.
pub open spec fn hover_location(m: FrameMetadata, x: int, y: int) -> Location {
    if m.decorate && !m.fullscreen {
        location_of(x, y, m.dimensions.0 as int, m.dimensions.1 as int)
    } else {
        Location::Inside
    }
}

/// The window action a primary-button press triggers, by hover zone.
#[derive(Clone, Copy, Debug, PartialEq, Eq, Structural)]
pub enum PressAction {
    /// No action.
    Nothing,
    /// Ask the server for an interactive resize along the given edge.
    InteractiveResize(ResizeEdge),
    /// Ask the server for an interactive move.
    InteractiveMove,
    /// Minimize the window.
    Minimize,
    /// Maximize the window.
    Maximize,
    /// Leave the maximized state.
    Unmaximize,
    /// Close the window.
    Close,
}

/// The action of a primary-button press over each hover zone. The maximize
/// button is inert while a maximum size constraint is set (the button is
/// greyed out), and otherwise toggles against the current maximized state.
pub open spec fn press_action_spec(loc: Location, m: FrameMetadata) -> PressAction {
    match loc {
        Location::Top => PressAction::InteractiveResize(ResizeEdge::Top),
        Location::TopRight => PressAction::InteractiveResize(ResizeEdge::TopRight),
        Location::Right => PressAction::InteractiveResize(ResizeEdge::Right),
        Location::BottomRight => PressAction::InteractiveResize(ResizeEdge::BottomRight),
        Location::Bottom => PressAction::InteractiveResize(ResizeEdge::Bottom),
        Location::BottomLeft => PressAction::InteractiveResize(ResizeEdge::BottomLeft),
        Location::Left => PressAction::InteractiveResize(ResizeEdge::Left),
        Location::TopLeft => PressAction::InteractiveResize(ResizeEdge::TopLeft),
        Location::TopBar => PressAction::InteractiveMove,
        Location::Button(UIButton::Minimize) => PressAction::Minimize,
        Location::Button(UIButton::Maximize) => if m.max_size is Some {
            PressAction::Nothing
        } else if m.maximized {
            PressAction::Unmaximize
        } else {
            PressAction::Maximize
        },
        Location::Button(UIButton::Close) => PressAction::Close,
        Location::Outside => PressAction::Nothing,
        Location::Inside => PressAction::Nothing,
    }
}

/// Tracks the pointer over one decorated frame.
pub struct PointerState {
    /// The hover zone computed from the last enter or motion event.
    pub location: Location,
    /// The last reported pointer coordinates, relative to the decorated
    /// rectangle.
    pub coordinates: (i32, i32),
}

impl PointerState {
    /// A pointer that has not entered the decoration yet.
    pub fn new() -> (r: PointerState)
        ensures
            r.location == Location::Outside,
            r.coordinates == (0i32, 0i32),
    {
        PointerState { location: Location::Outside, coordinates: (0, 0) }
    }

    /// Recomputes the hover zone from the current coordinates. When it
    /// changed (or `force` is set), the new zone is recorded in the
    /// metadata, a repaint is scheduled if a button gained or lost the
    /// hover highlight, and the new cursor shape is returned. The returned
    /// flag mirrors the frame's dirty flag, so the host knows whether to
    /// refresh.
    pub fn update(&mut self, meta: &mut FrameMetadata, force: bool) -> (r: (
        bool,
        Option<CursorShape>,
    ))
        requires
            old(meta).wf(),
        ensures
            final(meta).wf(),
            ({
                let nl = hover_location(
                    *old(meta),
                    old(self).coordinates.0 as int,
                    old(self).coordinates.1 as int,
                );
                let changed = nl != old(self).location || force;
                &&& final(self).coordinates == old(self).coordinates
                &&& final(self).location == if changed {
                    nl
                } else {
                    old(self).location
                }
                &&& *final(meta) == (FrameMetadata {
                    need_redraw: old(meta).need_redraw || (changed && (old(self).location is Button
                        || nl is Button)),
                    ptr_location: if changed {
                        nl
                    } else {
                        old(meta).ptr_location
                    },
                    ..*old(meta)
                })
                &&& r.0 == final(meta).need_redraw
                &&& r.1 == if changed {
                    Some(cursor_shape_spec(nl))
                } else {
                    None::<CursorShape>
                }
            }),
    {
        let new_location = if meta.decorate && !meta.fullscreen {
            compute_location(self.coordinates, meta.dimensions)
        } else {
            Location::Inside
        };
        if new_location != self.location || force {
            // a button gained or lost the hover highlight: repaint
            if matches!(self.location, Location::Button(_)) {
                meta.need_redraw = true;
            }
            if matches!(new_location, Location::Button(_)) {
                meta.need_redraw = true;
            }
            self.location = new_location;
            meta.ptr_location = new_location;
            (meta.need_redraw, Some(cursor_shape(new_location)))
        } else {
            (meta.need_redraw, None)
        }
    }

    /// Handles a pointer-enter event. Over the managed decoration surface
    /// the hover zone is recomputed with the force flag set, since a fresh
    /// enter always needs a cursor shape; over a foreign surface the zone
    /// is reset.
    pub fn pointer_entered(&mut self, meta: &mut FrameMetadata, managed: bool, x: i32, y: i32) -> (r:
        Option<CursorShape>)
        requires
            old(meta).wf(),
        ensures
            final(meta).wf(),
            final(self).coordinates == (x, y),
            ({
                let nl = hover_location(*old(meta), x as int, y as int);
                if managed {
                    &&& final(self).location == nl
                    &&& *final(meta) == (FrameMetadata {
                        need_redraw: old(meta).need_redraw || old(self).location is Button
                            || nl is Button,
                        ptr_location: nl,
                        ..*old(meta)
                    })
                    &&& r == Some(cursor_shape_spec(nl))
                } else {
                    &&& final(self).location == Location::Outside
                    &&& *final(meta) == (FrameMetadata {
                        ptr_location: Location::Outside,
                        ..*old(meta)
                    })
                    &&& r is None
                }
            }),
    {
        self.coordinates = (x, y);
        if managed {
            let (_, shape) = self.update(meta, true);
            shape
        } else {
            // a surface that we don't manage
            meta.ptr_location = Location::Outside;
            self.location = Location::Outside;
            None
        }
    }

    /// Handles a pointer-leave event: the hover zone is reset and the
    /// cursor falls back to the default arrow.
    pub fn pointer_left(&mut self, meta: &mut FrameMetadata) -> (r: CursorShape)
        ensures
            final(self).location == Location::Outside,
            final(self).coordinates == old(self).coordinates,
            *final(meta) == (FrameMetadata { ptr_location: Location::Outside, ..*old(meta) }),
            r == CursorShape::LeftPtr,
    {
        meta.ptr_location = Location::Outside;
        self.location = Location::Outside;
        CursorShape::LeftPtr
    }

    /// Handles a pointer-motion event. Motion is ignored entirely while the
    /// pointer is not over the managed decoration (a fresh enter must come
    /// first); otherwise the hover zone is recomputed.
    pub fn pointer_motion(&mut self, meta: &mut FrameMetadata, x: i32, y: i32) -> (r: (
        bool,
        Option<CursorShape>,
    ))
        requires
            old(meta).wf(),
        ensures
            final(meta).wf(),
            old(self).location == Location::Outside ==> {
                &&& *final(self) == *old(self)
                &&& *final(meta) == *old(meta)
                &&& r == (false, None::<CursorShape>)
            },
            old(self).location != Location::Outside ==> ({
                let nl = hover_location(*old(meta), x as int, y as int);
                let changed = nl != old(self).location;
                &&& final(self).coordinates == (x, y)
                &&& final(self).location == if changed {
                    nl
                } else {
                    old(self).location
                }
                &&& *final(meta) == (FrameMetadata {
                    need_redraw: old(meta).need_redraw || (changed && (old(self).location is Button
                        || nl is Button)),
                    ptr_location: if changed {
                        nl
                    } else {
                        old(meta).ptr_location
                    },
                    ..*old(meta)
                })
                &&& r.0 == final(meta).need_redraw
                &&& r.1 == if changed {
                    Some(cursor_shape_spec(nl))
                } else {
                    None::<CursorShape>
                }
            }),
    {
        if matches!(self.location, Location::Outside) {
            (false, None)
        } else {
            self.coordinates = (x, y);
            self.update(meta, false)
        }
    }

    /// Translates a pointer-button event into a window action. Only presses
    /// of the primary button act; everything else is ignored.
    pub fn press_action(&self, meta: &FrameMetadata, button: u32, pressed: bool) -> (r: PressAction)
        ensures
            r == if button == BTN_LEFT && pressed {
                press_action_spec(self.location, *meta)
            } else {
                PressAction::Nothing
            },
    {
        if button != BTN_LEFT || !pressed {
            return PressAction::Nothing;
        }
        match self.location {
            Location::Top => PressAction::InteractiveResize(ResizeEdge::Top),
            Location::TopRight => PressAction::InteractiveResize(ResizeEdge::TopRight),
            Location::Right => PressAction::InteractiveResize(ResizeEdge::Right),
            Location::BottomRight => PressAction::InteractiveResize(ResizeEdge::BottomRight),
            Location::Bottom => PressAction::InteractiveResize(ResizeEdge::Bottom),
            Location::BottomLeft => PressAction::InteractiveResize(ResizeEdge::BottomLeft),
            Location::Left => PressAction::InteractiveResize(ResizeEdge::Left),
            Location::TopLeft => PressAction::InteractiveResize(ResizeEdge::TopLeft),
            Location::TopBar => PressAction::InteractiveMove,
            Location::Button(UIButton::Minimize) => PressAction::Minimize,
            Location::Button(UIButton::Maximize) => {
                if meta.max_size.is_some() {
                    // there is a max size, the button is greyed out
                    PressAction::Nothing
                } else if meta.maximized {
                    PressAction::Unmaximize
                } else {
                    PressAction::Maximize
                }
            },
            Location::Button(UIButton::Close) => PressAction::Close,
            Location::Outside => PressAction::Nothing,
            Location::Inside => PressAction::Nothing,
        }
    }
}

} // verus!

//! The shared frame metadata: the current content size, the decoration and
//! window-state flags, the client size constraints, and the clamping of
//! server-suggested sizes against them.

use vstd::prelude::*;

use crate::theme::MAX_DIM;
use crate::theme::subtract_borders;
use crate::theme::subtract_borders_spec;
use crate::Location;

verus! {

/// A server-suggested decorated size clamped against the client size
/// constraints: the border margins are removed when decorating, then the
/// maximum size is applied, then the minimum size, so that on conflicting
/// constraints the minimum wins.
pub open spec fn clamp_size_spec(
    decorate: bool,
    min_size: Option<(i32, i32)>,
    max_size: Option<(i32, i32)>,
    w: int,
    h: int,
) -> (int, int) {
    let (w1, h1) = if decorate {
        subtract_borders_spec(w, h)
    } else {
        (w, h)
    };
    let (w2, h2) = match max_size {
        Some((mw, mh)) => (
            if mw < w1 { mw as int } else { w1 },
            if mh < h1 { mh as int } else { h1 },
        ),
        None => (w1, h1),
    };
    match min_size {
        Some((mw, mh)) => (
            if mw > w2 { mw as int } else { w2 },
            if mh > h2 { mh as int } else { h2 },
        ),
        None => (w2, h2),
    }
}

/// Clamps a suggested decorated size against the given constraints.
pub fn clamp_size(
    decorate: bool,
    min_size: Option<(i32, i32)>,
    max_size: Option<(i32, i32)>,
    size: (i32, i32),
) -> (r: (i32, i32))
    requires
        size.0 >= 0,
        size.1 >= 0,
    ensures
        (r.0 as int, r.1 as int) == clamp_size_spec(decorate, min_size, max_size, size.0 as int, size.1 as int),
{
    let (mut w, mut h) = size;
    if decorate {
        let (ww, hh) = subtract_borders(w, h);
        w = ww;
        h = hh;
    }
    if let Some((maxw, maxh)) = max_size {
        if maxw < w {
            w = maxw;
        }
        if maxh < h {
            h = maxh;
        }
    }
    if let Some((minw, minh)) = min_size {
        if minw > w {
            w = minw;
        }
        if minh > h {
            h = minh;
        }
    }
    (w, h)
}

/// When the minimum size dominates the maximum size componentwise, clamping
/// yields exactly the minimum size, whatever size the server suggested: on
/// conflicting constraints the minimum wins.
pub proof fn lemma_clamp_conflict_min_wins(
    decorate: bool,
    min_size: (i32, i32),
    max_size: (i32, i32),
    w: int,
    h: int,
)
    requires
        min_size.0 >= max_size.0,
        min_size.1 >= max_size.1,
    ensures
        clamp_size_spec(decorate, Some(min_size), Some(max_size), w, h) == (
            min_size.0 as int,
            min_size.1 as int,
        ),
{
}

/// The mutable state of one decorated frame, shared between configure-event
/// handling and pointer handling.
#[derive(Clone, Copy, Debug)]
pub struct FrameMetadata {
    /// Current content (undecorated) size.
    pub dimensions: (i32, i32),
    /// Whether borders and buttons are drawn at all.
    pub decorate: bool,
    /// Whether the window is fullscreen; fullscreen suppresses decorations
    /// regardless of `decorate`.
    pub fullscreen: bool,
    /// Whether the server reports the window as maximized.
    pub maximized: bool,
    /// Client-declared lower bound on the content size.
    pub min_size: Option<(i32, i32)>,
    /// Client-declared upper bound on the content size.
    pub max_size: Option<(i32, i32)>,
    /// Content size snapshotted when entering the maximized state, restored
    /// when leaving it without an explicit size from the server.
    pub old_size: Option<(i32, i32)>,
    /// Whether the server reports the window as activated (focused).
    pub activated: bool,
    /// Whether the server has acknowledged the initial configuration.
    pub ready: bool,
    /// Dirty flag: some state affecting pixel output changed since the last
    /// repaint.
    pub need_redraw: bool,
    /// Last computed hover zone, used for button hover highlighting.
    pub ptr_location: Location,
}

impl FrameMetadata {
    /// The content size is positive and small enough for pixel arithmetic,
    /// and each constraint or snapshot size is within the same machine
    /// bounds.
    pub open spec fn wf(self) -> bool {
        &&& 1 <= self.dimensions.0 <= MAX_DIM
        &&& 1 <= self.dimensions.1 <= MAX_DIM
        &&& match self.min_size {
            Some((w, h)) => 0 <= w <= MAX_DIM && 0 <= h <= MAX_DIM,
            None => true,
        }
        &&& match self.max_size {
            Some((w, h)) => 0 <= w <= MAX_DIM && 0 <= h <= MAX_DIM,
            None => true,
        }
        &&& match self.old_size {
            Some((w, h)) => 1 <= w <= MAX_DIM && 1 <= h <= MAX_DIM,
            None => true,
        }
    }

    /// The metadata of a freshly created frame: undecorated, floating,
    /// activated, with no size constraints.
    pub fn new(width: i32, height: i32, needs_readiness: bool) -> (r: FrameMetadata)
        requires
            1 <= width <= MAX_DIM,
            1 <= height <= MAX_DIM,
        ensures
            r.wf(),
            r.dimensions == (width, height),
            !r.decorate,
            !r.fullscreen,
            !r.maximized,
            r.min_size is None,
            r.max_size is None,
            r.old_size is None,
            r.activated,
            r.ready == !needs_readiness,
            r.need_redraw == needs_readiness,
            r.ptr_location == Location::Outside,
    {
        FrameMetadata {
            dimensions: (width, height),
            decorate: false,
            fullscreen: false,
            maximized: false,
            min_size: None,
            max_size: None,
            old_size: None,
            activated: true,
            ready: !needs_readiness,
            need_redraw: needs_readiness,
            ptr_location: Location::Outside,
        }
    }

    /// Clamps a server-suggested decorated size against this frame's
    /// constraints.
    pub fn clamp_to_limits(&self, size: (i32, i32)) -> (r: (i32, i32))
        requires
            size.0 >= 0,
            size.1 >= 0,
        ensures
            (r.0 as int, r.1 as int) == clamp_size_spec(
                self.decorate,
                self.min_size,
                self.max_size,
                size.0 as int,
                size.1 as int,
            ),
    {
        clamp_size(self.decorate, self.min_size, self.max_size, size)
    }
}

} // verus!

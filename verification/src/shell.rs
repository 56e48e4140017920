//! Normalization of the two supported shell protocol variants: parsing of
//! toplevel state flags, reconciliation of server configure events against
//! the frame metadata, and routing of outbound window requests to the
//! concrete request each variant understands.

use vstd::prelude::*;

use crate::meta::FrameMetadata;
use crate::meta::clamp_size_spec;

verus! {

/// The supported shell protocol variants for top-level window semantics.
#[derive(Clone, Copy, Debug, PartialEq, Eq, Structural)]
pub enum Shell {
    /// The modern shell: configure events carry state flags, the initial
    /// configuration must be acknowledged before painting, and minimize and
    /// size constraints are supported.
    Xdg,
    /// The legacy shell: no acknowledgment step, no minimize, no size
    /// constraints; a frame on it starts ready.
    Wl,
}

impl Shell {
    /// Whether a frame on this shell must wait for a server acknowledgment
    /// before its first paint.
    pub fn needs_readiness(&self) -> (r: bool)
        ensures
            r == (*self == Shell::Xdg),
    {
        match *self {
            Shell::Xdg => true,
            Shell::Wl => false,
        }
    }
}

/// A state flag carried by a modern-shell configure event.
#[derive(Clone, Copy, Debug, PartialEq, Eq, Structural)]
pub enum XdgState {
    /// The window is maximized.
    Maximized,
    /// The window is fullscreen.
    Fullscreen,
    /// The window is being interactively resized.
    Resizing,
    /// The window is activated (focused).
    Activated,
}

/// An edge or corner named by an interactive-resize request or by a legacy
/// configure event.
#[derive(Clone, Copy, Debug, PartialEq, Eq, Structural)]
pub enum ResizeEdge {
    /// The top edge.
    Top,
    /// The bottom edge.
    Bottom,
    /// The left edge.
    Left,
    /// The top-left corner.
    TopLeft,
    /// The bottom-left corner.
    BottomLeft,
    /// The right edge.
    Right,
    /// The top-right corner.
    TopRight,
    /// The bottom-right corner.
    BottomRight,
}

/// A configure event, normalized over the two shell variants.
pub enum Configure {
    /// A modern-shell configure with its state flags.
    Xdg(Vec<XdgState>),
    /// A legacy configure with the edge being dragged, if any.
    Wl(Option<ResizeEdge>),
}

/// The state flag denoted by a raw state code, if the code is a known one.
/// Unknown codes denote no flag and are dropped, preserving forward
/// compatibility.
pub open spec fn state_from_code(code: u32) -> Option<XdgState> {
    if code == 1 {
        Some(XdgState::Maximized)
    } else if code == 2 {
        Some(XdgState::Fullscreen)
    } else if code == 3 {
        Some(XdgState::Resizing)
    } else if code == 4 {
        Some(XdgState::Activated)
    } else {
        None
    }
}

/// The state flags denoted by a sequence of raw state codes, unknown codes
/// dropped, order kept.
pub open spec fn parse_states_spec(codes: Seq<u32>) -> Seq<XdgState>
    decreases codes.len(),
{
    if codes.len() == 0 {
        Seq::empty()
    } else {
        let prefix = parse_states_spec(codes.drop_last());
        match state_from_code(codes.last()) {
            Some(st) => prefix.push(st),
            None => prefix,
        }
    }
}

/// Parses the raw state codes of a modern-shell configure event, dropping
/// unrecognized codes.
pub fn parse_states(codes: &Vec<u32>) -> (r: Vec<XdgState>)
    ensures
        r@ == parse_states_spec(codes@),
{
    let mut r: Vec<XdgState> = Vec::new();
    let mut i: usize = 0;
    while i < codes.len()
        invariant
            i <= codes.len(),
            r@ == parse_states_spec(codes@.subrange(0, i as int)),
        decreases codes.len() - i,
    {
        let code = codes[i];
        if code == 1 {
            r.push(XdgState::Maximized);
        } else if code == 2 {
            r.push(XdgState::Fullscreen);
        } else if code == 3 {
            r.push(XdgState::Resizing);
        } else if code == 4 {
            r.push(XdgState::Activated);
        }
        proof {
            let pre = codes@.subrange(0, i as int);
            let cur = codes@.subrange(0, i as int + 1);
            assert(cur.drop_last() =~= pre);
            assert(cur.last() == codes@[i as int]);
        }
        i = i + 1;
    }
    proof {
        assert(codes@.subrange(0, codes@.len() as int) =~= codes@);
    }
    r
}

/// Whether a parsed state list carries the given flag.
pub fn contains_state(states: &Vec<XdgState>, flag: XdgState) -> (r: bool)
    ensures
        r == states@.contains(flag),
{
    let mut i: usize = 0;
    while i < states.len()
        invariant
            i <= states.len(),
            forall|j: int| 0 <= j < i ==> states@[j] != flag,
        decreases states.len() - i,
    {
        if states[i] == flag {
            return true;
        }
        i = i + 1;
    }
    false
}

/// An `Option` of a concrete size pair seen as a mathematical pair.
pub open spec fn opt_size_view(o: Option<(i32, i32)>) -> Option<(int, int)> {
    match o {
        Some((a, b)) => Some((a as int, b as int)),
        None => None,
    }
}

/// The outcome of reconciling one configure event against the frame
/// metadata: the new metadata and the size the host is asked to adopt, if
/// any.
///
/// A suggested width or height of zero leaves the client free to choose its
/// size; otherwise the suggestion is clamped against the client
/// constraints. Leaving the maximized state without an explicit suggestion
/// restores the size snapshotted when it was entered; entering it takes the
/// snapshot. The dirty flag is raised only by an activation change or an
/// accepted size suggestion, since only those can change pixel output here.
pub open spec fn reconcile_spec(
    m: FrameMetadata,
    width: int,
    height: int,
    act: bool,
    maxed: bool,
) -> (FrameMetadata, Option<(int, int)>) {
    let suggested = if width == 0 || height == 0 {
        None
    } else {
        Some(clamp_size_spec(m.decorate, m.min_size, m.max_size, width, height))
    };
    let dirty = m.need_redraw || act != m.activated || suggested is Some;
    if !maxed && m.maximized {
        let newsize = if suggested is None {
            opt_size_view(m.old_size)
        } else {
            suggested
        };
        (
            FrameMetadata {
                maximized: false,
                old_size: None,
                activated: act,
                need_redraw: dirty,
                ..m
            },
            newsize,
        )
    } else if maxed && !m.maximized {
        (
            FrameMetadata {
                maximized: true,
                old_size: Some(m.dimensions),
                activated: act,
                need_redraw: dirty,
                ..m
            },
            suggested,
        )
    } else {
        (FrameMetadata { activated: act, need_redraw: dirty, ..m }, suggested)
    }
}

/// Reconciles a modern-shell configure event: clamps the suggested size,
/// mirrors the activation flag, and tracks maximize-state transitions with
/// their size snapshot.
pub fn configure_toplevel(
    meta: &mut FrameMetadata,
    width: i32,
    height: i32,
    states: &Vec<XdgState>,
) -> (newsize: Option<(i32, i32)>)
    requires
        old(meta).wf(),
        width >= 0,
        height >= 0,
    ensures
        final(meta).wf(),
        (*final(meta), opt_size_view(newsize)) == reconcile_spec(
            *old(meta),
            width as int,
            height as int,
            states@.contains(XdgState::Activated),
            states@.contains(XdgState::Maximized),
        ),
{
    let act = contains_state(states, XdgState::Activated);
    let maxed = contains_state(states, XdgState::Maximized);
    let suggested: Option<(i32, i32)> = if width == 0 || height == 0 {
        None
    } else {
        Some(meta.clamp_to_limits((width, height)))
    };
    meta.need_redraw = meta.need_redraw || act != meta.activated || suggested.is_some();
    let newsize: Option<(i32, i32)> = if !maxed && meta.maximized {
        meta.maximized = false;
        let restored = if suggested.is_none() {
            meta.old_size
        } else {
            suggested
        };
        meta.old_size = None;
        restored
    } else if maxed && !meta.maximized {
        meta.maximized = true;
        meta.old_size = Some(meta.dimensions);
        suggested
    } else {
        suggested
    };
    meta.activated = act;
    newsize
}

/// Reconciles a legacy configure event, which carries no state flags: the
/// suggested size is clamped the same way and the window state is left
/// alone.
pub fn configure_legacy(meta: &mut FrameMetadata, width: i32, height: i32) -> (newsize: Option<
    (i32, i32),
>)
    requires
        old(meta).wf(),
        width >= 0,
        height >= 0,
    ensures
        final(meta).wf(),
        (*final(meta), opt_size_view(newsize)) == reconcile_spec(
            *old(meta),
            width as int,
            height as int,
            old(meta).activated,
            old(meta).maximized,
        ),
{
    // the flags carry over unchanged, so no state transition can fire: only
    // the size suggestion remains
    let suggested: Option<(i32, i32)> = if width == 0 || height == 0 {
        None
    } else {
        Some(meta.clamp_to_limits((width, height)))
    };
    meta.need_redraw = meta.need_redraw || suggested.is_some();
    suggested
}

/// Records the server's acknowledgment of the initial configuration; from
/// then on the frame may paint.
pub fn mark_ready(meta: &mut FrameMetadata)
    ensures
        *final(meta) == (FrameMetadata { ready: true, ..*old(meta) }),
{
    meta.ready = true;
}

/// A configure with suggested size zero leaves the content size unchanged
/// and raises the dirty flag only if the activation state changed.
pub proof fn lemma_zero_size_configure(m: FrameMetadata, act: bool, maxed: bool)
    ensures
        reconcile_spec(m, 0, 0, act, maxed).0.dimensions == m.dimensions,
        reconcile_spec(m, 0, 0, act, maxed).0.need_redraw == (m.need_redraw || act != m.activated),
{
}

/// Entering the maximized state snapshots the content size; leaving it with
/// a zero-size suggestion (client free choice) hands exactly that snapshot
/// back.
pub proof fn lemma_maximize_restore(m: FrameMetadata, w1: int, h1: int, act: bool)
    requires
        !m.maximized,
        w1 != 0,
        h1 != 0,
    ensures
        ({
            let (m1, _) = reconcile_spec(m, w1, h1, act, true);
            let (m2, newsize) = reconcile_spec(m1, 0, 0, act, false);
            &&& newsize == Some((m.dimensions.0 as int, m.dimensions.1 as int))
            &&& m2.old_size is None
            &&& !m2.maximized
        }),
{
}

/// A window request issued by the frame, before it is routed to a shell
/// variant. Payloads (titles, sizes, serials) travel beside it.
#[derive(Clone, Copy, Debug, PartialEq, Eq, Structural)]
pub enum Request {
    /// Start an interactive resize.
    Resize,
    /// Start an interactive move.
    Move,
    /// Set the window title.
    SetTitle,
    /// Set the application identifier.
    SetAppId,
    /// Make the window fullscreen.
    SetFullscreen,
    /// Leave the fullscreen state.
    UnsetFullscreen,
    /// Maximize the window.
    SetMaximized,
    /// Leave the maximized state.
    UnsetMaximized,
    /// Minimize the window.
    SetMinimized,
    /// Declare the minimum content size.
    SetMinSize,
    /// Declare the maximum content size.
    SetMaxSize,
}

/// The concrete protocol request a shell variant understands.
#[derive(Clone, Copy, Debug, PartialEq, Eq, Structural)]
pub enum WireRequest {
    /// Modern interactive resize.
    XdgResize,
    /// Legacy interactive resize.
    WlResize,
    /// Modern interactive move.
    XdgMove,
    /// Legacy interactive move.
    WlMove,
    /// Modern title change.
    XdgSetTitle,
    /// Legacy title change.
    WlSetTitle,
    /// Modern application-identifier change.
    XdgSetAppId,
    /// Legacy class change (the legacy spelling of the identifier).
    WlSetClass,
    /// Modern fullscreen request.
    XdgSetFullscreen,
    /// Legacy fullscreen request.
    WlSetFullscreen,
    /// Modern leave-fullscreen request.
    XdgUnsetFullscreen,
    /// Legacy return to the plain top-level role, which leaves both the
    /// fullscreen and the maximized state.
    WlSetToplevel,
    /// Modern maximize request.
    XdgSetMaximized,
    /// Legacy maximize request.
    WlSetMaximized,
    /// Modern leave-maximized request.
    XdgUnsetMaximized,
    /// Modern minimize request.
    XdgSetMinimized,
    /// Modern minimum-size declaration.
    XdgSetMinSize,
    /// Modern maximum-size declaration.
    XdgSetMaxSize,
}

/// The wire request a shell variant uses for a window request, or `None`
/// where the variant has no equivalent and the request is silently a no-op
/// (a capability gap, not a failure).
pub open spec fn route_request_spec(shell: Shell, req: Request) -> Option<WireRequest> {
    match shell {
        Shell::Xdg => match req {
            Request::Resize => Some(WireRequest::XdgResize),
            Request::Move => Some(WireRequest::XdgMove),
            Request::SetTitle => Some(WireRequest::XdgSetTitle),
            Request::SetAppId => Some(WireRequest::XdgSetAppId),
            Request::SetFullscreen => Some(WireRequest::XdgSetFullscreen),
            Request::UnsetFullscreen => Some(WireRequest::XdgUnsetFullscreen),
            Request::SetMaximized => Some(WireRequest::XdgSetMaximized),
            Request::UnsetMaximized => Some(WireRequest::XdgUnsetMaximized),
            Request::SetMinimized => Some(WireRequest::XdgSetMinimized),
            Request::SetMinSize => Some(WireRequest::XdgSetMinSize),
            Request::SetMaxSize => Some(WireRequest::XdgSetMaxSize),
        },
        Shell::Wl => match req {
            Request::Resize => Some(WireRequest::WlResize),
            Request::Move => Some(WireRequest::WlMove),
            Request::SetTitle => Some(WireRequest::WlSetTitle),
            Request::SetAppId => Some(WireRequest::WlSetClass),
            Request::SetFullscreen => Some(WireRequest::WlSetFullscreen),
            Request::UnsetFullscreen => Some(WireRequest::WlSetToplevel),
            Request::SetMaximized => Some(WireRequest::WlSetMaximized),
            Request::UnsetMaximized => Some(WireRequest::WlSetToplevel),
            Request::SetMinimized => None,
            Request::SetMinSize => None,
            Request::SetMaxSize => None,
        },
    }
}

/// Routes a window request to the wire request of the given shell variant.
pub fn route_request(shell: Shell, req: Request) -> (r: Option<WireRequest>)
    ensures
        r == route_request_spec(shell, req),
{
    match shell {
        Shell::Xdg => match req {
            Request::Resize => Some(WireRequest::XdgResize),
            Request::Move => Some(WireRequest::XdgMove),
            Request::SetTitle => Some(WireRequest::XdgSetTitle),
            Request::SetAppId => Some(WireRequest::XdgSetAppId),
            Request::SetFullscreen => Some(WireRequest::XdgSetFullscreen),
            Request::UnsetFullscreen => Some(WireRequest::XdgUnsetFullscreen),
            Request::SetMaximized => Some(WireRequest::XdgSetMaximized),
            Request::UnsetMaximized => Some(WireRequest::XdgUnsetMaximized),
            Request::SetMinimized => Some(WireRequest::XdgSetMinimized),
            Request::SetMinSize => Some(WireRequest::XdgSetMinSize),
            Request::SetMaxSize => Some(WireRequest::XdgSetMaxSize),
        },
        Shell::Wl => match req {
            Request::Resize => Some(WireRequest::WlResize),
            Request::Move => Some(WireRequest::WlMove),
            Request::SetTitle => Some(WireRequest::WlSetTitle),
            Request::SetAppId => Some(WireRequest::WlSetClass),
            Request::SetFullscreen => Some(WireRequest::WlSetFullscreen),
            Request::UnsetFullscreen => Some(WireRequest::WlSetToplevel),
            Request::SetMaximized => Some(WireRequest::WlSetMaximized),
            Request::UnsetMaximized => Some(WireRequest::WlSetToplevel),
            Request::SetMinimized => None,
            Request::SetMinSize => None,
            Request::SetMaxSize => None,
        },
    }
}

} // verus!

//! The frame controller: it owns the frame metadata and the pixel buffer,
//! defers repaints behind a dirty flag, grows the buffer on demand (never
//! shrinking it), and paints the decorations through the theme.

use vstd::prelude::*;

use crate::canvas::Canvas;
use crate::canvas::pixel_of;
use crate::meta::FrameMetadata;
use crate::shell::Request;
use crate::theme::BORDER_SIZE;
use crate::theme::MAX_DIM;
use crate::theme::TOP_BAR_SIZE;
use crate::theme::add_borders_spec;
use crate::theme::color_bytes;
use crate::theme::decor_color_at;
use crate::theme::draw_contents;
use crate::theme::pxcount;
use crate::theme::pxcount_spec;
use crate::Location;

verus! {

/// Why a frame could not be created.
#[derive(Clone, Copy, Debug, PartialEq, Eq, Structural)]
pub enum CreationError {
    /// The initial content size had a non-positive or oversized dimension.
    InvalidDimensions,
}

/// The window state a client can request.
#[derive(Clone, Copy, Debug, PartialEq, Eq, Structural)]
pub enum State {
    /// Regular floating window.
    Regular,
    /// Minimized window.
    Minimized,
    /// Maximized window.
    Maximized,
    /// Fullscreen window; the host may name an output to cover.
    Fullscreen,
}

/// What a repaint asks the host to do with the freshly painted buffer.
#[derive(Clone, Copy, Debug, PartialEq, Eq, Structural)]
pub enum RedrawAction {
    /// Attach a 1x1 transparent view at offset zero: decorations are off.
    Blank,
    /// Attach a view of the full decorated rectangle and damage all of it.
    Repaint {
        /// Width of the decorated rectangle, in pixels.
        full_width: i32,
        /// Height of the decorated rectangle, in pixels.
        full_height: i32,
        /// Bytes per buffer row.
        stride: i32,
        /// Whether the backing pool must be grown to the new buffer length
        /// before attaching.
        pool_resized: bool,
    },
}

/// A decorated frame: the shared metadata plus the pixel buffer the
/// decorations are painted into.
pub struct Frame {
    /// The frame metadata, shared in spirit between configure and pointer
    /// handling; the host serializes access to the whole frame.
    pub meta: FrameMetadata,
    /// The decoration image and its backing byte pool.
    pub canvas: Canvas,
}

/// What one repaint pass does, as a relation between the frame before
/// (`pre`) and after (`post`) and the action handed to the host.
///
/// An unacknowledged frame does nothing. An undecorated or fullscreen frame
/// writes one transparent pixel for the host to attach as a 1x1 view.
/// Otherwise the buffer is grown to the decorated pixel count if needed
/// (never shrunk) and the decorations are painted into it.
pub open spec fn redraw_post(pre: Frame, post: Frame, r: Option<RedrawAction>) -> bool {
    if !pre.meta.ready {
        &&& post == pre
        &&& r is None
    } else if !pre.meta.decorate || pre.meta.fullscreen {
        &&& post.meta == (FrameMetadata { need_redraw: false, ..pre.meta })
        &&& post.canvas.width == pre.canvas.width
        &&& post.canvas.height == pre.canvas.height
        &&& post.canvas.contents@.len() == pre.canvas.contents@.len()
        &&& forall|k: int| 0 <= k < 4 ==> post.canvas.contents@[k] == 0u8
        &&& forall|k: int|
            4 <= k < pre.canvas.contents@.len() ==> post.canvas.contents@[k]
                == pre.canvas.contents@[k]
        &&& r == Some(RedrawAction::Blank)
    } else {
        let w = pre.meta.dimensions.0 as int;
        let h = pre.meta.dimensions.1 as int;
        let needed = 4 * pxcount_spec(w, h);
        &&& post.meta == (FrameMetadata { need_redraw: false, ..pre.meta })
        &&& post.canvas.width as int == w + 16
        &&& post.canvas.height as int == h + 32
        &&& post.canvas.contents@.len() == if needed > pre.canvas.contents@.len() {
            needed
        } else {
            pre.canvas.contents@.len() as int
        }
        &&& forall|px: int, py: int|
            0 <= px < w + 16 && 0 <= py < h + 32 ==> #[trigger] pixel_of(
                post.canvas.contents@,
                w + 16,
                px,
                py,
            ) == match decor_color_at(
                w,
                h,
                pre.meta.activated,
                pre.meta.max_size is None,
                pre.meta.ptr_location,
                px,
                py,
            ) {
                Some(c) => color_bytes(c),
                None => pixel_of(post.canvas.contents@, w + 16, px, py),
            }
        &&& forall|k: int|
            4 * ((w + 16) * (h + 32)) <= k < post.canvas.contents@.len()
                ==> post.canvas.contents@[k] == (if k < pre.canvas.contents@.len() {
                pre.canvas.contents@[k]
            } else {
                0u8
            })
        &&& r == Some(
            RedrawAction::Repaint {
                full_width: (w + 16) as i32,
                full_height: (h + 32) as i32,
                stride: (4 * (w + 16)) as i32,
                pool_resized: needed > pre.canvas.contents@.len(),
            },
        )
    }
}

impl Frame {
    /// The metadata is well formed and the buffer holds at least the
    /// current image, and always the four bytes of the blank pixel.
    pub open spec fn wf(self) -> bool {
        &&& self.meta.wf()
        &&& self.canvas.wf()
        &&& self.canvas.contents@.len() >= 4
    }

    /// Creates a frame for the given initial content size. The frame starts
    /// undecorated and, on a shell that requires an acknowledgment, not yet
    /// paintable; its buffer starts at a fixed small length and only ever
    /// grows.
    pub fn new(width: i32, height: i32, needs_readiness: bool) -> (r: Result<Frame, CreationError>)
        requires
            width <= MAX_DIM,
            height <= MAX_DIM,
        ensures
            (width <= 0 || height <= 0) <==> r is Err,
            r is Err ==> r == Err::<Frame, CreationError>(CreationError::InvalidDimensions),
            r is Ok ==> ({
                let f = r->Ok_0;
                &&& f.wf()
                &&& f.meta == (FrameMetadata {
                    dimensions: (width, height),
                    decorate: false,
                    fullscreen: false,
                    maximized: false,
                    min_size: None,
                    max_size: None,
                    old_size: None,
                    activated: true,
                    ready: !needs_readiness,
                    need_redraw: needs_readiness,
                    ptr_location: Location::Outside,
                })
                &&& f.canvas.contents@.len() == 100
            }),
    {
        if width <= 0 || height <= 0 {
            return Err(CreationError::InvalidDimensions);
        }
        let mut bytes: Vec<u8> = Vec::new();
        let mut i: usize = 0;
        while i < 100
            invariant
                i <= 100,
                bytes@.len() == i,
            decreases 100 - i,
        {
            bytes.push(0);
            i = i + 1;
        }
        let canvas = Canvas::new(1, 1, bytes);
        let meta = FrameMetadata::new(width, height, needs_readiness);
        Ok(Frame { meta, canvas })
    }

    /// Records a new content size, clamped below to one pixel in each
    /// dimension, and schedules a repaint; nothing is painted until
    /// `refresh` is called, so a burst of resizes collapses into one
    /// repaint.
    pub fn resize(&mut self, w: i32, h: i32)
        requires
            old(self).wf(),
            w <= MAX_DIM,
            h <= MAX_DIM,
        ensures
            final(self).wf(),
            final(self).canvas == old(self).canvas,
            final(self).meta == (FrameMetadata {
                dimensions: (if w < 1 { 1i32 } else { w }, if h < 1 { 1i32 } else { h }),
                need_redraw: true,
                ..old(self).meta
            }),
    {
        let w = if w < 1 { 1 } else { w };
        let h = if h < 1 { 1 } else { h };
        self.meta.dimensions = (w, h);
        self.meta.need_redraw = true;
    }

    /// Repaints the frame to match its current state, whether or not a
    /// repaint is scheduled, and clears the dirty flag. The buffer never
    /// shrinks, so views the host attached for an earlier size stay valid
    /// until it releases them.
    pub fn redraw(&mut self) -> (r: Option<RedrawAction>)
        requires
            old(self).wf(),
        ensures
            final(self).wf(),
            redraw_post(*old(self), *final(self), r),
            final(self).canvas.contents@.len() >= old(self).canvas.contents@.len(),
    {
        if !self.meta.ready {
            return None;
        }
        if !self.meta.decorate || self.meta.fullscreen {
            // one transparent pixel; the host attaches it as a dummy 1x1
            // view so that the content subsurface does all the showing
            self.canvas.contents[0] = 0;
            self.canvas.contents[1] = 0;
            self.canvas.contents[2] = 0;
            self.canvas.contents[3] = 0;
            self.meta.need_redraw = false;
            return Some(RedrawAction::Blank);
        }
        let (w, h) = self.meta.dimensions;
        let count = pxcount(w, h);
        proof {
            assert(pxcount_spec(w as int, h as int) <= 16400 * 16416) by (nonlinear_arith)
                requires
                    1 <= w <= 16384,
                    1 <= h <= 16384,
            ;
        }
        let needed = (count as usize) * 4;
        let pool_resized = needed > self.canvas.contents.len();
        while self.canvas.contents.len() < needed
            invariant
                needed <= 16400 * 16416 * 4,
                self.meta == old(self).meta,
                self.canvas.width == old(self).canvas.width,
                self.canvas.height == old(self).canvas.height,
                self.canvas.wf(),
                self.canvas.contents@.len() >= old(self).canvas.contents@.len(),
                self.canvas.contents@.len() <= needed || self.canvas.contents@.len() == old(
                    self,
                ).canvas.contents@.len(),
                forall|k: int|
                    0 <= k < old(self).canvas.contents@.len() ==> self.canvas.contents@[k] == old(
                        self,
                    ).canvas.contents@[k],
                forall|k: int|
                    old(self).canvas.contents@.len() <= k < self.canvas.contents@.len()
                        ==> self.canvas.contents@[k] == 0u8,
            decreases needed - self.canvas.contents@.len(),
        {
            self.canvas.contents.push(0);
        }
        self.canvas.width = (w + 16) as u32;
        self.canvas.height = (h + 32) as u32;
        draw_contents(
            &mut self.canvas,
            w as u32,
            h as u32,
            self.meta.activated,
            self.meta.maximized,
            self.meta.max_size.is_none(),
            self.meta.ptr_location,
        );
        self.meta.need_redraw = false;
        let full_w = w + 2 * BORDER_SIZE;
        let full_h = h + BORDER_SIZE + TOP_BAR_SIZE;
        Some(
            RedrawAction::Repaint {
                full_width: full_w,
                full_height: full_h,
                stride: full_w * 4,
                pool_resized,
            },
        )
    }

    /// Repaints only if a repaint is scheduled and clears the dirty flag:
    /// with no intervening state change a second call is a no-op, so the
    /// host may call this as often as it likes.
    pub fn refresh(&mut self) -> (r: Option<RedrawAction>)
        requires
            old(self).wf(),
        ensures
            final(self).wf(),
            !old(self).meta.need_redraw ==> *final(self) == *old(self) && r is None,
            old(self).meta.need_redraw ==> redraw_post(*old(self), *final(self), r),
            final(self).canvas.contents@.len() >= old(self).canvas.contents@.len(),
    {
        if self.meta.need_redraw {
            self.redraw()
        } else {
            None
        }
    }

    /// Turns decoration drawing on or off and schedules a repaint; returns
    /// the offset at which the host must place the content subsurface from
    /// now on.
    pub fn set_decorate(&mut self, decorate: bool) -> (offset: (i32, i32))
        requires
            old(self).wf(),
        ensures
            final(self).wf(),
            final(self).canvas == old(self).canvas,
            final(self).meta == (FrameMetadata {
                decorate,
                need_redraw: true,
                ..old(self).meta
            }),
            offset == if decorate {
                (BORDER_SIZE, TOP_BAR_SIZE)
            } else {
                (0i32, 0i32)
            },
    {
        self.meta.decorate = decorate;
        self.meta.need_redraw = true;
        if decorate {
            crate::theme::subsurface_offset()
        } else {
            (0, 0)
        }
    }

    /// The window requests the host must send to put the frame in the
    /// requested state, in order.
    pub fn set_state(&self, state: State) -> (r: Vec<Request>)
        ensures
            r@ == match state {
                State::Regular => seq![Request::UnsetFullscreen, Request::UnsetMaximized],
                State::Minimized => seq![Request::UnsetFullscreen, Request::SetMinimized],
                State::Maximized => seq![Request::UnsetFullscreen, Request::SetMaximized],
                State::Fullscreen => seq![Request::SetFullscreen],
            },
    {
        let mut r: Vec<Request> = Vec::new();
        match state {
            State::Regular => {
                r.push(Request::UnsetFullscreen);
                r.push(Request::UnsetMaximized);
                proof {
                    assert(r@ =~= seq![Request::UnsetFullscreen, Request::UnsetMaximized]);
                }
            },
            State::Minimized => {
                r.push(Request::UnsetFullscreen);
                r.push(Request::SetMinimized);
                proof {
                    assert(r@ =~= seq![Request::UnsetFullscreen, Request::SetMinimized]);
                }
            },
            State::Maximized => {
                r.push(Request::UnsetFullscreen);
                r.push(Request::SetMaximized);
                proof {
                    assert(r@ =~= seq![Request::UnsetFullscreen, Request::SetMaximized]);
                }
            },
            State::Fullscreen => {
                r.push(Request::SetFullscreen);
                proof {
                    assert(r@ =~= seq![Request::SetFullscreen]);
                }
            },
        }
        r
    }

    /// Records the minimum content size and returns the size to advertise
    /// to the shell: the decorated size while decorating, the content size
    /// otherwise.
    pub fn set_min_size(&mut self, size: Option<(i32, i32)>) -> (advertised: Option<(i32, i32)>)
        requires
            old(self).wf(),
            match size {
                Some((w, h)) => 0 <= w <= MAX_DIM && 0 <= h <= MAX_DIM,
                None => true,
            },
        ensures
            final(self).wf(),
            final(self).canvas == old(self).canvas,
            final(self).meta == (FrameMetadata { min_size: size, ..old(self).meta }),
            crate::shell::opt_size_view(advertised) == match size {
                Some((w, h)) => Some(
                    if old(self).meta.decorate {
                        add_borders_spec(w as int, h as int)
                    } else {
                        (w as int, h as int)
                    },
                ),
                None => None::<(int, int)>,
            },
    {
        self.meta.min_size = size;
        match size {
            Some((w, h)) => {
                if self.meta.decorate {
                    Some(crate::theme::add_borders(w, h))
                } else {
                    Some((w, h))
                }
            },
            None => None,
        }
    }

    /// Records the maximum content size and returns the size to advertise
    /// to the shell, as for the minimum size.
    pub fn set_max_size(&mut self, size: Option<(i32, i32)>) -> (advertised: Option<(i32, i32)>)
        requires
            old(self).wf(),
            match size {
                Some((w, h)) => 0 <= w <= MAX_DIM && 0 <= h <= MAX_DIM,
                None => true,
            },
        ensures
            final(self).wf(),
            final(self).canvas == old(self).canvas,
            final(self).meta == (FrameMetadata { max_size: size, ..old(self).meta }),
            crate::shell::opt_size_view(advertised) == match size {
                Some((w, h)) => Some(
                    if old(self).meta.decorate {
                        add_borders_spec(w as int, h as int)
                    } else {
                        (w as int, h as int)
                    },
                ),
                None => None::<(int, int)>,
            },
    {
        self.meta.max_size = size;
        match size {
            Some((w, h)) => {
                if self.meta.decorate {
                    Some(crate::theme::add_borders(w, h))
                } else {
                    Some((w, h))
                }
            },
            None => None,
        }
    }
}

} // verus!

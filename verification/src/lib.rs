//! A minimalistic window-decoration engine: it computes the title bar,
//! resize borders and min/max/close buttons that a display server does not
//! draw itself, paints them into a shared pixel buffer, and translates
//! pointer input over the decorations into interactive move/resize and
//! window-lifecycle requests.
//!
//! The protocol transport (sockets, surface objects, shared-memory file
//! descriptors) is the host application's business; this crate holds the
//! decoration logic itself, with machine-checked contracts.

use vstd::prelude::*;

pub mod canvas;
pub mod frame;
pub mod legacy;
pub mod meta;
pub mod pointer;
pub mod shell;
pub mod theme;

pub use frame::Frame;
pub use frame::State;
pub use shell::Configure;
pub use shell::Shell;
pub use theme::add_borders;
pub use theme::subtract_borders;

verus! {

/// The semantic zone of the decorated window that a pointer coordinate
/// falls into.
#[derive(Clone, Copy, Debug, PartialEq, Eq, Structural)]
pub enum Location {
    /// Not over any part of the decoration that this crate manages.
    Outside,
    /// The top resize edge.
    Top,
    /// The top-right resize corner.
    TopRight,
    /// The right resize edge.
    Right,
    /// The bottom-right resize corner.
    BottomRight,
    /// The bottom resize edge.
    Bottom,
    /// The bottom-left resize corner.
    BottomLeft,
    /// The left resize edge.
    Left,
    /// The top-left resize corner.
    TopLeft,
    /// The title bar (grabbing it moves the window).
    TopBar,
    /// The application content area.
    Inside,
    /// One of the window-control buttons in the title bar.
    Button(UIButton),
}

/// A window-control button drawn in the title bar.
#[derive(Clone, Copy, Debug, PartialEq, Eq, Structural)]
pub enum UIButton {
    /// Minimizes the window.
    Minimize,
    /// Toggles the maximized state.
    Maximize,
    /// Closes the window.
    Close,
}

} // verus!

//! A dockable-panel window manager for an in-application editor overlay.
//!
//! The crate keeps track of which window is docked in each of three slots,
//! of the floating windows, and of the drag that moves a window from one
//! place to another. It draws nothing: the code that draws the panels tells
//! it what the user did and asks it what to show.
//!
//! * [`editor`]: the registry of window kinds, in the order of registration,
//!   and the editor's on/off switch.
//! * [`state`]: the layout and its operations.
//! * [`model`]: the layout as a mathematical value; every operation of
//!   [`state`] is specified as a function on it and proved to compute it.
//! * [`laws`]: what holds of the layout whatever is done with it.
//! * [`frame`]: the order of the passes of a frame.
//! * [`panel`]: slots, floating windows and the two ends of a drag.
//! * [`settings`], [`plugin`]: the menus and the state of the
//!   click-to-inspect editor.
//! * [`index_map`], [`viewport`]: what is taken on trust from `indexmap` and
//!   `egui`.

pub mod editor;
pub mod frame;
pub mod index_map;
pub mod laws;
pub mod model;
pub mod panel;
pub mod plugin;
pub mod settings;
pub mod state;
pub mod viewport;

pub use crate::editor::{Editor, EditorState};
pub use crate::frame::FramePass;
pub use crate::panel::{
    CannotDrop, DropLocation, EditorPanel, FloatingWindow, PanelLayout, WindowPosition,
};
pub use crate::settings::{EditorSettings, WireframeMode};
pub use crate::state::EditorInternalState;

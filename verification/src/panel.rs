//! The plain data the layout is made of: docking slots, floating windows and
//! the two ends of a drag.

use bevy_egui::egui::Pos2;
use std::any::TypeId;
use vstd::prelude::*;

verus! {

/// `std::any::TypeId`, the identity of a window kind. The library only moves
/// and stores identities; it never looks inside one.
#[verifier::external_type_specification]
#[verifier::external_body]
pub struct ExTypeId(std::any::TypeId);

/// One of the three fixed docking slots.
#[derive(Clone, Copy, Hash, PartialEq, Eq, Debug, Structural)]
pub enum EditorPanel {
    Left,
    Right,
    Bottom,
}

/// The three docking slots. Each holds at most one window.
#[derive(Clone, Copy, PartialEq, Eq, Debug)]
pub struct PanelLayout {
    pub left_panel: Option<TypeId>,
    pub right_panel: Option<TypeId>,
    pub bottom_panel: Option<TypeId>,
}

/// An undocked window.
#[derive(Clone, Copy, PartialEq, Debug)]
pub struct FloatingWindow {
    /// The window kind shown inside.
    pub window: TypeId,
    /// Unique among the floating windows that are open.
    pub id: u32,
    /// The slot the window came from, to which it returns when closed.
    pub original_panel: Option<EditorPanel>,
    /// Where the window is first placed; `None` leaves that to the toolkit.
    pub initial_position: Option<Pos2>,
}

/// Where a window currently lives: the origin of a drag.
#[derive(Clone, Copy, PartialEq, Eq, Debug, Structural)]
pub enum WindowPosition {
    Panel(EditorPanel),
    FloatingWindow(u32),
}

/// Where a dragged window is released.
#[derive(Clone, Copy, PartialEq, Eq, Debug, Structural)]
pub enum DropLocation {
    Panel(EditorPanel),
    NewFloatingWindow,
}

/// A move that cannot be carried out: there is no window at its source, or
/// no id is left for the floating window it would open.
#[derive(Clone, Copy, PartialEq, Eq, Debug, Structural)]
pub struct CannotDrop {
    pub source: WindowPosition,
    pub target: DropLocation,
}

impl PanelLayout {
    /// What a slot holds.
    pub open spec fn spec_get(self, panel: EditorPanel) -> Option<TypeId> {
        match panel {
            EditorPanel::Left => self.left_panel,
            EditorPanel::Right => self.right_panel,
            EditorPanel::Bottom => self.bottom_panel,
        }
    }

    /// The slots with one of them overwritten.
    pub open spec fn spec_set(self, panel: EditorPanel, window: Option<TypeId>) -> PanelLayout {
        match panel {
            EditorPanel::Left => PanelLayout { left_panel: window, ..self },
            EditorPanel::Right => PanelLayout { right_panel: window, ..self },
            EditorPanel::Bottom => PanelLayout { bottom_panel: window, ..self },
        }
    }

    /// What a slot holds.
    pub fn get(&self, panel: EditorPanel) -> (window: Option<TypeId>)
        ensures
            window == self.spec_get(panel),
    {
        match panel {
            EditorPanel::Left => self.left_panel,
            EditorPanel::Right => self.right_panel,
            EditorPanel::Bottom => self.bottom_panel,
        }
    }

    /// Access to a slot for writing.
    pub fn get_mut(&mut self, panel: EditorPanel) -> (slot: &mut Option<TypeId>)
        ensures
            *slot == old(self).spec_get(panel),
            *final(self) == old(self).spec_set(panel, *final(slot)),
    {
        match panel {
            EditorPanel::Left => &mut self.left_panel,
            EditorPanel::Right => &mut self.right_panel,
            EditorPanel::Bottom => &mut self.bottom_panel,
        }
    }

    /// Overwrites a slot. Whatever was there is dropped from the layout.
    pub fn set(&mut self, panel: EditorPanel, window: Option<TypeId>)
        ensures
            *final(self) == old(self).spec_set(panel, window),
    {
        match panel {
            EditorPanel::Left => self.left_panel = window,
            EditorPanel::Right => self.right_panel = window,
            EditorPanel::Bottom => self.bottom_panel = window,
        }
    }
}

impl WindowPosition {
    /// The slot, when the position is one.
    pub fn panel(self) -> (slot: Option<EditorPanel>)
        ensures
            slot == self.spec_panel(),
    {
        match self {
            WindowPosition::Panel(panel) => Some(panel),
            WindowPosition::FloatingWindow(_) => None,
        }
    }

    pub open spec fn spec_panel(self) -> Option<EditorPanel> {
        match self {
            WindowPosition::Panel(panel) => Some(panel),
            WindowPosition::FloatingWindow(_) => None,
        }
    }
}

} // verus!

//! The mathematical model of the layout. Every operation of
//! [`crate::state::EditorInternalState`] is specified as a function on
//! [`LayoutModel`].

use crate::panel::{DropLocation, EditorPanel, FloatingWindow, PanelLayout, WindowPosition};
use crate::viewport::rect_contains;
use bevy_egui::egui::{Pos2, Rect};
use std::any::TypeId;
use vstd::prelude::*;

verus! {

/// The layout as a value: three slots, the floating windows in their stored
/// order, the viewport that the docked panels leave free, the drag in flight
/// and the id the next floating window gets.
#[verifier::ext_equal]
pub struct LayoutModel {
    pub panels: PanelLayout,
    pub floating_windows: Seq<FloatingWindow>,
    pub viewport: Rect,
    pub active_drag_window: Option<WindowPosition>,
    pub active_drop_location: Option<DropLocation>,
    pub next_floating_window_id: nat,
}

/// `index` is the first place in `windows` where `id` occurs.
pub open spec fn is_first_with_id(windows: Seq<FloatingWindow>, index: int, id: u32) -> bool {
    &&& 0 <= index < windows.len()
    &&& windows[index].id == id
    &&& forall|j: int| 0 <= j < index ==> (#[trigger] windows[j]).id != id
}

/// The first place in `windows` where `id` occurs, if it occurs at all.
pub open spec fn index_of_id(windows: Seq<FloatingWindow>, id: u32) -> Option<int> {
    if exists|index: int| is_first_with_id(windows, index, id) {
        Some(choose|index: int| is_first_with_id(windows, index, id))
    } else {
        None
    }
}

impl LayoutModel {
    /// Every open floating window has an id below the next id to be handed
    /// out, no two of them share one, and the counter fits in 32 bits.
    pub open spec fn wf(self) -> bool {
        &&& self.next_floating_window_id <= u32::MAX
        &&& forall|i: int|
            0 <= i < self.floating_windows.len() ==> (#[trigger] self.floating_windows[i]).id
                < self.next_floating_window_id
        &&& forall|i: int, j: int|
            0 <= i < j < self.floating_windows.len() ==> (#[trigger] self.floating_windows[i]).id
                != (#[trigger] self.floating_windows[j]).id
    }

    /// The layout a fresh editor starts with: the first three registered
    /// windows docked left, right and bottom, nothing floating, no drag.
    pub open spec fn initial(windows: Seq<TypeId>, viewport: Rect) -> LayoutModel {
        LayoutModel {
            panels: PanelLayout {
                left_panel: if windows.len() > 0 { Some(windows[0]) } else { None },
                right_panel: if windows.len() > 1 { Some(windows[1]) } else { None },
                bottom_panel: if windows.len() > 2 { Some(windows[2]) } else { None },
            },
            floating_windows: Seq::empty(),
            viewport,
            active_drag_window: None,
            active_drop_location: None,
            next_floating_window_id: 0,
        }
    }

    /// What a slot holds.
    pub open spec fn panel(self, panel: EditorPanel) -> Option<TypeId> {
        self.panels.spec_get(panel)
    }

    /// The layout with one slot overwritten.
    pub open spec fn with_panel(self, panel: EditorPanel, window: Option<TypeId>) -> LayoutModel {
        LayoutModel { panels: self.panels.spec_set(panel, window), ..self }
    }

    /// Where the floating window with this id is stored, if it is open.
    pub open spec fn floating_index(self, id: u32) -> Option<int> {
        index_of_id(self.floating_windows, id)
    }

    /// The layout after a new floating window was opened. It gets the next
    /// id and goes to the end of the floating windows.
    pub open spec fn spawn(
        self,
        window: TypeId,
        original_panel: Option<EditorPanel>,
        initial_position: Option<Pos2>,
    ) -> LayoutModel {
        LayoutModel {
            floating_windows: self.floating_windows.push(
                FloatingWindow {
                    window,
                    id: self.next_floating_window_id as u32,
                    original_panel,
                    initial_position,
                },
            ),
            next_floating_window_id: self.next_floating_window_id + 1,
            ..self
        }
    }

    /// The layout without the floating window stored at `index`. The last
    /// floating window moves into the gap.
    pub open spec fn remove_at(self, index: int) -> LayoutModel {
        LayoutModel {
            floating_windows: self.floating_windows.update(
                index,
                self.floating_windows.last(),
            ).drop_last(),
            ..self
        }
    }

    /// The layout without the floating window with this id; an id that is
    /// not open changes nothing.
    pub open spec fn remove(self, id: u32) -> LayoutModel {
        match self.floating_index(id) {
            Some(index) => self.remove_at(index),
            None => self,
        }
    }

    /// The viewport that a camera is confined to: the one computed last
    /// while the editor is shown, none, which stands for the whole screen,
    /// while it is hidden.
    pub open spec fn camera_viewport(self, active: bool) -> Option<Rect> {
        if active {
            Some(self.viewport)
        } else {
            None
        }
    }

    /// The layout after the floating window stored at `index` was closed:
    /// the window is gone, and what it showed returns to the slot it came
    /// from if that slot is empty.
    pub open spec fn close_at(self, index: int) -> LayoutModel {
        let closed = self.floating_windows[index];
        let rest = self.remove_at(index);
        match closed.original_panel {
            Some(panel) => if rest.panel(panel) is None {
                rest.with_panel(panel, Some(closed.window))
            } else {
                rest
            },
            None => rest,
        }
    }

    /// The layout after a slot's window, or a floating window's content, was
    /// replaced. A floating id that is not open changes nothing.
    pub open spec fn set_window(self, location: WindowPosition, window: TypeId) -> LayoutModel {
        match location {
            WindowPosition::Panel(panel) => self.with_panel(panel, Some(window)),
            WindowPosition::FloatingWindow(id) => match self.floating_index(id) {
                Some(index) => LayoutModel {
                    floating_windows: self.floating_windows.update(
                        index,
                        FloatingWindow { window, ..self.floating_windows[index] },
                    ),
                    ..self
                },
                None => self,
            },
        }
    }

    /// The layout after the floating window with this id was closed; an id
    /// that is not open changes nothing.
    pub open spec fn close(self, id: u32) -> LayoutModel {
        match self.floating_index(id) {
            Some(index) => self.close_at(index),
            None => self,
        }
    }

    /// Every index of `closed`, taken from the last to the first, is within
    /// the floating windows that are left when its turn comes.
    pub open spec fn can_close_all(self, closed: Seq<usize>) -> bool {
        forall|k: int|
            0 <= k < closed.len() ==> (#[trigger] closed[k]) + (closed.len() - 1 - k)
                < self.floating_windows.len()
    }

    /// The layout after the floating windows stored at the indices of
    /// `closed` were closed one by one, from the last index to the first.
    pub open spec fn close_all(self, closed: Seq<usize>) -> LayoutModel
        decreases closed.len(),
    {
        if closed.len() == 0 {
            self
        } else {
            self.close_at(closed.last() as int).close_all(closed.drop_last())
        }
    }

    /// The layout after a slot's window was popped out into a floating window
    /// that remembers the slot. An empty slot changes nothing.
    pub open spec fn pop_out(self, panel: EditorPanel) -> LayoutModel {
        match self.panel(panel) {
            Some(window) => self.with_panel(panel, None).spawn(window, Some(panel), None),
            None => self,
        }
    }

    /// The layout after a drag was started at `source`.
    pub open spec fn start_drag(self, source: WindowPosition) -> LayoutModel {
        LayoutModel { active_drag_window: Some(source), ..self }
    }

    /// The layout after a slot's drop area was looked at: a slot under the
    /// pointer during a drag claims the drop, and a slot that held the claim
    /// and lost the pointer gives it up. Another slot's claim stays.
    pub open spec fn hover(self, panel: EditorPanel, hovered_while_dragging: bool) -> LayoutModel {
        if hovered_while_dragging {
            LayoutModel { active_drop_location: Some(DropLocation::Panel(panel)), ..self }
        } else if self.active_drop_location == Some(DropLocation::Panel(panel)) {
            LayoutModel { active_drop_location: None, ..self }
        } else {
            self
        }
    }

    /// The window found at a position.
    pub open spec fn window_at(self, position: WindowPosition) -> Option<TypeId> {
        match position {
            WindowPosition::Panel(panel) => self.panel(panel),
            WindowPosition::FloatingWindow(id) => match self.floating_index(id) {
                Some(index) => Some(self.floating_windows[index].window),
                None => None,
            },
        }
    }

    /// Where a released drag lands: on the slot that claimed it, else in a
    /// new floating window if the pointer is inside the viewport, else
    /// nowhere.
    pub open spec fn release_target(
        self,
        interact_pos: Option<Pos2>,
        in_viewport: bool,
    ) -> Option<DropLocation> {
        match self.active_drop_location {
            Some(target) => Some(target),
            None => if interact_pos is Some && in_viewport {
                Some(DropLocation::NewFloatingWindow)
            } else {
                None
            },
        }
    }

    /// The move that this frame's pointer state asks for, if any: there is
    /// one when the pointer was released during a drag that has somewhere to
    /// land.
    pub open spec fn pending_drop(
        self,
        released: bool,
        interact_pos: Option<Pos2>,
        in_viewport: bool,
    ) -> Option<(WindowPosition, DropLocation)> {
        if !released {
            None
        } else {
            match (self.active_drag_window, self.release_target(interact_pos, in_viewport)) {
                (Some(source), Some(target)) => Some((source, target)),
                _ => None,
            }
        }
    }

    /// Whether this frame's pointer state can be handled: the move it asks
    /// for, if any, can be carried out.
    pub open spec fn can_release(
        self,
        released: bool,
        interact_pos: Option<Pos2>,
        in_viewport: bool,
    ) -> bool {
        self.pending_drop(released, interact_pos, in_viewport) matches Some((source, target))
            ==> self.can_drop(source, target)
    }

    /// Whether the pointer is over the viewport.
    pub open spec fn in_viewport(self, interact_pos: Option<Pos2>) -> bool {
        interact_pos matches Some(pos) && rect_contains(self.viewport, pos)
    }

    /// A move can be carried out when there is a window at its source and,
    /// if it opens a floating window, an id left for it.
    pub open spec fn can_drop(self, source: WindowPosition, target: DropLocation) -> bool {
        &&& self.window_at(source) is Some
        &&& target is NewFloatingWindow ==> self.next_floating_window_id < u32::MAX
    }

    /// The layout after the window at `source` was moved to `target`.
    ///
    /// Onto a slot: the window takes the slot, and what the slot held goes
    /// back to where the window came from, so the two swap. A floating
    /// source that receives nothing in return is closed.
    /// Into a new floating window: the source is emptied and a floating
    /// window opens at `position`, remembering the slot it came from.
    pub open spec fn drop_window(
        self,
        source: WindowPosition,
        target: DropLocation,
        position: Option<Pos2>,
    ) -> LayoutModel {
        match self.window_at(source) {
            None => self,
            Some(window) => match (source, target) {
                (WindowPosition::Panel(from), DropLocation::Panel(to)) => {
                    let emptied = self.with_panel(from, None);
                    let placed = emptied.with_panel(to, Some(window));
                    match emptied.panel(to) {
                        Some(displaced) => placed.with_panel(from, Some(displaced)),
                        None => placed,
                    }
                },
                (WindowPosition::Panel(from), DropLocation::NewFloatingWindow) => {
                    self.with_panel(from, None).spawn(window, Some(from), position)
                },
                (WindowPosition::FloatingWindow(id), DropLocation::Panel(to)) => {
                    let placed = self.with_panel(to, Some(window));
                    match self.panel(to) {
                        Some(displaced) => placed.set_window(source, displaced),
                        None => placed.remove_at(self.floating_index(id).unwrap()),
                    }
                },
                (WindowPosition::FloatingWindow(id), DropLocation::NewFloatingWindow) => {
                    self.remove_at(self.floating_index(id).unwrap()).spawn(window, None, position)
                },
            },
        }
    }

    /// The layout after the drag-and-drop step of a frame. Nothing happens
    /// until the pointer is released during a drag. Then the drag ends: its
    /// two ends are forgotten, and the move they ask for, if any, is made.
    pub open spec fn release(
        self,
        released: bool,
        interact_pos: Option<Pos2>,
        in_viewport: bool,
    ) -> LayoutModel {
        if !released || self.active_drag_window is None {
            self
        } else {
            let ended = LayoutModel {
                active_drag_window: None,
                active_drop_location: None,
                ..self
            };
            match self.pending_drop(released, interact_pos, in_viewport) {
                Some((source, target)) => ended.drop_window(source, target, interact_pos),
                None => ended,
            }
        }
    }
}

/// The first occurrence of an id is unique.
pub proof fn lemma_first_with_id_unique(windows: Seq<FloatingWindow>, id: u32, i: int, j: int)
    requires
        is_first_with_id(windows, i, id),
        is_first_with_id(windows, j, id),
    ensures
        i == j,
{
}

/// `index_of_id` finds the first occurrence of an id when there is one.
pub proof fn lemma_index_of_id_found(windows: Seq<FloatingWindow>, id: u32, index: int)
    requires
        is_first_with_id(windows, index, id),
    ensures
        index_of_id(windows, id) == Some(index),
{
    let chosen = choose|k: int| is_first_with_id(windows, k, id);
    lemma_first_with_id_unique(windows, id, index, chosen);
}

/// `index_of_id` is `None` when the id does not occur.
pub proof fn lemma_index_of_id_missing(windows: Seq<FloatingWindow>, id: u32)
    requires
        forall|j: int| 0 <= j < windows.len() ==> (#[trigger] windows[j]).id != id,
    ensures
        index_of_id(windows, id) is None,
{
}

/// What `index_of_id` returns is the first occurrence of the id.
pub proof fn lemma_index_of_id_is_first(windows: Seq<FloatingWindow>, id: u32)
    ensures
        match index_of_id(windows, id) {
            Some(index) => is_first_with_id(windows, index, id),
            None => forall|j: int| 0 <= j < windows.len() ==> (#[trigger] windows[j]).id != id,
        },
{
    if index_of_id(windows, id) is None {
        assert forall|j: int| 0 <= j < windows.len() implies (#[trigger] windows[j]).id != id by {
            if windows[j].id == id {
                lemma_has_first(windows, id, j);
            }
        }
    }
}

/// An id that occurs has a first occurrence.
proof fn lemma_has_first(windows: Seq<FloatingWindow>, id: u32, at: int)
    requires
        0 <= at < windows.len(),
        windows[at].id == id,
    ensures
        exists|index: int| is_first_with_id(windows, index, id),
    decreases at,
{
    if exists|j: int| 0 <= j < at && (#[trigger] windows[j]).id == id {
        let j = choose|j: int| 0 <= j < at && (#[trigger] windows[j]).id == id;
        lemma_has_first(windows, id, j);
    } else {
        assert(is_first_with_id(windows, at, id));
    }
}

} // verus!

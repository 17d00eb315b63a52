//! The executable layout state and its operations.

use crate::model::{lemma_index_of_id_found, lemma_index_of_id_missing, LayoutModel};
use crate::panel::{
    CannotDrop, DropLocation, EditorPanel, FloatingWindow, PanelLayout, WindowPosition,
};
use crate::viewport::{rect_contains, rect_contains_pos};
use bevy_egui::egui::{Pos2, Rect};
use std::any::TypeId;
use vstd::prelude::*;

verus! {

/// The layout of the editor: what is docked where, which windows float, and
/// the drag that is in flight.
pub struct EditorInternalState {
    panels: PanelLayout,
    floating_windows: Vec<FloatingWindow>,
    viewport: Rect,
    active_drag_window: Option<WindowPosition>,
    active_drop_location: Option<DropLocation>,
    next_floating_window_id: u32,
}

impl View for EditorInternalState {
    type V = LayoutModel;

    closed spec fn view(&self) -> LayoutModel {
        LayoutModel {
            panels: self.panels,
            floating_windows: self.floating_windows@,
            viewport: self.viewport,
            active_drag_window: self.active_drag_window,
            active_drop_location: self.active_drop_location,
            next_floating_window_id: self.next_floating_window_id as nat,
        }
    }
}

impl EditorInternalState {
    /// The state is well formed when its model is: the floating windows
    /// have distinct ids, all below the id counter. Every operation keeps a
    /// well-formed state well formed.
    pub open spec fn wf(&self) -> bool {
        self@.wf()
    }

    /// The layout a fresh editor starts with: the first three of `windows`
    /// docked left, right and bottom, and the given viewport.
    pub fn new(windows: &Vec<TypeId>, viewport: Rect) -> (state: EditorInternalState)
        ensures
            state.wf(),
            state@ == LayoutModel::initial(windows@, viewport),
    {
        let left_panel = if windows.len() > 0 { Some(windows[0]) } else { None };
        let right_panel = if windows.len() > 1 { Some(windows[1]) } else { None };
        let bottom_panel = if windows.len() > 2 { Some(windows[2]) } else { None };
        EditorInternalState {
            panels: PanelLayout { left_panel, right_panel, bottom_panel },
            floating_windows: Vec::new(),
            viewport,
            active_drag_window: None,
            active_drop_location: None,
            next_floating_window_id: 0,
        }
    }

    /// What a slot holds.
    pub fn active_panel(&self, panel: EditorPanel) -> (window: Option<TypeId>)
        ensures
            window == self@.panel(panel),
    {
        self.panels.get(panel)
    }

    /// Access to a slot for writing. Whatever is written replaces the slot's
    /// content; nothing else changes.
    pub fn active_panel_mut(&mut self, panel: EditorPanel) -> (slot: &mut Option<TypeId>)
        ensures
            *slot == old(self)@.panel(panel),
            final(self)@ == old(self)@.with_panel(panel, *final(slot)),
    {
        self.panels.get_mut(panel)
    }

    /// The viewport computed last: the screen area that the docked panels
    /// leave free.
    pub fn viewport(&self) -> (viewport: Rect)
        ensures
            viewport == self@.viewport,
    {
        self.viewport
    }

    /// Records the viewport computed in this frame.
    pub fn set_viewport(&mut self, viewport: Rect)
        ensures
            final(self)@ == (LayoutModel { viewport, ..old(self)@ }),
            old(self).wf() ==> final(self).wf(),
    {
        self.viewport = viewport;
    }

    /// The viewport that a camera is confined to: the one computed last
    /// while the editor is shown, none, which stands for the whole screen,
    /// while it is hidden.
    pub fn camera_viewport(&self, active: bool) -> (viewport: Option<Rect>)
        ensures
            viewport == self@.camera_viewport(active),
    {
        if active {
            Some(self.viewport)
        } else {
            None
        }
    }

    /// Whether a point lies inside the viewport computed last.
    pub fn is_in_viewport(&self, pos: Pos2) -> (inside: bool)
        ensures
            inside == rect_contains(self@.viewport, pos),
    {
        rect_contains_pos(&self.viewport, pos)
    }

    /// Hands out the next floating-window id and advances the counter.
    pub fn next_floating_window_id(&mut self) -> (id: u32)
        requires
            old(self)@.next_floating_window_id < u32::MAX,
        ensures
            id == old(self)@.next_floating_window_id,
            final(self)@ == (LayoutModel {
                next_floating_window_id: old(self)@.next_floating_window_id + 1,
                ..old(self)@
            }),
            old(self).wf() ==> final(self).wf(),
    {
        let id = self.next_floating_window_id;
        self.next_floating_window_id += 1;
        id
    }

    /// Whether an id is left for another floating window.
    pub fn can_spawn(&self) -> (possible: bool)
        ensures
            possible == (self@.next_floating_window_id < u32::MAX),
    {
        self.next_floating_window_id < u32::MAX
    }

    /// A copy of the floating windows, in their stored order.
    pub fn floating_windows(&self) -> (windows: Vec<FloatingWindow>)
        ensures
            windows@ == self@.floating_windows,
    {
        self.floating_windows.clone()
    }

    /// Where the floating window with this id is stored, if it is open.
    pub fn floating_window_index(&self, id: u32) -> (found: Option<usize>)
        ensures
            match found {
                Some(index) => self@.floating_index(id) == Some(index as int),
                None => self@.floating_index(id) is None,
            },
    {
        let mut index: usize = 0;
        while index < self.floating_windows.len()
            invariant
                index <= self.floating_windows.len(),
                forall|j: int| 0 <= j < index ==> (#[trigger] self.floating_windows@[j]).id != id,
            decreases self.floating_windows.len() - index,
        {
            if self.floating_windows[index].id == id {
                proof {
                    lemma_index_of_id_found(self@.floating_windows, id, index as int);
                }
                return Some(index);
            }
            index += 1;
        }
        proof {
            lemma_index_of_id_missing(self@.floating_windows, id);
        }
        None
    }

    /// Opens a floating window for `window` and returns its id.
    pub fn spawn_floating_window(
        &mut self,
        window: TypeId,
        original_panel: Option<EditorPanel>,
        initial_position: Option<Pos2>,
    ) -> (id: u32)
        requires
            old(self).wf(),
            old(self)@.next_floating_window_id < u32::MAX,
        ensures
            final(self).wf(),
            id == old(self)@.next_floating_window_id,
            final(self)@ == old(self)@.spawn(window, original_panel, initial_position),
    {
        let id = self.next_floating_window_id();
        self.floating_windows.push(FloatingWindow { window, id, original_panel, initial_position });
        id
    }

    /// Replaces what a slot or an open floating window shows. A floating id
    /// that is not open changes nothing.
    pub fn set_window(&mut self, location: WindowPosition, window: TypeId)
        requires
            old(self).wf(),
        ensures
            final(self).wf(),
            final(self)@ == old(self)@.set_window(location, window),
    {
        match location {
            WindowPosition::Panel(panel) => {
                self.panels.set(panel, Some(window));
            },
            WindowPosition::FloatingWindow(id) => {
                if let Some(index) = self.floating_window_index(id) {
                    let floating_window = self.floating_windows[index];
                    self.floating_windows.set(index, FloatingWindow { window, ..floating_window });
                }
            },
        }
    }

    /// Closes the floating window stored at `index`. What it showed returns
    /// to the slot it came from if that slot is empty, and leaves the layout
    /// otherwise.
    pub fn close_floating_window_at(&mut self, index: usize)
        requires
            old(self).wf(),
            index < old(self)@.floating_windows.len(),
        ensures
            final(self).wf(),
            final(self)@ == old(self)@.close_at(index as int),
    {
        let floating_window = self.floating_windows.swap_remove(index);
        if let Some(original_panel) = floating_window.original_panel {
            if self.panels.get(original_panel).is_none() {
                self.panels.set(original_panel, Some(floating_window.window));
            }
        }
    }

    /// Removes the floating window with this id and returns it; `None`, and
    /// nothing changes, when no such window is open. The last floating
    /// window takes the place of the removed one. No slot changes.
    pub fn remove_floating_window(&mut self, id: u32) -> (removed: Option<FloatingWindow>)
        requires
            old(self).wf(),
        ensures
            final(self).wf(),
            final(self)@ == old(self)@.remove(id),
            removed == match old(self)@.floating_index(id) {
                Some(index) => Some(old(self)@.floating_windows[index]),
                None => None,
            },
    {
        match self.floating_window_index(id) {
            Some(index) => Some(self.floating_windows.swap_remove(index)),
            None => None,
        }
    }

    /// Closes the floating window with this id and returns it; `None`, and
    /// nothing changes, when no such window is open.
    pub fn close_floating_window(&mut self, id: u32) -> (closed: Option<FloatingWindow>)
        requires
            old(self).wf(),
        ensures
            final(self).wf(),
            final(self)@ == old(self)@.close(id),
            closed == match old(self)@.floating_index(id) {
                Some(index) => Some(old(self)@.floating_windows[index]),
                None => None,
            },
    {
        match self.floating_window_index(id) {
            Some(index) => {
                let floating_window = self.floating_windows[index];
                self.close_floating_window_at(index);
                Some(floating_window)
            },
            None => None,
        }
    }

    /// Whether the floating windows stored at the indices of `closed` can be
    /// closed together: whether each index, taken from the last to the
    /// first, is within the floating windows that are left at its turn.
    pub fn can_close_floating_windows(&self, closed: &Vec<usize>) -> (possible: bool)
        ensures
            possible == self@.can_close_all(closed@),
    {
        let len = self.floating_windows.len();
        if closed.len() > len {
            assert(closed@[0] + (closed@.len() - 1 - 0) >= self@.floating_windows.len());
            return false;
        }
        let mut k: usize = 0;
        while k < closed.len()
            invariant
                k <= closed.len() <= len,
                len == self@.floating_windows.len(),
                forall|j: int|
                    0 <= j < k ==> (#[trigger] closed@[j]) + (closed@.len() - 1 - j) < len,
            decreases closed.len() - k,
        {
            let turn = closed.len() - 1 - k;
            if closed[k] >= len - turn {
                return false;
            }
            k += 1;
        }
        true
    }

    /// Closes the floating windows stored at the indices of `closed`, from
    /// the last index to the first. With the indices of one snapshot in
    /// rising order, these are exactly the windows of that snapshot.
    pub fn close_floating_windows(&mut self, closed: &Vec<usize>)
        requires
            old(self).wf(),
            old(self)@.can_close_all(closed@),
        ensures
            final(self).wf(),
            final(self)@ == old(self)@.close_all(closed@),
    {
        let mut remaining: usize = closed.len();
        proof {
            assert(closed@.take(remaining as int) =~= closed@);
        }
        while remaining > 0
            invariant
                remaining <= closed.len(),
                self.wf(),
                self@.can_close_all(closed@.take(remaining as int)),
                self@.close_all(closed@.take(remaining as int)) == old(self)@.close_all(closed@),
            decreases remaining,
        {
            let ghost prefix = closed@.take(remaining as int);
            remaining -= 1;
            let index = closed[remaining];
            proof {
                assert(prefix[remaining as int] == index);
                assert(prefix.last() == index);
                assert(prefix.drop_last() =~= closed@.take(remaining as int));
            }
            self.close_floating_window_at(index);
            proof {
                let shorter = closed@.take(remaining as int);
                assert forall|k: int| 0 <= k < shorter.len() implies (#[trigger] shorter[k]) + (
                shorter.len() - 1 - k) < self@.floating_windows.len() by {
                    assert(prefix[k] == shorter[k]);
                }
            }
        }
        proof {
            assert(closed@.take(0) =~= Seq::<usize>::empty());
        }
    }

    /// Opens a floating window for `window`, wherever else it may be shown.
    pub fn open_window(&mut self, window: TypeId) -> (id: u32)
        requires
            old(self).wf(),
            old(self)@.next_floating_window_id < u32::MAX,
        ensures
            final(self).wf(),
            id == old(self)@.next_floating_window_id,
            final(self)@ == old(self)@.spawn(window, None, None),
    {
        self.spawn_floating_window(window, None, None)
    }

    /// Moves a slot's window into a new floating window that remembers the
    /// slot, and returns the new window's id. An empty slot changes nothing.
    pub fn pop_out(&mut self, panel: EditorPanel) -> (id: Option<u32>)
        requires
            old(self).wf(),
            old(self)@.panel(panel) is Some ==> old(self)@.next_floating_window_id < u32::MAX,
        ensures
            final(self).wf(),
            final(self)@ == old(self)@.pop_out(panel),
            id == if old(self)@.panel(panel) is Some {
                Some(old(self)@.next_floating_window_id as u32)
            } else {
                None
            },
    {
        match self.panels.get(panel) {
            Some(window) => {
                self.panels.set(panel, None);
                Some(self.spawn_floating_window(window, Some(panel), None))
            },
            None => None,
        }
    }

    /// Whether a slot's drag handle is live: only a window can be dragged.
    pub fn can_drag(&self, panel: EditorPanel) -> (live: bool)
        ensures
            live == (self@.panel(panel) is Some),
    {
        self.panels.get(panel).is_some()
    }

    /// Records that a drag started at `source`, in place of any earlier one.
    /// A floating window can be dragged as well as a slot's window.
    pub fn start_drag(&mut self, source: WindowPosition)
        ensures
            final(self)@ == old(self)@.start_drag(source),
            old(self).wf() ==> final(self).wf(),
    {
        self.active_drag_window = Some(source);
    }

    /// Whether a drag is in flight.
    pub fn is_dragging(&self) -> (dragging: bool)
        ensures
            dragging == (self@.active_drag_window is Some),
    {
        self.active_drag_window.is_some()
    }

    /// The origin of the drag in flight.
    pub fn active_drag_window(&self) -> (source: Option<WindowPosition>)
        ensures
            source == self@.active_drag_window,
    {
        self.active_drag_window
    }

    /// The slot that currently claims the drop.
    pub fn active_drop_location(&self) -> (target: Option<DropLocation>)
        ensures
            target == self@.active_drop_location,
    {
        self.active_drop_location
    }

    /// Updates the drop claim of one slot from this frame's pointer state:
    /// whether anything is being dragged, and whether the pointer is over
    /// the slot's drop area.
    pub fn update_drop_location(
        &mut self,
        panel: EditorPanel,
        anything_dragged: bool,
        hovered: bool,
    )
        ensures
            final(self)@ == old(self)@.hover(panel, anything_dragged && hovered),
            old(self).wf() ==> final(self).wf(),
    {
        if anything_dragged && hovered {
            self.active_drop_location = Some(DropLocation::Panel(panel));
        } else {
            if let Some(DropLocation::Panel(drop_location)) = self.active_drop_location {
                if drop_location == panel {
                    self.active_drop_location = None;
                }
            }
        }
    }

    /// The window found at a position.
    pub fn window_at(&self, position: WindowPosition) -> (window: Option<TypeId>)
        ensures
            window == self@.window_at(position),
    {
        match position {
            WindowPosition::Panel(panel) => self.panels.get(panel),
            WindowPosition::FloatingWindow(id) => match self.floating_window_index(id) {
                Some(index) => Some(self.floating_windows[index].window),
                None => None,
            },
        }
    }

    /// The move that this frame's pointer state asks for, if any.
    pub fn pending_drop(
        &self,
        released: bool,
        interact_pos: Option<Pos2>,
        in_viewport: bool,
    ) -> (pending: Option<(WindowPosition, DropLocation)>)
        ensures
            pending == self@.pending_drop(released, interact_pos, in_viewport),
    {
        if !released {
            return None;
        }
        let source = match self.active_drag_window {
            Some(source) => source,
            None => {
                return None;
            },
        };
        let target = match self.active_drop_location {
            Some(target) => target,
            None => {
                if interact_pos.is_some() && in_viewport {
                    DropLocation::NewFloatingWindow
                } else {
                    return None;
                }
            },
        };
        Some((source, target))
    }

    /// Whether this frame's pointer state can be handled by
    /// [`Self::handle_drag_and_drop`]: the move it asks for, if any, can be
    /// carried out.
    pub fn can_release(&self, released: bool, interact_pos: Option<Pos2>) -> (possible: bool)
        ensures
            possible == self@.can_release(released, interact_pos, self@.in_viewport(interact_pos)),
    {
        let in_viewport = match interact_pos {
            Some(pos) => self.is_in_viewport(pos),
            None => false,
        };
        match self.pending_drop(released, interact_pos, in_viewport) {
            Some((source, target)) => self.can_drop(source, target),
            None => true,
        }
    }

    /// Whether a move can be carried out: there is a window at its source
    /// and, if it opens a floating window, an id left for it.
    pub fn can_drop(&self, source: WindowPosition, target: DropLocation) -> (possible: bool)
        ensures
            possible == self@.can_drop(source, target),
    {
        let has_window = self.window_at(source).is_some();
        let has_id = match target {
            DropLocation::Panel(_) => true,
            DropLocation::NewFloatingWindow => self.next_floating_window_id < u32::MAX,
        };
        has_window && has_id
    }

    /// Moves the window at `source` to `target`. Dropped onto an occupied
    /// slot, it swaps places with the window there.
    pub fn drop_window(
        &mut self,
        source: WindowPosition,
        target: DropLocation,
        position: Option<Pos2>,
    )
        requires
            old(self).wf(),
            old(self)@.can_drop(source, target),
        ensures
            final(self).wf(),
            final(self)@ == old(self)@.drop_window(source, target, position),
    {
        match source {
            WindowPosition::Panel(from) => {
                let window = self.active_panel_mut(from).take().unwrap();
                match target {
                    DropLocation::Panel(to) => {
                        let previous_window = self.active_panel_mut(to).take();
                        *self.active_panel_mut(to) = Some(window);
                        if let Some(previous_window) = previous_window {
                            self.set_window(source, previous_window);
                        }
                    },
                    DropLocation::NewFloatingWindow => {
                        self.spawn_floating_window(window, Some(from), position);
                    },
                }
            },
            WindowPosition::FloatingWindow(id) => {
                let index = self.floating_window_index(id).unwrap();
                let window = self.floating_windows[index].window;
                match target {
                    DropLocation::Panel(to) => {
                        let previous_window = self.active_panel_mut(to).take();
                        *self.active_panel_mut(to) = Some(window);
                        match previous_window {
                            Some(previous_window) => {
                                self.set_window(source, previous_window);
                            },
                            None => {
                                self.floating_windows.swap_remove(index);
                            },
                        }
                    },
                    DropLocation::NewFloatingWindow => {
                        self.floating_windows.swap_remove(index);
                        self.spawn_floating_window(window, None, position);
                    },
                }
            },
        }
    }

    /// The drag-and-drop step of a frame. Nothing happens until the pointer
    /// is released during a drag. Then the drag ends, and the window is moved
    /// to the slot that claimed the drop, or into a new floating window if
    /// the pointer was released inside the viewport. Returns `Some` when a
    /// window was moved.
    pub fn handle_drag_and_drop(&mut self, released: bool, interact_pos: Option<Pos2>) -> (moved:
        Option<()>)
        requires
            old(self).wf(),
            old(self)@.can_release(released, interact_pos, old(self)@.in_viewport(interact_pos)),
        ensures
            final(self).wf(),
            final(self)@ == old(self)@.release(
                released,
                interact_pos,
                old(self)@.in_viewport(interact_pos),
            ),
            moved is Some <==> old(self)@.pending_drop(
                released,
                interact_pos,
                old(self)@.in_viewport(interact_pos),
            ) is Some,
            !released || old(self)@.active_drag_window is None ==> final(self)@ == old(self)@,
    {
        let in_viewport = match interact_pos {
            Some(pos) => self.is_in_viewport(pos),
            None => false,
        };
        self.resolve_drag(released, interact_pos, in_viewport)
    }

    /// The drag-and-drop step of a frame, for any pointer state. Where the
    /// move that the pointer asks for cannot be carried out, nothing changes
    /// and the move is returned as the error.
    pub fn try_handle_drag_and_drop(&mut self, released: bool, interact_pos: Option<Pos2>) -> (moved:
        Result<Option<()>, CannotDrop>)
        requires
            old(self).wf(),
        ensures
            final(self).wf(),
            match moved {
                Ok(moved) => {
                    &&& old(self)@.can_release(
                        released,
                        interact_pos,
                        old(self)@.in_viewport(interact_pos),
                    )
                    &&& final(self)@ == old(self)@.release(
                        released,
                        interact_pos,
                        old(self)@.in_viewport(interact_pos),
                    )
                    &&& moved is Some <==> old(self)@.pending_drop(
                        released,
                        interact_pos,
                        old(self)@.in_viewport(interact_pos),
                    ) is Some
                },
                Err(refused) => {
                    &&& final(self)@ == old(self)@
                    &&& old(self)@.pending_drop(
                        released,
                        interact_pos,
                        old(self)@.in_viewport(interact_pos),
                    ) == Some((refused.source, refused.target))
                    &&& !old(self)@.can_drop(refused.source, refused.target)
                },
            },
    {
        let in_viewport = match interact_pos {
            Some(pos) => self.is_in_viewport(pos),
            None => false,
        };
        match self.pending_drop(released, interact_pos, in_viewport) {
            Some((source, target)) => {
                if !self.can_drop(source, target) {
                    return Err(CannotDrop { source, target });
                }
            },
            None => {},
        }
        Ok(self.resolve_drag(released, interact_pos, in_viewport))
    }

    /// The drag-and-drop step of a frame, for a pointer of which it is known
    /// whether it is over the viewport.
    pub fn resolve_drag(
        &mut self,
        released: bool,
        interact_pos: Option<Pos2>,
        in_viewport: bool,
    ) -> (moved: Option<()>)
        requires
            old(self).wf(),
            old(self)@.can_release(released, interact_pos, in_viewport),
        ensures
            final(self).wf(),
            final(self)@ == old(self)@.release(released, interact_pos, in_viewport),
            moved is Some <==> old(self)@.pending_drop(released, interact_pos, in_viewport) is Some,
            !released || old(self)@.active_drag_window is None ==> final(self)@ == old(self)@,
    {
        if !released {
            return None;
        }
        let active_window = match self.active_drag_window.take() {
            Some(active_window) => active_window,
            None => {
                return None;
            },
        };
        let drop_location = match self.active_drop_location.take() {
            Some(drop_location) => drop_location,
            None => {
                if interact_pos.is_some() && in_viewport {
                    DropLocation::NewFloatingWindow
                } else {
                    return None;
                }
            },
        };
        self.drop_window(active_window, drop_location, interact_pos);
        Some(())
    }
}

} // verus!

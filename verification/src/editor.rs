//! The window registry and the editor's on/off switch.

use crate::index_map::{
    entry_keys, has_key, index_map_contains_key, index_map_get, index_map_insert, index_map_iter,
    index_map_keys, index_map_new, window_entries,
};
use crate::model::LayoutModel;
use crate::state::EditorInternalState;
use bevy_egui::egui::Rect;
use indexmap::IndexMap;
use std::any::TypeId;
use vstd::prelude::*;

verus! {

/// Whether the editor overlay is shown.
pub struct EditorState {
    pub active: bool,
}

impl Default for EditorState {
    /// The editor starts out shown.
    fn default() -> (state: EditorState)
        ensures
            state.active,
    {
        EditorState { active: true }
    }
}

impl EditorState {
    /// Shows a hidden editor and hides a shown one.
    pub fn toggle(&mut self)
        ensures
            final(self).active == !old(self).active,
    {
        self.active = !self.active;
    }

    /// The icon of the play/pause button for the current state.
    pub fn play_pause_icon(&self) -> (icon: &'static str)
        ensures
            icon@ == if self.active { "\u{25B6}"@ } else { "\u{23F8}"@ },
    {
        match self.active {
            true => "\u{25B6}",
            false => "\u{23F8}",
        }
    }
}

/// The registry of window kinds: each identity with its display name, in the
/// order of registration.
pub struct Editor {
    windows: IndexMap<TypeId, &'static str>,
}

impl View for Editor {
    type V = Seq<(TypeId, Seq<char>)>;

    closed spec fn view(&self) -> Seq<(TypeId, Seq<char>)> {
        window_entries(&self.windows)
    }
}

impl Default for Editor {
    /// A registry without windows.
    fn default() -> (editor: Editor)
        ensures
            editor.wf(),
            editor@ == Seq::<(TypeId, Seq<char>)>::empty(),
    {
        Editor { windows: index_map_new() }
    }
}

impl Editor {
    /// No identity is registered twice.
    pub open spec fn wf(&self) -> bool {
        forall|i: int, j: int|
            0 <= i < j < self@.len() ==> (#[trigger] self@[i]).0 != (#[trigger] self@[j]).0
    }

    /// Whether a window kind with this identity is registered.
    pub open spec fn registered(&self, type_id: TypeId) -> bool {
        has_key(self@, type_id)
    }

    /// The registered identities, in the order of registration.
    pub open spec fn ids(&self) -> Seq<TypeId> {
        entry_keys(self@)
    }

    /// Registers a window kind under its identity and display name. It
    /// becomes the last entry of the registry.
    pub fn add_window(&mut self, type_id: TypeId, name: &'static str)
        requires
            old(self).wf(),
            !old(self).registered(type_id),
        ensures
            final(self).wf(),
            final(self)@ == old(self)@.push((type_id, name@)),
    {
        let _ = index_map_insert(&mut self.windows, type_id, name);
    }

    /// Whether a window kind with this identity is registered.
    pub fn is_registered(&self, type_id: TypeId) -> (found: bool)
        ensures
            found == self.registered(type_id),
    {
        index_map_contains_key(&self.windows, &type_id)
    }

    /// The display name registered for an identity.
    pub fn window_name(&self, type_id: TypeId) -> (name: Option<&'static str>)
        ensures
            match name {
                Some(name) => exists|i: int|
                    0 <= i < self@.len() && #[trigger] self@[i] == (type_id, name@),
                None => !self.registered(type_id),
            },
    {
        let name = index_map_get(&self.windows, &type_id);
        proof {
            if let Some(found) = name {
                let i = choose|i: int|
                    0 <= i < window_entries(&self.windows).len() && #[trigger] window_entries(
                        &self.windows,
                    )[i] == (type_id, found@);
                assert(self@[i] == (type_id, found@));
            }
        }
        name
    }

    /// The registered identities, in the order of registration.
    pub fn window_ids(&self) -> (ids: Vec<TypeId>)
        ensures
            ids@ == self.ids(),
    {
        index_map_keys(&self.windows)
    }

    /// The registered window kinds, in the order of registration: the
    /// entries of the "open window" menu and of each slot's selection list.
    pub fn windows(&self) -> (entries: Vec<(TypeId, &'static str)>)
        ensures
            entries@.len() == self@.len(),
            forall|i: int|
                0 <= i < entries@.len() ==> (#[trigger] entries@[i]).0 == self@[i].0
                    && entries@[i].1@ == self@[i].1,
    {
        index_map_iter(&self.windows)
    }

    /// The caption of a slot's selection list: the name of the window the
    /// slot shows, or an invitation to pick one.
    pub fn selected_text(&self, selected: Option<TypeId>) -> (text: &'static str)
        requires
            selected matches Some(type_id) ==> self.registered(type_id),
        ensures
            match selected {
                Some(type_id) => exists|i: int|
                    0 <= i < self@.len() && #[trigger] self@[i] == (type_id, text@),
                None => text@ == "Select a window"@,
            },
    {
        match selected {
            Some(type_id) => index_map_get(&self.windows, &type_id).unwrap(),
            None => "Select a window",
        }
    }

    /// The layout a fresh editor starts with: the first three registered
    /// windows docked left, right and bottom, and the given viewport.
    pub fn initial_state(&self, viewport: Rect) -> (state: EditorInternalState)
        ensures
            state.wf(),
            state@ == LayoutModel::initial(self.ids(), viewport),
    {
        let windows = index_map_keys(&self.windows);
        EditorInternalState::new(&windows, viewport)
    }
}

} // verus!

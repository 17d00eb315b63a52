//! The state of the click-to-inspect editor: which entity its inspector
//! window shows.

use bevy::prelude::Entity;
use vstd::prelude::*;

verus! {

/// `bevy::prelude::Entity`, the handle of an entity. The library stores and
/// hands back such handles; it never looks inside one.
#[verifier::external_type_specification]
#[verifier::external_body]
pub struct ExEntity(bevy::prelude::Entity);

/// Which entity the inspector window shows.
pub struct EditorState {
    pub currently_inspected: Option<Entity>,
}

impl Default for EditorState {
    /// Nothing is inspected at first.
    fn default() -> (state: EditorState)
        ensures
            state.currently_inspected is None,
    {
        EditorState { currently_inspected: None }
    }
}

impl EditorState {
    /// The entity whose inspector window is to be drawn this frame: the one
    /// that is inspected, as long as click-to-inspect is switched on.
    pub fn inspected(&self, click_to_inspect: bool) -> (entity: Option<Entity>)
        ensures
            entity == if click_to_inspect {
                self.currently_inspected
            } else {
                None
            },
    {
        if !click_to_inspect {
            return None;
        }
        self.currently_inspected
    }

    /// Takes note of whether the inspector window is still open after it was
    /// drawn: closing the window ends the inspection.
    pub fn window_drawn(&mut self, is_open: bool)
        ensures
            final(self).currently_inspected == if is_open {
                old(self).currently_inspected
            } else {
                None
            },
    {
        if !is_open {
            self.currently_inspected = None;
        }
    }
}

} // verus!

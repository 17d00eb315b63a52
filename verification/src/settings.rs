//! What the editor's menus offer besides windows: events to send and states
//! to switch to, each under the name it was registered with.

use vstd::prelude::*;

verus! {

/// Which meshes are drawn as wireframes.
#[derive(Debug, Copy, Clone, PartialEq, Eq, Structural)]
pub enum WireframeMode {
    Off,
    WithWireframeComponent,
    All,
}

impl WireframeMode {
    /// Whether every mesh is drawn as a wireframe, with or without a
    /// component that asks for it.
    pub fn global(self) -> (global_wireframe: bool)
        ensures
            global_wireframe == (self == WireframeMode::All),
    {
        match self {
            WireframeMode::Off => false,
            WireframeMode::WithWireframeComponent => false,
            WireframeMode::All => true,
        }
    }
}

/// Configuration of the editor.
pub struct EditorSettings {
    /// The names of the entries of the **Events** menu.
    pub events_to_send: Vec<String>,
    /// The names of the entries of the **States** menu.
    pub state_transition_handlers: Vec<String>,
    /// Whether a click on a pickable mesh opens the inspector.
    pub click_to_inspect: bool,
    pub wireframe_mode: WireframeMode,
}

impl Default for EditorSettings {
    /// Empty menus, no click-to-inspect, no wireframes.
    fn default() -> (settings: EditorSettings)
        ensures
            settings.events() == Seq::<Seq<char>>::empty(),
            settings.states() == Seq::<Seq<char>>::empty(),
            !settings.click_to_inspect,
            settings.wireframe_mode == WireframeMode::Off,
    {
        EditorSettings {
            events_to_send: Vec::new(),
            state_transition_handlers: Vec::new(),
            click_to_inspect: false,
            wireframe_mode: WireframeMode::Off,
        }
    }
}

impl EditorSettings {
    /// The entries of the **Events** menu, in the order they were added.
    pub open spec fn events(&self) -> Seq<Seq<char>> {
        Seq::new(self.events_to_send@.len(), |i: int| self.events_to_send@[i]@)
    }

    /// The entries of the **States** menu, in the order they were added.
    pub open spec fn states(&self) -> Seq<Seq<char>> {
        Seq::new(
            self.state_transition_handlers@.len(),
            |i: int| self.state_transition_handlers@[i]@,
        )
    }

    /// Adds an entry to the **Events** menu and returns its position there.
    pub fn add_event(&mut self, name: &'static str) -> (index: usize)
        ensures
            final(self).events() == old(self).events().push(name@),
            final(self).states() == old(self).states(),
            final(self).click_to_inspect == old(self).click_to_inspect,
            final(self).wireframe_mode == old(self).wireframe_mode,
            index == old(self).events().len(),
    {
        let index = self.events_to_send.len();
        self.events_to_send.push(name.to_owned());
        assert(self.events() =~= old(self).events().push(name@));
        index
    }

    /// Adds an entry to the **States** menu and returns its position there.
    pub fn add_state(&mut self, name: &'static str) -> (index: usize)
        ensures
            final(self).states() == old(self).states().push(name@),
            final(self).events() == old(self).events(),
            final(self).click_to_inspect == old(self).click_to_inspect,
            final(self).wireframe_mode == old(self).wireframe_mode,
            index == old(self).states().len(),
    {
        let index = self.state_transition_handlers.len();
        self.state_transition_handlers.push(name.to_owned());
        assert(self.states() =~= old(self).states().push(name@));
        index
    }

    /// The name of an entry of the **Events** menu.
    pub fn event_name(&self, index: usize) -> (name: &str)
        requires
            index < self.events().len(),
        ensures
            name@ == self.events()[index as int],
    {
        self.events_to_send[index].as_str()
    }

    /// The number of entries of the **Events** menu.
    pub fn event_count(&self) -> (count: usize)
        ensures
            count == self.events().len(),
    {
        self.events_to_send.len()
    }

    /// The name of an entry of the **States** menu.
    pub fn state_name(&self, index: usize) -> (name: &str)
        requires
            index < self.states().len(),
        ensures
            name@ == self.states()[index as int],
    {
        self.state_transition_handlers[index].as_str()
    }

    /// The number of entries of the **States** menu.
    pub fn state_count(&self) -> (count: usize)
        ensures
            count == self.states().len(),
    {
        self.state_transition_handlers.len()
    }
}

} // verus!

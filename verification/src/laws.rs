//! What holds of the layout whatever is done with it. Each statement is
//! about the model that the operations of
//! [`crate::state::EditorInternalState`] are proved to implement.

use crate::model::LayoutModel;
use crate::panel::{DropLocation, EditorPanel, FloatingWindow, PanelLayout, WindowPosition};
use bevy_egui::egui::{Pos2, Rect};
use std::any::TypeId;
use vstd::multiset::Multiset;
use vstd::prelude::*;

verus! {

/// No window is shown in two slots.
pub open spec fn slots_distinct(panels: PanelLayout) -> bool {
    forall|a: EditorPanel, b: EditorPanel|
        a != b && panels.spec_get(a) is Some ==> #[trigger] panels.spec_get(a)
            != #[trigger] panels.spec_get(b)
}

/// The slots after a series of assignments, made in order.
pub open spec fn set_all(panels: PanelLayout, calls: Seq<(EditorPanel, Option<TypeId>)>) -> PanelLayout
    decreases calls.len(),
{
    if calls.len() == 0 {
        panels
    } else {
        set_all(panels, calls.drop_last()).spec_set(calls.last().0, calls.last().1)
    }
}

/// An assignment is careful when the window it assigns is not shown in
/// another slot at that moment.
pub open spec fn careful(panels: PanelLayout, call: (EditorPanel, Option<TypeId>)) -> bool {
    call.1 is Some ==> forall|other: EditorPanel|
        other != call.0 ==> #[trigger] panels.spec_get(other) != call.1
}

/// Every assignment of the series is careful at the moment it is made.
pub open spec fn all_careful(panels: PanelLayout, calls: Seq<(EditorPanel, Option<TypeId>)>) -> bool {
    forall|k: int|
        0 <= k < calls.len() ==> careful(set_all(panels, #[trigger] calls.take(k)), calls[k])
}

/// One careful assignment keeps the slots distinct.
pub proof fn lemma_set_keeps_slots_distinct(
    panels: PanelLayout,
    panel: EditorPanel,
    window: Option<TypeId>,
)
    requires
        slots_distinct(panels),
        careful(panels, (panel, window)),
    ensures
        slots_distinct(panels.spec_set(panel, window)),
{
    let after = panels.spec_set(panel, window);
    assert forall|a: EditorPanel, b: EditorPanel|
        a != b && after.spec_get(a) is Some implies #[trigger] after.spec_get(a)
        != #[trigger] after.spec_get(b) by {
        if a == panel {
            assert(panels.spec_get(b) != window);
        } else if b == panel {
            assert(panels.spec_get(a) != window);
        } else {
            assert(panels.spec_get(a) != panels.spec_get(b));
        }
    }
}

/// As long as slots are only assigned to, and carefully, no window is ever
/// shown in two slots: the slots are distinct after every assignment of the
/// series.
pub proof fn lemma_sets_keep_slots_distinct(
    panels: PanelLayout,
    calls: Seq<(EditorPanel, Option<TypeId>)>,
    k: int,
)
    requires
        slots_distinct(panels),
        all_careful(panels, calls),
        0 <= k <= calls.len(),
    ensures
        slots_distinct(set_all(panels, calls.take(k))),
    decreases k,
{
    if k > 0 {
        lemma_sets_keep_slots_distinct(panels, calls, k - 1);
        let prefix = calls.take(k);
        assert(prefix.drop_last() =~= calls.take(k - 1));
        assert(prefix.last() == calls[k - 1]);
        assert(careful(set_all(panels, calls.take(k - 1)), calls[k - 1]));
        lemma_set_keeps_slots_distinct(
            set_all(panels, calls.take(k - 1)),
            calls[k - 1].0,
            calls[k - 1].1,
        );
    }
}

/// A frame in which the pointer is not released, or in which no drag is in
/// flight, leaves the layout as it is: slots, floating windows, the ends of
/// the drag and the id counter.
pub proof fn lemma_release_without_drag_changes_nothing(
    layout: LayoutModel,
    released: bool,
    interact_pos: Option<Pos2>,
    in_viewport: bool,
)
    requires
        !released || layout.active_drag_window is None,
    ensures
        layout.release(released, interact_pos, in_viewport) == layout,
        layout.pending_drop(released, interact_pos, in_viewport) is None,
{
}

/// Dragging the window of slot `from` onto slot `to` and then dragging what
/// `to` holds afterwards back onto `from` restores the layout, whether `to`
/// was occupied (the two windows swap twice) or empty (the window moves
/// there and back).
pub proof fn lemma_swap_round_trip(
    layout: LayoutModel,
    from: EditorPanel,
    to: EditorPanel,
    first_release: Option<Pos2>,
    first_in_viewport: bool,
    second_release: Option<Pos2>,
    second_in_viewport: bool,
)
    requires
        layout.panel(from) is Some,
    ensures
        ({
            let there = layout.start_drag(WindowPosition::Panel(from)).hover(to, true).release(
                true,
                first_release,
                first_in_viewport,
            );
            let back = there.start_drag(WindowPosition::Panel(to)).hover(from, true).release(
                true,
                second_release,
                second_in_viewport,
            );
            &&& there.panel(to) == layout.panel(from)
            &&& from != to ==> there.panel(from) == layout.panel(to)
            &&& back.panels == layout.panels
            &&& back.floating_windows == layout.floating_windows
            &&& back.viewport == layout.viewport
            &&& back.next_floating_window_id == layout.next_floating_window_id
            &&& back.active_drag_window is None
            &&& back.active_drop_location is None
        }),
{
}

/// Releasing a window dragged from a slot over the free viewport opens
/// exactly one floating window. It shows the dragged window, remembers the
/// slot and sits where the pointer was released; the slot is left empty and
/// everything else stays.
pub proof fn lemma_drag_out_opens_one_floating_window(
    layout: LayoutModel,
    from: EditorPanel,
    window: TypeId,
    position: Pos2,
)
    requires
        layout.wf(),
        layout.next_floating_window_id < u32::MAX,
        layout.panel(from) == Some(window),
        layout.active_drag_window == Some(WindowPosition::Panel(from)),
        layout.active_drop_location is None,
    ensures
        ({
            let after = layout.release(true, Some(position), true);
            &&& after.floating_windows == layout.floating_windows.push(
                FloatingWindow {
                    window,
                    id: layout.next_floating_window_id as u32,
                    original_panel: Some(from),
                    initial_position: Some(position),
                },
            )
            &&& after.panels == layout.panels.spec_set(from, None)
            &&& after.panel(from) is None
            &&& after.next_floating_window_id == layout.next_floating_window_id + 1
            &&& after.active_drag_window is None
            &&& after.active_drop_location is None
            &&& after.wf()
        }),
{
}

/// One operation on the layout.
pub enum Step {
    /// A slot is assigned to, or cleared.
    SetPanel { panel: EditorPanel, content: Option<TypeId> },
    /// What a slot or a floating window shows is replaced.
    SetWindow { location: WindowPosition, window: TypeId },
    /// A floating window is opened.
    Spawn {
        window: TypeId,
        original_panel: Option<EditorPanel>,
        initial_position: Option<Pos2>,
    },
    /// A slot's window is popped out.
    PopOut { panel: EditorPanel },
    /// The floating window stored at an index is closed.
    CloseAt { index: int },
    /// The floating window with an id is closed.
    Close { id: u32 },
    /// The floating window with an id is removed.
    Remove { id: u32 },
    /// The viewport is computed anew.
    SetViewport { viewport: Rect },
    /// A drag starts.
    StartDrag { source: WindowPosition },
    /// A slot's drop area is looked at.
    Hover { panel: EditorPanel, hovered_while_dragging: bool },
    /// A window is moved.
    DropWindow { source: WindowPosition, target: DropLocation, position: Option<Pos2> },
    /// The drag-and-drop step of a frame.
    Release { released: bool, interact_pos: Option<Pos2>, in_viewport: bool },
}

impl LayoutModel {
    /// Whether an operation may be applied: what the operation asks of its
    /// caller.
    pub open spec fn enabled(self, step: Step) -> bool {
        match step {
            Step::Spawn { .. } => self.next_floating_window_id < u32::MAX,
            Step::PopOut { panel } => self.panel(panel) is Some ==> self.next_floating_window_id
                < u32::MAX,
            Step::CloseAt { index } => 0 <= index < self.floating_windows.len(),
            Step::DropWindow { source, target, .. } => self.can_drop(source, target),
            Step::Release { released, interact_pos, in_viewport } => self.pending_drop(
                released,
                interact_pos,
                in_viewport,
            ) matches Some((source, target)) ==> self.can_drop(source, target),
            _ => true,
        }
    }

    /// The layout after an operation.
    pub open spec fn step(self, step: Step) -> LayoutModel {
        match step {
            Step::SetPanel { panel, content } => self.with_panel(panel, content),
            Step::SetWindow { location, window } => self.set_window(location, window),
            Step::Spawn { window, original_panel, initial_position } => self.spawn(
                window,
                original_panel,
                initial_position,
            ),
            Step::PopOut { panel } => self.pop_out(panel),
            Step::CloseAt { index } => self.close_at(index),
            Step::Close { id } => self.close(id),
            Step::Remove { id } => self.remove(id),
            Step::SetViewport { viewport } => LayoutModel { viewport, ..self },
            Step::StartDrag { source } => self.start_drag(source),
            Step::Hover { panel, hovered_while_dragging } => self.hover(
                panel,
                hovered_while_dragging,
            ),
            Step::DropWindow { source, target, position } => self.drop_window(
                source,
                target,
                position,
            ),
            Step::Release { released, interact_pos, in_viewport } => self.release(
                released,
                interact_pos,
                in_viewport,
            ),
        }
    }

    /// The layout after a series of operations, applied in order.
    pub open spec fn run(self, steps: Seq<Step>) -> LayoutModel
        decreases steps.len(),
    {
        if steps.len() == 0 {
            self
        } else {
            self.run(steps.drop_last()).step(steps.last())
        }
    }

    /// Every operation of the series may be applied when its turn comes.
    pub open spec fn all_enabled(self, steps: Seq<Step>) -> bool
        decreases steps.len(),
    {
        if steps.len() == 0 {
            true
        } else {
            self.all_enabled(steps.drop_last()) && self.run(steps.drop_last()).enabled(
                steps.last(),
            )
        }
    }
}

/// Removing a floating window keeps the layout well formed.
pub proof fn lemma_remove_at_keeps_wf(layout: LayoutModel, index: int)
    requires
        layout.wf(),
        0 <= index < layout.floating_windows.len(),
    ensures
        layout.remove_at(index).wf(),
        layout.remove_at(index).floating_windows.len() == layout.floating_windows.len() - 1,
        forall|k: int|
            0 <= k < layout.remove_at(index).floating_windows.len() ==> (
            #[trigger] layout.remove_at(index).floating_windows[k]).id
                != layout.floating_windows[index].id,
{
    let before = layout.floating_windows;
    let after = layout.remove_at(index).floating_windows;
    let last = before.len() - 1;
    assert forall|k: int| 0 <= k < after.len() implies (#[trigger] after[k]) == before[if k
        == index {
        last
    } else {
        k
    }] by {}
    assert forall|i: int, j: int| 0 <= i < j < after.len() implies (#[trigger] after[i]).id != (
    #[trigger] after[j]).id by {
        let bi = if i == index {
            last
        } else {
            i
        };
        let bj = if j == index {
            last
        } else {
            j
        };
        assert(after[i] == before[bi]);
        assert(after[j] == before[bj]);
        if bi < bj {
            assert(before[bi].id != before[bj].id);
        } else {
            assert(before[bj].id != before[bi].id);
        }
    }
    assert forall|k: int| 0 <= k < after.len() implies (#[trigger] after[k]).id
        != before[index].id by {
        let bk = if k == index {
            last
        } else {
            k
        };
        assert(after[k] == before[bk]);
        if bk < index {
            assert(before[bk].id != before[index].id);
        } else {
            assert(before[index].id != before[bk].id);
        }
    }
}

/// An operation that may be applied to a well-formed layout leaves it well
/// formed, and never lowers the id counter.
pub proof fn lemma_step_keeps_wf(layout: LayoutModel, step: Step)
    requires
        layout.wf(),
        layout.enabled(step),
    ensures
        layout.step(step).wf(),
        layout.step(step).next_floating_window_id >= layout.next_floating_window_id,
{
    match step {
        Step::CloseAt { index } => {
            lemma_remove_at_keeps_wf(layout, index);
        },
        Step::Close { id } => {
            crate::model::lemma_index_of_id_is_first(layout.floating_windows, id);
            if let Some(index) = layout.floating_index(id) {
                lemma_remove_at_keeps_wf(layout, index);
            }
        },
        Step::Remove { id } => {
            crate::model::lemma_index_of_id_is_first(layout.floating_windows, id);
            if let Some(index) = layout.floating_index(id) {
                lemma_remove_at_keeps_wf(layout, index);
            }
        },
        Step::SetWindow { location, window } => {
            if let WindowPosition::FloatingWindow(id) = location {
                crate::model::lemma_index_of_id_is_first(layout.floating_windows, id);
            }
        },
        Step::DropWindow { source, target, position } => {
            lemma_drop_window_keeps_wf(layout, source, target, position);
        },
        Step::Release { released, interact_pos, in_viewport } => {
            if released && layout.active_drag_window is Some {
                let ended = LayoutModel {
                    active_drag_window: None,
                    active_drop_location: None,
                    ..layout
                };
                if let Some((source, target)) = layout.pending_drop(
                    released,
                    interact_pos,
                    in_viewport,
                ) {
                    lemma_drop_window_keeps_wf(ended, source, target, interact_pos);
                }
            }
        },
        _ => {},
    }
}

/// Moving a window keeps the layout well formed and never lowers the id
/// counter.
pub proof fn lemma_drop_window_keeps_wf(
    layout: LayoutModel,
    source: WindowPosition,
    target: DropLocation,
    position: Option<Pos2>,
)
    requires
        layout.wf(),
        layout.can_drop(source, target),
    ensures
        layout.drop_window(source, target, position).wf(),
        layout.drop_window(source, target, position).next_floating_window_id
            >= layout.next_floating_window_id,
{
    if let WindowPosition::FloatingWindow(id) = source {
        crate::model::lemma_index_of_id_is_first(layout.floating_windows, id);
        let index = layout.floating_index(id).unwrap();
        lemma_remove_at_keeps_wf(layout, index);
        if let DropLocation::Panel(to) = target {
            let placed = layout.with_panel(to, Some(layout.floating_windows[index].window));
            lemma_remove_at_keeps_wf(placed, index);
        }
    }
}

/// Whatever is done with a well-formed layout, it stays well formed, and the
/// id counter never goes down.
pub proof fn lemma_run_keeps_wf(layout: LayoutModel, steps: Seq<Step>)
    requires
        layout.wf(),
        layout.all_enabled(steps),
    ensures
        layout.run(steps).wf(),
        layout.run(steps).next_floating_window_id >= layout.next_floating_window_id,
    decreases steps.len(),
{
    if steps.len() > 0 {
        lemma_run_keeps_wf(layout, steps.drop_last());
        lemma_step_keeps_wf(layout.run(steps.drop_last()), steps.last());
    }
}

/// The id that a new floating window gets is above the id of every floating
/// window that is open.
pub proof fn lemma_spawned_id_is_fresh(
    layout: LayoutModel,
    window: TypeId,
    original_panel: Option<EditorPanel>,
    initial_position: Option<Pos2>,
    k: int,
)
    requires
        layout.wf(),
        0 <= k < layout.floating_windows.len(),
    ensures
        layout.floating_windows[k].id < layout.spawn(
            window,
            original_panel,
            initial_position,
        ).floating_windows.last().id,
        layout.spawn(window, original_panel, initial_position).floating_windows.last().id
            == layout.next_floating_window_id,
{
}

/// Ids strictly increase over the lifetime of a layout: of two floating
/// windows, the one opened later has the larger id, whatever was done in
/// between.
pub proof fn lemma_spawn_ids_strictly_increase(
    layout: LayoutModel,
    earlier: Step,
    between: Seq<Step>,
    later: Step,
)
    requires
        layout.wf(),
        earlier is Spawn,
        later is Spawn,
        layout.enabled(earlier),
        layout.step(earlier).all_enabled(between),
        layout.step(earlier).run(between).enabled(later),
    ensures
        layout.step(earlier).floating_windows.last().id < layout.step(earlier).run(between).step(
            later,
        ).floating_windows.last().id,
{
    lemma_step_keeps_wf(layout, earlier);
    lemma_run_keeps_wf(layout.step(earlier), between);
}

/// The windows a slot shows: one or none.
pub open spec fn shown_in_slot(window: Option<TypeId>) -> Multiset<TypeId> {
    match window {
        Some(window) => Multiset::singleton(window),
        None => Multiset::empty(),
    }
}

/// The windows that the floating windows show, each as often as it is shown.
pub open spec fn shown_floating(windows: Seq<FloatingWindow>) -> Multiset<TypeId>
    decreases windows.len(),
{
    if windows.len() == 0 {
        Multiset::empty()
    } else {
        shown_floating(windows.drop_last()).insert(windows.last().window)
    }
}

impl LayoutModel {
    /// Every window on screen, docked or floating, each as often as it is
    /// shown.
    pub open spec fn placements(self) -> Multiset<TypeId> {
        shown_in_slot(self.panels.left_panel).add(shown_in_slot(self.panels.right_panel)).add(
            shown_in_slot(self.panels.bottom_panel),
        ).add(shown_floating(self.floating_windows))
    }

    /// No window is on screen twice, docked or floating.
    pub open spec fn shown_once(self) -> bool {
        forall|window: TypeId| self.placements().count(window) <= 1
    }
}

/// A floating window's content is among what the floating windows show.
pub proof fn lemma_shown_floating_counts(windows: Seq<FloatingWindow>, index: int)
    requires
        0 <= index < windows.len(),
    ensures
        shown_floating(windows).count(windows[index].window) >= 1,
    decreases windows.len(),
{
    if index < windows.len() - 1 {
        lemma_shown_floating_counts(windows.drop_last(), index);
    }
}

/// Opening a floating window adds what it shows.
pub proof fn lemma_shown_floating_push(windows: Seq<FloatingWindow>, opened: FloatingWindow)
    ensures
        shown_floating(windows.push(opened)) == shown_floating(windows).insert(opened.window),
{
    assert(windows.push(opened).drop_last() =~= windows);
}

/// Replacing a floating window exchanges what it shows.
pub proof fn lemma_shown_floating_update(
    windows: Seq<FloatingWindow>,
    index: int,
    replacement: FloatingWindow,
)
    requires
        0 <= index < windows.len(),
    ensures
        shown_floating(windows.update(index, replacement)) == shown_floating(windows).remove(
            windows[index].window,
        ).insert(replacement.window),
    decreases windows.len(),
{
    let updated = windows.update(index, replacement);
    if index == windows.len() - 1 {
        assert(updated.drop_last() =~= windows.drop_last());
    } else {
        assert(updated.drop_last() =~= windows.drop_last().update(index, replacement));
        lemma_shown_floating_update(windows.drop_last(), index, replacement);
        lemma_shown_floating_counts(windows.drop_last(), index);
    }
    assert(shown_floating(updated) =~= shown_floating(windows).remove(
        windows[index].window,
    ).insert(replacement.window));
}

/// Removing a floating window takes away what it shows, once.
pub proof fn lemma_shown_floating_remove_at(layout: LayoutModel, index: int)
    requires
        0 <= index < layout.floating_windows.len(),
    ensures
        shown_floating(layout.remove_at(index).floating_windows) == shown_floating(
            layout.floating_windows,
        ).remove(layout.floating_windows[index].window),
{
    let windows = layout.floating_windows;
    let moved = windows.update(index, windows.last());
    lemma_shown_floating_update(windows, index, windows.last());
    lemma_shown_floating_counts(windows, index);
    assert(moved.last() == windows.last());
    assert(shown_floating(moved) == shown_floating(moved.drop_last()).insert(
        windows.last().window,
    ));
    let kept = shown_floating(moved.drop_last());
    let expected = shown_floating(windows).remove(windows[index].window);
    assert forall|window: TypeId| kept.count(window) == expected.count(window) by {
        assert(kept.insert(windows.last().window).count(window) == expected.insert(
            windows.last().window,
        ).count(window));
    }
    assert(kept =~= expected);
}

/// Moving a window neither duplicates nor loses one: the same windows are on
/// screen before and after, each as often as before.
pub proof fn lemma_drop_window_keeps_placements(
    layout: LayoutModel,
    source: WindowPosition,
    target: DropLocation,
    position: Option<Pos2>,
)
    requires
        layout.can_drop(source, target),
    ensures
        layout.drop_window(source, target, position).placements() == layout.placements(),
{
    let after = layout.drop_window(source, target, position);
    let window = layout.window_at(source).unwrap();
    match source {
        WindowPosition::Panel(from) => {
            match target {
                DropLocation::Panel(to) => {},
                DropLocation::NewFloatingWindow => {
                    let opened = after.floating_windows.last();
                    lemma_shown_floating_push(layout.floating_windows, opened);
                },
            }
        },
        WindowPosition::FloatingWindow(id) => {
            crate::model::lemma_index_of_id_is_first(layout.floating_windows, id);
            let index = layout.floating_index(id).unwrap();
            lemma_shown_floating_counts(layout.floating_windows, index);
            match target {
                DropLocation::Panel(to) => {
                    match layout.panel(to) {
                        Some(displaced) => {
                            lemma_shown_floating_update(
                                layout.floating_windows,
                                index,
                                FloatingWindow {
                                    window: displaced,
                                    ..layout.floating_windows[index]
                                },
                            );
                        },
                        None => {
                            lemma_shown_floating_remove_at(layout, index);
                        },
                    }
                },
                DropLocation::NewFloatingWindow => {
                    lemma_shown_floating_remove_at(layout, index);
                    let removed = layout.remove_at(index);
                    lemma_shown_floating_push(
                        removed.floating_windows,
                        after.floating_windows.last(),
                    );
                    assert(after.floating_windows =~= removed.floating_windows.push(
                        after.floating_windows.last(),
                    ));
                },
            }
        },
    }
    assert(after.placements() =~= layout.placements());
}

/// The drag-and-drop step of a frame neither duplicates nor loses a window.
/// So a layout in which no window is on screen twice stays that way under
/// drag and drop.
pub proof fn lemma_release_keeps_placements(
    layout: LayoutModel,
    released: bool,
    interact_pos: Option<Pos2>,
    in_viewport: bool,
)
    requires
        layout.enabled(Step::Release { released, interact_pos, in_viewport }),
    ensures
        layout.release(released, interact_pos, in_viewport).placements() == layout.placements(),
        layout.shown_once() ==> layout.release(released, interact_pos, in_viewport).shown_once(),
{
    if released && layout.active_drag_window is Some {
        let ended = LayoutModel { active_drag_window: None, active_drop_location: None, ..layout };
        if let Some((source, target)) = layout.pending_drop(released, interact_pos, in_viewport) {
            lemma_drop_window_keeps_placements(ended, source, target, interact_pos);
        }
    }
}

/// Popping a window out of its slot neither duplicates nor loses a window.
pub proof fn lemma_pop_out_keeps_placements(layout: LayoutModel, panel: EditorPanel)
    ensures
        layout.pop_out(panel).placements() == layout.placements(),
        layout.shown_once() ==> layout.pop_out(panel).shown_once(),
{
    if let Some(window) = layout.panel(panel) {
        let after = layout.pop_out(panel);
        lemma_shown_floating_push(layout.floating_windows, after.floating_windows.last());
        assert(after.placements() =~= layout.placements());
    }
}

/// Closing a floating window removes it, and it alone, from the floating
/// windows. If the slot it came from is empty, what it showed is docked
/// there again, and the same windows are on screen as before. Otherwise the
/// slots stay as they are and what it showed is on screen once less: a
/// window that was on screen only there is neither docked nor floating
/// afterwards.
pub proof fn lemma_close_restores_or_discards(layout: LayoutModel, index: int)
    requires
        layout.wf(),
        0 <= index < layout.floating_windows.len(),
    ensures
        ({
            let closed = layout.floating_windows[index];
            let after = layout.close_at(index);
            let restored = closed.original_panel matches Some(panel) && layout.panel(panel) is None;
            &&& after.floating_windows.len() == layout.floating_windows.len() - 1
            &&& after.floating_index(closed.id) is None
            &&& restored ==> {
                &&& after.panels == layout.panels.spec_set(
                    closed.original_panel.unwrap(),
                    Some(closed.window),
                )
                &&& after.placements() == layout.placements()
            }
            &&& !restored ==> {
                &&& after.panels == layout.panels
                &&& after.placements() == layout.placements().remove(closed.window)
                &&& layout.shown_once() ==> after.placements().count(closed.window) == 0
            }
        }),
{
    let closed = layout.floating_windows[index];
    let after = layout.close_at(index);
    lemma_remove_at_keeps_wf(layout, index);
    crate::model::lemma_index_of_id_missing(after.floating_windows, closed.id);
    lemma_shown_floating_remove_at(layout, index);
    lemma_shown_floating_counts(layout.floating_windows, index);
    let restored = closed.original_panel matches Some(panel) && layout.panel(panel) is None;
    if restored {
        assert(after.placements() =~= layout.placements());
    } else {
        assert(after.placements() =~= layout.placements().remove(closed.window));
    }
}

/// The indices are within `len` and rise strictly: the shape of the indices
/// gathered while walking once over a snapshot of the floating windows.
pub open spec fn rising(closed: Seq<usize>, len: nat) -> bool {
    &&& forall|k: int| 0 <= k < closed.len() ==> (#[trigger] closed[k]) < len
    &&& forall|j: int, k: int|
        0 <= j < k < closed.len() ==> (#[trigger] closed[j]) < (#[trigger] closed[k])
}

/// Strictly rising indices are at least as far apart as their places.
proof fn lemma_rising_gaps(closed: Seq<usize>, len: nat, j: int, k: int)
    requires
        rising(closed, len),
        0 <= j <= k < closed.len(),
    ensures
        closed[j] + (k - j) <= closed[k],
    decreases k - j,
{
    if j < k {
        lemma_rising_gaps(closed, len, j, k - 1);
        assert(closed[k - 1] < closed[k]);
    }
}

/// Indices gathered from one snapshot can always be closed together.
pub proof fn lemma_rising_indices_can_be_closed(layout: LayoutModel, closed: Seq<usize>)
    requires
        rising(closed, layout.floating_windows.len()),
    ensures
        layout.can_close_all(closed),
{
    assert forall|k: int| 0 <= k < closed.len() implies (#[trigger] closed[k]) + (closed.len() - 1
        - k) < layout.floating_windows.len() by {
        lemma_rising_gaps(closed, layout.floating_windows.len(), k, closed.len() - 1);
    }
}

/// `index` is among `closed`.
pub open spec fn closes(closed: Seq<usize>, index: int) -> bool {
    exists|k: int| 0 <= k < closed.len() && #[trigger] closed[k] == index
}

/// `window` is a window of the snapshot whose index is not among `closed`.
pub open spec fn kept_from(
    snapshot: Seq<FloatingWindow>,
    closed: Seq<usize>,
    window: FloatingWindow,
) -> bool {
    exists|i: int|
        0 <= i < snapshot.len() && !closes(closed, i) && #[trigger] snapshot[i] == window
}

/// An index is among `closed` when it is the last of them or among the others.
proof fn lemma_closes_last_or_rest(closed: Seq<usize>, index: int)
    requires
        closed.len() > 0,
    ensures
        closes(closed, index) <==> closed.last() == index || closes(closed.drop_last(), index),
{
    let rest = closed.drop_last();
    if closes(closed, index) {
        let k = choose|k: int| 0 <= k < closed.len() && #[trigger] closed[k] == index;
        if k < closed.len() - 1 {
            assert(rest[k] == index);
        }
    }
    if closes(rest, index) {
        let k = choose|k: int| 0 <= k < rest.len() && #[trigger] rest[k] == index;
        assert(closed[k] == index);
    }
}

/// Where a floating window is stored after another one was removed: the
/// last window moves into the gap, every other one stays where it is.
proof fn lemma_remove_at_moves_last(layout: LayoutModel, at: int, i: int)
    requires
        0 <= at < layout.floating_windows.len(),
        0 <= i < layout.floating_windows.len(),
        i != at,
    ensures
        ({
            let moved = if i == layout.floating_windows.len() - 1 {
                at
            } else {
                i
            };
            &&& 0 <= moved < layout.close_at(at).floating_windows.len()
            &&& layout.close_at(at).floating_windows[moved] == layout.floating_windows[i]
        }),
{
}

/// Closing the floating windows at the indices gathered from one snapshot
/// closes exactly those windows: each window of the snapshot whose index
/// was not gathered is still open and unchanged, and no other window is
/// open.
pub proof fn lemma_close_all_closes_the_snapshot(layout: LayoutModel, closed: Seq<usize>)
    requires
        layout.wf(),
        rising(closed, layout.floating_windows.len()),
    ensures
        layout.close_all(closed).wf(),
        layout.close_all(closed).next_floating_window_id == layout.next_floating_window_id,
        layout.close_all(closed).floating_windows.len() + closed.len()
            == layout.floating_windows.len(),
        forall|i: int|
            0 <= i < layout.floating_windows.len() && !closes(closed, i) ==> layout.close_all(
                closed,
            ).floating_windows.contains(
                #[trigger] layout.floating_windows[i],
            ),
        forall|j: int|
            0 <= j < layout.close_all(closed).floating_windows.len() ==> kept_from(
                layout.floating_windows,
                closed,
                #[trigger] layout.close_all(closed).floating_windows[j],
            ),
    decreases closed.len(),
{
    let before = layout.floating_windows;
    let after = layout.close_all(closed);
    if closed.len() == 0 {
        assert forall|j: int| 0 <= j < after.floating_windows.len() implies kept_from(
            before,
            closed,
            #[trigger] after.floating_windows[j],
        ) by {
            assert(before[j] == after.floating_windows[j]);
        }
    } else {
        let at = closed.last() as int;
        let last = before.len() - 1;
        let next = layout.close_at(at);
        let rest = closed.drop_last();
        lemma_remove_at_keeps_wf(layout, at);
        assert(next.floating_windows == layout.remove_at(at).floating_windows);
        assert(rising(rest, next.floating_windows.len())) by {
            assert forall|k: int| 0 <= k < rest.len() implies (#[trigger] rest[k])
                < next.floating_windows.len() by {
                assert(closed[k] < closed[closed.len() - 1]);
            }
            assert forall|j: int, k: int| 0 <= j < k < rest.len() implies (#[trigger] rest[j]) < (
            #[trigger] rest[k]) by {
                assert(closed[j] < closed[k]);
            }
        }
        lemma_close_all_closes_the_snapshot(next, rest);
        assert forall|i: int|
            0 <= i < before.len() && !closes(closed, i) implies after.floating_windows.contains(
        #[trigger] before[i]) by {
            lemma_closes_last_or_rest(closed, i);
            lemma_remove_at_moves_last(layout, at, i);
            let moved = if i == last {
                at
            } else {
                i
            };
            lemma_closes_last_or_rest(closed, moved);
            if i == last {
                assert forall|k: int| 0 <= k < rest.len() implies rest[k] != at by {
                    assert(closed[k] < closed[closed.len() - 1]);
                }
            }
            assert(!closes(rest, moved));
            assert(after.floating_windows.contains(next.floating_windows[moved]));
        }
        assert forall|j: int| 0 <= j < after.floating_windows.len() implies kept_from(
            before,
            closed,
            #[trigger] after.floating_windows[j],
        ) by {
            let window = after.floating_windows[j];
            assert(kept_from(next.floating_windows, rest, window));
            let moved = choose|i: int|
                0 <= i < next.floating_windows.len() && !closes(rest, i)
                    && #[trigger] next.floating_windows[i] == window;
            let i = if moved == at {
                last
            } else {
                moved
            };
            if moved == at {
                assert(at < last);
            }
            lemma_remove_at_moves_last(layout, at, i);
            lemma_closes_last_or_rest(closed, i);
            if i == last {
                assert forall|k: int| 0 <= k < rest.len() implies rest[k] != last by {
                    assert(closed[k] < closed[closed.len() - 1]);
                }
            }
            assert(before[i] == window);
            assert(!closes(closed, i));
        }
    }
}

impl Step {
    /// Whether the operation only rearranges or removes what is on screen.
    /// The others put a window of the caller's choice on screen: assigning
    /// to a slot, replacing what is shown somewhere, opening a floating
    /// window.
    pub open spec fn rearranges(self) -> bool {
        !(self is SetPanel || self is SetWindow || self is Spawn)
    }
}

/// The layout a fresh editor starts with is well formed, and it shows no
/// window twice when no window is registered twice.
pub proof fn lemma_initial_layout_shows_each_window_once(windows: Seq<TypeId>, viewport: Rect)
    requires
        forall|i: int, j: int| 0 <= i < j < windows.len() ==> windows[i] != windows[j],
    ensures
        LayoutModel::initial(windows, viewport).wf(),
        LayoutModel::initial(windows, viewport).shown_once(),
{
}

/// Removing a floating window takes what it showed off the screen, once.
pub proof fn lemma_remove_at_placements(layout: LayoutModel, index: int)
    requires
        0 <= index < layout.floating_windows.len(),
    ensures
        layout.remove_at(index).placements() == layout.placements().remove(
            layout.floating_windows[index].window,
        ),
{
    lemma_shown_floating_remove_at(layout, index);
    lemma_shown_floating_counts(layout.floating_windows, index);
    assert(layout.remove_at(index).placements() =~= layout.placements().remove(
        layout.floating_windows[index].window,
    ));
}

/// An operation that only rearranges or removes never puts a window on
/// screen more often than it was: where no window is on screen twice, none
/// is afterwards. Only the operations that put a window of the caller's
/// choice on screen can duplicate one.
pub proof fn lemma_rearranging_shows_nothing_twice(layout: LayoutModel, step: Step)
    requires
        layout.wf(),
        layout.enabled(step),
        step.rearranges(),
        layout.shown_once(),
    ensures
        layout.step(step).shown_once(),
        forall|window: TypeId|
            layout.step(step).placements().count(window) <= layout.placements().count(window),
{
    let after = layout.step(step);
    match step {
        Step::PopOut { panel } => {
            lemma_pop_out_keeps_placements(layout, panel);
        },
        Step::CloseAt { index } => {
            lemma_close_restores_or_discards(layout, index);
        },
        Step::Close { id } => {
            crate::model::lemma_index_of_id_is_first(layout.floating_windows, id);
            if let Some(index) = layout.floating_index(id) {
                lemma_close_restores_or_discards(layout, index);
            }
        },
        Step::Remove { id } => {
            crate::model::lemma_index_of_id_is_first(layout.floating_windows, id);
            if let Some(index) = layout.floating_index(id) {
                lemma_remove_at_placements(layout, index);
            }
        },
        Step::DropWindow { source, target, position } => {
            lemma_drop_window_keeps_placements(layout, source, target, position);
        },
        Step::Release { released, interact_pos, in_viewport } => {
            lemma_release_keeps_placements(layout, released, interact_pos, in_viewport);
        },
        _ => {},
    }
    assert forall|window: TypeId|
        after.placements().count(window) <= layout.placements().count(window) by {}
}

} // verus!

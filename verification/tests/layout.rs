use bevy_editor_pls_core::{
    EditorInternalState, EditorPanel, FloatingWindow, PanelLayout, WindowPosition,
};
use bevy_egui::egui::{pos2, Pos2, Rect};
use std::any::TypeId;

struct A;
struct B;
struct C;
struct D;

fn a() -> TypeId {
    TypeId::of::<A>()
}

fn b() -> TypeId {
    TypeId::of::<B>()
}

fn c() -> TypeId {
    TypeId::of::<C>()
}

fn d() -> TypeId {
    TypeId::of::<D>()
}

fn docked_abc() -> EditorInternalState {
    EditorInternalState::new(&vec![a(), b(), c()], Rect::EVERYTHING)
}

fn pos(x: f32, y: f32) -> Pos2 {
    pos2(x, y)
}

#[test]
fn new_docks_in_order_left_right_bottom() {
    let state = EditorInternalState::new(&vec![a(), b(), c(), d()], Rect::EVERYTHING);
    assert_eq!(state.active_panel(EditorPanel::Left), Some(a()));
    assert_eq!(state.active_panel(EditorPanel::Right), Some(b()));
    assert_eq!(state.active_panel(EditorPanel::Bottom), Some(c()));
    assert!(state.floating_windows().is_empty());
    assert!(!state.is_dragging());
}

#[test]
fn new_with_one_window_fills_left_only() {
    let state = EditorInternalState::new(&vec![d()], Rect::EVERYTHING);
    assert_eq!(state.active_panel(EditorPanel::Left), Some(d()));
    assert_eq!(state.active_panel(EditorPanel::Right), None);
    assert_eq!(state.active_panel(EditorPanel::Bottom), None);
}

#[test]
fn panel_layout_get_and_set() {
    let mut panels = PanelLayout { left_panel: Some(a()), right_panel: None, bottom_panel: None };
    assert_eq!(panels.get(EditorPanel::Left), Some(a()));
    assert_eq!(panels.get(EditorPanel::Right), None);
    panels.set(EditorPanel::Right, Some(b()));
    panels.set(EditorPanel::Left, None);
    *panels.get_mut(EditorPanel::Bottom) = Some(c());
    assert_eq!(
        panels,
        PanelLayout { left_panel: None, right_panel: Some(b()), bottom_panel: Some(c()) }
    );
}

#[test]
fn set_overwrites_without_swapping() {
    let mut state = docked_abc();
    *state.active_panel_mut(EditorPanel::Left) = Some(d());
    assert_eq!(state.active_panel(EditorPanel::Left), Some(d()));
    assert_eq!(state.active_panel(EditorPanel::Right), Some(b()));
    assert_eq!(state.active_panel(EditorPanel::Bottom), Some(c()));
    *state.active_panel_mut(EditorPanel::Right) = None;
    assert_eq!(state.active_panel(EditorPanel::Right), None);
}

#[test]
fn careful_sets_never_show_a_window_twice() {
    let mut state = docked_abc();
    let calls = [
        (EditorPanel::Left, None),
        (EditorPanel::Right, Some(a())),
        (EditorPanel::Left, Some(d())),
        (EditorPanel::Bottom, None),
        (EditorPanel::Bottom, Some(b())),
    ];
    let panels = [EditorPanel::Left, EditorPanel::Right, EditorPanel::Bottom];
    for (panel, window) in calls {
        *state.active_panel_mut(panel) = window;
        for window in [a(), b(), c(), d()] {
            let shown = panels.iter().filter(|p| state.active_panel(**p) == Some(window)).count();
            assert!(shown <= 1);
        }
    }
    assert_eq!(state.active_panel(EditorPanel::Left), Some(d()));
    assert_eq!(state.active_panel(EditorPanel::Right), Some(a()));
    assert_eq!(state.active_panel(EditorPanel::Bottom), Some(b()));
}

#[test]
fn set_alone_lets_a_caller_duplicate() {
    let mut state = docked_abc();
    *state.active_panel_mut(EditorPanel::Right) = Some(a());
    assert_eq!(state.active_panel(EditorPanel::Left), Some(a()));
    assert_eq!(state.active_panel(EditorPanel::Right), Some(a()));
}

#[test]
fn floating_ids_count_up_from_zero() {
    let mut state = docked_abc();
    assert_eq!(state.next_floating_window_id(), 0);
    assert_eq!(state.next_floating_window_id(), 1);
    assert_eq!(state.spawn_floating_window(d(), None, None), 2);
    assert_eq!(state.open_window(d()), 3);
}

#[test]
fn spawn_appends_with_all_fields() {
    let mut state = docked_abc();
    let first = state.spawn_floating_window(d(), Some(EditorPanel::Bottom), Some(pos(3.0, 4.5)));
    let second = state.spawn_floating_window(a(), None, None);
    assert_eq!(
        state.floating_windows(),
        vec![
            FloatingWindow {
                window: d(),
                id: first,
                original_panel: Some(EditorPanel::Bottom),
                initial_position: Some(pos(3.0, 4.5)),
            },
            FloatingWindow { window: a(), id: second, original_panel: None, initial_position: None },
        ]
    );
    assert_eq!((first, second), (0, 1));
}

#[test]
fn ids_are_not_reused_after_a_close() {
    let mut state = docked_abc();
    let first = state.open_window(d());
    let second = state.open_window(d());
    assert!(state.close_floating_window(first).is_some());
    let third = state.open_window(d());
    assert!(state.close_floating_window(second).is_some());
    assert!(state.close_floating_window(third).is_some());
    let fourth = state.open_window(d());
    assert!(first < second && second < third && third < fourth);
    assert_eq!(fourth, 3);
}

#[test]
fn open_window_does_not_look_at_the_slots() {
    let mut state = docked_abc();
    let id = state.open_window(b());
    assert_eq!(state.active_panel(EditorPanel::Right), Some(b()));
    assert_eq!(
        state.floating_windows(),
        vec![FloatingWindow { window: b(), id, original_panel: None, initial_position: None }]
    );
}

#[test]
fn pop_out_empties_the_slot_and_remembers_it() {
    let mut state = docked_abc();
    assert_eq!(state.pop_out(EditorPanel::Right), Some(0));
    assert_eq!(state.active_panel(EditorPanel::Right), None);
    assert_eq!(
        state.floating_windows(),
        vec![FloatingWindow {
            window: b(),
            id: 0,
            original_panel: Some(EditorPanel::Right),
            initial_position: None,
        }]
    );
}

#[test]
fn pop_out_of_an_empty_slot_does_nothing() {
    let mut state = EditorInternalState::new(&vec![a()], Rect::EVERYTHING);
    assert_eq!(state.pop_out(EditorPanel::Bottom), None);
    assert!(state.floating_windows().is_empty());
    assert_eq!(state.open_window(b()), 0);
}

#[test]
fn closing_restores_into_the_empty_origin_slot() {
    let mut state = docked_abc();
    let id = state.pop_out(EditorPanel::Left).unwrap();
    let closed = state.close_floating_window(id).unwrap();
    assert_eq!(closed.window, a());
    assert_eq!(closed.id, id);
    assert_eq!(state.active_panel(EditorPanel::Left), Some(a()));
    assert!(state.floating_windows().is_empty());
}

#[test]
fn closing_discards_when_the_origin_slot_is_taken() {
    let mut state = docked_abc();
    let id = state.pop_out(EditorPanel::Left).unwrap();
    *state.active_panel_mut(EditorPanel::Left) = Some(d());
    assert!(state.close_floating_window(id).is_some());
    assert_eq!(state.active_panel(EditorPanel::Left), Some(d()));
    assert_eq!(state.active_panel(EditorPanel::Right), Some(b()));
    assert_eq!(state.active_panel(EditorPanel::Bottom), Some(c()));
    assert!(state.floating_windows().is_empty());
}

#[test]
fn closing_a_window_without_origin_only_removes_it() {
    let mut state = EditorInternalState::new(&vec![], Rect::EVERYTHING);
    let id = state.open_window(a());
    assert!(state.close_floating_window(id).is_some());
    assert_eq!(state.active_panel(EditorPanel::Left), None);
    assert_eq!(state.active_panel(EditorPanel::Right), None);
    assert_eq!(state.active_panel(EditorPanel::Bottom), None);
    assert!(state.floating_windows().is_empty());
}

#[test]
fn closing_an_unknown_id_changes_nothing() {
    let mut state = docked_abc();
    let id = state.open_window(d());
    assert_eq!(state.close_floating_window(id + 1), None);
    assert_eq!(state.floating_windows().len(), 1);
    assert_eq!(state.floating_window_index(id), Some(0));
    assert_eq!(state.floating_window_index(id + 1), None);
}

#[test]
fn closing_moves_the_last_window_into_the_gap() {
    let mut state = docked_abc();
    let first = state.open_window(a());
    let second = state.open_window(b());
    let third = state.open_window(c());
    state.close_floating_window_at(0);
    let ids: Vec<u32> = state.floating_windows().iter().map(|w| w.id).collect();
    assert_eq!(ids, vec![third, second]);
    assert_eq!(state.floating_window_index(first), None);
    assert_eq!(state.floating_window_index(third), Some(0));
    assert_eq!(state.floating_window_index(second), Some(1));
}

#[test]
fn closing_several_windows_of_one_snapshot() {
    let mut state = EditorInternalState::new(&vec![], Rect::EVERYTHING);
    let ids: Vec<u32> = [a(), b(), c(), d()].iter().map(|w| state.open_window(*w)).collect();
    state.close_floating_windows(&vec![0, 2]);
    let mut left: Vec<u32> = state.floating_windows().iter().map(|w| w.id).collect();
    left.sort();
    assert_eq!(left, vec![ids[1], ids[3]]);
    state.close_floating_windows(&vec![]);
    assert_eq!(state.floating_windows().len(), 2);
    state.close_floating_windows(&vec![0, 1]);
    assert!(state.floating_windows().is_empty());
}

#[test]
fn of_two_windows_closed_together_the_later_one_gets_the_slot() {
    let mut state = EditorInternalState::new(&vec![], Rect::EVERYTHING);
    state.spawn_floating_window(a(), Some(EditorPanel::Left), None);
    state.spawn_floating_window(b(), Some(EditorPanel::Left), None);
    state.close_floating_windows(&vec![0, 1]);
    assert_eq!(state.active_panel(EditorPanel::Left), Some(b()));
    assert!(state.floating_windows().is_empty());
}

#[test]
fn set_window_replaces_slot_or_floating_content() {
    let mut state = docked_abc();
    let id = state.spawn_floating_window(a(), Some(EditorPanel::Left), Some(pos(1.0, 2.0)));
    state.set_window(WindowPosition::Panel(EditorPanel::Bottom), d());
    assert_eq!(state.active_panel(EditorPanel::Bottom), Some(d()));
    state.set_window(WindowPosition::FloatingWindow(id), c());
    assert_eq!(
        state.floating_windows(),
        vec![FloatingWindow {
            window: c(),
            id,
            original_panel: Some(EditorPanel::Left),
            initial_position: Some(pos(1.0, 2.0)),
        }]
    );
}

#[test]
fn set_window_on_an_unknown_floating_id_changes_nothing() {
    let mut state = docked_abc();
    let id = state.open_window(a());
    state.set_window(WindowPosition::FloatingWindow(id + 7), d());
    assert_eq!(
        state.floating_windows(),
        vec![FloatingWindow { window: a(), id, original_panel: None, initial_position: None }]
    );
    assert_eq!(state.active_panel(EditorPanel::Left), Some(a()));
}

#[test]
fn window_at_finds_docked_and_floating_windows() {
    let mut state = docked_abc();
    let id = state.open_window(d());
    assert_eq!(state.window_at(WindowPosition::Panel(EditorPanel::Right)), Some(b()));
    assert_eq!(state.window_at(WindowPosition::FloatingWindow(id)), Some(d()));
    assert_eq!(state.window_at(WindowPosition::FloatingWindow(id + 1)), None);
    *state.active_panel_mut(EditorPanel::Right) = None;
    assert_eq!(state.window_at(WindowPosition::Panel(EditorPanel::Right)), None);
}

#[test]
fn window_position_panel() {
    assert_eq!(WindowPosition::Panel(EditorPanel::Bottom).panel(), Some(EditorPanel::Bottom));
    assert_eq!(WindowPosition::FloatingWindow(3).panel(), None);
}

#[test]
fn viewport_is_kept_and_replaced() {
    let first = Rect::from_min_max(pos2(100.0, 20.0), pos2(500.0, 320.0));
    let second = Rect::from_min_max(pos2(0.0, 0.0), pos2(10.0, 10.0));
    let mut state = EditorInternalState::new(&vec![a()], first);
    assert_eq!(state.viewport(), first);
    state.set_viewport(second);
    assert_eq!(state.viewport(), second);
    assert_eq!(state.active_panel(EditorPanel::Left), Some(a()));
}

#[test]
fn is_in_viewport_asks_the_rectangle() {
    let viewport = Rect::from_min_max(pos2(100.0, 20.0), pos2(500.0, 320.0));
    let mut state = EditorInternalState::new(&vec![], viewport);
    assert!(state.is_in_viewport(pos2(100.0, 20.0)));
    assert!(state.is_in_viewport(pos2(300.0, 100.0)));
    assert!(state.is_in_viewport(pos2(500.0, 320.0)));
    assert!(!state.is_in_viewport(pos2(99.5, 100.0)));
    assert!(!state.is_in_viewport(pos2(300.0, 320.5)));
    state.set_viewport(Rect::EVERYTHING);
    assert!(state.is_in_viewport(pos2(-1.0e9, 1.0e9)));
    state.set_viewport(Rect::NOTHING);
    assert!(!state.is_in_viewport(pos2(0.0, 0.0)));
}

#[test]
fn a_camera_is_confined_only_while_the_editor_is_shown() {
    let viewport = Rect::from_min_max(pos2(100.0, 20.0), pos2(500.0, 320.0));
    let state = EditorInternalState::new(&vec![], viewport);
    assert_eq!(state.camera_viewport(true), Some(viewport));
    assert_eq!(state.camera_viewport(false), None);
}

#[test]
fn removing_takes_the_window_and_leaves_the_slots() {
    let mut state = docked_abc();
    let first = state.pop_out(EditorPanel::Left).unwrap();
    let second = state.open_window(d());
    let third = state.open_window(b());
    let removed = state.remove_floating_window(first).unwrap();
    assert_eq!(
        removed,
        FloatingWindow {
            window: a(),
            id: first,
            original_panel: Some(EditorPanel::Left),
            initial_position: None,
        }
    );
    assert_eq!(state.active_panel(EditorPanel::Left), None);
    let ids: Vec<u32> = state.floating_windows().iter().map(|w| w.id).collect();
    assert_eq!(ids, vec![third, second]);
    assert_eq!(state.remove_floating_window(first), None);
    assert_eq!(state.floating_windows().len(), 2);
}

#[test]
fn a_fresh_layout_has_ids_to_hand_out() {
    let mut state = docked_abc();
    assert!(state.can_spawn());
    state.open_window(a());
    assert!(state.can_spawn());
}

#[test]
fn indices_can_be_closed_when_each_is_in_range_at_its_turn() {
    let mut state = EditorInternalState::new(&vec![], Rect::EVERYTHING);
    for window in [a(), b(), c()] {
        state.open_window(window);
    }
    assert!(state.can_close_floating_windows(&vec![]));
    assert!(state.can_close_floating_windows(&vec![0, 1, 2]));
    assert!(state.can_close_floating_windows(&vec![2]));
    assert!(state.can_close_floating_windows(&vec![0, 0, 0]));
    assert!(!state.can_close_floating_windows(&vec![3]));
    assert!(state.can_close_floating_windows(&vec![1, 2]));
    assert!(!state.can_close_floating_windows(&vec![2, 1]));
    assert!(!state.can_close_floating_windows(&vec![0, 1, 2, 0]));
    assert!(state.can_close_floating_windows(&vec![0, 2]));
}

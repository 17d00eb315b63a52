use bevy::prelude::Entity;
use bevy_editor_pls_core::plugin::EditorState;
use bevy_editor_pls_core::{EditorSettings, FramePass, WireframeMode};

fn walk(active: bool) -> Vec<FramePass> {
    let mut passes = vec![FramePass::first()];
    while let Some(next) = passes[passes.len() - 1].next(active) {
        passes.push(next);
    }
    passes
}

#[test]
fn an_active_frame_runs_every_pass_in_order() {
    assert_eq!(
        walk(true),
        vec![
            FramePass::MenuBar,
            FramePass::LeftPanel,
            FramePass::RightPanel,
            FramePass::CentralPanel,
            FramePass::FloatingWindows,
            FramePass::DragAndDrop,
        ]
    );
}

#[test]
fn an_inactive_frame_draws_the_menu_and_floating_windows_only() {
    assert_eq!(walk(false), vec![FramePass::MenuBar, FramePass::FloatingWindows]);
}

#[test]
fn default_settings_are_empty_and_off() {
    let settings = EditorSettings::default();
    assert_eq!(settings.event_count(), 0);
    assert_eq!(settings.state_count(), 0);
    assert!(!settings.click_to_inspect);
    assert_eq!(settings.wireframe_mode, WireframeMode::Off);
}

#[test]
fn menu_entries_keep_the_order_they_were_added_in() {
    let mut settings = EditorSettings::default();
    assert_eq!(settings.add_event("Save"), 0);
    assert_eq!(settings.add_state("Paused"), 0);
    assert_eq!(settings.add_event("Load"), 1);
    assert_eq!(settings.add_state("Running"), 1);
    assert_eq!(settings.add_event("Reset"), 2);
    assert_eq!(settings.event_count(), 3);
    assert_eq!(settings.state_count(), 2);
    assert_eq!(settings.event_name(0), "Save");
    assert_eq!(settings.event_name(1), "Load");
    assert_eq!(settings.event_name(2), "Reset");
    assert_eq!(settings.state_name(0), "Paused");
    assert_eq!(settings.state_name(1), "Running");
    assert_eq!(settings.events_to_send, vec!["Save", "Load", "Reset"]);
    assert_eq!(settings.state_transition_handlers, vec!["Paused", "Running"]);
}

#[test]
fn only_the_all_mode_draws_every_mesh_as_wireframe() {
    assert!(!WireframeMode::Off.global());
    assert!(!WireframeMode::WithWireframeComponent.global());
    assert!(WireframeMode::All.global());
}

#[test]
fn nothing_is_inspected_at_first() {
    let state = EditorState::default();
    assert_eq!(state.currently_inspected, None);
    assert_eq!(state.inspected(true), None);
    assert_eq!(state.inspected(false), None);
}

#[test]
fn an_entity_is_inspected_only_with_click_to_inspect() {
    let entity = Entity::from_raw(7);
    let state = EditorState { currently_inspected: Some(entity) };
    assert_eq!(state.inspected(true), Some(entity));
    assert_eq!(state.inspected(false), None);
}

#[test]
fn closing_the_inspector_window_ends_the_inspection() {
    let entity = Entity::from_raw(7);
    let mut state = EditorState { currently_inspected: Some(entity) };
    state.window_drawn(true);
    assert_eq!(state.currently_inspected, Some(entity));
    state.window_drawn(false);
    assert_eq!(state.currently_inspected, None);
    state.window_drawn(true);
    assert_eq!(state.currently_inspected, None);
}

use std::collections::HashMap;

use disk_widget::disk::DiskState;
use disk_widget::disk::DiskWidgetState;
use disk_widget::state::AppScrollWidgetState;
use disk_widget::state::CanvasTableWidthState;

fn state_with(offset: usize, selected: Option<usize>, widths: Vec<u16>) -> DiskWidgetState {
    DiskWidgetState {
        scroll_state: AppScrollWidgetState { current_scroll_position: offset, selected },
        table_width_state: CanvasTableWidthState {
            desired_column_widths: widths.clone(),
            calculated_column_widths: widths,
        },
    }
}

fn two_instances() -> (DiskState, DiskWidgetState, DiskWidgetState) {
    let state_a = state_with(0, None, vec![4, 6]);
    let state_b = state_with(9, Some(2), vec![10, 20, 30]);
    let mut states = HashMap::new();
    states.insert(1, state_a.clone());
    states.insert(2, state_b.clone());
    (DiskState::init(states), state_a, state_b)
}

#[test]
fn fresh_widget_state_is_unscrolled_and_has_no_widths() {
    let state = DiskWidgetState::init();
    assert_eq!(state.scroll_state.current_scroll_position, 0);
    assert_eq!(state.scroll_state.selected, None);
    assert_eq!(state.table_width_state.desired_column_widths, Vec::<u16>::new());
    assert_eq!(state.table_width_state.calculated_column_widths, Vec::<u16>::new());
}

#[test]
fn default_scroll_state_is_at_the_top() {
    let scroll = AppScrollWidgetState::default();
    assert_eq!(scroll, AppScrollWidgetState { current_scroll_position: 0, selected: None });
}

#[test]
fn default_width_state_is_empty() {
    let widths = CanvasTableWidthState::default();
    assert!(widths.desired_column_widths.is_empty());
    assert!(widths.calculated_column_widths.is_empty());
}

#[test]
fn init_keeps_the_given_states() {
    let (registry, state_a, state_b) = two_instances();
    assert_eq!(registry.widget_states.len(), 2);
    assert_eq!(registry.get_widget_state(1), Some(&state_a));
    assert_eq!(registry.get_widget_state(2), Some(&state_b));
}

#[test]
fn empty_registry_knows_no_instance() {
    let mut registry = DiskState::init(HashMap::new());
    assert!(registry.get_widget_state(0).is_none());
    assert!(registry.get_widget_state(u64::MAX).is_none());
    assert!(registry.get_mut_widget_state(0).is_none());
    assert!(registry.widget_states.is_empty());
}

#[test]
fn scrolling_one_instance_leaves_the_other_alone() {
    let (mut registry, state_a, state_b) = two_instances();

    let first = registry.get_mut_widget_state(1).expect("instance 1 is registered");
    assert_eq!(*first, state_a);
    first.scroll_state.current_scroll_position = 5;

    let first = registry.get_widget_state(1).expect("instance 1 is registered");
    assert_eq!(first.scroll_state.current_scroll_position, 5);
    assert_eq!(first.scroll_state.selected, None);
    assert_eq!(first.table_width_state, state_a.table_width_state);
    assert_eq!(registry.get_widget_state(2), Some(&state_b));
    assert!(registry.get_widget_state(3).is_none());
}

#[test]
fn writes_to_either_instance_do_not_cross() {
    let (mut registry, _, _) = two_instances();

    registry.get_mut_widget_state(2).unwrap().table_width_state.calculated_column_widths =
        vec![7];
    registry.get_mut_widget_state(1).unwrap().scroll_state.selected = Some(11);

    assert_eq!(registry.get_widget_state(1), Some(&state_with(0, Some(11), vec![4, 6])));
    let second = registry.get_widget_state(2).unwrap();
    assert_eq!(second.scroll_state, AppScrollWidgetState {
        current_scroll_position: 9,
        selected: Some(2),
    });
    assert_eq!(second.table_width_state.desired_column_widths, vec![10, 20, 30]);
    assert_eq!(second.table_width_state.calculated_column_widths, vec![7]);
}

#[test]
fn unregistered_instance_stays_absent() {
    let (mut registry, _, _) = two_instances();
    assert!(registry.get_widget_state(3).is_none());
    assert!(registry.get_mut_widget_state(3).is_none());

    registry.get_mut_widget_state(1).unwrap().scroll_state.current_scroll_position = 40;
    registry.get_mut_widget_state(2).unwrap().scroll_state.current_scroll_position = 41;

    assert!(registry.get_widget_state(3).is_none());
    assert!(registry.get_mut_widget_state(3).is_none());
    assert!(registry.get_widget_state(0).is_none());
}

#[test]
fn looking_up_a_missing_instance_registers_nothing() {
    let (mut registry, state_a, state_b) = two_instances();
    assert!(registry.get_mut_widget_state(3).is_none());
    assert!(registry.get_mut_widget_state(u64::MAX).is_none());
    assert_eq!(registry.widget_states.len(), 2);
    assert!(!registry.widget_states.contains_key(&3));
    assert_eq!(registry.get_widget_state(1), Some(&state_a));
    assert_eq!(registry.get_widget_state(2), Some(&state_b));
}

#[test]
fn replacing_a_whole_state_through_the_reference() {
    let (mut registry, _, state_b) = two_instances();
    let replacement = state_with(3, Some(3), vec![]);
    *registry.get_mut_widget_state(1).unwrap() = replacement.clone();
    assert_eq!(registry.get_widget_state(1), Some(&replacement));
    assert_eq!(registry.get_widget_state(2), Some(&state_b));
    assert_eq!(registry.widget_states.len(), 2);
}

use rust_calendar::container::{ordered_card_ids, reorder_after_drop, ContainerAction, ContainerDragState};
use rust_calendar::countdown::CountdownCardId;

fn ids(v: &[u64]) -> Vec<CountdownCardId> {
    v.iter().map(|&i| CountdownCardId(i)).collect()
}

#[test]
fn test_drag_state_default() {
    let state: ContainerDragState<(f32, f32)> = ContainerDragState::default();
    assert!(!state.is_dragging());
    assert!(state.dragging_card.is_none());
}

#[test]
fn test_drag_state_operations() {
    let mut state: ContainerDragState<(f32, f32)> = ContainerDragState::default();
    let card_id = CountdownCardId(42);
    let start_pos = (100.0f32, 100.0f32);

    state.start_drag(card_id, start_pos);
    assert!(state.is_dragging());
    assert!(state.is_dragging_card(card_id));
    assert!(!state.is_dragging_card(CountdownCardId(99)));
    assert_eq!(state.drag_start_pos, Some(start_pos));

    let new_pos = (150.0f32, 150.0f32);
    state.update_drag(new_pos);
    assert_eq!(state.current_drag_pos, Some(new_pos));

    let ended_card = state.end_drag();
    assert_eq!(ended_card, Some(card_id));
    assert!(!state.is_dragging());
    assert!(state.drag_start_pos.is_none());
    assert!(state.current_drag_pos.is_none());
}

#[test]
fn container_test_container_action_default() {
    let action: ContainerAction<(f32, f32)> = ContainerAction::default();
    assert!(matches!(action, ContainerAction::NoAction));
}

#[test]
fn container_layout_test_container_action_default() {
    let action: ContainerAction<u8> = ContainerAction::default();
    assert!(matches!(action, ContainerAction::NoAction));
}

#[test]
fn display_order_merges_saved_order_and_cards() {
    assert_eq!(ordered_card_ids(&ids(&[]), &ids(&[3, 1, 2])), ids(&[3, 1, 2]));
    assert_eq!(ordered_card_ids(&ids(&[2, 9, 1]), &ids(&[1, 2, 3, 4])), ids(&[2, 1, 3, 4]));
    assert_eq!(ordered_card_ids(&ids(&[5]), &ids(&[1, 1])), ids(&[1]));
}

#[test]
fn dropping_a_card_moves_it() {
    let order = ids(&[1, 2, 3, 4]);
    assert_eq!(reorder_after_drop(&order, CountdownCardId(1), 3), Some(ids(&[2, 3, 1, 4])));
    assert_eq!(reorder_after_drop(&order, CountdownCardId(4), 0), Some(ids(&[4, 1, 2, 3])));
    assert_eq!(reorder_after_drop(&order, CountdownCardId(2), 99), Some(ids(&[1, 3, 4, 2])));
    assert_eq!(reorder_after_drop(&order, CountdownCardId(7), 1), None);
}

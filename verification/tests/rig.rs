use buzz_ui::ids::{LayerId, ObjectId};
use buzz_ui::rig::{auto_assign, resolve, DraggedPart, LoosePart, RigPanelState};

fn part(id: u64, name: &str) -> LoosePart {
    LoosePart { object: ObjectId(id), layer: LayerId(1), name: name.to_string() }
}

#[test]
fn assigning_a_drawing_takes_it_out_of_the_slot_it_was_in() {
    let mut state = RigPanelState { slots: vec![None; 4], ..Default::default() };
    state.assign(1, ObjectId(7));
    state.assign(3, ObjectId(7));

    assert_eq!(state.slots[1], None);
    assert_eq!(state.slots[3], Some(ObjectId(7)));
}

#[test]
fn filling_an_armed_slot_disarms_it() {
    let mut state = RigPanelState { slots: vec![None; 3], armed: Some(2), ..Default::default() };
    state.assign(2, ObjectId(4));
    assert_eq!(state.armed, None);
}

#[test]
fn a_drawing_that_has_gone_leaves_the_slot_it_was_in() {
    // The prop pattern has three slots.
    let mut state = RigPanelState {
        slots: vec![Some(ObjectId(1)), Some(ObjectId(2)), None],
        ..Default::default()
    };

    state.reconcile(3, &[part(1, "base")]);
    assert_eq!(state.slots[0], Some(ObjectId(1)));
    assert_eq!(state.slots[1], None, "a deleted drawing stayed in its slot");
}

#[test]
fn a_different_pattern_gets_a_fresh_slot_list() {
    let mut state = RigPanelState { slots: vec![Some(ObjectId(1)); 11], armed: Some(9), ..Default::default() };
    state.reconcile(3, &[part(1, "base")]);

    assert_eq!(state.slots.len(), 3);
    assert!(state.slots.iter().all(Option::is_none));
    assert_eq!(state.armed, None, "a slot that no longer exists stayed armed");
}

#[test]
fn a_layer_resolves_to_its_drawing_only_when_there_is_exactly_one() {
    let one = vec![part(1, "arm")];
    assert_eq!(resolve(DraggedPart::Layer(LayerId(1)), &one), Some(ObjectId(1)));

    let two = vec![part(1, "arm"), part(2, "arm shadow")];
    assert_eq!(resolve(DraggedPart::Layer(LayerId(1)), &two), None);
    assert_eq!(resolve(DraggedPart::Layer(LayerId(9)), &one), None);
}

#[test]
fn a_dragged_drawing_that_is_no_longer_loose_is_refused() {
    let parts = vec![part(1, "arm")];
    assert_eq!(resolve(DraggedPart::Object(ObjectId(1)), &parts), Some(ObjectId(1)));
    assert_eq!(resolve(DraggedPart::Object(ObjectId(2)), &parts), None);
}

#[test]
fn a_name_match_fills_its_slot_and_says_how_many() {
    let parts = vec![part(1, "hips"), part(2, "torso"), part(3, "head")];
    let mut state = RigPanelState { armed: Some(1), ..Default::default() };
    auto_assign(&[Some(0), Some(1), Some(2), None, None], &parts, &mut state);
    assert_eq!(state.slots, vec![Some(ObjectId(1)), Some(ObjectId(2)), Some(ObjectId(3)), None, None]);
    assert_eq!(state.armed, None);
    assert_eq!(state.note.as_deref(), Some("Named 3 of 5 from the layer names."));
}

#[test]
fn no_name_match_says_so() {
    let mut state = RigPanelState::default();
    auto_assign(&[None, None], &[part(1, "blob")], &mut state);
    assert_eq!(state.slots, vec![None, None]);
    assert!(state.note.as_deref().unwrap().starts_with("No layer name looked like a body part."));
}

#[test]
fn a_choice_past_the_last_pattern_shows_the_last() {
    let state = RigPanelState { pattern: 9, ..Default::default() };
    assert_eq!(state.pattern_index(3), 2);
    assert_eq!(state.pattern_index(0), 0);
    let state = RigPanelState { pattern: 1, ..Default::default() };
    assert_eq!(state.pattern_index(3), 1);
}

#[test]
fn an_out_of_range_slot_only_takes_the_drawing_out() {
    let mut state = RigPanelState { slots: vec![Some(ObjectId(5)), None], ..Default::default() };
    state.assign(7, ObjectId(5));
    assert_eq!(state.slots, vec![None, None]);
}

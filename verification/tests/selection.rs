use buzz_ui::ids::{LayerId, ObjectId};
use buzz_ui::selection::{LayerObject, LayerStatus, ObjectSummary, Selection};

fn shown(ids: &[ObjectId]) -> Vec<LayerObject> {
    ids.iter().map(|&id| LayerObject { id, visible: true, locked: false }).collect()
}

fn three() -> Vec<ObjectId> {
    vec![ObjectId(1), ObjectId(2), ObjectId(3)]
}

#[test]
fn selecting_a_layer_selects_its_artwork() {
    let layer = LayerId(1);
    let ids = three();
    let mut selection = Selection::new();

    selection.select_layer(layer, Some(&shown(&ids)));

    assert_eq!(selection.active_layer(), Some(layer));
    assert_eq!(selection.len(), 3);
    for id in ids {
        assert!(selection.contains(id), "{id:?} should have been selected");
    }
}

#[test]
fn selecting_another_layer_replaces_the_selection() {
    let first = LayerId(1);
    let second = LayerId(2);
    let other = ObjectId(9);
    let mut selection = Selection::new();
    selection.select_layer(first, Some(&shown(&[ObjectId(1), ObjectId(2)])));
    assert_eq!(selection.len(), 2);

    selection.select_layer(second, Some(&shown(&[other])));
    assert_eq!(selection.ids(), vec![other]);
    assert_eq!(selection.active_layer(), Some(second));
}

#[test]
fn a_locked_layer_is_made_active_but_selects_nothing() {
    let layer = LayerId(1);
    let mut selection = Selection::new();
    // A locked layer's artwork cannot be had, so there are no contents to pick.
    selection.select_layer(layer, None);

    assert_eq!(selection.active_layer(), Some(layer));
    assert!(selection.is_empty(), "a locked layer selected its artwork");
}

#[test]
fn a_hidden_layer_selects_nothing_either() {
    let mut selection = Selection::new();
    selection.select_layer(LayerId(1), None);
    assert!(selection.is_empty());
}

#[test]
fn the_artwork_selected_is_the_artwork_on_that_frame() {
    let layer = LayerId(1);
    let on_frame_zero = vec![ObjectId(1)];
    let later = ObjectId(2);
    let mut selection = Selection::new();
    selection.select_layer(layer, Some(&shown(&on_frame_zero)));
    assert_eq!(selection.ids(), on_frame_zero);

    selection.select_layer(layer, Some(&shown(&[later])));
    assert_eq!(selection.ids(), vec![later]);
}

#[test]
fn an_empty_layer_clears_the_selection() {
    let layer = LayerId(1);
    let empty = LayerId(2);
    let mut selection = Selection::new();
    selection.select_layer(layer, Some(&shown(&[ObjectId(1), ObjectId(2)])));
    assert_eq!(selection.len(), 2);

    selection.select_layer(empty, Some(&[]));
    assert!(selection.is_empty());
    assert_eq!(selection.active_layer(), Some(empty));
}

#[test]
fn selecting_one_replaces_whatever_was_selected() {
    let ids = three();
    let mut s = Selection::new();
    s.select_one(ids[0]);
    s.select_one(ids[1]);
    assert_eq!(s.len(), 1);
    assert!(s.contains(ids[1]));
}

#[test]
fn shift_click_toggles() {
    let ids = three();
    let mut s = Selection::new();
    s.toggle(ids[0]);
    s.toggle(ids[1]);
    assert_eq!(s.len(), 2);

    s.toggle(ids[0]);
    assert_eq!(s.len(), 1);
    assert!(!s.contains(ids[0]));
}

#[test]
fn iteration_order_is_stable() {
    let ids: Vec<ObjectId> = (1..=5).map(ObjectId).collect();
    let mut a = Selection::new();
    a.set(&ids);
    let reversed: Vec<ObjectId> = ids.iter().rev().copied().collect();
    let mut b = Selection::new();
    b.set(&reversed);
    assert_eq!(a.ids(), b.ids(), "insertion order must not affect ordering");
}

#[test]
fn pruning_drops_objects_that_no_longer_exist() {
    let ids = three();
    let mut s = Selection::new();
    s.set(&ids);

    s.prune(&[ids[0], ids[2]], &[LayerId(1)]);

    assert_eq!(s.len(), 2);
    assert!(!s.contains(ids[1]));
}

#[test]
fn pruning_repairs_a_dangling_active_layer() {
    let layer = LayerId(1);
    let mut s = Selection::new();
    s.set_active_layer(Some(layer));

    // The layer has gone; another remains.
    s.prune(&[], &[LayerId(2)]);

    assert!(s.active_layer().is_some());
    assert_ne!(s.active_layer(), Some(layer));
}

#[test]
fn an_active_layer_is_chosen_when_none_is_set() {
    let layer = LayerId(1);
    let mut s = Selection::new();
    assert_eq!(s.ensure_active_layer(&[LayerStatus { id: layer, usable: true }]), Some(layer));
}

#[test]
fn a_locked_layer_is_not_chosen_as_active() {
    let locked = LayerId(1);
    let usable = LayerId(2);
    let mut s = Selection::new();
    s.set_active_layer(Some(locked));
    assert_eq!(
        s.ensure_active_layer(&[
            LayerStatus { id: locked, usable: false },
            LayerStatus { id: usable, usable: true },
        ]),
        Some(usable),
        "a locked layer should be replaced with a usable one"
    );
}

#[test]
fn a_hidden_layer_is_not_chosen_as_active() {
    let hidden = LayerId(1);
    let visible = LayerId(2);
    let mut s = Selection::new();
    s.set_active_layer(Some(hidden));
    assert_eq!(
        s.ensure_active_layer(&[
            LayerStatus { id: hidden, usable: false },
            LayerStatus { id: visible, usable: true },
        ]),
        Some(visible)
    );
}

#[test]
fn the_properties_header_describes_the_selection() {
    let ids = three();
    let mut s = Selection::new();
    assert_eq!(s.describe(&ObjectSummary::Shape), "Document");

    s.select_one(ids[0]);
    assert_eq!(s.describe(&ObjectSummary::Shape), "Shape");

    s.set(&ids);
    assert_eq!(s.describe(&ObjectSummary::Shape), "3 objects selected");
}

#[test]
fn a_single_object_is_described_by_what_it_is() {
    let mut s = Selection::new();
    s.select_one(ObjectId(4));
    assert_eq!(s.describe(&ObjectSummary::Group(3)), "Group (3 items)");
    assert_eq!(s.describe(&ObjectSummary::Armature(12)), "Armature (12 bones)");
    assert_eq!(s.describe(&ObjectSummary::Warp(1)), "Warp (1 handles)");
    assert_eq!(s.describe(&ObjectSummary::MissingSymbol), "Missing Symbol");
    assert_eq!(
        s.describe(&ObjectSummary::Instance { kind: "Graphic".into(), name: "Hero".into() }),
        "Graphic \u{2014} Hero"
    );
}

#[test]
fn locked_and_hidden_objects_are_not_picked_up() {
    let mut s = Selection::new();
    s.select_layer(
        LayerId(1),
        Some(&[
            LayerObject { id: ObjectId(1), visible: true, locked: false },
            LayerObject { id: ObjectId(2), visible: false, locked: false },
            LayerObject { id: ObjectId(3), visible: true, locked: true },
        ]),
    );
    assert_eq!(s.ids(), vec![ObjectId(1)]);
}

#[test]
fn adding_and_removing_keep_the_order() {
    let mut s = Selection::new();
    s.add(ObjectId(5));
    s.add(ObjectId(2));
    s.add(ObjectId(5));
    s.extend(&[ObjectId(9), ObjectId(1)]);
    assert_eq!(s.ids(), vec![ObjectId(1), ObjectId(2), ObjectId(5), ObjectId(9)]);
    s.remove(ObjectId(2));
    assert_eq!(s.ids(), vec![ObjectId(1), ObjectId(5), ObjectId(9)]);
    s.prune_to_frame(&[ObjectId(9)]);
    assert_eq!(s.ids(), vec![ObjectId(9)]);
    s.retain(|id| id != ObjectId(9));
    assert!(s.is_empty());
    s.clear();
    assert!(s.is_empty());
}

#[test]
fn nothing_to_choose_from_leaves_no_active_layer() {
    let mut s = Selection::new();
    assert_eq!(s.ensure_active_layer(&[]), None);
    s.set_active_layer(Some(LayerId(3)));
    assert_eq!(s.ensure_active_layer(&[LayerStatus { id: LayerId(4), usable: false }]), Some(LayerId(4)));
}

#[test]
fn selecting_the_active_layer_contents_needs_an_active_layer() {
    let mut s = Selection::new();
    s.select_active_layer_contents(Some(&shown(&[ObjectId(1)])));
    assert!(s.is_empty());
    s.set_active_layer(Some(LayerId(2)));
    s.select_active_layer_contents(Some(&shown(&[ObjectId(1)])));
    assert_eq!(s.ids(), vec![ObjectId(1)]);
}

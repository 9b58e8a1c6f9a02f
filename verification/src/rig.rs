//! Sorting drawings into the slots of a skeleton.
//!
//! A character arrives as a stack of drawings — an arm, a forearm, a head —
//! and a rig pattern declares the slots they go in: a drawing in "Elbow L"
//! becomes a bone along that drawing. A slot is filled by reading the layer
//! names, by arming it and clicking a drawing on the stage, or by dragging a
//! drawing onto it. What this module decides is where each drawing sits: one
//! drawing is one limb, and a drawing that has gone from the stage leaves its
//! slot.

use vstd::prelude::*;

use crate::ids::{LayerId, ObjectId};
use crate::text::{decimal, decimal_chars, push_str, string_from};

verus! {

/// A drawing on the stage that has not been rigged yet.
#[derive(Debug, Clone, PartialEq)]
pub struct LoosePart {
    pub object: ObjectId,
    /// The layer it is on, so that a drag from the Layers panel can be
    /// resolved to the drawing on that layer.
    pub layer: LayerId,
    /// What to show it as: the object's name, its layer's, or a last resort.
    pub name: String,
}

/// Something being dragged towards a slot: the tray knows the drawing, a
/// layer row knows only its layer.
#[derive(Debug, Clone, Copy, PartialEq, Eq, Hash, Structural)]
pub enum DraggedPart {
    Object(ObjectId),
    Layer(LayerId),
}

/// State the panel keeps between frames: what is on screen rather than what
/// is in the document.
#[derive(Debug)]
pub struct RigPanelState {
    pub new_pose_name: String,
    /// Which built-in pattern the assembly section is working with.
    pub pattern: usize,
    /// What has been put in each slot of it, one entry per slot.
    pub slots: Vec<Option<ObjectId>>,
    /// A slot waiting for a drawing to be clicked on the stage.
    pub armed: Option<usize>,
    /// What the last gesture did, said under the list.
    pub note: Option<String>,
}

impl Default for RigPanelState {
    fn default() -> (s: Self)
        ensures
            s.new_pose_name@ == Seq::<char>::empty(),
            s.pattern == 0,
            s.slots@ == Seq::<Option<ObjectId>>::empty(),
            s.armed is None,
            s.note is None,
    {
        RigPanelState {
            new_pose_name: String::new(),
            pattern: 0,
            slots: Vec::new(),
            armed: None,
            note: None,
        }
    }
}

/// Is `object` among the loose parts?
pub open spec fn on_offer(parts: Seq<LoosePart>, object: ObjectId) -> bool {
    exists|i: int| 0 <= i < parts.len() && #[trigger] parts[i].object == object
}

/// The drawings on `layer`, in order.
pub open spec fn parts_on(parts: Seq<LoosePart>, layer: LayerId) -> Seq<LoosePart> {
    parts.filter(|p: LoosePart| p.layer == layer)
}

/// The drawing a drag stands for: a drawing still on offer, or the one
/// drawing on a layer — two drawings on it is a question, not an answer.
pub open spec fn resolve_spec(dragged: DraggedPart, parts: Seq<LoosePart>) -> Option<ObjectId> {
    match dragged {
        DraggedPart::Object(id) => if on_offer(parts, id) {
            Some(id)
        } else {
            None
        },
        DraggedPart::Layer(layer) => if parts_on(parts, layer).len() == 1 {
            Some(parts_on(parts, layer)[0].object)
        } else {
            None
        },
    }
}

/// The slots after `object` is put in `slot`: out of every other slot it was
/// in, and into that one if there is such a slot.
pub open spec fn assigned(slots: Seq<Option<ObjectId>>, slot: nat, object: ObjectId) -> Seq<
    Option<ObjectId>,
> {
    Seq::new(
        slots.len(),
        |k: int|
            if k == slot {
                Some(object)
            } else if slots[k] == Some(object) {
                None
            } else {
                slots[k]
            },
    )
}

/// A slot's drawing, kept only while it is still on offer.
pub open spec fn still_loose(held: Option<ObjectId>, parts: Seq<LoosePart>) -> Option<ObjectId> {
    match held {
        Some(id) => if on_offer(parts, id) {
            held
        } else {
            None
        },
        None => None,
    }
}

/// How many slots the names accounted for.
pub open spec fn filled_count(matched: Seq<Option<usize>>) -> nat
    decreases matched.len(),
{
    if matched.len() == 0 {
        0
    } else {
        filled_count(matched.drop_last()) + if matched.last() is Some {
            1nat
        } else {
            0nat
        }
    }
}

/// The slot a name match fills: the matched drawing, when there is one.
pub open spec fn matched_object(found: Option<usize>, parts: Seq<LoosePart>) -> Option<ObjectId> {
    match found {
        Some(i) => if i < parts.len() {
            Some(parts[i as int].object)
        } else {
            None
        },
        None => None,
    }
}

/// What the panel says after reading the names.
pub open spec fn auto_note(filled: nat, slots: nat) -> Seq<char> {
    if filled == 0 {
        "No layer name looked like a body part. Sort them by hand, or rename the layers and try again."@
    } else {
        "Named "@ + decimal(filled) + " of "@ + decimal(slots) + " from the layer names."@
    }
}

impl RigPanelState {
    /// The pattern the assembly section is showing, out of `count`: the one
    /// chosen, or the last if the choice is past the end.
    pub fn pattern_index(&self, count: usize) -> (r: usize)
        ensures
            r == if count == 0 {
                0
            } else if self.pattern < count {
                self.pattern as int
            } else {
                count - 1
            },
    {
        let last = if count == 0 { 0 } else { count - 1 };
        if self.pattern < last { self.pattern } else { last }
    }

    /// Put a drawing in a slot, taking it out of whatever slot it was in: one
    /// drawing cannot be two limbs. Filling the armed slot disarms it.
    pub fn assign(&mut self, slot: usize, object: ObjectId)
        ensures
            final(self).slots@ == if slot < old(self).slots@.len() {
                assigned(old(self).slots@, slot as nat, object)
            } else {
                assigned(old(self).slots@, old(self).slots@.len(), object)
            },
            final(self).armed == if old(self).armed == Some(slot) {
                None
            } else {
                old(self).armed
            },
            final(self).pattern == old(self).pattern,
            final(self).note == old(self).note,
            final(self).new_pose_name == old(self).new_pose_name,
            slot < old(self).slots@.len() ==> forall|k: int|
                0 <= k < final(self).slots@.len() ==> (#[trigger] final(self).slots@[k] == Some(object)
                    <==> k == slot),
    {
        let ghost before = self.slots@;
        let ghost target: nat = if slot < before.len() {
            slot as nat
        } else {
            before.len()
        };
        let mut k: usize = 0;
        while k < self.slots.len()
            invariant
                k <= self.slots@.len(),
                self.slots@.len() == before.len(),
                target == if slot < before.len() { slot as nat } else { before.len() },
                forall|j: int|
                    0 <= j < k ==> #[trigger] self.slots@[j] == (if j == target {
                        if before[j] == Some(object) { None } else { before[j] }
                    } else if before[j] == Some(object) {
                        None
                    } else {
                        before[j]
                    }),
                forall|j: int| k <= j < self.slots@.len() ==> #[trigger] self.slots@[j] == before[j],
                self.armed == old(self).armed,
                self.pattern == old(self).pattern,
                self.note == old(self).note,
                self.new_pose_name == old(self).new_pose_name,
            decreases self.slots@.len() - k,
        {
            if self.slots[k] == Some(object) {
                self.slots.set(k, None);
            }
            k = k + 1;
        }
        if slot < self.slots.len() {
            self.slots.set(slot, Some(object));
        }
        if self.armed == Some(slot) {
            self.armed = None;
        }
        assert(self.slots@ =~= assigned(before, target, object));
    }

    /// Fit the slot list to a pattern of `slot_count` slots, forgetting
    /// drawings that are no longer on offer — one that has been deleted, or
    /// that is already inside a rig. A list of another length belonged to
    /// another pattern and starts again empty.
    pub fn reconcile(&mut self, slot_count: usize, parts: &[LoosePart])
        ensures
            final(self).slots@ == Seq::new(
                slot_count as nat,
                |k: int|
                    if old(self).slots@.len() == slot_count {
                        still_loose(old(self).slots@[k], parts@)
                    } else {
                        None
                    },
            ),
            final(self).armed == ({
                let armed = if old(self).slots@.len() == slot_count {
                    old(self).armed
                } else {
                    None
                };
                match armed {
                    Some(s) => if s < slot_count {
                        armed
                    } else {
                        None
                    },
                    None => None,
                }
            }),
            final(self).pattern == old(self).pattern,
            final(self).note == old(self).note,
            final(self).new_pose_name == old(self).new_pose_name,
    {
        if self.slots.len() != slot_count {
            let mut fresh: Vec<Option<ObjectId>> = Vec::new();
            let mut i: usize = 0;
            while i < slot_count
                invariant
                    i <= slot_count,
                    fresh@ == Seq::new(i as nat, |k: int| None::<ObjectId>),
                decreases slot_count - i,
            {
                fresh.push(None);
                assert(fresh@ =~= Seq::new((i + 1) as nat, |k: int| None::<ObjectId>));
                i = i + 1;
            }
            self.slots = fresh;
            self.armed = None;
        }
        let ghost start = self.slots@;
        let ghost armed_now = self.armed;
        let mut k: usize = 0;
        while k < self.slots.len()
            invariant
                k <= self.slots@.len(),
                self.slots@.len() == start.len(),
                forall|j: int| 0 <= j < k ==> #[trigger] self.slots@[j] == still_loose(start[j], parts@),
                forall|j: int| k <= j < self.slots@.len() ==> #[trigger] self.slots@[j] == start[j],
                self.armed == armed_now,
                self.pattern == old(self).pattern,
                self.note == old(self).note,
                self.new_pose_name == old(self).new_pose_name,
            decreases self.slots@.len() - k,
        {
            if let Some(id) = self.slots[k] {
                if !offered(parts, id) {
                    self.slots.set(k, None);
                }
            }
            k = k + 1;
        }
        if let Some(s) = self.armed {
            if s >= self.slots.len() {
                self.armed = None;
            }
        }
        proof {
            let expected = Seq::new(
                slot_count as nat,
                |k: int|
                    if old(self).slots@.len() == slot_count {
                        still_loose(old(self).slots@[k], parts@)
                    } else {
                        None
                    },
            );
            assert(self.slots@ =~= expected);
        }
    }
}

/// Is `object` among the loose parts?
fn offered(parts: &[LoosePart], object: ObjectId) -> (r: bool)
    ensures
        r == on_offer(parts@, object),
{
    let mut i: usize = 0;
    while i < parts.len()
        invariant
            i <= parts@.len(),
            forall|k: int| 0 <= k < i ==> #[trigger] parts@[k].object != object,
        decreases parts@.len() - i,
    {
        if parts[i].object == object {
            return true;
        }
        i = i + 1;
    }
    false
}

/// The drawing a drag stands for, if it stands for exactly one that is still
/// loose.
pub fn resolve(dragged: DraggedPart, parts: &[LoosePart]) -> (r: Option<ObjectId>)
    ensures
        r == resolve_spec(dragged, parts@),
{
    match dragged {
        DraggedPart::Object(id) => {
            if offered(parts, id) {
                Some(id)
            } else {
                None
            }
        },
        DraggedPart::Layer(layer) => {
            let ghost pred = |p: LoosePart| p.layer == layer;
            let mut first: Option<ObjectId> = None;
            let mut count: usize = 0;
            let mut i: usize = 0;
            while i < parts.len()
                invariant
                    i <= parts@.len(),
                    pred == (|p: LoosePart| p.layer == layer),
                    count <= i,
                    count == if parts@.take(i as int).filter(pred).len() < 2 {
                        parts@.take(i as int).filter(pred).len()
                    } else {
                        2
                    },
                    first == if parts@.take(i as int).filter(pred).len() > 0 {
                        Some(parts@.take(i as int).filter(pred)[0].object)
                    } else {
                        None
                    },
                decreases parts@.len() - i,
            {
                proof {
                    let t = parts@.take(i + 1);
                    assert(t.drop_last() =~= parts@.take(i as int));
                    assert(t.last() == parts@[i as int]);
                    reveal_with_fuel(Seq::filter, 1);
                    let before = parts@.take(i as int).filter(pred);
                    if pred(parts@[i as int]) && before.len() > 0 {
                        assert(before.push(parts@[i as int])[0] == before[0]);
                    }
                }
                if parts[i].layer == layer {
                    if count == 0 {
                        first = Some(parts[i].object);
                    }
                    if count < 2 {
                        count = count + 1;
                    }
                }
                i = i + 1;
            }
            assert(parts@.take(i as int) =~= parts@);
            if count == 1 {
                first
            } else {
                None
            }
        },
    }
}

/// Fill every slot the drawings' own names account for. `matched` is, slot
/// by slot, the index into `parts` of the drawing whose name fits it, as the
/// pattern's name matcher found it; the panel then says how many it named.
pub fn auto_assign(matched: &[Option<usize>], parts: &[LoosePart], state: &mut RigPanelState)
    ensures
        final(state).slots@ == Seq::new(
            matched@.len(),
            |k: int| matched_object(matched@[k], parts@),
        ),
        final(state).armed is None,
        final(state).note is Some,
        final(state).note->0@ == auto_note(filled_count(matched@), matched@.len()),
        final(state).pattern == old(state).pattern,
        final(state).new_pose_name == old(state).new_pose_name,
{
    let mut slots: Vec<Option<ObjectId>> = Vec::new();
    let mut filled: usize = 0;
    let mut i: usize = 0;
    while i < matched.len()
        invariant
            i <= matched@.len(),
            filled == filled_count(matched@.take(i as int)),
            filled <= i,
            slots@ == Seq::new(i as nat, |k: int| matched_object(matched@[k], parts@)),
        decreases matched@.len() - i,
    {
        proof {
            let t = matched@.take(i + 1);
            assert(t.drop_last() =~= matched@.take(i as int));
        }
        let entry = match matched[i] {
            Some(index) => {
                filled = filled + 1;
                if index < parts.len() {
                    Some(parts[index].object)
                } else {
                    None
                }
            },
            None => None,
        };
        slots.push(entry);
        assert(slots@ =~= Seq::new((i + 1) as nat, |k: int| matched_object(matched@[k], parts@)));
        i = i + 1;
    }
    assert(matched@.take(i as int) =~= matched@);
    let total = slots.len();
    state.slots = slots;
    state.armed = None;
    let note = if filled == 0 {
        let mut s: Vec<char> = Vec::new();
        push_str(
            &mut s,
            "No layer name looked like a body part. Sort them by hand, or rename the layers and try again.",
        );
        string_from(&s)
    } else {
        let mut s: Vec<char> = Vec::new();
        push_str(&mut s, "Named ");
        let mut count = decimal_chars(filled as u64);
        s.append(&mut count);
        push_str(&mut s, " of ");
        let mut of = decimal_chars(total as u64);
        s.append(&mut of);
        push_str(&mut s, " from the layer names.");
        string_from(&s)
    };
    state.note = Some(note);
    proof {
        if filled == 0 {
            assert(note@ =~= auto_note(0, matched@.len()));
        } else {
            assert(note@ =~= auto_note(filled as nat, matched@.len()));
        }
    }
}

/// A run of parts none of which is on `layer` puts nothing on it.
proof fn lemma_nothing_on_layer(others: Seq<LoosePart>, layer: LayerId)
    requires
        forall|k: int| 0 <= k < others.len() ==> (#[trigger] others[k]).layer != layer,
    ensures
        parts_on(others, layer).len() == 0,
    decreases others.len(),
{
    reveal_with_fuel(Seq::filter, 1);
    if others.len() > 0 {
        lemma_nothing_on_layer(others.drop_last(), layer);
        assert(others.last().layer != layer);
    }
}

/// The parts on `layer` of two runs laid end to end are those of the first
/// followed by those of the second.
proof fn lemma_parts_on_concat(a: Seq<LoosePart>, b: Seq<LoosePart>, layer: LayerId)
    ensures
        parts_on(a + b, layer) == parts_on(a, layer) + parts_on(b, layer),
{
    let pred = |p: LoosePart| p.layer == layer;
    assert(parts_on(a + b, layer) == (a + b).filter(pred));
    assert(parts_on(a, layer) == a.filter(pred));
    assert(parts_on(b, layer) == b.filter(pred));
    Seq::filter_distributes_over_add(a, b, pred);
}

/// **Only the dragged layer's drawings count**: laying parts on other layers
/// before or after the parts on offer never changes what a layer drag
/// resolves to. A layer holding one loose drawing stands for it however many
/// other layers hold drawings too.
pub proof fn other_layers_do_not_change_a_layer_drag(
    layer: LayerId,
    parts: Seq<LoosePart>,
    others: Seq<LoosePart>,
)
    requires
        forall|k: int| 0 <= k < others.len() ==> (#[trigger] others[k]).layer != layer,
    ensures
        resolve_spec(DraggedPart::Layer(layer), parts + others) == resolve_spec(
            DraggedPart::Layer(layer),
            parts,
        ),
        resolve_spec(DraggedPart::Layer(layer), others + parts) == resolve_spec(
            DraggedPart::Layer(layer),
            parts,
        ),
{
    lemma_nothing_on_layer(others, layer);
    lemma_parts_on_concat(parts, others, layer);
    lemma_parts_on_concat(others, parts, layer);
    assert(parts_on(parts, layer) + parts_on(others, layer) =~= parts_on(parts, layer));
    assert(parts_on(others, layer) + parts_on(parts, layer) =~= parts_on(parts, layer));
}

/// **A layer's one drawing is what dragging the layer means, and two are a
/// question**: a layer with a single loose drawing resolves to that drawing;
/// a layer with two resolves to nothing.
pub proof fn a_layer_drag_needs_exactly_one_drawing(p: LoosePart, q: LoosePart)
    ensures
        resolve_spec(DraggedPart::Layer(p.layer), seq![p]) == Some(p.object),
        q.layer == p.layer ==> resolve_spec(DraggedPart::Layer(p.layer), seq![p, q]) is None,
{
    reveal_with_fuel(Seq::filter, 3);
    assert(seq![p].drop_last() =~= Seq::<LoosePart>::empty());
    assert(seq![p, q].drop_last() =~= seq![p]);
    assert(seq![p].last() == p);
    assert(seq![p, q].last() == q);
}

} // verus!

//! What is currently selected.
//!
//! Animate keeps selection separate from the document: selecting nothing is a
//! normal state, selection survives most edits, and it is *not* saved with the
//! file. Keeping it out of the document keeps it out of the undo history too —
//! Ctrl+Z undoes your last edit, not your last click.
//!
//! The selected objects are held in increasing order of their ids, so the
//! order they are handed out in never depends on the order they were picked
//! in — which keeps grouping and z-order operations deterministic.

use vstd::prelude::*;

use crate::ids::{LayerId, ObjectId};
use crate::text::{chars_of, decimal, decimal_chars, push_str, string_from};

verus! {

/// Ids in strictly increasing order: a set, written down one way only.
pub open spec fn increasing(s: Seq<ObjectId>) -> bool {
    forall|i: int, j: int| 0 <= i < j < s.len() ==> s[i].0 < s[j].0
}

/// The selection as the contracts see it.
pub struct SelectionView {
    /// What is selected, in increasing id order.
    pub objects: Seq<ObjectId>,
    /// The layer new artwork goes on.
    pub active_layer: Option<LayerId>,
}

/// The current selection.
#[derive(Debug, PartialEq, Eq)]
pub struct Selection {
    objects: Vec<ObjectId>,
    active_layer: Option<LayerId>,
}

impl Clone for Selection {
    fn clone(&self) -> (r: Self)
        ensures
            r@ == self@,
    {
        proof {
            use_type_invariant(self);
        }
        Selection { objects: self.objects.clone(), active_layer: self.active_layer }
    }
}

/// A layer as [`Selection::ensure_active_layer`] needs to know it: whether
/// artwork can be drawn on it — editable, and visible through its folders.
#[derive(Debug, Clone, Copy, PartialEq, Eq, Structural)]
pub struct LayerStatus {
    pub id: LayerId,
    pub usable: bool,
}

/// One object on a layer at a frame, as [`Selection::select_layer`] reads it.
#[derive(Debug, Clone, Copy, PartialEq, Eq, Structural)]
pub struct LayerObject {
    pub id: ObjectId,
    pub visible: bool,
    pub locked: bool,
}

/// What the single selected object is, for the Properties header.
#[derive(Debug, Clone, PartialEq, Eq)]
pub enum ObjectSummary {
    /// A shape, or an object the document no longer has.
    Shape,
    /// A group, and how many items are in it.
    Group(usize),
    /// An instance of a symbol that exists: the symbol's kind, as the library
    /// names it, and the symbol's name.
    Instance { kind: String, name: String },
    /// An instance whose symbol has gone.
    MissingSymbol,
    /// Rigged artwork, and how many bones it has.
    Armature(usize),
    /// A warp, and how many handles it has.
    Warp(usize),
}

/// Is there a usable layer with this id?
pub open spec fn usable_in(layers: Seq<LayerStatus>, id: LayerId) -> bool {
    exists|i: int| 0 <= i < layers.len() && #[trigger] layers[i].id == id && layers[i].usable
}

/// The first usable layer, top to bottom.
pub open spec fn first_usable(layers: Seq<LayerStatus>) -> Option<LayerId>
    decreases layers.len(),
{
    if layers.len() == 0 {
        None
    } else if layers[0].usable {
        Some(layers[0].id)
    } else {
        first_usable(layers.drop_first())
    }
}

/// The layer [`Selection::ensure_active_layer`] settles on: the current one
/// if artwork can go on it, else the topmost that can hold artwork, else any
/// layer at all so the panel still shows something.
pub open spec fn chosen_layer(current: Option<LayerId>, layers: Seq<LayerStatus>) -> Option<LayerId> {
    if current is Some && usable_in(layers, current->0) {
        current
    } else if first_usable(layers) is Some {
        first_usable(layers)
    } else if layers.len() > 0 {
        Some(layers[0].id)
    } else {
        None
    }
}

/// Would [`Selection::select_layer`] pick this object up?
pub open spec fn pickable(contents: Seq<LayerObject>, id: ObjectId) -> bool {
    exists|k: int|
        0 <= k < contents.len() && #[trigger] contents[k].id == id && contents[k].visible
            && !contents[k].locked
}

/// The Properties header for `count` selected objects, the single one being
/// described by `single`.
pub open spec fn describe_spec(count: nat, single: ObjectSummary) -> Seq<char> {
    if count == 0 {
        "Document"@
    } else if count == 1 {
        match single {
            ObjectSummary::Shape => "Shape"@,
            ObjectSummary::Group(n) => "Group ("@ + decimal(n as nat) + " items)"@,
            ObjectSummary::Instance { kind, name } => kind@ + " \u{2014} "@ + name@,
            ObjectSummary::MissingSymbol => "Missing Symbol"@,
            ObjectSummary::Armature(n) => "Armature ("@ + decimal(n as nat) + " bones)"@,
            ObjectSummary::Warp(n) => "Warp ("@ + decimal(n as nat) + " handles)"@,
        }
    } else {
        decimal(count) + " objects selected"@
    }
}

/// Do `a` and `b` hold the same objects, in whatever order?
pub open spec fn same_objects(a: Seq<ObjectId>, b: Seq<ObjectId>) -> bool {
    forall|x: ObjectId| #![trigger a.contains(x), b.contains(x)] a.contains(x) == b.contains(x)
}

/// **The order a selection is handed out in does not depend on the order it
/// was made in**: two well-formed selections of the same objects list them
/// identically.
pub proof fn selection_order_is_canonical(a: Seq<ObjectId>, b: Seq<ObjectId>)
    requires
        increasing(a),
        increasing(b),
        same_objects(a, b),
    ensures
        a == b,
    decreases a.len(),
{
    if a.len() == 0 {
        if b.len() > 0 {
            assert(b.contains(b[0]));
            assert(a.contains(b[0]));
        }
        assert(a =~= b);
    } else {
        assert(a.contains(a[0]));
        assert(b.contains(a[0]));
        let k = choose|k: int| 0 <= k < b.len() && b[k] == a[0];
        assert(b.contains(b[0]));
        assert(a.contains(b[0]));
        let j = choose|j: int| 0 <= j < a.len() && a[j] == b[0];
        if k > 0 {
            assert(b[0].0 < b[k].0);
            if j > 0 {
                assert(a[0].0 < a[j].0);
            }
            assert(false);
        }
        let ta = a.drop_first();
        let tb = b.drop_first();
        assert forall|x: ObjectId| #![trigger ta.contains(x), tb.contains(x)]
            ta.contains(x) == tb.contains(x) by {
            if ta.contains(x) {
                let i = choose|i: int| 0 <= i < ta.len() && ta[i] == x;
                assert(a[i + 1] == x);
                assert(a.contains(x));
                assert(b.contains(x));
                let m = choose|m: int| 0 <= m < b.len() && b[m] == x;
                assert(a[0].0 < a[i + 1].0);
                assert(m != 0);
                assert(tb[m - 1] == x);
            }
            if tb.contains(x) {
                let i = choose|i: int| 0 <= i < tb.len() && tb[i] == x;
                assert(b[i + 1] == x);
                assert(b.contains(x));
                assert(a.contains(x));
                let m = choose|m: int| 0 <= m < a.len() && a[m] == x;
                assert(b[0].0 < b[i + 1].0);
                assert(m != 0);
                assert(ta[m - 1] == x);
            }
        }
        selection_order_is_canonical(ta, tb);
        assert(a =~= seq![a[0]] + ta);
        assert(b =~= seq![b[0]] + tb);
    }
}

/// What [`Selection::toggle`] promises of the objects before and after.
pub open spec fn toggled(before: Seq<ObjectId>, after: Seq<ObjectId>, id: ObjectId) -> bool {
    forall|x: ObjectId|
        #![trigger after.contains(x)]
        after.contains(x) == (if x == id {
            !before.contains(x)
        } else {
            before.contains(x)
        })
}

/// **Shift-clicking the same object twice leaves the selection as it was**,
/// down to the order it is listed in.
pub proof fn toggling_twice_restores(
    before: Seq<ObjectId>,
    middle: Seq<ObjectId>,
    after: Seq<ObjectId>,
    id: ObjectId,
)
    requires
        increasing(before),
        increasing(after),
        toggled(before, middle, id),
        toggled(middle, after, id),
    ensures
        after == before,
{
    assert forall|x: ObjectId| #![trigger after.contains(x), before.contains(x)]
        after.contains(x) == before.contains(x) by {
        assert(middle.contains(x) == (if x == id {
            !before.contains(x)
        } else {
            before.contains(x)
        }));
    }
    selection_order_is_canonical(after, before);
}

impl View for Selection {
    type V = SelectionView;

    closed spec fn view(&self) -> SelectionView {
        SelectionView { objects: self.objects@, active_layer: self.active_layer }
    }
}

impl Default for Selection {
    fn default() -> (s: Self)
        ensures
            s@.objects.len() == 0,
            s@.active_layer is None,
    {
        Selection { objects: Vec::new(), active_layer: None }
    }
}

impl Selection {
    /// The objects are held in increasing id order.
    #[verifier::type_invariant]
    pub open spec fn wf(self) -> bool {
        increasing(self@.objects)
    }

    pub fn new() -> (s: Self)
        ensures
            s@.objects.len() == 0,
            s@.active_layer is None,
    {
        Selection { objects: Vec::new(), active_layer: None }
    }

    pub fn is_empty(&self) -> (r: bool)
        ensures
            r == (self@.objects.len() == 0),
    {
        self.objects.len() == 0
    }

    pub fn len(&self) -> (r: usize)
        ensures
            r == self@.objects.len(),
    {
        self.objects.len()
    }

    pub fn contains(&self, id: ObjectId) -> (r: bool)
        ensures
            r == self@.objects.contains(id),
    {
        let mut i: usize = 0;
        while i < self.objects.len()
            invariant
                i <= self.objects@.len(),
                forall|k: int| 0 <= k < i ==> self.objects@[k] != id,
            decreases self.objects.len() - i,
        {
            if self.objects[i].0 == id.0 {
                assert(self.objects@[i as int] == id);
                return true;
            }
            i = i + 1;
        }
        false
    }

    /// The selected objects, in increasing id order.
    pub fn ids(&self) -> (r: Vec<ObjectId>)
        ensures
            r@ == self@.objects,
    {
        self.objects.clone()
    }

    /// Select nothing; the active layer stays.
    pub fn clear(&mut self)
        ensures
            final(self)@.objects.len() == 0,
            final(self)@.active_layer == old(self)@.active_layer,
    {
        self.objects = Vec::new();
        assert(self.objects@ =~= Seq::<ObjectId>::empty());
    }

    /// Select exactly this object.
    pub fn select_one(&mut self, id: ObjectId)
        ensures
            final(self)@.objects == seq![id],
            final(self)@.active_layer == old(self)@.active_layer,
    {
        let mut one: Vec<ObjectId> = Vec::new();
        one.push(id);
        self.objects = one;
        assert(self.objects@ =~= seq![id]);
    }

    /// Add an object to the selection.
    pub fn add(&mut self, id: ObjectId)
        ensures
            forall|x: ObjectId|
                #![trigger final(self)@.objects.contains(x)]
                final(self)@.objects.contains(x) == (old(self)@.objects.contains(x) || x == id),
            final(self)@.active_layer == old(self)@.active_layer,
    {
        proof {
            use_type_invariant(&*self);
        }
        let n = self.objects.len();
        let mut i: usize = 0;
        while i < n && self.objects[i].0 < id.0
            invariant
                n == self.objects@.len(),
                i <= n,
                increasing(self.objects@),
                forall|k: int| 0 <= k < i ==> #[trigger] self.objects@[k].0 < id.0,
            decreases n - i,
        {
            i = i + 1;
        }
        if i < n && self.objects[i].0 == id.0 {
            assert(self.objects@[i as int] == id);
            assert forall|x: ObjectId| #![trigger self.objects@.contains(x)]
                self.objects@.contains(x) == (self.objects@.contains(x) || x == id) by {}
            return ;
        }
        let ghost before = self.objects@;
        let mut objects: Vec<ObjectId> = Vec::new();
        std::mem::swap(&mut objects, &mut self.objects);
        assert(self.objects@ =~= Seq::<ObjectId>::empty());
        objects.insert(i, id);
        proof {
            let after = objects@;
            assert(after =~= before.subrange(0, i as int).push(id) + before.subrange(
                i as int,
                n as int,
            ));
            assert forall|a: int, b: int| 0 <= a < b < after.len() implies after[a].0 < after[b].0 by {
                if a < i && b < i {
                } else if a < i && b == i {
                } else if a < i {
                    assert(after[b] == before[b - 1]);
                } else if a == i {
                    assert(after[b] == before[b - 1]);
                    assert(before[i as int].0 > id.0);
                    if b - 1 > i {
                        assert(before[i as int].0 < before[b - 1].0);
                    }
                } else {
                    assert(after[a] == before[a - 1]);
                    assert(after[b] == before[b - 1]);
                }
            }
            assert forall|x: ObjectId| #![trigger after.contains(x)]
                after.contains(x) == (before.contains(x) || x == id) by {
                if after.contains(x) {
                    let k = choose|k: int| 0 <= k < after.len() && after[k] == x;
                    if k < i {
                        assert(before[k] == x);
                    } else if k > i {
                        assert(before[k - 1] == x);
                    }
                }
                if before.contains(x) {
                    let k = choose|k: int| 0 <= k < before.len() && before[k] == x;
                    if k < i {
                        assert(after[k] == x);
                    } else {
                        assert(after[k + 1] == x);
                    }
                }
                if x == id {
                    assert(after[i as int] == x);
                }
            }
        }
        self.objects = objects;
    }

    /// Take an object out of the selection.
    pub fn remove(&mut self, id: ObjectId)
        ensures
            forall|x: ObjectId|
                #![trigger final(self)@.objects.contains(x)]
                final(self)@.objects.contains(x) == (old(self)@.objects.contains(x) && x != id),
            final(self)@.active_layer == old(self)@.active_layer,
    {
        proof {
            use_type_invariant(&*self);
        }
        let n = self.objects.len();
        let mut i: usize = 0;
        while i < n && self.objects[i].0 != id.0
            invariant
                n == self.objects@.len(),
                i <= n,
                forall|k: int| 0 <= k < i ==> #[trigger] self.objects@[k] != id,
            decreases n - i,
        {
            i = i + 1;
        }
        if i == n {
            assert forall|x: ObjectId| #![trigger self.objects@.contains(x)]
                self.objects@.contains(x) == (self.objects@.contains(x) && x != id) by {
                if self.objects@.contains(x) && x == id {
                    let k = choose|k: int| 0 <= k < n && self.objects@[k] == x;
                    assert(self.objects@[k] != id);
                }
            }
            return ;
        }
        let ghost before = self.objects@;
        let mut objects: Vec<ObjectId> = Vec::new();
        std::mem::swap(&mut objects, &mut self.objects);
        assert(self.objects@ =~= Seq::<ObjectId>::empty());
        objects.remove(i);
        proof {
            let after = objects@;
            assert(before[i as int] == id);
            assert(after =~= before.subrange(0, i as int) + before.subrange(i + 1, n as int));
            assert forall|a: int, b: int| 0 <= a < b < after.len() implies after[a].0 < after[b].0 by {
                if b < i {
                } else if a < i {
                    assert(after[b] == before[b + 1]);
                } else {
                    assert(after[a] == before[a + 1]);
                    assert(after[b] == before[b + 1]);
                }
            }
            assert forall|x: ObjectId| #![trigger after.contains(x)]
                after.contains(x) == (before.contains(x) && x != id) by {
                if after.contains(x) {
                    let k = choose|k: int| 0 <= k < after.len() && after[k] == x;
                    if k < i {
                        assert(before[k] == x);
                        assert(before[k].0 < before[i as int].0);
                    } else {
                        assert(before[k + 1] == x);
                        assert(before[i as int].0 < before[k + 1].0);
                    }
                }
                if before.contains(x) && x != id {
                    let k = choose|k: int| 0 <= k < before.len() && before[k] == x;
                    if k < i {
                        assert(after[k] == x);
                    } else {
                        assert(k != i);
                        assert(after[k - 1] == x);
                    }
                }
            }
        }
        self.objects = objects;
    }

    /// Shift-click: in the selection it comes out, otherwise it goes in.
    pub fn toggle(&mut self, id: ObjectId)
        ensures
            forall|x: ObjectId|
                #![trigger final(self)@.objects.contains(x)]
                final(self)@.objects.contains(x) == (if x == id {
                    !old(self)@.objects.contains(x)
                } else {
                    old(self)@.objects.contains(x)
                }),
            final(self)@.active_layer == old(self)@.active_layer,
    {
        if self.contains(id) {
            self.remove(id);
        } else {
            self.add(id);
        }
    }

    /// Select exactly these objects, whatever order they come in.
    pub fn set(&mut self, ids: &[ObjectId])
        ensures
            forall|x: ObjectId|
                #![trigger final(self)@.objects.contains(x)]
                final(self)@.objects.contains(x) == ids@.contains(x),
            final(self)@.active_layer == old(self)@.active_layer,
    {
        self.objects = Vec::new();
        assert(self@.objects =~= Seq::<ObjectId>::empty());
        self.extend(ids);
    }

    /// Add these objects to the selection.
    pub fn extend(&mut self, ids: &[ObjectId])
        ensures
            forall|x: ObjectId|
                #![trigger final(self)@.objects.contains(x)]
                final(self)@.objects.contains(x) == (old(self)@.objects.contains(x)
                    || ids@.contains(x)),
            final(self)@.active_layer == old(self)@.active_layer,
    {
        let ghost start = self@.objects;
        let mut i: usize = 0;
        while i < ids.len()
            invariant
                i <= ids@.len(),
                self@.active_layer == old(self)@.active_layer,
                start == old(self)@.objects,
                forall|x: ObjectId|
                    #![trigger self@.objects.contains(x)]
                    self@.objects.contains(x) == (start.contains(x) || ids@.take(
                        i as int,
                    ).contains(x)),
            decreases ids.len() - i,
        {
            let ghost prefix = ids@.take(i as int);
            self.add(ids[i]);
            proof {
                let next = ids@.take(i + 1);
                assert(next =~= prefix.push(ids@[i as int]));
                assert forall|x: ObjectId| #![trigger self@.objects.contains(x)]
                    self@.objects.contains(x) == (start.contains(x) || next.contains(x)) by {
                    if next.contains(x) && x != ids@[i as int] {
                        let k = choose|k: int| 0 <= k < next.len() && next[k] == x;
                        assert(prefix[k] == x);
                    }
                    if prefix.contains(x) {
                        let k = choose|k: int| 0 <= k < prefix.len() && prefix[k] == x;
                        assert(next[k] == x);
                    }
                    if x == ids@[i as int] {
                        assert(next[i as int] == x);
                    }
                }
            }
            i = i + 1;
        }
        assert(ids@.take(ids@.len() as int) =~= ids@);
    }

    pub fn active_layer(&self) -> (r: Option<LayerId>)
        ensures
            r == self@.active_layer,
    {
        self.active_layer
    }

    pub fn set_active_layer(&mut self, layer: Option<LayerId>)
        ensures
            final(self)@.objects == old(self)@.objects,
            final(self)@.active_layer == layer,
    {
        proof {
            use_type_invariant(&*self);
        }
        self.active_layer = layer;
    }

    /// Keep the selected objects that `keep` says are wanted.
    fn keep_where(&mut self, wanted: &[ObjectId])
        ensures
            forall|x: ObjectId|
                #![trigger final(self)@.objects.contains(x)]
                final(self)@.objects.contains(x) == (old(self)@.objects.contains(x)
                    && wanted@.contains(x)),
            final(self)@.active_layer == old(self)@.active_layer,
    {
        proof {
            use_type_invariant(&*self);
        }
        let n = self.objects.len();
        let mut kept: Vec<ObjectId> = Vec::new();
        let mut i: usize = 0;
        while i < n
            invariant
                n == self.objects@.len(),
                i <= n,
                increasing(self.objects@),
                increasing(kept@),
                forall|k: int, j: int|
                    0 <= k < kept@.len() && i <= j < n ==> kept@[k].0 < self.objects@[j].0,
                forall|x: ObjectId|
                    #![trigger kept@.contains(x)]
                    kept@.contains(x) == (self.objects@.take(i as int).contains(x)
                        && wanted@.contains(x)),
            decreases n - i,
        {
            let x = self.objects[i];
            let ghost prefix = self.objects@.take(i as int);
            let ghost before = kept@;
            let wanted_here = slice_contains(wanted, x);
            if wanted_here {
                kept.push(x);
            }
            proof {
                let next = self.objects@.take(i + 1);
                assert(next =~= prefix.push(x));
                assert forall|y: ObjectId| #![trigger kept@.contains(y)]
                    kept@.contains(y) == (next.contains(y) && wanted@.contains(y)) by {
                    if next.contains(y) && y != x {
                        let k = choose|k: int| 0 <= k < next.len() && next[k] == y;
                        assert(prefix[k] == y);
                    }
                    if prefix.contains(y) {
                        let k = choose|k: int| 0 <= k < prefix.len() && prefix[k] == y;
                        assert(next[k] == y);
                    }
                    if y == x {
                        assert(next[i as int] == y);
                    }
                    if wanted_here && kept@.contains(y) && y != x {
                        let k = choose|k: int| 0 <= k < kept@.len() && kept@[k] == y;
                        assert(before[k] == y);
                    }
                    if wanted_here && before.contains(y) {
                        let k = choose|k: int| 0 <= k < before.len() && before[k] == y;
                        assert(kept@[k] == y);
                    }
                    if wanted_here && y == x {
                        assert(kept@[before.len() as int] == y);
                    }
                }
                if wanted_here {
                    assert forall|a: int, b: int| 0 <= a < b < kept@.len() implies kept@[a].0
                        < kept@[b].0 by {
                        if b == before.len() {
                            assert(before[a].0 < self.objects@[i as int].0);
                        }
                    }
                }
                assert forall|k: int, j: int|
                    0 <= k < kept@.len() && i + 1 <= j < n implies kept@[k].0
                    < self.objects@[j].0 by {
                    if k < before.len() {
                    } else {
                        assert(self.objects@[i as int].0 < self.objects@[j].0);
                    }
                }
            }
            i = i + 1;
        }
        assert(self.objects@.take(n as int) =~= self.objects@);
        self.objects = kept;
    }

    /// Drop anything no longer in the document, and repair an active layer
    /// that has gone by falling back to the first layer there is.
    ///
    /// `present` is every object the document still has; `layers` every
    /// layer, top to bottom.
    pub fn prune(&mut self, present: &[ObjectId], layers: &[LayerId])
        ensures
            forall|x: ObjectId|
                #![trigger final(self)@.objects.contains(x)]
                final(self)@.objects.contains(x) == (old(self)@.objects.contains(x)
                    && present@.contains(x)),
            final(self)@.active_layer == (match old(self)@.active_layer {
                Some(layer) => if layers@.contains(layer) {
                    Some(layer)
                } else if layers@.len() > 0 {
                    Some(layers@[0])
                } else {
                    None
                },
                None => None,
            }),
    {
        self.keep_where(present);
        proof {
            use_type_invariant(&*self);
        }
        if let Some(layer) = self.active_layer {
            if !layer_listed(layers, layer) {
                self.active_layer = if layers.len() > 0 {
                    Some(layers[0])
                } else {
                    None
                };
            }
        }
    }

    /// Keep only the objects a caller says are still on screen.
    pub fn retain<F: Fn(ObjectId) -> bool>(&mut self, keep: F)
        requires
            forall|x: ObjectId| call_requires(keep, (x,)),
        ensures
            forall|x: ObjectId|
                #![trigger final(self)@.objects.contains(x)]
                final(self)@.objects.contains(x) ==> old(self)@.objects.contains(x) && call_ensures(
                    keep,
                    (x,),
                    true,
                ),
            forall|x: ObjectId|
                #![trigger old(self)@.objects.contains(x)]
                old(self)@.objects.contains(x) && !final(self)@.objects.contains(x)
                    ==> call_ensures(keep, (x,), false),
            final(self)@.active_layer == old(self)@.active_layer,
    {
        let mut wanted: Vec<ObjectId> = Vec::new();
        let n = self.objects.len();
        let mut i: usize = 0;
        while i < n
            invariant
                n == self.objects@.len(),
                i <= n,
                forall|x: ObjectId| call_requires(keep, (x,)),
                forall|k: int|
                    0 <= k < wanted@.len() ==> call_ensures(keep, (#[trigger] wanted@[k],), true),
                forall|k: int|
                    0 <= k < i ==> (wanted@.contains(#[trigger] self.objects@[k]) || call_ensures(
                        keep,
                        (self.objects@[k],),
                        false,
                    )),
            decreases n - i,
        {
            let x = self.objects[i];
            let ghost before = wanted@;
            if keep(x) {
                wanted.push(x);
                assert(wanted@[before.len() as int] == x);
            }
            assert forall|k: int| 0 <= k < i + 1 implies (wanted@.contains(
                #[trigger] self.objects@[k],
            ) || call_ensures(keep, (self.objects@[k],), false)) by {
                if k < i && before.contains(self.objects@[k]) {
                    let j = choose|j: int| 0 <= j < before.len() && before[j] == self.objects@[k];
                    assert(wanted@[j] == self.objects@[k]);
                }
            }
            i = i + 1;
        }
        let ghost old_objects = self@.objects;
        self.keep_where(&wanted);
        assert forall|x: ObjectId| #![trigger old_objects.contains(x)]
            old_objects.contains(x) && !self@.objects.contains(x) implies call_ensures(
            keep,
            (x,),
            false,
        ) by {
            let k = choose|k: int| 0 <= k < n && old_objects[k] == x;
            assert(old_objects[k] == self.objects@[k] || true);
        }
        assert forall|x: ObjectId| #![trigger self@.objects.contains(x)]
            self@.objects.contains(x) implies old_objects.contains(x) && call_ensures(
            keep,
            (x,),
            true,
        ) by {
            let k = choose|k: int| 0 <= k < wanted@.len() && wanted@[k] == x;
        }
    }

    /// Drop anything not on screen at the current frame: `visible` is every
    /// object the layers show there.
    pub fn prune_to_frame(&mut self, visible: &[ObjectId])
        ensures
            forall|x: ObjectId|
                #![trigger final(self)@.objects.contains(x)]
                final(self)@.objects.contains(x) == (old(self)@.objects.contains(x)
                    && visible@.contains(x)),
            final(self)@.active_layer == old(self)@.active_layer,
    {
        self.keep_where(visible);
    }

    /// Ensure there is an active layer, choosing a sensible one if not: the
    /// topmost that can actually hold artwork, since locked and hidden layers
    /// cannot be drawn on.
    pub fn ensure_active_layer(&mut self, layers: &[LayerStatus]) -> (r: Option<LayerId>)
        ensures
            r == chosen_layer(old(self)@.active_layer, layers@),
            final(self)@.active_layer == r,
            final(self)@.objects == old(self)@.objects,
    {
        proof {
            use_type_invariant(&*self);
        }
        if let Some(current) = self.active_layer {
            if layer_usable(layers, current) {
                return Some(current);
            }
        }
        let first = first_usable_layer(layers);
        self.active_layer = match first {
            Some(id) => Some(id),
            None => if layers.len() > 0 {
                Some(layers[0].id)
            } else {
                None
            },
        };
        self.active_layer
    }

    /// Make `layer` the active one **and select what is on it**.
    ///
    /// `contents` is what the layer shows at the current frame when it is a
    /// layer whose artwork can be had — editable, visible and unlocked through
    /// its folders — and `None` when it is not. Locked and hidden objects are
    /// skipped.
    pub fn select_layer(&mut self, layer: LayerId, contents: Option<&[LayerObject]>)
        ensures
            final(self)@.active_layer == Some(layer),
            forall|x: ObjectId|
                #![trigger final(self)@.objects.contains(x)]
                final(self)@.objects.contains(x) == (match contents {
                    Some(c) => pickable(c@, x),
                    None => false,
                }),
    {
        proof {
            use_type_invariant(&*self);
        }
        self.active_layer = Some(layer);
        self.objects = Vec::new();
        assert(self@.objects =~= Seq::<ObjectId>::empty());
        let target = match contents {
            Some(c) => c,
            None => {
                return ;
            },
        };
        let mut i: usize = 0;
        while i < target.len()
            invariant
                i <= target@.len(),
                self@.active_layer == Some(layer),
                forall|x: ObjectId|
                    #![trigger self@.objects.contains(x)]
                    self@.objects.contains(x) == pickable(target@.take(i as int), x),
            decreases target.len() - i,
        {
            let object = target[i];
            let ghost prefix = target@.take(i as int);
            let ghost next = target@.take(i + 1);
            if object.visible && !object.locked {
                self.add(object.id);
            }
            proof {
                assert(next =~= prefix.push(object));
                assert forall|x: ObjectId| #![trigger self@.objects.contains(x)]
                    self@.objects.contains(x) == pickable(next, x) by {
                    if pickable(prefix, x) {
                        let k = choose|k: int|
                            0 <= k < prefix.len() && #[trigger] prefix[k].id == x && prefix[k].visible
                                && !prefix[k].locked;
                        assert(next[k] == prefix[k]);
                    }
                    if pickable(next, x) {
                        let k = choose|k: int|
                            0 <= k < next.len() && #[trigger] next[k].id == x && next[k].visible
                                && !next[k].locked;
                        if k < i {
                            assert(prefix[k] == next[k]);
                        }
                    }
                    if object.visible && !object.locked && x == object.id {
                        assert(next[i as int] == object);
                    }
                }
            }
            i = i + 1;
        }
        assert(target@.take(target@.len() as int) =~= target@);
    }

    /// Select what is on the active layer, if there is one.
    pub fn select_active_layer_contents(&mut self, contents: Option<&[LayerObject]>)
        ensures
            old(self)@.active_layer is None ==> final(self)@ == old(self)@,
            old(self)@.active_layer is Some ==> final(self)@.active_layer == old(self)@.active_layer
                && forall|x: ObjectId|
                #![trigger final(self)@.objects.contains(x)]
                final(self)@.objects.contains(x) == (match contents {
                    Some(c) => pickable(c@, x),
                    None => false,
                }),
    {
        if let Some(layer) = self.active_layer {
            self.select_layer(layer, contents);
        }
    }

    /// Description for the Properties panel header. `single` describes the
    /// selected object, and is read only when exactly one is selected.
    pub fn describe(&self, single: &ObjectSummary) -> (r: String)
        ensures
            r@ == describe_spec(self@.objects.len(), *single),
    {
        let count = self.objects.len();
        if count == 0 {
            return String::from_str("Document");
        }
        if count > 1 {
            let mut v = decimal_chars(count as u64);
            push_str(&mut v, " objects selected");
            return string_from(&v);
        }
        match single {
            ObjectSummary::Shape => String::from_str("Shape"),
            ObjectSummary::Group(n) => {
                let mut v = chars_of("Group (");
                let mut digits = decimal_chars(*n as u64);
                v.append(&mut digits);
                push_str(&mut v, " items)");
                string_from(&v)
            },
            ObjectSummary::Instance { kind, name } => {
                let mut v = chars_of(kind.as_str());
                push_str(&mut v, " \u{2014} ");
                push_str(&mut v, name.as_str());
                string_from(&v)
            },
            ObjectSummary::MissingSymbol => String::from_str("Missing Symbol"),
            ObjectSummary::Armature(n) => {
                let mut v = chars_of("Armature (");
                let mut digits = decimal_chars(*n as u64);
                v.append(&mut digits);
                push_str(&mut v, " bones)");
                string_from(&v)
            },
            ObjectSummary::Warp(n) => {
                let mut v = chars_of("Warp (");
                let mut digits = decimal_chars(*n as u64);
                v.append(&mut digits);
                push_str(&mut v, " handles)");
                string_from(&v)
            },
        }
    }
}

fn slice_contains(items: &[ObjectId], id: ObjectId) -> (r: bool)
    ensures
        r == items@.contains(id),
{
    let mut i: usize = 0;
    while i < items.len()
        invariant
            i <= items@.len(),
            forall|k: int| 0 <= k < i ==> items@[k] != id,
        decreases items.len() - i,
    {
        if items[i].0 == id.0 {
            assert(items@[i as int] == id);
            return true;
        }
        i = i + 1;
    }
    false
}

fn layer_listed(layers: &[LayerId], id: LayerId) -> (r: bool)
    ensures
        r == layers@.contains(id),
{
    let mut i: usize = 0;
    while i < layers.len()
        invariant
            i <= layers@.len(),
            forall|k: int| 0 <= k < i ==> layers@[k] != id,
        decreases layers.len() - i,
    {
        if layers[i].0 == id.0 {
            assert(layers@[i as int] == id);
            return true;
        }
        i = i + 1;
    }
    false
}

fn layer_usable(layers: &[LayerStatus], id: LayerId) -> (r: bool)
    ensures
        r == usable_in(layers@, id),
{
    let mut i: usize = 0;
    while i < layers.len()
        invariant
            i <= layers@.len(),
            forall|k: int| 0 <= k < i ==> !(#[trigger] layers@[k].id == id && layers@[k].usable),
        decreases layers.len() - i,
    {
        if layers[i].id.0 == id.0 && layers[i].usable {
            assert(layers@[i as int].id == id);
            return true;
        }
        i = i + 1;
    }
    false
}

fn first_usable_layer(layers: &[LayerStatus]) -> (r: Option<LayerId>)
    ensures
        r == first_usable(layers@),
{
    let n = layers.len();
    let mut i: usize = 0;
    assert(layers@.subrange(0, n as int) =~= layers@);
    while i < n
        invariant
            n == layers@.len(),
            i <= n,
            first_usable(layers@) == first_usable(layers@.subrange(i as int, n as int)),
        decreases n - i,
    {
        let ghost rest = layers@.subrange(i as int, n as int);
        assert(rest[0] == layers@[i as int]);
        if layers[i].usable {
            return Some(layers[i].id);
        }
        assert(rest.drop_first() =~= layers@.subrange(i + 1, n as int));
        i = i + 1;
    }
    None
}

/// The topmost usable layer is one artwork can go on, and there is one
/// whenever any layer is usable.
proof fn lemma_first_usable(layers: Seq<LayerStatus>)
    ensures
        first_usable(layers) matches Some(l) ==> usable_in(layers, l),
        (exists|i: int| 0 <= i < layers.len() && #[trigger] layers[i].usable) ==> first_usable(
            layers,
        ) is Some,
    decreases layers.len(),
{
    if layers.len() > 0 {
        let rest = layers.drop_first();
        lemma_first_usable(rest);
        if !layers[0].usable {
            if let Some(l) = first_usable(rest) {
                let j = choose|j: int| 0 <= j < rest.len() && #[trigger] rest[j].id == l && rest[j].usable;
                assert(layers[j + 1] == rest[j]);
            }
            if exists|i: int| 0 <= i < layers.len() && #[trigger] layers[i].usable {
                let i = choose|i: int| 0 <= i < layers.len() && #[trigger] layers[i].usable;
                assert(rest[i - 1] == layers[i]);
            }
        } else {
            assert(layers[0].id == layers[0].id);
        }
    }
}

/// **A layer artwork can go on stays active**: when the current active layer
/// is usable, choosing a layer keeps it, wherever it sits in the stack and
/// whatever layers are usable above it.
pub proof fn a_usable_active_layer_is_kept(current: LayerId, layers: Seq<LayerStatus>)
    requires
        usable_in(layers, current),
    ensures
        chosen_layer(Some(current), layers) == Some(current),
{
}

/// **The layer chosen can be drawn on whenever any can**: if some layer is
/// usable, the layer settled on is a usable one, whatever was active before;
/// and a layer is chosen whenever there is any layer at all.
pub proof fn the_chosen_layer_is_usable_when_any_is(current: Option<LayerId>, layers: Seq<LayerStatus>)
    ensures
        (exists|i: int| 0 <= i < layers.len() && #[trigger] layers[i].usable) ==> (chosen_layer(
            current,
            layers,
        ) matches Some(l) && usable_in(layers, l)),
        layers.len() > 0 ==> chosen_layer(current, layers) is Some,
{
    lemma_first_usable(layers);
}

/// The topmost usable layer: usable, with nothing usable above it.
proof fn lemma_first_usable_is_topmost(layers: Seq<LayerStatus>, i: int)
    requires
        0 <= i < layers.len(),
        layers[i].usable,
        forall|j: int| 0 <= j < i ==> !(#[trigger] layers[j]).usable,
    ensures
        first_usable(layers) == Some(layers[i].id),
    decreases i,
{
    if i > 0 {
        let rest = layers.drop_first();
        assert(!layers[0].usable);
        assert forall|j: int| 0 <= j < i - 1 implies !(#[trigger] rest[j]).usable by {
            assert(rest[j] == layers[j + 1]);
        }
        lemma_first_usable_is_topmost(rest, i - 1);
    }
}

/// **Without a usable active layer, the topmost usable one is chosen**:
/// when the current layer cannot take artwork, the layer settled on is the
/// first usable one from the top, passing over locked and hidden layers.
pub proof fn an_unusable_active_layer_gives_way_to_the_topmost_usable(
    current: Option<LayerId>,
    layers: Seq<LayerStatus>,
    i: int,
)
    requires
        current matches Some(l) ==> !usable_in(layers, l),
        0 <= i < layers.len(),
        layers[i].usable,
        forall|j: int| 0 <= j < i ==> !(#[trigger] layers[j]).usable,
    ensures
        chosen_layer(current, layers) == Some(layers[i].id),
{
    lemma_first_usable_is_topmost(layers, i);
}

} // verus!

//! Stacking order of the layers of the surface tree.
//!
//! The placement of a subsurface is double-buffered with its parent, so a new
//! order takes effect only with the [`Effect::CommitParent`] that follows it.
pub mod sink;

use vstd::prelude::*;

verus! {

/// Opaque identity of a layer.
#[derive(Clone, Copy, Debug, PartialEq, Eq, PartialOrd, Ord, Hash, Structural)]
pub struct LayerId(pub usize);

/// What a layer is placed directly above.
#[derive(Clone, Copy, Debug, PartialEq, Eq, Structural)]
pub enum Above {
    Parent,
    Layer(LayerId),
}

/// The wanted order of the layers, bottom first, and the order last sent.
#[derive(Debug)]
pub struct Scene {
    order: Vec<LayerId>,
    applied: Vec<LayerId>,
}

/// A change of the layers.
#[derive(Debug)]
pub enum SceneEvent {
    LayerAdded(LayerId),
    LayerRemoved(LayerId),
    Restack(Vec<LayerId>),
}

/// What the surface tree is told.
#[derive(Clone, Copy, Debug, PartialEq, Eq, Structural)]
pub enum Effect {
    PlaceAbove { layer: LayerId, above: Above },
    CommitParent,
}

impl Default for Scene {
    fn default() -> (r: Self)
        ensures
            r.order() == Seq::<LayerId>::empty(),
            r.settled(),
    {
        Scene { order: Vec::new(), applied: Vec::new() }
    }
}

/// The members of `list` that occur in `known`, in the order of `list`.
pub open spec fn known_of(list: Seq<LayerId>, known: Seq<LayerId>) -> Seq<LayerId> {
    list.filter(|l: LayerId| known.contains(l))
}

/// The order after an event.
pub open spec fn next_order(order: Seq<LayerId>, ev: SceneEvent) -> Seq<LayerId> {
    match ev {
        SceneEvent::LayerAdded(id) => if order.contains(id) {
            order
        } else {
            order.push(id)
        },
        SceneEvent::LayerRemoved(id) => order.filter(|l: LayerId| l != id),
        SceneEvent::Restack(list) => known_of(list@, order),
    }
}

/// Each layer above its predecessor, the first above the parent.
pub open spec fn placements(order: Seq<LayerId>) -> Seq<Effect> {
    Seq::new(
        order.len(),
        |i: int|
            Effect::PlaceAbove {
                layer: order[i],
                above: if i == 0 {
                    Above::Parent
                } else {
                    Above::Layer(order[i - 1])
                },
            },
    )
}

/// What is sent to get from one order to another: nothing where they are the
/// same, else all placements and one commit.
pub open spec fn restacked(from: Seq<LayerId>, to: Seq<LayerId>) -> Seq<Effect> {
    if from == to {
        Seq::empty()
    } else {
        placements(to).push(Effect::CommitParent)
    }
}

fn same_order(a: &Vec<LayerId>, b: &Vec<LayerId>) -> (r: bool)
    ensures
        r == (a@ == b@),
{
    if a.len() != b.len() {
        return false;
    }
    for i in 0..a.len()
        invariant
            a.len() == b.len(),
            forall|j: int| 0 <= j < i ==> a@[j] == b@[j],
    {
        if a[i] != b[i] {
            return false;
        }
    }
    assert(a@ =~= b@);
    true
}

/// The members of `list` that `scene` holds.
fn sifted(list: &Vec<LayerId>, scene: &Scene) -> (r: Vec<LayerId>)
    ensures
        r@ == known_of(list@, scene.order()),
{
    let mut out: Vec<LayerId> = Vec::new();
    for i in 0..list.len()
        invariant
            out@ == known_of(list@.take(i as int), scene.order()),
    {
        proof {
            assert(list@.take(i + 1).drop_last() =~= list@.take(i as int));
            reveal(Seq::filter);
        }
        if scene.has(list[i]) {
            out.push(list[i]);
        }
    }
    assert(list@.take(list@.len() as int) =~= list@);
    out
}

impl Scene {
    /// The wanted order, bottom first.
    pub closed spec fn order(&self) -> Seq<LayerId> {
        self.order@
    }

    /// Whether the surface tree was told the wanted order.
    pub open spec fn settled(&self) -> bool {
        self.applied() == self.order()
    }

    /// The order last sent.
    pub closed spec fn applied(&self) -> Seq<LayerId> {
        self.applied@
    }

    fn has(&self, id: LayerId) -> (r: bool)
        ensures
            r == self.order().contains(id),
    {
        for i in 0..self.order.len()
            invariant
                forall|j: int| 0 <= j < i ==> self.order@[j] != id,
        {
            if self.order[i] == id {
                assert(self.order@[i as int] == id);
                return true;
            }
        }
        false
    }

    fn without(&self, id: LayerId) -> (r: Vec<LayerId>)
        ensures
            r@ == self.order().filter(|l: LayerId| l != id),
    {
        let mut out: Vec<LayerId> = Vec::new();
        for i in 0..self.order.len()
            invariant
                out@ == self.order@.take(i as int).filter(|l: LayerId| l != id),
        {
            proof {
                assert(self.order@.take(i + 1).drop_last() =~= self.order@.take(i as int));
                reveal(Seq::filter);
            }
            if self.order[i] != id {
                out.push(self.order[i]);
            }
        }
        assert(self.order@.take(self.order@.len() as int) =~= self.order@);
        out
    }

    fn restack_effects(&mut self) -> (r: Vec<Effect>)
        ensures
            r@ == restacked(old(self).applied(), old(self).order()),
            final(self).order() == old(self).order(),
            final(self).settled(),
    {
        if same_order(&self.order, &self.applied) {
            return Vec::new();
        }
        let mut out: Vec<Effect> = Vec::new();
        let mut sent: Vec<LayerId> = Vec::new();
        for i in 0..self.order.len()
            invariant
                self.order@ == old(self).order@,
                out@ == placements(self.order@).take(i as int),
                sent@ == self.order@.take(i as int),
        {
            let id = self.order[i];
            let above = if i == 0 {
                Above::Parent
            } else {
                Above::Layer(self.order[i - 1])
            };
            out.push(Effect::PlaceAbove { layer: id, above });
            sent.push(id);
            assert(placements(self.order@).take(i + 1) =~= placements(self.order@).take(
                i as int,
            ).push(placements(self.order@)[i as int]));
            assert(self.order@.take(i + 1) =~= self.order@.take(i as int).push(id));
        }
        assert(placements(self.order@).take(self.order@.len() as int) =~= placements(self.order@));
        assert(self.order@.take(self.order@.len() as int) =~= self.order@);
        out.push(Effect::CommitParent);
        self.applied = sent;
        out
    }
}

/// Takes an event in and gives what the surface tree is to be told.
pub fn reduce(scene: &mut Scene, ev: SceneEvent) -> (r: Vec<Effect>)
    ensures
        final(scene).order() == next_order(old(scene).order(), ev),
        final(scene).settled(),
        r@ == restacked(old(scene).applied(), next_order(old(scene).order(), ev)),
{
    match ev {
        SceneEvent::LayerAdded(id) => {
            if !scene.has(id) {
                scene.order.push(id);
            }
        },
        SceneEvent::LayerRemoved(id) => {
            scene.order = scene.without(id);
        },
        SceneEvent::Restack(list) => {
            scene.order = sifted(&list, scene);
        },
    }
    scene.restack_effects()
}

/// A change of the order ends in the one commit that makes it take effect,
/// and holds no other.
pub proof fn law_change_ends_in_one_commit(order: Seq<LayerId>, ev: SceneEvent)
    requires
        next_order(order, ev) != order,
    ensures
        ({
            let effects = restacked(order, next_order(order, ev));
            &&& effects.len() == next_order(order, ev).len() + 1
            &&& effects.last() == Effect::CommitParent
            &&& forall|i: int|
                0 <= i < effects.len() - 1 ==> #[trigger] effects[i] != Effect::CommitParent
        }),
{
}

/// An event that leaves the order as it is sends nothing.
pub proof fn law_unchanged_order_is_silent(order: Seq<LayerId>, ev: SceneEvent)
    requires
        next_order(order, ev) == order,
    ensures
        restacked(order, next_order(order, ev)) == Seq::<Effect>::empty(),
{
}

/// Adding a layer twice is adding it once.
pub proof fn law_adding_is_idempotent(order: Seq<LayerId>, id: LayerId)
    ensures
        next_order(next_order(order, SceneEvent::LayerAdded(id)), SceneEvent::LayerAdded(id))
            == next_order(order, SceneEvent::LayerAdded(id)),
{
    let once = next_order(order, SceneEvent::LayerAdded(id));
    if !order.contains(id) {
        assert(once[once.len() - 1] == id);
    }
}

/// A removed layer is gone, and all others stay.
pub proof fn law_removal_is_exact(order: Seq<LayerId>, id: LayerId, other: LayerId)
    ensures
        next_order(order, SceneEvent::LayerRemoved(id)).contains(other) == (other != id
            && order.contains(other)),
{
    let keep = |l: LayerId| l != id;
    let after = order.filter(keep);
    if after.contains(other) {
        order.lemma_filter_contains_rev(keep, other);
        let j = choose|j: int| 0 <= j < after.len() && after[j] == other;
        order.lemma_filter_pred(keep, j);
    }
    if other != id && order.contains(other) {
        let i = choose|i: int| 0 <= i < order.len() && order[i] == other;
        order.lemma_filter_contains(keep, i);
    }
}

/// A restack brings in no layer that was not there.
pub proof fn law_restack_adds_nothing(order: Seq<LayerId>, list: Seq<LayerId>, id: LayerId)
    requires
        known_of(list, order).contains(id),
    ensures
        order.contains(id),
        list.contains(id),
{
    let keep = |l: LayerId| order.contains(l);
    let after = list.filter(keep);
    let j = choose|j: int| 0 <= j < after.len() && after[j] == id;
    list.lemma_filter_pred(keep, j);
    list.lemma_filter_contains_rev(keep, id);
}

} // verus!

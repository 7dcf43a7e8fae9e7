//! What composition guarantees, stated over the contracts of `compose` and
//! the queries of `SceneWorld`.
use vstd::prelude::*;
use crate::body::{BodySpec, body_colliders, children_colliders, own_collider, spec_ok};
use crate::geometry::identity_transform;
use crate::world::{BodyHandle, SceneWorld, all_ok, built_from, composed};

verus! {

/// Composition returns one handle per description, in input order: the
/// handles name fresh bodies in increasing order, and the i-th one names the
/// body built from the i-th description.
pub proof fn compose_keeps_order(
    before: SceneWorld,
    specs: Seq<BodySpec>,
    after: SceneWorld,
    handles: Seq<BodyHandle>,
)
    requires
        composed(before, specs, after, handles),
    ensures
        handles.len() == specs.len(),
        forall|i: int, j: int|
            0 <= i < j < handles.len() ==> (#[trigger] handles[i]).index < (
            #[trigger] handles[j]).index,
        forall|i: int|
            0 <= i < handles.len() ==> {
                &&& after.live(#[trigger] handles[i])
                &&& built_from(after.bodies[handles[i].index as int], specs[i])
            },
{
    assert forall|i: int, j: int| 0 <= i < j < handles.len() implies (
    #[trigger] handles[i]).index < (#[trigger] handles[j]).index by {
        assert(handles[i].index == before.bodies.len() + i);
        assert(handles[j].index == before.bodies.len() + j);
    }
}

/// A description whose children are all plain colliders.
pub open spec fn has_leaf_children(s: BodySpec) -> bool {
    forall|j: int|
        0 <= j < s.children.len() ==> (#[trigger] s.children[j]).shape is Some
            && s.children[j].children.len() == 0
}

proof fn lemma_leaf_children_count(s: BodySpec, i: int)
    requires
        has_leaf_children(s),
        0 <= i <= s.children.len(),
    ensures
        children_colliders(s, i).len() == s.children.len() - i,
    decreases s.children.len() - i,
{
    if i < s.children.len() {
        lemma_leaf_children_count(s, i + 1);
        let c = s.children[i];
        assert(children_colliders(c, 0).len() == 0);
    }
}

/// Children share their parent's body: composing one description with K
/// plain children adds exactly one rigid body, which carries K colliders,
/// plus one more when the description has a shape of its own.
pub proof fn children_share_parent_body(
    before: SceneWorld,
    s: BodySpec,
    after: SceneWorld,
    handles: Seq<BodyHandle>,
)
    requires
        composed(before, seq![s], after, handles),
        has_leaf_children(s),
    ensures
        after.bodies.len() == before.bodies.len() + 1,
        handles.len() == 1,
        after.bodies[handles[0].index as int].colliders@.len() == s.children.len() + if s.shape
            is Some {
            1int
        } else {
            0int
        },
{
    lemma_leaf_children_count(s, 0);
    assert(seq![s][0] == s);
    assert(built_from(after.bodies[before.bodies.len() as int], s));
    assert(own_collider(s, identity_transform(), None).len() == if s.shape is Some {
        1int
    } else {
        0int
    });
    assert(body_colliders(s).len() == s.children.len() + if s.shape is Some {
        1int
    } else {
        0int
    });
}

/// A mass override is exact: the mass recorded for the body, which
/// `body_mass` returns, is the override, whatever shapes the body carries.
pub proof fn mass_override_is_exact(
    before: SceneWorld,
    specs: Seq<BodySpec>,
    after: SceneWorld,
    handles: Seq<BodyHandle>,
    i: int,
    m: u64,
)
    requires
        composed(before, specs, after, handles),
        0 <= i < specs.len(),
        specs[i].mass_override == Some(m),
    ensures
        after.live(handles[i]),
        after.mass_of(handles[i]) == Some(m),
{
}

/// An empty input composes: nothing is rejected, no handle is returned and
/// the world is unchanged.
pub proof fn empty_input_is_valid(before: SceneWorld, after: SceneWorld, handles: Seq<BodyHandle>)
    requires
        before.wf(),
        composed(before, Seq::empty(), after, handles),
    ensures
        all_ok(Seq::<BodySpec>::empty()),
        handles.len() == 0,
        after.bodies@ == before.bodies@,
        after.states@ == before.states@,
{
    assert(after.bodies@ =~= before.bodies@);
    assert(after.states@ =~= before.states@);
}

/// A description with neither a shape nor children is rejected, so a
/// sequence that holds one does not compose (and `compose` then leaves the
/// world unchanged).
pub proof fn missing_collider_is_rejected(specs: Seq<BodySpec>, i: int)
    requires
        0 <= i < specs.len(),
        specs[i].shape is None,
        specs[i].children.len() == 0,
    ensures
        !spec_ok(specs[i]),
        !all_ok(specs),
{
}

} // verus!

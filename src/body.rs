//! Declarative body descriptions and the rules that make one usable.
use vstd::prelude::*;
use crate::geometry::{Shape, Transform, Vec3, shape_ok};

verus! {

/// Whether a rigid body is simulated or immovable.
#[derive(Clone, Copy, Debug, PartialEq, Eq, Structural)]
pub enum BodyKind {
    Static,
    Dynamic,
}

/// A body, or at depth one and below, an extra collider of the body above it.
///
/// At the top of a tree `local_transform` places the rigid body in the world
/// and the body's own `shape` sits at the body origin; below the top it places
/// the collider relative to the body origin. `kind`, `initial_force` and
/// `initial_torque` are read at the top only; `mass_override` sets the body's
/// mass at the top and the collider's mass below it.
#[derive(Debug)]
pub struct BodySpec {
    pub kind: BodyKind,
    pub shape: Option<Shape>,
    pub local_transform: Transform,
    pub mass_override: Option<u64>,
    pub restitution: Option<i64>,
    pub initial_force: Option<Vec3>,
    pub initial_torque: Option<Vec3>,
    pub children: Vec<BodySpec>,
}

/// One collider, as attached to a rigid body.
#[derive(Clone, Copy, Debug, PartialEq, Eq, Structural)]
pub struct ColliderRecord {
    pub shape: Shape,
    pub transform: Transform,
    pub mass: Option<u64>,
    pub restitution: Option<i64>,
}

/// The collider that a description contributes by itself, at `at`, with
/// `mass` of its own.
pub open spec fn own_collider(s: BodySpec, at: Transform, mass: Option<u64>) -> Seq<
    ColliderRecord,
> {
    match s.shape {
        Some(shape) => seq![
            ColliderRecord {
                shape,
                transform: at,
                mass,
                restitution: s.restitution,
            },
        ],
        None => Seq::empty(),
    }
}

/// The colliders of the children of `s` from index `i` on, each child's own
/// collider followed by those of its descendants, in order.
pub open spec fn children_colliders(s: BodySpec, i: int) -> Seq<ColliderRecord>
    decreases s, s.children.len() - i,
{
    if i < 0 || i >= s.children.len() {
        Seq::empty()
    } else {
        let c = s.children[i];
        own_collider(c, c.local_transform, c.mass_override) + children_colliders(c, 0) + children_colliders(
            s,
            i + 1,
        )
    }
}

/// All colliders of the rigid body that a top-level description makes: its
/// own shape at the body origin, then the whole tree below it.
pub open spec fn body_colliders(s: BodySpec) -> Seq<ColliderRecord> {
    own_collider(s, crate::geometry::identity_transform(), None) + children_colliders(s, 0)
}

/// A node on its own: it yields at least one collider, its shape has
/// positive dimensions, and its restitution is not negative.
pub open spec fn node_ok(s: BodySpec) -> bool {
    &&& (s.shape is Some || s.children.len() > 0)
    &&& (s.shape matches Some(sh) ==> shape_ok(sh))
    &&& (s.restitution matches Some(e) ==> e >= 0)
}

/// Every child of `s` from index `i` on, with its whole subtree, is usable.
pub open spec fn children_ok(s: BodySpec, i: int) -> bool
    decreases s, s.children.len() - i,
{
    if i < 0 || i >= s.children.len() {
        true
    } else {
        let c = s.children[i];
        node_ok(c) && children_ok(c, 0) && children_ok(s, i + 1)
    }
}

/// A top-level description that composes: the whole tree is usable, and a
/// static body carries no mass.
pub open spec fn spec_ok(s: BodySpec) -> bool {
    &&& node_ok(s)
    &&& children_ok(s, 0)
    &&& (s.kind == BodyKind::Static ==> s.mass_override is None)
}

/// A description together with everything below it is usable.
pub open spec fn subtree_ok(s: BodySpec) -> bool {
    node_ok(s) && children_ok(s, 0)
}

/// `children_ok` from index 0 splits into the subtrees before `i` and the rest.
pub proof fn lemma_children_ok_prefix(s: BodySpec, i: int)
    requires
        0 <= i <= s.children.len(),
    ensures
        children_ok(s, 0) == ((forall|j: int| 0 <= j < i ==> subtree_ok(#[trigger] s.children[j]))
            && children_ok(s, i)),
    decreases i,
{
    if i > 0 {
        lemma_children_ok_prefix(s, i - 1);
        assert(children_ok(s, i - 1) == (subtree_ok(s.children[i - 1]) && children_ok(s, i)));
    }
}

impl BodySpec {
    /// A description with a shape and no children: a plain collider.
    pub fn leaf(shape: Shape, local_transform: Transform, mass_override: Option<u64>) -> (r:
        BodySpec)
        ensures
            r.kind == BodyKind::Dynamic,
            r.shape == Some(shape),
            r.local_transform == local_transform,
            r.mass_override == mass_override,
            r.restitution is None,
            r.initial_force is None,
            r.initial_torque is None,
            r.children@.len() == 0,
    {
        BodySpec {
            kind: BodyKind::Dynamic,
            shape: Some(shape),
            local_transform,
            mass_override,
            restitution: None,
            initial_force: None,
            initial_torque: None,
            children: Vec::new(),
        }
    }

    fn node_is_ok(&self) -> (r: bool)
        ensures
            r == node_ok(*self),
    {
        let has_collider = self.shape.is_some() || self.children.len() > 0;
        let shape_fine = match &self.shape {
            Some(sh) => sh.is_valid(),
            None => true,
        };
        let restitution_fine = match self.restitution {
            Some(e) => e >= 0,
            None => true,
        };
        has_collider && shape_fine && restitution_fine
    }

    /// Whether this description and every description below it is usable.
    pub fn is_valid_tree(&self) -> (r: bool)
        ensures
            r == subtree_ok(*self),
        decreases self,
    {
        if !self.node_is_ok() {
            return false;
        }
        let mut i: usize = 0;
        while i < self.children.len()
            invariant
                0 <= i <= self.children@.len(),
                forall|j: int| 0 <= j < i ==> subtree_ok(#[trigger] self.children[j]),
            decreases self.children@.len() - i,
        {
            if !self.children[i].is_valid_tree() {
                proof {
                    lemma_children_ok_prefix(*self, i + 1);
                }
                return false;
            }
            i += 1;
        }
        proof {
            lemma_children_ok_prefix(*self, i as int);
        }
        true
    }

    /// Whether this description can be composed into a rigid body.
    pub fn is_composable(&self) -> (r: bool)
        ensures
            r == spec_ok(*self),
    {
        let mass_fine = match self.kind {
            BodyKind::Static => self.mass_override.is_none(),
            BodyKind::Dynamic => true,
        };
        mass_fine && self.is_valid_tree()
    }

    fn push_children_colliders(&self, out: &mut Vec<ColliderRecord>)
        ensures
            final(out)@ == old(out)@ + children_colliders(*self, 0),
        decreases self,
    {
        let ghost start = out@;
        let mut i: usize = 0;
        while i < self.children.len()
            invariant
                0 <= i <= self.children@.len(),
                out@ + children_colliders(*self, i as int) == start + children_colliders(*self, 0),
            decreases self.children@.len() - i,
        {
            let ghost before = out@;
            let c = &self.children[i];
            if let Some(sh) = c.shape {
                out.push(
                    ColliderRecord {
                        shape: sh,
                        transform: c.local_transform,
                        mass: c.mass_override,
                        restitution: c.restitution,
                    },
                );
            }
            assert(out@ =~= before + own_collider(*c, c.local_transform, c.mass_override));
            c.push_children_colliders(out);
            proof {
                let own = own_collider(*c, c.local_transform, c.mass_override);
                let rest = children_colliders(*self, i + 1);
                assert(children_colliders(*self, i as int) == own + children_colliders(*c, 0)
                    + rest);
                assert(out@ + rest =~= before + (own + children_colliders(*c, 0) + rest));
            }
            i += 1;
        }
        assert(out@ =~= start + children_colliders(*self, 0));
    }

    /// The colliders of the rigid body that this description makes.
    pub fn colliders(&self) -> (r: Vec<ColliderRecord>)
        ensures
            r@ == body_colliders(*self),
    {
        let mut out: Vec<ColliderRecord> = Vec::new();
        if let Some(sh) = self.shape {
            out.push(
                ColliderRecord {
                    shape: sh,
                    transform: Transform::identity(),
                    mass: None,
                    restitution: self.restitution,
                },
            );
        }
        assert(out@ =~= own_collider(*self, crate::geometry::identity_transform(), None));
        self.push_children_colliders(&mut out);
        out
    }
}

} // verus!

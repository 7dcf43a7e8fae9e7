//! The physics world graph that composition builds: one record per rigid
//! body with its colliders, and the per-frame state that the engine reports.
use vstd::prelude::*;
use crate::body::{BodyKind, BodySpec, ColliderRecord, body_colliders, spec_ok};
use crate::geometry::{Transform, Vec3};
use crate::mass::{MassMoment, mass_moment, moment_fits, moment_of};

verus! {

/// Names a rigid body of a `SceneWorld`; it stays valid until the body is
/// removed.
#[derive(Clone, Copy, Debug, PartialEq, Eq, Structural)]
pub struct BodyHandle {
    pub index: usize,
}

/// What composition fixed about one rigid body.
#[derive(Debug)]
pub struct BodyRecord {
    pub kind: BodyKind,
    pub mass: Option<u64>,
    /// The description's bounciness, kept on the body as well as on its
    /// own collider.
    pub restitution: Option<i64>,
    pub initial_force: Option<Vec3>,
    pub initial_torque: Option<Vec3>,
    pub colliders: Vec<ColliderRecord>,
}

/// What changes about one rigid body from step to step.
#[derive(Clone, Copy, Debug, PartialEq, Eq, Structural)]
pub struct BodyState {
    pub transform: Transform,
    pub alive: bool,
}

/// A top-level description could not be composed.
#[derive(Clone, Copy, Debug, PartialEq, Eq, Structural)]
pub struct ConfigurationError {
    /// Position of the first unusable description in the input.
    pub spec_index: usize,
}

/// A handle no longer names a live body.
#[derive(Clone, Copy, Debug, PartialEq, Eq, Structural)]
pub struct StaleHandleError {
    pub handle: BodyHandle,
}

/// The world graph: `bodies[i]` and `states[i]` describe the body of handle `i`.
#[derive(Debug)]
pub struct SceneWorld {
    pub bodies: Vec<BodyRecord>,
    pub states: Vec<BodyState>,
}

/// `b` is the rigid body that the top-level description `s` makes.
pub open spec fn built_from(b: BodyRecord, s: BodySpec) -> bool {
    &&& b.kind == s.kind
    &&& b.mass == s.mass_override
    &&& b.restitution == s.restitution
    &&& b.initial_force == s.initial_force
    &&& b.initial_torque == s.initial_torque
    &&& b.colliders@ == body_colliders(s)
}

/// `after` (bodies and states) is `before` with one new live body per
/// description, in input order, and `handles[i]` names the body of `specs[i]`.
pub open spec fn composed(
    before: SceneWorld,
    specs: Seq<BodySpec>,
    after: SceneWorld,
    handles: Seq<BodyHandle>,
) -> bool {
    let n = before.bodies.len();
    &&& handles.len() == specs.len()
    &&& after.bodies.len() == n + specs.len()
    &&& after.states.len() == n + specs.len()
    &&& forall|i: int| 0 <= i < n ==> after.bodies[i] == #[trigger] before.bodies[i]
    &&& forall|i: int| 0 <= i < n ==> after.states[i] == #[trigger] before.states[i]
    &&& forall|i: int|
        0 <= i < specs.len() ==> {
            &&& (#[trigger] handles[i]).index == n + i
            &&& built_from(after.bodies[n + i], specs[i])
            &&& after.states[n + i] == (BodyState {
                transform: specs[i].local_transform,
                alive: true,
            })
        }
}

/// Every description of `specs` composes.
pub open spec fn all_ok(specs: Seq<BodySpec>) -> bool {
    forall|i: int| 0 <= i < specs.len() ==> spec_ok(#[trigger] specs[i])
}

impl SceneWorld {
    /// Bodies and states line up one for one.
    pub open spec fn wf(&self) -> bool {
        self.bodies.len() == self.states.len()
    }

    /// `h` names a body that has not been removed.
    pub open spec fn live(&self, h: BodyHandle) -> bool {
        h.index < self.states.len() && self.states[h.index as int].alive
    }

    /// The mass that composition fixed for the body of `h`.
    pub open spec fn mass_of(&self, h: BodyHandle) -> Option<u64> {
        self.bodies[h.index as int].mass
    }

    /// The vertical translation of the body of `h` in its latest state.
    pub open spec fn altitude_of(&self, h: BodyHandle) -> i64 {
        self.states[h.index as int].transform.translation.y
    }

    /// An empty world.
    pub fn new() -> (r: SceneWorld)
        ensures
            r.wf(),
            r.bodies@.len() == 0,
    {
        SceneWorld { bodies: Vec::new(), states: Vec::new() }
    }

    /// Makes one rigid body per description, in order, and returns their
    /// handles. Every description is checked first: if one is unusable,
    /// the world is left as it was.
    pub fn compose(&mut self, specs: &Vec<BodySpec>) -> (r: Result<
        Vec<BodyHandle>,
        ConfigurationError,
    >)
        requires
            old(self).wf(),
        ensures
            final(self).wf(),
            r is Ok <==> all_ok(specs@),
            r matches Ok(hs) ==> composed(*old(self), specs@, *final(self), hs@),
            r matches Err(e) ==> {
                &&& e.spec_index < specs@.len()
                &&& !spec_ok(specs@[e.spec_index as int])
                &&& forall|j: int| 0 <= j < e.spec_index ==> spec_ok(#[trigger] specs@[j])
                &&& final(self).bodies@ == old(self).bodies@
                &&& final(self).states@ == old(self).states@
            },
    {
        let mut k: usize = 0;
        while k < specs.len()
            invariant
                0 <= k <= specs@.len(),
                forall|j: int| 0 <= j < k ==> spec_ok(#[trigger] specs@[j]),
                self.wf(),
                self.bodies@ == old(self).bodies@,
                self.states@ == old(self).states@,
            decreases specs@.len() - k,
        {
            if !specs[k].is_composable() {
                return Err(ConfigurationError { spec_index: k });
            }
            k += 1;
        }
        let ghost start = *self;
        let n = self.bodies.len();
        let mut handles: Vec<BodyHandle> = Vec::new();
        let mut i: usize = 0;
        while i < specs.len()
            invariant
                self.wf(),
                start.wf(),
                n == start.bodies.len(),
                0 <= i <= specs@.len(),
                all_ok(specs@),
                composed(start, specs@.subrange(0, i as int), *self, handles@),
            decreases specs@.len() - i,
        {
            let s = &specs[i];
            let record = BodyRecord {
                kind: s.kind,
                mass: s.mass_override,
                restitution: s.restitution,
                initial_force: s.initial_force,
                initial_torque: s.initial_torque,
                colliders: s.colliders(),
            };
            let handle = BodyHandle { index: self.bodies.len() };
            let ghost prev = *self;
            let ghost prev_handles = handles@;
            self.bodies.push(record);
            self.states.push(BodyState { transform: s.local_transform, alive: true });
            handles.push(handle);
            i += 1;
            proof {
                let done = specs@.subrange(0, i as int);
                let earlier = specs@.subrange(0, i - 1);
                assert(built_from(self.bodies@[n + i - 1], specs@[i - 1]));
                assert forall|j: int| 0 <= j < done.len() implies {
                    &&& (#[trigger] handles@[j]).index == n + j
                    &&& built_from(self.bodies@[n + j], done[j])
                    &&& self.states@[n + j] == (BodyState {
                        transform: done[j].local_transform,
                        alive: true,
                    })
                } by {
                    if j < i - 1 {
                        assert(earlier[j] == done[j]);
                        assert(handles@[j] == prev_handles[j]);
                        assert(self.bodies@[n + j] == prev.bodies@[n + j]);
                    }
                }
                assert forall|j: int| 0 <= j < n implies self.bodies@[j] == #[trigger] start.bodies@[j] by {
                    assert(self.bodies@[j] == prev.bodies@[j]);
                }
                assert forall|j: int| 0 <= j < n implies self.states@[j] == #[trigger] start.states@[j] by {
                    assert(self.states@[j] == prev.states@[j]);
                }
            }
        }
        assert(specs@.subrange(0, i as int) =~= specs@);
        Ok(handles)
    }

    /// Every handle of `hs` names a live body.
    pub open spec fn all_live(&self, hs: Seq<BodyHandle>) -> bool {
        forall|i: int| 0 <= i < hs.len() ==> self.live(#[trigger] hs[i])
    }

    /// For each handle, in order, the handle and the vertical translation of
    /// its body. Fails on the first handle that names no live body.
    pub fn sample_altitudes(&self, handles: &Vec<BodyHandle>) -> (r: Result<
        Vec<(BodyHandle, i64)>,
        StaleHandleError,
    >)
        requires
            self.wf(),
        ensures
            r is Ok <==> self.all_live(handles@),
            r matches Ok(v) ==> {
                &&& v@.len() == handles@.len()
                &&& forall|i: int|
                    0 <= i < v@.len() ==> #[trigger] v@[i] == (
                    handles@[i],
                    self.altitude_of(handles@[i]),
                )
            },
            r matches Err(e) ==> exists|i: int|
                {
                    &&& 0 <= i < handles@.len()
                    &&& #[trigger] handles@[i] == e.handle
                    &&& !self.live(e.handle)
                    &&& forall|j: int| 0 <= j < i ==> self.live(#[trigger] handles@[j])
                },
    {
        let mut out: Vec<(BodyHandle, i64)> = Vec::new();
        let mut i: usize = 0;
        while i < handles.len()
            invariant
                self.wf(),
                0 <= i <= handles@.len(),
                out@.len() == i,
                forall|j: int| 0 <= j < i ==> self.live(#[trigger] handles@[j]),
                forall|j: int|
                    0 <= j < i ==> #[trigger] out@[j] == (
                    handles@[j],
                    self.altitude_of(handles@[j]),
                ),
            decreases handles@.len() - i,
        {
            let h = handles[i];
            if let Err(e) = self.check(h) {
                assert(handles@[i as int] == e.handle);
                return Err(e);
            }
            out.push((h, self.states[h.index].transform.translation.y));
            i += 1;
        }
        Ok(out)
    }

    fn check(&self, h: BodyHandle) -> (r: Result<(), StaleHandleError>)
        requires
            self.wf(),
        ensures
            r is Ok <==> self.live(h),
            r matches Err(e) ==> e.handle == h,
    {
        if h.index < self.states.len() && self.states[h.index].alive {
            Ok(())
        } else {
            Err(StaleHandleError { handle: h })
        }
    }

    /// The mass that composition fixed for the body of `h`: its override, or
    /// `None` where the engine derives it from the colliders.
    pub fn body_mass(&self, h: BodyHandle) -> (r: Result<Option<u64>, StaleHandleError>)
        requires
            self.wf(),
        ensures
            self.live(h) ==> r == Ok::<Option<u64>, StaleHandleError>(self.mass_of(h)),
            !self.live(h) ==> r == Err::<Option<u64>, StaleHandleError>(
                StaleHandleError { handle: h },
            ),
    {
        self.check(h)?;
        Ok(self.bodies[h.index].mass)
    }

    /// The mass moment of the colliders of the body of `h` that carry a mass
    /// of their own (`None` when a sum leaves the `i128` range).
    pub fn body_mass_moment(&self, h: BodyHandle) -> (r: Result<
        Option<MassMoment>,
        StaleHandleError,
    >)
        requires
            self.wf(),
        ensures
            r is Ok <==> self.live(h),
            r matches Err(e) ==> e.handle == h,
            r matches Ok(o) ==> {
                let cs = self.bodies[h.index as int].colliders@;
                &&& (o is Some <==> moment_fits(cs))
                &&& (o matches Some(mm) ==> (mm.x as int, mm.y as int, mm.z as int, mm.total as int)
                    == moment_of(cs))
            },
    {
        self.check(h)?;
        Ok(mass_moment(&self.bodies[h.index].colliders))
    }

    /// How many colliders the body of `h` carries.
    pub fn collider_count(&self, h: BodyHandle) -> (r: Result<usize, StaleHandleError>)
        requires
            self.wf(),
        ensures
            self.live(h) ==> r == Ok::<usize, StaleHandleError>(
                self.bodies[h.index as int].colliders@.len() as usize,
            ),
            !self.live(h) ==> r == Err::<usize, StaleHandleError>(StaleHandleError { handle: h }),
    {
        self.check(h)?;
        Ok(self.bodies[h.index].colliders.len())
    }

    /// The latest transform of the body of `h`.
    pub fn transform_of(&self, h: BodyHandle) -> (r: Result<Transform, StaleHandleError>)
        requires
            self.wf(),
        ensures
            self.live(h) ==> r == Ok::<Transform, StaleHandleError>(
                self.states[h.index as int].transform,
            ),
            !self.live(h) ==> r == Err::<Transform, StaleHandleError>(
                StaleHandleError { handle: h },
            ),
    {
        self.check(h)?;
        Ok(self.states[h.index].transform)
    }

    /// Records the transform that the engine reports for the body of `h`
    /// after a step.
    pub fn set_transform(&mut self, h: BodyHandle, t: Transform) -> (r: Result<
        (),
        StaleHandleError,
    >)
        requires
            old(self).wf(),
        ensures
            final(self).wf(),
            final(self).bodies@ == old(self).bodies@,
            r is Ok <==> old(self).live(h),
            r matches Err(e) ==> e.handle == h && final(self).states@ == old(self).states@,
            r is Ok ==> final(self).states@ == old(self).states@.update(
                h.index as int,
                BodyState { transform: t, alive: true },
            ),
    {
        self.check(h)?;
        self.states.set(h.index, BodyState { transform: t, alive: true });
        Ok(())
    }

    /// Marks the body of `h` as removed; its handle is stale from then on.
    pub fn remove_body(&mut self, h: BodyHandle) -> (r: Result<(), StaleHandleError>)
        requires
            old(self).wf(),
        ensures
            final(self).wf(),
            final(self).bodies@ == old(self).bodies@,
            r is Ok <==> old(self).live(h),
            r matches Err(e) ==> e.handle == h && final(self).states@ == old(self).states@,
            r is Ok ==> final(self).states@ == old(self).states@.update(
                h.index as int,
                BodyState { transform: old(self).states@[h.index as int].transform, alive: false },
            ),
    {
        self.check(h)?;
        let t = self.states[h.index].transform;
        self.states.set(h.index, BodyState { transform: t, alive: false });
        Ok(())
    }
}

} // verus!

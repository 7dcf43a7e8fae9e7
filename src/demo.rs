//! The demonstration scene: a flat static ground and, above it, a bouncing
//! cross-shaped frame with a heavy central sphere and four motor spheres.
use vstd::prelude::*;
use crate::body::{BodyKind, BodySpec, children_ok, lemma_children_ok_prefix, spec_ok};
use crate::geometry::{Shape, Transform, Vec3, identity_transform};
use crate::world::all_ok;

verus! {

/// The dimensions and masses of the frame, in fixed-point millionths.
#[derive(Clone, Copy, Debug, PartialEq, Eq, Structural)]
pub struct SceneConfig {
    /// Half length of each frame arm.
    pub arm: i64,
    /// Half thickness of each frame arm.
    pub thickness: i64,
    /// Radius of the central sphere.
    pub core_radius: i64,
    /// Mass of the central sphere.
    pub core_mass: u64,
    /// Mass of one frame arm.
    pub arm_mass: u64,
    /// Mass of one motor.
    pub motor_mass: u64,
    /// Radius of one motor sphere.
    pub motor_radius: i64,
}

impl SceneConfig {
    /// Every dimension is positive.
    pub open spec fn valid(&self) -> bool {
        self.arm > 0 && self.thickness > 0 && self.core_radius > 0 && self.motor_radius > 0
    }

    /// The frame of the demonstration: 0.55 arms, 0.02 thick, a 0.07 core of
    /// 200, arms of 0.25 and motors of 0.56 with radius 0.07.
    pub fn standard() -> (r: SceneConfig)
        ensures
            r.valid(),
            r == (SceneConfig {
                arm: 550_000,
                thickness: 20_000,
                core_radius: 70_000,
                core_mass: 200_000_000,
                arm_mass: 250_000,
                motor_mass: 560_000,
                motor_radius: 70_000,
            }),
    {
        SceneConfig {
            arm: 550_000,
            thickness: 20_000,
            core_radius: 70_000,
            core_mass: 200_000_000,
            arm_mass: 250_000,
            motor_mass: 560_000,
            motor_radius: 70_000,
        }
    }
}

/// Half extents of the ground slab.
pub const GROUND_HALF_WIDTH: i64 = 100_000_000;
pub const GROUND_HALF_HEIGHT: i64 = 100_000;
/// Height of the ground's centre.
pub const GROUND_Y: i64 = -2_000_000;
/// Height at which the frame starts.
pub const DROP_HEIGHT: i64 = 10_000_000;
/// The frame's own mass, on top of its parts.
pub const FRAME_MASS: u64 = 5_000;
/// The frame's bounciness, 0.7.
pub const FRAME_RESTITUTION: i64 = 700_000;

/// `c` is a plain collider: `shape` at `pos` with `mass`, nothing below it.
pub open spec fn is_part(c: BodySpec, shape: Shape, pos: Vec3, mass: u64) -> bool {
    &&& c.kind == BodyKind::Dynamic
    &&& c.shape == Some(shape)
    &&& c.local_transform == (Transform {
        translation: pos,
        rotation: identity_transform().rotation,
    })
    &&& c.mass_override == Some(mass)
    &&& c.restitution is None
    &&& c.initial_force is None
    &&& c.initial_torque is None
    &&& c.children@.len() == 0
}

fn part(shape: Shape, x: i64, y: i64, z: i64, mass: u64) -> (r: BodySpec)
    ensures
        is_part(r, shape, Vec3 { x, y, z }, mass),
{
    BodySpec::leaf(shape, Transform::from_xyz(x, y, z), Some(mass))
}

/// The ground and the frame, in that order.
pub fn demo_scene(cfg: &SceneConfig) -> (r: Vec<BodySpec>)
    requires
        cfg.valid(),
    ensures
        r@.len() == 2,
        all_ok(r@),
        ({
            let g = r@[0];
            &&& g.kind == BodyKind::Static
            &&& g.shape == Some(
                Shape::Cuboid {
                    half_extents: Vec3 {
                        x: GROUND_HALF_WIDTH,
                        y: GROUND_HALF_HEIGHT,
                        z: GROUND_HALF_WIDTH,
                    },
                },
            )
            &&& g.local_transform.translation == (Vec3 { x: 0, y: GROUND_Y, z: 0 })
            &&& g.local_transform.rotation == identity_transform().rotation
            &&& g.mass_override is None
            &&& g.restitution is None
            &&& g.initial_force is None
            &&& g.initial_torque is None
            &&& g.children@.len() == 0
        }),
        ({
            let f = r@[1];
            let c = f.children@;
            let (l, t) = (cfg.arm, cfg.thickness);
            let motor = Shape::Ball { radius: cfg.motor_radius };
            &&& f.kind == BodyKind::Dynamic
            &&& f.shape is None
            &&& f.local_transform.translation == (Vec3 { x: 0, y: DROP_HEIGHT, z: 0 })
            &&& f.local_transform.rotation == identity_transform().rotation
            &&& f.mass_override == Some(FRAME_MASS)
            &&& f.restitution == Some(FRAME_RESTITUTION)
            &&& f.initial_force is None
            &&& f.initial_torque is None
            &&& c.len() == 7
            &&& is_part(c[0], Shape::Cuboid { half_extents: Vec3 { x: l, y: t, z: t } },
                Vec3 { x: 0, y: 0, z: 0 }, cfg.arm_mass)
            &&& is_part(c[1], Shape::Cuboid { half_extents: Vec3 { x: t, y: t, z: l } },
                Vec3 { x: 0, y: 0, z: 0 }, cfg.arm_mass)
            &&& is_part(c[2], Shape::Ball { radius: cfg.core_radius },
                Vec3 { x: 0, y: 0, z: 0 }, cfg.core_mass)
            &&& is_part(c[3], motor, Vec3 { x: l, y: 0, z: 0 }, cfg.motor_mass)
            &&& is_part(c[4], motor, Vec3 { x: (-l) as i64, y: 0, z: 0 }, cfg.motor_mass)
            &&& is_part(c[5], motor, Vec3 { x: 0, y: 0, z: l }, cfg.motor_mass)
            &&& is_part(c[6], motor, Vec3 { x: 0, y: 0, z: (-l) as i64 }, cfg.motor_mass)
        }),
{
    let ground = BodySpec {
        kind: BodyKind::Static,
        shape: Some(Shape::cuboid(GROUND_HALF_WIDTH, GROUND_HALF_HEIGHT, GROUND_HALF_WIDTH)),
        local_transform: Transform::from_xyz(0, GROUND_Y, 0),
        mass_override: None,
        restitution: None,
        initial_force: None,
        initial_torque: None,
        children: Vec::new(),
    };
    let (l, t) = (cfg.arm, cfg.thickness);
    let mut parts: Vec<BodySpec> = Vec::new();
    parts.push(part(Shape::cuboid(l, t, t), 0, 0, 0, cfg.arm_mass));
    parts.push(part(Shape::cuboid(t, t, l), 0, 0, 0, cfg.arm_mass));
    parts.push(part(Shape::ball(cfg.core_radius), 0, 0, 0, cfg.core_mass));
    let motor = Shape::ball(cfg.motor_radius);
    parts.push(part(motor, l, 0, 0, cfg.motor_mass));
    parts.push(part(motor, -l, 0, 0, cfg.motor_mass));
    parts.push(part(motor, 0, 0, l, cfg.motor_mass));
    parts.push(part(motor, 0, 0, -l, cfg.motor_mass));
    let frame = BodySpec {
        kind: BodyKind::Dynamic,
        shape: None,
        local_transform: Transform::from_xyz(0, DROP_HEIGHT, 0),
        mass_override: Some(FRAME_MASS),
        restitution: Some(FRAME_RESTITUTION),
        initial_force: None,
        initial_torque: None,
        children: parts,
    };
    proof {
        lemma_children_ok_prefix(frame, 7);
        assert(children_ok(ground, 0));
        assert forall|j: int| 0 <= j < 7 implies crate::body::subtree_ok(
            #[trigger] frame.children[j],
        ) by {
            assert(children_ok(frame.children[j], 0));
        }
        assert(spec_ok(frame));
        assert(spec_ok(ground));
    }
    let mut scene: Vec<BodySpec> = Vec::new();
    scene.push(ground);
    scene.push(frame);
    scene
}

} // verus!

use rapier_scene::body::{BodyKind, BodySpec, ColliderRecord};
use rapier_scene::demo::{demo_scene, SceneConfig, DROP_HEIGHT, GROUND_Y};
use rapier_scene::geometry::{Shape, Transform, Vec3, UNIT};
use rapier_scene::mass::{mass_moment, MassMoment};
use rapier_scene::world::{BodyHandle, ConfigurationError, SceneWorld, StaleHandleError};

fn body(kind: BodyKind, shape: Option<Shape>, at: Transform, children: Vec<BodySpec>) -> BodySpec {
    BodySpec {
        kind,
        shape,
        local_transform: at,
        mass_override: None,
        restitution: None,
        initial_force: None,
        initial_torque: None,
        children,
    }
}

fn ball_at(radius: i64, x: i64, y: i64, z: i64) -> BodySpec {
    body(BodyKind::Dynamic, Some(Shape::ball(radius)), Transform::from_xyz(x, y, z), Vec::new())
}

#[test]
fn empty_input_composes_to_nothing() {
    let mut world = SceneWorld::new();
    let handles = world.compose(&Vec::new()).unwrap();
    assert!(handles.is_empty());
    assert_eq!(world.bodies.len(), 0);
    assert_eq!(world.sample_altitudes(&handles), Ok(Vec::new()));
}

#[test]
fn handles_follow_input_order() {
    let mut world = SceneWorld::new();
    let first = world.compose(&vec![ball_at(UNIT, 0, 1, 0)]).unwrap();
    let specs = vec![ball_at(UNIT, 0, 5, 0), ball_at(UNIT, 0, 6, 0), ball_at(UNIT, 0, 7, 0)];
    let handles = world.compose(&specs).unwrap();
    assert_eq!(first, vec![BodyHandle { index: 0 }]);
    assert_eq!(
        handles,
        vec![BodyHandle { index: 1 }, BodyHandle { index: 2 }, BodyHandle { index: 3 }]
    );
    let alts = world.sample_altitudes(&handles).unwrap();
    assert_eq!(alts, vec![(handles[0], 5), (handles[1], 6), (handles[2], 7)]);
}

#[test]
fn children_are_colliders_of_one_body() {
    let children = vec![ball_at(10, 1, 0, 0), ball_at(10, -1, 0, 0), ball_at(10, 0, 0, 1)];
    let parent = body(BodyKind::Dynamic, None, Transform::from_xyz(0, 3, 0), children);
    let mut world = SceneWorld::new();
    let handles = world.compose(&vec![parent]).unwrap();
    assert_eq!(world.bodies.len(), 1);
    assert_eq!(world.collider_count(handles[0]), Ok(3));

    let children = vec![ball_at(10, 1, 0, 0), ball_at(10, -1, 0, 0)];
    let parent = body(BodyKind::Dynamic, Some(Shape::ball(5)), Transform::identity(), children);
    let handles = world.compose(&vec![parent]).unwrap();
    assert_eq!(world.bodies.len(), 2);
    assert_eq!(world.collider_count(handles[0]), Ok(3));
}

#[test]
fn nested_children_are_flattened_in_order() {
    let grandchild = ball_at(3, 0, 0, 9);
    let child = body(
        BodyKind::Dynamic,
        Some(Shape::ball(2)),
        Transform::from_xyz(4, 0, 0),
        vec![grandchild],
    );
    let parent = body(
        BodyKind::Dynamic,
        Some(Shape::cuboid(1, 1, 1)),
        Transform::from_xyz(0, 8, 0),
        vec![child, ball_at(5, 0, 1, 0)],
    );
    let cs = parent.colliders();
    let radius = |c: &ColliderRecord| match c.shape {
        Shape::Ball { radius } => radius,
        Shape::Cuboid { .. } => 0,
    };
    assert_eq!(cs.len(), 4);
    assert_eq!(cs[0].transform, Transform::identity());
    assert_eq!(cs[0].shape, Shape::cuboid(1, 1, 1));
    assert_eq!(radius(&cs[1]), 2);
    assert_eq!(cs[1].transform, Transform::from_xyz(4, 0, 0));
    assert_eq!(radius(&cs[2]), 3);
    assert_eq!(cs[2].transform, Transform::from_xyz(0, 0, 9));
    assert_eq!(radius(&cs[3]), 5);
}

#[test]
fn mass_override_is_returned_exactly() {
    let mut heavy = body(BodyKind::Dynamic, Some(Shape::ball(UNIT)), Transform::identity(), Vec::new());
    heavy.mass_override = Some(5_000);
    let light = ball_at(2 * UNIT, 0, 0, 0);
    let mut world = SceneWorld::new();
    let handles = world.compose(&vec![heavy, light]).unwrap();
    assert_eq!(world.body_mass(handles[0]), Ok(Some(5_000)));
    assert_eq!(world.body_mass(handles[1]), Ok(None));
}

#[test]
fn missing_collider_is_rejected_before_any_body() {
    let mut world = SceneWorld::new();
    let empty = body(BodyKind::Dynamic, None, Transform::identity(), Vec::new());
    let specs = vec![ball_at(1, 0, 0, 0), empty, ball_at(1, 0, 0, 0)];
    assert_eq!(world.compose(&specs), Err(ConfigurationError { spec_index: 1 }));
    assert_eq!(world.bodies.len(), 0);
    assert_eq!(world.states.len(), 0);
}

#[test]
fn negative_restitution_is_rejected() {
    let mut bouncy = ball_at(1, 0, 0, 0);
    bouncy.restitution = Some(-1);
    let mut world = SceneWorld::new();
    assert_eq!(world.compose(&vec![bouncy]), Err(ConfigurationError { spec_index: 0 }));
    let mut fine = ball_at(1, 0, 0, 0);
    fine.restitution = Some(0);
    assert!(world.compose(&vec![fine]).is_ok());
}

#[test]
fn non_positive_dimensions_are_rejected() {
    let mut world = SceneWorld::new();
    assert_eq!(world.compose(&vec![ball_at(0, 0, 0, 0)]), Err(ConfigurationError { spec_index: 0 }));
    let flat = body(BodyKind::Static, Some(Shape::cuboid(1, 0, 1)), Transform::identity(), Vec::new());
    assert_eq!(world.compose(&vec![flat]), Err(ConfigurationError { spec_index: 0 }));
    let bad_child = body(
        BodyKind::Dynamic,
        None,
        Transform::identity(),
        vec![ball_at(1, 0, 0, 0), ball_at(-4, 0, 0, 0)],
    );
    assert_eq!(world.compose(&vec![bad_child]), Err(ConfigurationError { spec_index: 0 }));
    assert_eq!(world.bodies.len(), 0);
}

#[test]
fn static_body_with_mass_is_rejected() {
    let mut ground = body(BodyKind::Static, Some(Shape::cuboid(1, 1, 1)), Transform::identity(), Vec::new());
    ground.mass_override = Some(1);
    let mut world = SceneWorld::new();
    assert_eq!(world.compose(&vec![ground]), Err(ConfigurationError { spec_index: 0 }));
}

#[test]
fn removed_body_is_reported_stale() {
    let mut world = SceneWorld::new();
    let handles = world.compose(&vec![ball_at(1, 0, 2, 0), ball_at(1, 0, 3, 0)]).unwrap();
    assert_eq!(world.remove_body(handles[0]), Ok(()));
    assert_eq!(
        world.sample_altitudes(&handles),
        Err(StaleHandleError { handle: handles[0] })
    );
    assert_eq!(world.sample_altitudes(&vec![handles[1]]), Ok(vec![(handles[1], 3)]));
    assert_eq!(world.remove_body(handles[0]), Err(StaleHandleError { handle: handles[0] }));
    let unknown = BodyHandle { index: 9 };
    assert_eq!(world.body_mass(unknown), Err(StaleHandleError { handle: unknown }));
    assert_eq!(world.transform_of(unknown), Err(StaleHandleError { handle: unknown }));
}

#[test]
fn reported_transforms_are_sampled() {
    let mut world = SceneWorld::new();
    let handles = world.compose(&vec![ball_at(1, 0, 4 * UNIT, 0)]).unwrap();
    assert_eq!(world.sample_altitudes(&handles), Ok(vec![(handles[0], 4 * UNIT)]));
    let moved = Transform::from_xyz(0, 3_500_000, 0);
    assert_eq!(world.set_transform(handles[0], moved), Ok(()));
    assert_eq!(world.transform_of(handles[0]), Ok(moved));
    assert_eq!(world.sample_altitudes(&handles), Ok(vec![(handles[0], 3_500_000)]));
}

#[test]
fn bouncing_ball_scene_composes() {
    let ground = body(
        BodyKind::Static,
        Some(Shape::cuboid(100 * UNIT, 100_000, 100 * UNIT)),
        Transform::identity(),
        Vec::new(),
    );
    let mut ball = ball_at(200_000, 0, 4 * UNIT, 0);
    ball.restitution = Some(700_000);
    let mut world = SceneWorld::new();
    let handles = world.compose(&vec![ground, ball]).unwrap();
    assert_eq!(world.sample_altitudes(&handles), Ok(vec![(handles[0], 0), (handles[1], 4 * UNIT)]));
    assert_eq!(world.bodies[1].kind, BodyKind::Dynamic);
    assert_eq!(world.bodies[1].colliders[0].restitution, Some(700_000));
    assert_eq!(world.bodies[0].kind, BodyKind::Static);
}

#[test]
fn symmetric_frame_keeps_centre_of_mass_at_origin() {
    let cfg = SceneConfig::standard();
    let mut world = SceneWorld::new();
    let handles = world.compose(&demo_scene(&cfg)).unwrap();
    let moment = world.body_mass_moment(handles[1]).unwrap().unwrap();
    let total = 2 * 250_000 + 200_000_000 + 4 * 560_000;
    assert_eq!(moment, MassMoment { x: 0, y: 0, z: 0, total });
}

#[test]
fn demo_scene_layout() {
    let cfg = SceneConfig::standard();
    assert_eq!(cfg.arm, 550_000);
    let scene = demo_scene(&cfg);
    assert_eq!(scene.len(), 2);
    assert_eq!(scene[0].local_transform.translation, Vec3::new(0, GROUND_Y, 0));
    assert_eq!(scene[1].local_transform.translation, Vec3::new(0, DROP_HEIGHT, 0));
    let mut world = SceneWorld::new();
    let handles = world.compose(&scene).unwrap();
    assert_eq!(world.collider_count(handles[0]), Ok(1));
    assert_eq!(world.collider_count(handles[1]), Ok(7));
    assert_eq!(world.body_mass(handles[1]), Ok(Some(5_000)));
    assert_eq!(world.body_mass(handles[0]), Ok(None));
    assert_eq!(world.bodies[1].restitution, Some(700_000));
    assert_eq!(world.sample_altitudes(&handles), Ok(vec![(handles[0], -2 * UNIT), (handles[1], 10 * UNIT)]));
}

#[test]
fn mass_moment_weights_positions() {
    let cs = vec![
        ColliderRecord {
            shape: Shape::ball(1),
            transform: Transform::from_xyz(3, -2, 5),
            mass: Some(2_000_000),
            restitution: None,
        },
        ColliderRecord {
            shape: Shape::ball(1),
            transform: Transform::from_xyz(7, 7, 7),
            mass: None,
            restitution: None,
        },
        ColliderRecord {
            shape: Shape::ball(1),
            transform: Transform::from_xyz(-1, 0, 0),
            mass: Some(4),
            restitution: None,
        },
    ];
    assert_eq!(
        mass_moment(&cs),
        Some(MassMoment { x: 6_000_000 - 4, y: -4_000_000, z: 10_000_000, total: 2_000_004 })
    );
    assert_eq!(mass_moment(&Vec::new()), Some(MassMoment { x: 0, y: 0, z: 0, total: 0 }));
}

#[test]
fn mass_moment_overflow_is_none() {
    let far = ColliderRecord {
        shape: Shape::ball(1),
        transform: Transform::from_xyz(i64::MAX, 0, 0),
        mass: Some(u64::MAX),
        restitution: None,
    };
    assert!(mass_moment(&vec![far]).is_some());
    assert_eq!(mass_moment(&vec![far, far, far]), None);
}

#[test]
fn shape_validity() {
    assert!(Shape::ball(1).is_valid());
    assert!(!Shape::ball(-1).is_valid());
    assert!(!Shape::cuboid(1, 1, 0).is_valid());
    assert!(ball_at(1, 0, 0, 0).is_composable());
    assert!(body(BodyKind::Dynamic, None, Transform::identity(), Vec::new()).is_valid_tree() == false);
}

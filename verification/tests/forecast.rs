use equilibrium::components::BodyKind;
use equilibrium::draggable::{on_drag_end, on_drag_start};
use equilibrium::events::{DragEndEvent, DragStartEvent, Hit};
use equilibrium::geometry::{Arena, Point};
use equilibrium::physics::{
    any_set, has_active_wall_contact, is_wall, shape_allowed, BodyId, PhysicsWorld, COMPOUND,
    CONVEX_POLYGON, TRIANGLE,
};
use equilibrium::source::DragSource;
use equilibrium::stage::Stage;
use equilibrium::win::{check_for_tower, check_future_collisions, sensor_collision, WinTimer};
use rapier2d::dynamics::{
    CCDSolver, GenericJoint, ImpulseJointSet, IntegrationParameters, IslandManager,
    MultibodyJointSet, RevoluteJointBuilder, RigidBodyBuilder, RigidBodyHandle, RigidBodySet,
};
use rapier2d::math::Point as Anchor;
use rapier2d::parry::shape::ShapeType;
use rapier2d::geometry::{BroadPhase, ColliderBuilder, ColliderHandle, ColliderSet, NarrowPhase};
use rapier2d::math::{Real, Vector};
use rapier2d::pipeline::{ActiveEvents, PhysicsPipeline};

fn empty(gravity_y: Real) -> PhysicsWorld {
    PhysicsWorld::new(Vector::new(0.0, gravity_y))
}

fn sensor_below(y: Real) -> rapier2d::geometry::Collider {
    ColliderBuilder::cuboid(50.0, 1.0)
        .translation(Vector::new(0.0, y))
        .sensor(true)
        .active_events(ActiveEvents::COLLISION_EVENTS)
        .build()
}

/// A ball at height `height` over the wide sensor of a wall whose top is at
/// height 0.
fn ball_over_sensor(gravity_y: Real, height: Real) -> (PhysicsWorld, BodyId) {
    let mut w = empty(gravity_y);
    let ball = w.add_body(RigidBodyBuilder::dynamic().translation(Vector::new(0.0, height)).build());
    assert!(w.add_collider(ColliderBuilder::ball(0.5).build(), Some(ball), false).is_some());
    assert!(w.add_collider(sensor_below(-1.0), None, true).is_some());
    (w, ball)
}

/// A ball lying on solid ground, with the sensor of a wall far below.
fn ball_on_ground() -> PhysicsWorld {
    let mut w = empty(-9.81);
    let ball = w.add_body(RigidBodyBuilder::dynamic().translation(Vector::new(0.0, 0.5)).build());
    w.add_collider(ColliderBuilder::ball(0.5).build(), Some(ball), false);
    w.add_collider(
        ColliderBuilder::cuboid(50.0, 1.0).translation(Vector::new(0.0, -1.0)).build(),
        None,
        false,
    );
    w.add_collider(sensor_below(-100.0), None, true);
    w
}

/// A simulation as a game runs it: rapier's parts, stepped by the game.
struct Live {
    gravity: Vector<Real>,
    parameters: IntegrationParameters,
    islands: IslandManager,
    broad_phase: BroadPhase,
    narrow_phase: NarrowPhase,
    bodies: RigidBodySet,
    colliders: ColliderSet,
    impulse_joints: ImpulseJointSet,
    multibody_joints: MultibodyJointSet,
    ccd_solver: CCDSolver,
    pipeline: PhysicsPipeline,
}

impl Live {
    fn new(gravity_y: Real) -> Live {
        Live {
            gravity: Vector::new(0.0, gravity_y),
            parameters: IntegrationParameters::default(),
            islands: IslandManager::new(),
            broad_phase: BroadPhase::new(),
            narrow_phase: NarrowPhase::new(),
            bodies: RigidBodySet::new(),
            colliders: ColliderSet::new(),
            impulse_joints: ImpulseJointSet::new(),
            multibody_joints: MultibodyJointSet::new(),
            ccd_solver: CCDSolver::new(),
            pipeline: PhysicsPipeline::new(),
        }
    }

    fn ball(&mut self, y: Real) -> RigidBodyHandle {
        let ball = self.bodies.insert(RigidBodyBuilder::dynamic().translation(Vector::new(0.0, y)).build());
        self.colliders.insert_with_parent(ColliderBuilder::ball(0.5).build(), ball, &mut self.bodies);
        ball
    }

    fn wall(&mut self, y: Real) -> ColliderHandle {
        self.colliders.insert(ColliderBuilder::cuboid(50.0, 1.0).translation(Vector::new(0.0, y)).build())
    }

    fn step(&mut self, steps: usize) {
        for _ in 0..steps {
            self.pipeline.step(
                &self.gravity,
                &self.parameters,
                &mut self.islands,
                &mut self.broad_phase,
                &mut self.narrow_phase,
                &mut self.bodies,
                &mut self.colliders,
                &mut self.impulse_joints,
                &mut self.multibody_joints,
                &mut self.ccd_solver,
                None,
                &(),
                &(),
            );
        }
    }

    /// The world for a forecast: every body and collider copied over, the
    /// given colliders as walls.
    fn copy(&self, walls: &[ColliderHandle]) -> PhysicsWorld {
        let mut w = PhysicsWorld::new(self.gravity);
        let mut names = std::collections::HashMap::new();
        for (handle, body) in self.bodies.iter() {
            names.insert(handle, w.add_body(body.clone()));
        }
        for (handle, collider) in self.colliders.iter() {
            let parent = collider.parent().map(|p| names[&p]);
            assert!(w.add_collider(collider.clone(), parent, walls.contains(&handle)).is_some());
        }
        for (_, joint) in self.impulse_joints.iter() {
            assert!(w.add_joint(names[&joint.body1], names[&joint.body2], joint.data));
        }
        w
    }
}

#[test]
fn falling_ball_is_forecast_to_meet_the_wall() {
    let (w, _) = ball_over_sensor(-9.81, 10.0);
    assert!(check_future_collisions(&w, 60, 600));
}

#[test]
fn forecast_stops_short_of_a_collision_beyond_its_horizon() {
    // from 10 up, the ball needs about 1.4 s to reach the sensor
    let (w, _) = ball_over_sensor(-9.81, 10.0);
    assert!(!check_future_collisions(&w, 60, 30));
    assert!(check_future_collisions(&w, 60, 120));
}

#[test]
fn forecast_of_no_steps_sees_nothing() {
    let (w, _) = ball_over_sensor(-9.81, 10.0);
    assert!(!check_future_collisions(&w, 60, 0));
}

#[test]
fn forecast_rate_sets_the_length_of_a_step() {
    // 100 steps at 60 to the second are 1.7 s, enough to fall 10;
    // 100 steps at 600 to the second are 0.17 s, not enough
    let (w, _) = ball_over_sensor(-9.81, 10.0);
    assert!(check_future_collisions(&w, 60, 100));
    assert!(!check_future_collisions(&w, 600, 100));
}

#[test]
fn world_at_rest_is_forecast_to_stand() {
    let w = ball_on_ground();
    assert!(!check_future_collisions(&w, 60, 600));
}

#[test]
fn floating_ball_without_gravity_is_forecast_to_stand() {
    let (w, _) = ball_over_sensor(0.0, 10.0);
    assert!(!check_future_collisions(&w, 60, 600));
}

#[test]
fn empty_world_is_forecast_to_stand() {
    assert!(!check_future_collisions(&empty(-9.81), 60, 600));
}

#[test]
fn forecast_leaves_the_world_as_it_was() {
    let (w, ball) = ball_over_sensor(-9.81, 10.0);
    assert!(check_future_collisions(&w, 60, 600));
    let at = *w.bodies().get(RigidBodyHandle::from_raw_parts(ball.0, ball.1)).unwrap().translation();
    assert_eq!(at.x, 0.0);
    assert_eq!(at.y, 10.0);
    // and a second forecast sees what the first one saw
    assert!(check_future_collisions(&w, 60, 600));
}

#[test]
fn meeting_a_sensor_that_is_no_wall_is_no_collision() {
    let mut w = empty(-9.81);
    let ball = w.add_body(RigidBodyBuilder::dynamic().translation(Vector::new(0.0, 10.0)).build());
    w.add_collider(ColliderBuilder::ball(0.5).build(), Some(ball), false);
    w.add_collider(sensor_below(-1.0), None, false);
    assert_eq!(w.walls().len(), 0);
    assert!(!check_future_collisions(&w, 60, 600));
}

#[test]
fn meeting_a_wall_that_is_no_sensor_is_no_collision() {
    let mut w = empty(-9.81);
    let ball = w.add_body(RigidBodyBuilder::dynamic().translation(Vector::new(0.0, 3.0)).build());
    w.add_collider(
        ColliderBuilder::ball(0.5).active_events(ActiveEvents::COLLISION_EVENTS).build(),
        Some(ball),
        false,
    );
    let ground = ColliderBuilder::cuboid(50.0, 1.0).translation(Vector::new(0.0, -1.0)).build();
    w.add_collider(ground, None, true);
    assert!(!check_future_collisions(&w, 60, 600));
}

#[test]
fn bodies_get_names_of_their_own_and_colliders_need_their_body() {
    let mut w = empty(-9.81);
    let one = w.add_body(RigidBodyBuilder::dynamic().build());
    let other = w.add_body(RigidBodyBuilder::fixed().build());
    assert_ne!(one, other);
    assert_eq!(w.bodies().len(), 2);
    let stranger: BodyId = (77, 0);
    assert_eq!(w.add_collider(ColliderBuilder::ball(0.5).build(), Some(stranger), true), None);
    assert_eq!(w.add_collider(ColliderBuilder::ball(0.5).build(), Some((one.0, one.1 + 1)), true), None);
    assert_eq!(w.colliders().len(), 0);
    assert_eq!(w.walls().len(), 0);
    let attached = w.add_collider(ColliderBuilder::ball(0.5).build(), Some(one), false).unwrap();
    let wall = w.add_collider(ColliderBuilder::ball(0.5).build(), None, true).unwrap();
    assert_ne!(attached, wall);
    assert_eq!(w.colliders().len(), 2);
    assert_eq!(w.walls(), &vec![wall]);
    let parent = w.colliders().get(ColliderHandle::from_raw_parts(attached.0, attached.1)).unwrap().parent();
    assert_eq!(parent, Some(RigidBodyHandle::from_raw_parts(one.0, one.1)));
    assert!(!check_future_collisions(&w, 60, 10));
}

#[test]
fn copy_of_a_running_simulation_is_forecast_like_the_simulation() {
    let mut live = Live::new(-9.81);
    live.ball(10.0);
    let sensor = live.colliders.insert(sensor_below(-1.0));
    live.step(20);
    assert!(check_future_collisions(&live.copy(&[sensor]), 60, 600));
    // the copy keeps the position and the speed of the ball: it has fallen for a third of a
    // second, and needs about one more second
    assert!(!check_future_collisions(&live.copy(&[sensor]), 60, 30));
    assert!(check_future_collisions(&live.copy(&[sensor]), 60, 90));

    let mut rest = Live::new(-9.81);
    rest.ball(0.5);
    rest.ball(1.5);
    rest.wall(-1.0);
    let sensor = rest.colliders.insert(sensor_below(-100.0));
    rest.step(600);
    assert!(!check_future_collisions(&rest.copy(&[sensor]), 60, 600));
}

fn hinge(arm: Real) -> GenericJoint {
    RevoluteJointBuilder::new()
        .local_anchor1(Anchor::new(0.0, 0.0))
        .local_anchor2(Anchor::new(arm, 0.0))
        .build()
        .into()
}

#[test]
fn joints_need_two_bodies_of_the_world() {
    let mut w = empty(-9.81);
    let one = w.add_body(RigidBodyBuilder::fixed().build());
    let other = w.add_body(RigidBodyBuilder::dynamic().build());
    assert!(!w.add_joint(one, one, hinge(1.0)));
    assert!(!w.add_joint(one, (77, 0), hinge(1.0)));
    assert!(!w.add_joint((u32::MAX, 0), other, hinge(1.0)));
    assert!(!w.add_joint(one, (other.0, other.1 + 1), hinge(1.0)));
    assert!(w.add_joint(one, other, hinge(1.0)));
    assert!(w.add_joint(other, one, hinge(2.0)));
    let _ = check_future_collisions(&w, 60, 100);
}

#[test]
fn ball_on_a_hinge_swings_clear_of_a_wall_that_a_free_ball_falls_into() {
    // a ball two units to the right of a fixed pivot, and the sensor of a wall five units
    // below: free, the ball falls into it; on the hinge it swings no lower than two units
    let build = |hinged: bool| {
        let mut w = empty(-9.81);
        let pivot = w.add_body(RigidBodyBuilder::fixed().translation(Vector::new(0.0, 0.0)).build());
        let ball = w.add_body(RigidBodyBuilder::dynamic().translation(Vector::new(2.0, 0.0)).build());
        w.add_collider(ColliderBuilder::ball(0.25).build(), Some(ball), false);
        w.add_collider(sensor_below(-6.0), None, true);
        if hinged {
            assert!(w.add_joint(pivot, ball, hinge(-2.0)));
        }
        w
    };
    assert!(check_future_collisions(&build(false), 60, 600));
    assert!(!check_future_collisions(&build(true), 60, 600));
}

#[test]
fn copy_of_a_running_simulation_keeps_its_joints() {
    let mut live = Live::new(-9.81);
    let pivot = live.bodies.insert(RigidBodyBuilder::fixed().build());
    let ball = live.bodies.insert(RigidBodyBuilder::dynamic().translation(Vector::new(2.0, 0.0)).build());
    live.colliders.insert_with_parent(ColliderBuilder::ball(0.25).build(), ball, &mut live.bodies);
    let sensor = live.colliders.insert(sensor_below(-6.0));
    live.impulse_joints.insert(pivot, ball, hinge(-2.0), true);
    live.step(10);
    assert!(!check_future_collisions(&live.copy(&[sensor]), 60, 600));
}

#[test]
fn any_set_finds_a_set_flag() {
    assert!(!any_set(&vec![]));
    assert!(!any_set(&vec![false, false]));
    assert!(any_set(&vec![false, true, false]));
}

#[test]
fn is_wall_looks_the_collider_up_among_the_walls() {
    assert!(!is_wall(&vec![], (1, 0)));
    assert!(is_wall(&vec![(0, 0), (1, 0)], (1, 0)));
    assert!(!is_wall(&vec![(0, 0), (1, 0)], (1, 1)));
    assert!(!is_wall(&vec![(0, 0), (1, 0)], (0, 1)));
}

#[test]
fn wall_contact_is_seen_once_the_simulation_has_settled() {
    let mut live = Live::new(-9.81);
    live.ball(0.5);
    let wall = live.wall(-1.0).into_raw_parts();
    assert!(!has_active_wall_contact(&live.narrow_phase, &vec![]));
    assert!(!has_active_wall_contact(&live.narrow_phase, &vec![wall]));
    live.step(30);
    assert!(has_active_wall_contact(&live.narrow_phase, &vec![wall]));
    assert!(has_active_wall_contact(&live.narrow_phase, &vec![(500, 3), wall]));
    assert!(!has_active_wall_contact(&live.narrow_phase, &vec![]));
}

#[test]
fn no_wall_contact_while_the_ball_is_in_the_air() {
    let mut live = Live::new(-9.81);
    live.ball(50.0);
    let wall = live.wall(-1.0).into_raw_parts();
    live.step(5);
    assert!(!has_active_wall_contact(&live.narrow_phase, &vec![wall]));
}

#[test]
fn wall_that_the_simulation_does_not_know_has_no_contact() {
    let mut live = Live::new(-9.81);
    live.ball(0.5);
    live.wall(-1.0);
    live.step(30);
    assert!(!has_active_wall_contact(&live.narrow_phase, &vec![(500, 3)]));
}

#[test]
fn sensor_collision_counts_the_sensors_of_walls_only() {
    let mut colliders = ColliderSet::new();
    let solid = colliders.insert(ColliderBuilder::ball(0.5).build()).into_raw_parts();
    let sensor = colliders.insert(ColliderBuilder::ball(0.5).sensor(true).build()).into_raw_parts();
    let other = colliders.insert(ColliderBuilder::cuboid(1.0, 1.0).build()).into_raw_parts();
    let stray = colliders.insert(ColliderBuilder::ball(0.5).sensor(true).build()).into_raw_parts();
    let gone = (sensor.0, sensor.1 + 1);
    let walls = vec![sensor, other, gone];
    assert!(!sensor_collision(&colliders, &walls, &vec![]));
    assert!(!sensor_collision(&colliders, &walls, &vec![(solid, other)]));
    assert!(sensor_collision(&colliders, &walls, &vec![(solid, other), (solid, sensor)]));
    assert!(sensor_collision(&colliders, &walls, &vec![(sensor, other)]));
    // a wall that is no sensor, a wall that is gone, a collider that the set never held
    assert!(!sensor_collision(&colliders, &walls, &vec![(gone, other), (solid, gone)]));
    assert!(!sensor_collision(&colliders, &walls, &vec![((77, 0), (78, 0))]));
    // a sensor that is no wall does not count
    assert!(!sensor_collision(&colliders, &walls, &vec![(stray, solid), (other, stray)]));
    assert!(!sensor_collision(&colliders, &vec![], &vec![(sensor, solid)]));
    assert!(sensor_collision(&colliders, &vec![stray], &vec![(stray, solid)]));
}

fn released_stage() -> Stage {
    let mut stage = Stage::new(Arena::window(), 330);
    stage.add_shape(1, Point::new(0, 0));
    on_drag_start(
        &mut stage,
        false,
        &DragStartEvent { drag_source: DragSource::Mouse, position: Point::new(0, 0) },
        &vec![Hit { entity: 1, translation: Point::new(0, 0), rotation: 0 }],
    );
    on_drag_end(&mut stage, &DragEndEvent { drag_source: DragSource::Mouse });
    stage
}

#[test]
fn structure_that_will_fall_gets_the_long_countdown() {
    let stage = released_stage();
    assert_eq!(stage.shape(1).unwrap().body, BodyKind::Fixed);
    let mut live = Live::new(-9.81);
    live.ball(10.0);
    let wall = live.wall(-3.0);
    let sensor = live.colliders.insert(sensor_below(-1.0));
    live.step(3);
    let walls = vec![wall.into_raw_parts(), sensor.into_raw_parts()];
    assert_eq!(
        check_for_tower(true, &None, &stage, &live.narrow_phase, &walls, &live.copy(&[wall, sensor]), 2000, 7),
        Some(WinTimer { win_time: 7000, total_countdown: 5000, events_seen: 7 })
    );
}

#[test]
fn structure_at_rest_gets_the_short_countdown() {
    let stage = released_stage();
    let mut live = Live::new(-9.81);
    live.ball(0.5);
    live.ball(1.5);
    let ground = live.wall(-1.0);
    let wall = live.wall(-100.0);
    let sensor = live.colliders.insert(sensor_below(-98.0));
    live.step(600);
    let _ = ground;
    let walls = vec![wall.into_raw_parts(), sensor.into_raw_parts()];
    assert_eq!(
        check_for_tower(true, &None, &stage, &live.narrow_phase, &walls, &live.copy(&[wall, sensor]), 2000, 7),
        Some(WinTimer { win_time: 2500, total_countdown: 500, events_seen: 7 })
    );
}

#[test]
fn no_forecast_without_an_ended_drag_or_beside_a_timer_or_a_drag() {
    let stage = released_stage();
    let (w, _) = ball_over_sensor(-9.81, 10.0);
    let live = Live::new(-9.81);
    let np = &live.narrow_phase;
    assert_eq!(check_for_tower(false, &None, &stage, np, &vec![], &w, 2000, 7), None);
    let running = Some(WinTimer::start(1000, 5000, 7));
    assert_eq!(check_for_tower(true, &running, &stage, np, &vec![], &w, 2000, 7), None);
    let mut held = released_stage();
    on_drag_start(
        &mut held,
        false,
        &DragStartEvent { drag_source: DragSource::Mouse, position: Point::new(0, 0) },
        &vec![Hit { entity: 1, translation: Point::new(0, 0), rotation: 0 }],
    );
    assert_eq!(check_for_tower(true, &None, &held, np, &vec![], &w, 2000, 7), None);
    assert!(check_for_tower(true, &None, &stage, np, &vec![], &w, 2000, 7).is_some());
}

#[test]
fn no_countdown_while_a_wall_is_touched() {
    let stage = released_stage();
    let mut live = Live::new(-9.81);
    live.ball(0.5);
    let wall = live.wall(-1.0);
    live.step(30);
    let walls = vec![wall.into_raw_parts()];
    assert_eq!(
        check_for_tower(true, &None, &stage, &live.narrow_phase, &walls, &live.copy(&[wall]), 2000, 7),
        None
    );
}

#[test]
fn bodies_come_in_without_continuous_collision_detection() {
    let mut w = empty(-9.81);
    let fast = w.add_body(RigidBodyBuilder::dynamic().ccd_enabled(true).build());
    let slow = w.add_body(RigidBodyBuilder::dynamic().build());
    for body in [fast, slow] {
        assert!(!w.bodies().get(RigidBodyHandle::from_raw_parts(body.0, body.1)).unwrap().is_ccd_enabled());
    }
}

#[test]
fn shapes_of_the_plain_kinds_come_in_and_no_others() {
    let mut w = empty(-9.81);
    let body = w.add_body(RigidBodyBuilder::dynamic().build());
    let corner = Anchor::new(0.0, 0.0);
    let plain = vec![
        ColliderBuilder::ball(0.5),
        ColliderBuilder::cuboid(0.5, 0.5),
        ColliderBuilder::capsule_y(0.5, 0.2),
        ColliderBuilder::segment(corner, Anchor::new(1.0, 0.0)),
        ColliderBuilder::triangle(corner, Anchor::new(1.0, 0.0), Anchor::new(0.0, 1.0)),
        ColliderBuilder::convex_hull(&[corner, Anchor::new(1.0, 0.0), Anchor::new(0.0, 1.0)]).unwrap(),
        ColliderBuilder::compound(vec![
            (Vector::new(0.0, 0.0).into(), rapier2d::geometry::SharedShape::cuboid(0.1, 0.5)),
            (Vector::new(1.0, 0.0).into(), rapier2d::geometry::SharedShape::ball(0.5)),
        ]),
    ];
    let count = plain.len();
    for builder in plain {
        assert!(w.add_collider(builder.build(), Some(body), false).is_some());
    }
    assert_eq!(w.colliders().len(), count);
    let others = vec![
        ColliderBuilder::round_cuboid(0.5, 0.5, 0.1),
        ColliderBuilder::round_cuboid(0.5, 0.5, -0.1),
        ColliderBuilder::round_triangle(corner, Anchor::new(1.0, 0.0), Anchor::new(0.0, 1.0), 0.1),
        ColliderBuilder::polyline(vec![corner, Anchor::new(1.0, 0.0), Anchor::new(0.0, 1.0)], None),
        ColliderBuilder::trimesh(vec![corner, Anchor::new(1.0, 0.0), Anchor::new(0.0, 1.0)], vec![[0, 1, 2]]),
        ColliderBuilder::compound(vec![(
            Vector::new(0.0, 0.0).into(),
            rapier2d::geometry::SharedShape::round_cuboid(0.5, 0.5, 0.1),
        )]),
    ];
    for builder in others {
        assert_eq!(w.add_collider(builder.build(), Some(body), true), None);
        assert_eq!(w.add_collider(builder.build(), None, true), None);
    }
    assert_eq!(w.colliders().len(), count);
    assert_eq!(w.walls().len(), 0);
    assert!(!check_future_collisions(&w, 60, 30));
}

#[test]
fn worlds_of_odd_bodies_are_stepped_all_the_same() {
    // positions and speeds that are no numbers, shapes of no size, a body at rest for good
    for bad in [Real::NAN, Real::INFINITY, Real::NEG_INFINITY, Real::MAX, Real::MIN_POSITIVE] {
        let mut w = empty(-9.81);
        let body = RigidBodyBuilder::dynamic()
            .translation(Vector::new(bad, 1.0))
            .linvel(Vector::new(1.0, bad))
            .angvel(bad)
            .ccd_enabled(true)
            .build();
        let odd = w.add_body(body);
        w.add_collider(ColliderBuilder::ball(0.5).build(), Some(odd), false);
        w.add_collider(ColliderBuilder::cuboid(bad, 0.0).build(), Some(odd), false);
        let still = w.add_body(RigidBodyBuilder::dynamic().translation(Vector::new(0.0, 3.0)).sleeping(true).build());
        w.add_collider(ColliderBuilder::ball(0.0).build(), Some(still), false);
        w.add_collider(sensor_below(-1.0), None, true);
        let _ = check_future_collisions(&w, 60, 50);
        let _ = check_future_collisions(&w, 0, 5);
        let _ = check_future_collisions(&w, u32::MAX, 5);
    }
    let mut w = PhysicsWorld::new(Vector::new(Real::NAN, Real::INFINITY));
    let ball = w.add_body(RigidBodyBuilder::dynamic().build());
    w.add_collider(ColliderBuilder::ball(0.5).build(), Some(ball), false);
    let _ = check_future_collisions(&w, 60, 50);
}

#[test]
fn kinds_of_shape_have_parry_numbers() {
    assert_eq!(ShapeType::Ball as u32, 0);
    assert_eq!(ShapeType::Cuboid as u32, 1);
    assert_eq!(ShapeType::Capsule as u32, 2);
    assert_eq!(ShapeType::Segment as u32, 3);
    assert_eq!(ShapeType::Triangle as u32, TRIANGLE);
    assert_eq!(ShapeType::Compound as u32, COMPOUND);
    assert_eq!(ShapeType::ConvexPolygon as u32, CONVEX_POLYGON);
    assert_eq!(ShapeType::RoundCuboid as u32, 11);
    for plain in [0, 1, 2, 3, 4, 10] {
        assert!(shape_allowed(plain, &vec![]));
        assert!(shape_allowed(plain, &vec![11]));
    }
    for other in [5, 6, 7, 8, 11, 12, 13, 14, 15, u32::MAX] {
        assert!(!shape_allowed(other, &vec![]));
        assert!(!shape_allowed(COMPOUND, &vec![0, other, 1]));
    }
    assert!(shape_allowed(COMPOUND, &vec![]));
    assert!(shape_allowed(COMPOUND, &vec![0, 1, 2, 3, 4, 10]));
    assert!(!shape_allowed(COMPOUND, &vec![0, COMPOUND]));
}

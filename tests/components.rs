use boids::components::{Agent, Boid, DeltaTime, Position, Velocity};
use boids::movement::{update_position, MovementSys};
use std::cmp::Ordering;

#[test]
fn velocity_new_scales_by_force_multiplier() {
    assert_eq!(Velocity::new(1000, -1000), Velocity { x: 1300, y: -1300 });
    assert_eq!(Velocity::new(1, -1), Velocity { x: 1, y: -1 });
    assert_eq!(Velocity::new(0, 7), Velocity { x: 0, y: 9 });
}

#[test]
fn velocity_new_saturates() {
    assert_eq!(Velocity::new(i32::MAX, i32::MIN), Velocity { x: i32::MAX, y: i32::MIN });
}

#[test]
fn position_new_keeps_coordinates() {
    let p = Position::new(-3, 12);
    assert_eq!(p.x, -3);
    assert_eq!(p.y, 12);
}

#[test]
fn distance_compares_squared_distances() {
    let me = Position::new(0, 0);
    assert_eq!(me.distance(&Position::new(1, 1), &Position::new(3, 4)), Ordering::Less);
    assert_eq!(me.distance(&Position::new(3, 4), &Position::new(0, 5)), Ordering::Equal);
    assert_eq!(me.distance(&Position::new(-5, 0), &Position::new(1, 1)), Ordering::Greater);
}

#[test]
fn distance_to_rounds_down() {
    let me = Position::new(0, 0);
    assert_eq!(me.distance_to(&Position::new(3, 4)), 5);
    assert_eq!(me.distance_to(&Position::new(1, 1)), 1);
    assert_eq!(me.distance_to(&Position::new(0, 0)), 0);
    assert_eq!(me.distance_to(&Position::new(2, 2)), 2);
}

#[test]
fn distance_to_extreme_coordinates() {
    let a = Position::new(i32::MIN, i32::MIN);
    let b = Position::new(i32::MAX, i32::MAX);
    // sqrt(2) * (2^32 - 1), rounded down
    assert_eq!(a.distance_to(&b), 6074000998);
}

#[test]
fn boid_marker() {
    assert_eq!(Boid::new(), Boid {});
}

#[test]
fn update_position_moves_along_velocity() {
    let mut p = Position::new(1000, 1000);
    update_position(&mut p, &Velocity { x: 1300, y: -2600 }, 500_000);
    assert_eq!(p, Position::new(1650, -300));
}

#[test]
fn update_position_truncates_toward_zero() {
    let mut p = Position::new(10, 10);
    update_position(&mut p, &Velocity { x: 3, y: -3 }, 100_000);
    assert_eq!(p, Position::new(10, 10));
    update_position(&mut p, &Velocity { x: 15, y: -15 }, 100_000);
    assert_eq!(p, Position::new(11, 9));
}

#[test]
fn update_position_zero_elapsed() {
    let mut p = Position::new(5, 6);
    update_position(&mut p, &Velocity { x: 3000, y: -3000 }, 0);
    assert_eq!(p, Position::new(5, 6));
}

#[test]
fn update_position_saturates() {
    let mut p = Position::new(i32::MAX - 1, i32::MIN + 1);
    update_position(&mut p, &Velocity { x: 1_000_000, y: -1_000_000 }, 1_000_000);
    assert_eq!(p, Position::new(i32::MAX, i32::MIN));
}

#[test]
fn integration_fixture() {
    // position (1, 1) cell, raw velocity (1, 1) cell per second, 1 ms elapsed
    let mut p = Position::new(1000, 1000);
    let v = Velocity::new(1000, 1000);
    update_position(&mut p, &v, 1000);
    assert_eq!(p, Position::new(1001, 1001));
    assert_eq!((p.x / 1000, p.y / 1000), (1, 1));
}

#[test]
fn movement_system_moves_every_agent() {
    let mut agents = vec![
        Agent { position: Position::new(0, 0), velocity: Velocity { x: 1000, y: 0 }, is_boid: true },
        Agent { position: Position::new(5, 5), velocity: Velocity { x: 0, y: -2000 }, is_boid: false },
    ];
    let mut sys = MovementSys;
    sys.run(&DeltaTime(250_000), &mut agents);
    assert_eq!(agents.len(), 2);
    assert_eq!(agents[0].position, Position::new(250, 0));
    assert_eq!(agents[1].position, Position::new(5, -495));
    assert_eq!(agents[1].velocity, Velocity { x: 0, y: -2000 });
}

use boids::components::Position;
use boids::config::{Boundary, Config};
use boids::flocking::BoidSystem;
use boids::ranking::rank;

#[test]
fn text_sort_stable() {
    let pos = Position::new(20, 20);
    let mut positions = vec![
        Position::new(25, 25),
        Position::new(10, 10),
        Position::new(15, 15),
        pos.clone(),
    ];
    positions.sort_unstable_by(|a, b| pos.distance(a, b));
    assert_eq!(
        vec![
            Position::new(20, 20),
            Position::new(25, 25),
            Position::new(15, 15),
            Position::new(10, 10),
        ],
        positions
    );
}

#[test]
fn rank_orders_by_distance_ties_by_index() {
    let me = Position::new(0, 0);
    let pts = vec![
        Position::new(3, 4),
        Position::new(0, 5),
        Position::new(1, 1),
        Position::new(-5, 0),
        Position::new(0, 0),
    ];
    assert_eq!(rank(&me, &pts), vec![4, 2, 0, 1, 3]);
}

#[test]
fn rank_is_repeatable() {
    let me = Position::new(7, -2);
    let pts = vec![
        Position::new(8, -2),
        Position::new(6, -2),
        Position::new(7, -1),
        Position::new(100, 100),
        Position::new(7, -3),
        Position::new(7, -2),
    ];
    let first = rank(&me, &pts);
    let second = rank(&me, &pts);
    assert_eq!(first, second);
    assert_eq!(first, vec![5, 0, 1, 2, 4, 3]);
}

#[test]
fn rank_follows_euclidean_distance() {
    let me = Position::new(10, 10);
    let pts = vec![
        Position::new(40, 10),
        Position::new(10, 12),
        Position::new(13, 14),
        Position::new(0, 0),
        Position::new(10, 10),
    ];
    let order = rank(&me, &pts);
    for w in order.windows(2) {
        assert!(me.distance_to(&pts[w[0]]) <= me.distance_to(&pts[w[1]]));
    }
    assert_eq!(order, vec![4, 1, 2, 3, 0]);
}

#[test]
fn rank_empty_population() {
    assert_eq!(rank(&Position::new(1, 1), &[]), Vec::<usize>::new());
}

#[test]
fn neighbours_sorts_in_place() {
    let sys = BoidSystem::new(Config::standard(Boundary::Wrap));
    let me = Position::new(0, 0);
    let mut pts = vec![
        Position::new(3, 4),
        Position::new(0, 5),
        Position::new(1, 1),
        Position::new(-5, 0),
        Position::new(0, 0),
    ];
    sys.neighbours(&me, &mut pts);
    assert_eq!(
        pts,
        vec![
            Position::new(0, 0),
            Position::new(1, 1),
            Position::new(3, 4),
            Position::new(0, 5),
            Position::new(-5, 0),
        ]
    );
}

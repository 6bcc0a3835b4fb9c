use boids::components::{Agent, DeltaTime, Position, Velocity};
use boids::config::{Boundary, Config, ConfigError};
use boids::simulation::Simulation;

fn agent(x: i32, y: i32, vx: i32, vy: i32) -> Agent {
    Agent { position: Position::new(x, y), velocity: Velocity { x: vx, y: vy }, is_boid: true }
}

fn dist_sq(a: Position, x: i64, y: i64) -> i64 {
    let dx = a.x as i64 - x;
    let dy = a.y as i64 - y;
    dx * dx + dy * dy
}

#[test]
fn config_check_errors() {
    let good = Config::standard(Boundary::Wrap);
    assert_eq!(good.check(11), Ok(()));
    assert_eq!(good.check(10), Err(ConfigError::TooManyNeighbours));
    let mut empty = good;
    empty.width = 0;
    assert_eq!(empty.check(11), Err(ConfigError::EmptyArena));
    let mut flat = good;
    flat.height = -4;
    assert_eq!(flat.check(11), Err(ConfigError::EmptyArena));
    let mut bad = good;
    bad.coherence_factor = 0;
    assert_eq!(bad.check(11), Err(ConfigError::InvalidParameter));
    let mut slow = good;
    slow.max_speed = -1;
    assert_eq!(slow.check(11), Err(ConfigError::InvalidParameter));
}

#[test]
fn new_rejects_bad_configuration() {
    let cfg = Config::standard(Boundary::Reflect);
    let agents = vec![agent(1, 1, 0, 0); 10];
    assert!(matches!(Simulation::new(cfg, agents), Err(ConfigError::TooManyNeighbours)));
    let mut empty = cfg;
    empty.width = 0;
    let agents = vec![agent(1, 1, 0, 0); 11];
    assert!(matches!(Simulation::new(empty, agents), Err(ConfigError::EmptyArena)));
    assert!(matches!(Simulation::spawn(empty, 150), Err(ConfigError::EmptyArena)));
}

#[test]
fn spawn_places_agents_in_arena() {
    let cfg = Config::standard(Boundary::Wrap);
    let sim = Simulation::spawn(cfg, 150).unwrap();
    let agents = sim.agents();
    assert_eq!(agents.len(), 150);
    for a in agents {
        assert!(a.is_boid);
        assert!(0 <= a.position.x && a.position.x < cfg.width);
        assert!(0 <= a.position.y && a.position.y < cfg.height);
        assert!(a.velocity.x.abs() <= 3900 && a.velocity.y.abs() <= 3900);
    }
    assert!(agents.iter().any(|a| a.position != agents[0].position));
    assert!(agents.iter().any(|a| a.velocity != agents[0].velocity));
    assert_eq!(sim.config(), cfg);
}

#[test]
fn three_agents_cohere() {
    let mut cfg = Config::standard(Boundary::Reflect);
    cfg.max_proximal_boids = 2;
    let start = vec![
        agent(10_000, 10_000, 0, 0),
        agent(40_000, 10_000, 0, 0),
        agent(25_000, 40_000, 0, 0),
    ];
    let (cx, cy) = (25_000, 20_000);
    let mut sim = Simulation::new(cfg, start.clone()).unwrap();
    sim.tick(DeltaTime(16_000));
    let after = sim.agents();
    assert_eq!(after.len(), 3);
    for (b, a) in start.iter().zip(after.iter()) {
        assert!(dist_sq(a.position, cx, cy) < dist_sq(b.position, cx, cy));
        assert!(a.velocity.x.abs() <= cfg.max_speed && a.velocity.y.abs() <= cfg.max_speed);
    }
    assert_eq!(after[0], agent(12_500, 11_666, 3000, 2165));
}

#[test]
fn single_agent_bounces_off_right_edge() {
    let mut cfg = Config::standard(Boundary::Reflect);
    cfg.max_proximal_boids = 0;
    let mut sim = Simulation::new(cfg, vec![agent(150_000, 50_000, 2000, 1000)]).unwrap();
    sim.tick(DeltaTime(100_000));
    let a = sim.agents()[0];
    assert_eq!(a.velocity, Velocity { x: -2000, y: -1000 });
    assert_eq!(a.position, Position::new(150_200, 50_100));
    sim.tick(DeltaTime(100_000));
    let b = sim.agents()[0];
    assert_eq!(b.position, Position::new(150_000, 50_000));
}

#[test]
fn wrap_brings_agent_back() {
    let mut cfg = Config::standard(Boundary::Wrap);
    cfg.max_proximal_boids = 0;
    let mut sim = Simulation::new(cfg, vec![agent(149_900, 50, 2000, -1000)]).unwrap();
    sim.tick(DeltaTime(100_000));
    assert_eq!(sim.agents()[0], agent(100, 99_950, 2000, -1000));
}

#[test]
fn population_size_is_fixed() {
    let cfg = Config::standard(Boundary::Wrap);
    let mut sim = Simulation::spawn(cfg, 150).unwrap();
    for _ in 0..20 {
        sim.tick(DeltaTime(16_667));
        assert_eq!(sim.agents().len(), 150);
        for a in sim.agents() {
            assert!(a.velocity.x.abs() <= cfg.max_speed && a.velocity.y.abs() <= cfg.max_speed);
        }
    }
}

#[test]
fn non_boids_are_not_steered() {
    let cfg = Config::standard(Boundary::Wrap);
    let mut agents = vec![agent(50_000, 50_000, 0, 0); 11];
    agents[3].is_boid = false;
    agents[3].velocity = Velocity { x: 9000, y: 0 };
    let mut sim = Simulation::new(cfg, agents).unwrap();
    sim.tick(DeltaTime(0));
    assert_eq!(sim.agents()[3].velocity, Velocity { x: 9000, y: 0 });
    assert_eq!(sim.agents()[3].position, Position::new(50_000, 50_000));
}

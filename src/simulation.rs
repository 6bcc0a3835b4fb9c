//! The tick orchestrator: a validated population and its configuration,
//! advanced one tick at a time.
use vstd::prelude::*;

use crate::arith::{fit, scale_by};
use crate::components::{Agent, DeltaTime, Position, Velocity};
use crate::config::{Config, ConfigError};
use crate::constants::{SCALE_PERMILLE, SPAWN_SPEED};
use crate::flocking::{bounded_all, flocked, within_speed, BoidSystem};
use crate::movement::{moved, MovementSys};
use rand::Rng;

verus! {

/// The population after one tick of `micros` microseconds: integration, the
/// boundary policy, then one steering pass of every boid.
pub open spec fn ticked(cfg: Config, agents: Seq<Agent>, micros: int) -> Seq<Agent> {
    flocked(cfg, bounded_all(cfg, moved(agents, micros)))
}

/// A tick neither creates nor removes agents, and keeps each agent's flock
/// membership.
pub proof fn lemma_ticked_keeps_population(cfg: Config, agents: Seq<Agent>, micros: int)
    ensures
        ticked(cfg, agents, micros).len() == agents.len(),
        forall|i: int|
            0 <= i < agents.len() ==> (#[trigger] ticked(cfg, agents, micros)[i]).is_boid
                == agents[i].is_boid,
{
}

/// `a` is a boid that the spawner can produce: a position in the arena and a
/// raw velocity in `[-SPAWN_SPEED, SPAWN_SPEED)` on each axis, scaled as by
/// [`Velocity::new`].
pub open spec fn spawnable(cfg: Config, a: Agent) -> bool {
    &&& 0 <= a.position.x < cfg.width
    &&& 0 <= a.position.y < cfg.height
    &&& a.is_boid
    &&& exists|rx: int, ry: int|
        -SPAWN_SPEED <= rx < SPAWN_SPEED && -SPAWN_SPEED <= ry < SPAWN_SPEED && a.velocity.x == fit(
            scale_by(rx, SCALE_PERMILLE as int),
        ) && a.velocity.y == fit(scale_by(ry, SCALE_PERMILLE as int))
}

/// Relies on `rand::Rng::gen_range` on `rand::thread_rng()`: a value drawn
/// from `[lo, hi)`; it panics on an empty range.
#[verifier::external_body]
fn random_in(lo: i32, hi: i32) -> (r: i32)
    requires
        lo < hi,
    ensures
        lo <= r < hi,
{
    rand::thread_rng().gen_range(lo..hi)
}

/// A fixed population of agents under one configuration.
pub struct Simulation {
    config: Config,
    agents: Vec<Agent>,
}

impl Simulation {
    /// The agents, in their fixed order.
    pub closed spec fn population(&self) -> Seq<Agent> {
        self.agents@
    }

    /// The configuration, fixed for the run.
    pub closed spec fn configuration(&self) -> Config {
        self.config
    }

    /// The configuration is valid for the population.
    pub open spec fn wf(&self) -> bool {
        self.configuration().check_result(self.population().len() as int) is Ok
    }

    /// A simulation of `agents` under `config`, or the reason why the
    /// configuration cannot run them.
    pub fn new(config: Config, agents: Vec<Agent>) -> (r: Result<Simulation, ConfigError>)
        ensures
            r is Err <==> config.check_result(agents@.len() as int) is Err,
            r is Err ==> r == Err::<Simulation, ConfigError>(
                config.check_result(agents@.len() as int)->Err_0,
            ),
            r is Ok ==> r->Ok_0.wf() && r->Ok_0.configuration() == config
                && r->Ok_0.population() == agents@,
    {
        match config.check(agents.len()) {
            Ok(()) => Ok(Simulation { config, agents }),
            Err(e) => Err(e),
        }
    }

    /// A simulation of `count` boids spawned at random: uniform positions in
    /// the arena and uniform raw velocities in `[-SPAWN_SPEED, SPAWN_SPEED)`.
    pub fn spawn(config: Config, count: usize) -> (r: Result<Simulation, ConfigError>)
        ensures
            r is Err <==> config.check_result(count as int) is Err,
            r is Err ==> r == Err::<Simulation, ConfigError>(
                config.check_result(count as int)->Err_0,
            ),
            r is Ok ==> r->Ok_0.wf() && r->Ok_0.configuration() == config
                && r->Ok_0.population().len() == count && forall|i: int|
                0 <= i < count ==> spawnable(config, #[trigger] r->Ok_0.population()[i]),
    {
        if let Err(e) = config.check(count) {
            return Err(e);
        }
        let mut agents: Vec<Agent> = Vec::new();
        let mut i: usize = 0;
        while i < count
            invariant
                config.valid(),
                i <= count,
                agents@.len() == i,
                forall|k: int| 0 <= k < i ==> spawnable(config, #[trigger] agents@[k]),
            decreases count - i,
        {
            let x = random_in(0, config.width);
            let y = random_in(0, config.height);
            let vx = random_in(-SPAWN_SPEED, SPAWN_SPEED);
            let vy = random_in(-SPAWN_SPEED, SPAWN_SPEED);
            let a = Agent { position: Position::new(x, y), velocity: Velocity::new(vx, vy), is_boid: true };
            assert(spawnable(config, a));
            agents.push(a);
            i = i + 1;
        }
        Simulation::new(config, agents)
    }

    /// The agents, in their fixed order.
    pub fn agents(&self) -> (r: &[Agent])
        ensures
            r@ == self.population(),
    {
        self.agents.as_slice()
    }

    /// The configuration.
    pub fn config(&self) -> (r: Config)
        ensures
            r == self.configuration(),
    {
        self.config
    }

    /// Advances the simulation by one tick of `delta`: integrate every agent,
    /// apply the boundary policy, then steer every boid against one snapshot
    /// and limit its speed. No agent is created or removed.
    pub fn tick(&mut self, delta: DeltaTime)
        requires
            old(self).wf(),
        ensures
            final(self).population() == ticked(
                old(self).configuration(),
                old(self).population(),
                delta.0 as int,
            ),
            final(self).configuration() == old(self).configuration(),
            final(self).population().len() == old(self).population().len(),
            final(self).wf(),
            forall|i: int|
                0 <= i < final(self).population().len()
                    && (#[trigger] final(self).population()[i]).is_boid ==> within_speed(
                    old(self).configuration(),
                    final(self).population()[i].velocity,
                ),
    {
        let mut movement = MovementSys;
        movement.run(&delta, &mut self.agents);
        let mut boids = BoidSystem::new(self.config);
        boids.run(&mut self.agents);
    }
}

} // verus!

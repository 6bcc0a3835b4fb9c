//! The steering engine: boundary policy, the three flocking rules and the
//! speed limit, and one pass of all of them over a population.
use vstd::prelude::*;

use crate::arith::{
    clamp_abs, clamp_abs_i32, fit, fit_i32, scale_by, scale_i128, trunc_div, trunc_div_i128,
};
use crate::components::{dist_sq, Agent, Position, Velocity};
use crate::config::{Boundary, Config};
use crate::ranking::{rank, ranking};

verus! {

/// `p` lies outside the arena `[0, width) x [0, height)`.
pub open spec fn outside(cfg: Config, p: Position) -> bool {
    p.x < 0 || p.x >= cfg.width || p.y < 0 || p.y >= cfg.height
}

/// Coordinate `c` re-entered from the opposite edge when it left `[0, bound)`.
pub open spec fn wrapped(c: int, bound: int) -> int {
    if c >= bound {
        c - bound
    } else if c < 0 {
        c + bound
    } else {
        c
    }
}

/// Agent `a` after the boundary policy of `cfg`.
pub open spec fn bounded(cfg: Config, a: Agent) -> Agent {
    match cfg.boundary {
        Boundary::Wrap => Agent {
            position: Position {
                x: wrapped(a.position.x as int, cfg.width as int) as i32,
                y: wrapped(a.position.y as int, cfg.height as int) as i32,
            },
            ..a
        },
        Boundary::Reflect => if outside(cfg, a.position) {
            Agent {
                velocity: Velocity {
                    x: fit(-a.velocity.x) as i32,
                    y: fit(-a.velocity.y) as i32,
                },
                ..a
            }
        } else {
            a
        },
    }
}

/// `v` with each component clamped into `[-max_speed, max_speed]`.
pub open spec fn limited(cfg: Config, v: Velocity) -> Velocity {
    Velocity {
        x: clamp_abs(v.x as int, cfg.max_speed as int) as i32,
        y: clamp_abs(v.y as int, cfg.max_speed as int) as i32,
    }
}

/// Each component of `v` lies in `[-max_speed, max_speed]`.
pub open spec fn within_speed(cfg: Config, v: Velocity) -> bool {
    -cfg.max_speed <= v.x <= cfg.max_speed && -cfg.max_speed <= v.y <= cfg.max_speed
}

/// How many of `len` ranked neighbours the rules consider.
pub open spec fn nearest(cfg: Config, len: int) -> int {
    if (cfg.max_proximal_boids as int) < len {
        cfg.max_proximal_boids as int
    } else {
        len
    }
}

/// `q` is close enough to `p` to repel it.
pub open spec fn repels(cfg: Config, p: Position, q: Position) -> bool {
    dist_sq(p, q) < cfg.separation_factor * cfg.separation_factor
}

/// Sum of `p.x - q.x` over the first `k` of `pts` that repel `p`.
pub open spec fn repulsion_x(cfg: Config, p: Position, pts: Seq<Position>, k: int) -> int
    decreases k,
{
    if k <= 0 {
        0
    } else {
        repulsion_x(cfg, p, pts, k - 1) + if repels(cfg, p, pts[k - 1]) {
            p.x - pts[k - 1].x
        } else {
            0
        }
    }
}

/// Sum of `p.y - q.y` over the first `k` of `pts` that repel `p`.
pub open spec fn repulsion_y(cfg: Config, p: Position, pts: Seq<Position>, k: int) -> int
    decreases k,
{
    if k <= 0 {
        0
    } else {
        repulsion_y(cfg, p, pts, k - 1) + if repels(cfg, p, pts[k - 1]) {
            p.y - pts[k - 1].y
        } else {
            0
        }
    }
}

/// Sum of the x coordinates of the first `k` positions.
pub open spec fn sum_x(pts: Seq<Position>, k: int) -> int
    decreases k,
{
    if k <= 0 {
        0
    } else {
        sum_x(pts, k - 1) + pts[k - 1].x
    }
}

/// Sum of the y coordinates of the first `k` positions.
pub open spec fn sum_y(pts: Seq<Position>, k: int) -> int
    decreases k,
{
    if k <= 0 {
        0
    } else {
        sum_y(pts, k - 1) + pts[k - 1].y
    }
}

/// Sum of the x components of the first `k` velocities.
pub open spec fn sum_vx(vels: Seq<Velocity>, k: int) -> int
    decreases k,
{
    if k <= 0 {
        0
    } else {
        sum_vx(vels, k - 1) + vels[k - 1].x
    }
}

/// Sum of the y components of the first `k` velocities.
pub open spec fn sum_vy(vels: Seq<Velocity>, k: int) -> int
    decreases k,
{
    if k <= 0 {
        0
    } else {
        sum_vy(vels, k - 1) + vels[k - 1].y
    }
}

/// `p` moved by `(dx, dy)`, saturating.
pub open spec fn shifted(p: Position, dx: int, dy: int) -> Position {
    Position { x: fit(p.x + dx) as i32, y: fit(p.y + dy) as i32 }
}

/// `v` plus `(dx, dy)` scaled by the force multiplier, saturating.
pub open spec fn pushed(cfg: Config, v: Velocity, dx: int, dy: int) -> Velocity {
    Velocity {
        x: fit(v.x + scale_by(dx, cfg.scale_permille as int)) as i32,
        y: fit(v.y + scale_by(dy, cfg.scale_permille as int)) as i32,
    }
}

/// Separation: the summed offsets from the repelling nearest neighbours,
/// scaled, replace the velocity and are added to the position.
pub open spec fn separated(cfg: Config, p: Position, v: Velocity, pts: Seq<Position>) -> (
    Position,
    Velocity,
) {
    let k = nearest(cfg, pts.len() as int);
    if k == 0 {
        (p, v)
    } else {
        let sx = repulsion_x(cfg, p, pts, k);
        let sy = repulsion_y(cfg, p, pts, k);
        (shifted(p, sx, sy), pushed(cfg, Velocity { x: 0, y: 0 }, sx, sy))
    }
}

/// Alignment: the average velocity of the nearest neighbours, scaled, is
/// added to the velocity and, unscaled, to the position.
pub open spec fn aligned(cfg: Config, p: Position, v: Velocity, vels: Seq<Velocity>) -> (
    Position,
    Velocity,
) {
    let k = nearest(cfg, vels.len() as int);
    if k == 0 {
        (p, v)
    } else {
        let dx = trunc_div(sum_vx(vels, k), k);
        let dy = trunc_div(sum_vy(vels, k), k);
        (shifted(p, dx, dy), pushed(cfg, v, dx, dy))
    }
}

/// Cohesion: the offset to the nearest neighbours' centroid over the
/// coherence divisor, scaled, is added to the velocity and, unscaled, to the
/// position.
pub open spec fn cohered(cfg: Config, p: Position, v: Velocity, pts: Seq<Position>) -> (
    Position,
    Velocity,
) {
    let k = nearest(cfg, pts.len() as int);
    if k == 0 {
        (p, v)
    } else {
        let dx = trunc_div(sum_x(pts, k) - k * p.x, k * cfg.coherence_factor);
        let dy = trunc_div(sum_y(pts, k) - k * p.y, k * cfg.coherence_factor);
        (shifted(p, dx, dy), pushed(cfg, v, dx, dy))
    }
}

} // verus!

verus! {

/// The positions of a sequence of agents.
pub open spec fn positions_of(s: Seq<Agent>) -> Seq<Position> {
    s.map_values(|a: Agent| a.position)
}

/// Agent `i` of the snapshot `snap` after one steering pass: the rest of the
/// snapshot is ranked from its position, then separation, alignment and
/// cohesion are applied in turn over that ranking, then the speed limit.
pub open spec fn steered(cfg: Config, snap: Seq<Agent>, i: int) -> Agent {
    let me = snap[i];
    let rest = snap.remove(i);
    let o = ranking(me.position, positions_of(rest));
    let pts = o.map_values(|j: usize| rest[j as int].position);
    let vels = o.map_values(|j: usize| rest[j as int].velocity);
    let (p1, v1) = separated(cfg, me.position, me.velocity, pts);
    let (p2, v2) = aligned(cfg, p1, v1, vels);
    let (p3, v3) = cohered(cfg, p2, v2, pts);
    Agent { position: p3, velocity: limited(cfg, v3), is_boid: me.is_boid }
}

/// Every boid of the snapshot steered against the same snapshot; other agents
/// are left as they are.
pub open spec fn flocked(cfg: Config, snap: Seq<Agent>) -> Seq<Agent> {
    Seq::new(
        snap.len(),
        |i: int|
            if snap[i].is_boid {
                steered(cfg, snap, i)
            } else {
                snap[i]
            },
    )
}

/// The boundary policy applied to every agent.
pub open spec fn bounded_all(cfg: Config, agents: Seq<Agent>) -> Seq<Agent> {
    agents.map_values(|a: Agent| bounded(cfg, a))
}

/// Steers the boids of a population.
pub struct BoidSystem {
    pub config: Config,
}

impl BoidSystem {
    pub fn new(config: Config) -> (r: BoidSystem)
        ensures
            r.config == config,
    {
        BoidSystem { config }
    }

    fn nearest_count(&self, len: usize) -> (k: usize)
        ensures
            k == nearest(self.config, len as int),
            k <= 0x1_0000_0000,
    {
        if (self.config.max_proximal_boids as usize) < len {
            self.config.max_proximal_boids as usize
        } else {
            len
        }
    }

    /// Clamps each component of `vel` into `[-max_speed, max_speed]`.
    pub fn limit_speed(&self, vel: &mut Velocity)
        requires
            self.config.valid(),
        ensures
            *final(vel) == limited(self.config, *old(vel)),
            within_speed(self.config, *final(vel)),
    {
        vel.x = clamp_abs_i32(vel.x, self.config.max_speed);
        vel.y = clamp_abs_i32(vel.y, self.config.max_speed);
    }

    /// Applies the boundary policy to one agent.
    pub fn apply_boundary(&self, agent: &mut Agent)
        requires
            self.config.valid(),
        ensures
            *final(agent) == bounded(self.config, *old(agent)),
    {
        match self.config.boundary {
            Boundary::Wrap => {
                let w = self.config.width;
                let h = self.config.height;
                if agent.position.x >= w {
                    agent.position.x = agent.position.x - w;
                } else if agent.position.x < 0 {
                    agent.position.x = agent.position.x + w;
                }
                if agent.position.y >= h {
                    agent.position.y = agent.position.y - h;
                } else if agent.position.y < 0 {
                    agent.position.y = agent.position.y + h;
                }
            },
            Boundary::Reflect => {
                let p = agent.position;
                if p.x < 0 || p.x >= self.config.width || p.y < 0 || p.y >= self.config.height {
                    agent.velocity.x = fit_i32(-(agent.velocity.x as i128));
                    agent.velocity.y = fit_i32(-(agent.velocity.y as i128));
                }
            },
        }
    }

    /// Separation over the first `max_proximal_boids` of the ranked
    /// `positions`: the offsets from `pos` of those closer than
    /// `separation_factor` are summed; the sum, scaled, becomes the velocity
    /// and is added to the position. Nothing changes without neighbours.
    pub fn separate(&self, pos: &mut Position, vel: &mut Velocity, positions: &[Position])
        requires
            self.config.valid(),
        ensures
            (*final(pos), *final(vel)) == separated(self.config, *old(pos), *old(vel), positions@),
    {
        let k = self.nearest_count(positions.len());
        if k == 0 {
            return;
        }
        let p = *pos;
        let sep = self.config.separation_factor;
        let mut sx: i128 = 0;
        let mut sy: i128 = 0;
        let mut j: usize = 0;
        while j < k
            invariant
                self.config.valid(),
                k == nearest(self.config, positions@.len() as int),
                k <= 0x1_0000_0000,
                sep == self.config.separation_factor,
                j <= k,
                sx == repulsion_x(self.config, p, positions@, j as int),
                sy == repulsion_y(self.config, p, positions@, j as int),
                -(j as int) * 0x1_0000_0000 <= sx <= (j as int) * 0x1_0000_0000,
                -(j as int) * 0x1_0000_0000 <= sy <= (j as int) * 0x1_0000_0000,
            decreases k - j,
        {
            let q = positions[j];
            let r = p.distance_to(&q);
            proof {
                crate::components::lemma_floor_sqrt_below(r as int, dist_sq(p, q), sep as int);
            }
            if r < sep as i64 {
                sx = sx + (p.x as i128 - q.x as i128);
                sy = sy + (p.y as i128 - q.y as i128);
            }
            j = j + 1;
        }
        let s = self.config.scale_permille;
        *vel = Velocity { x: fit_i32(scale_i128(sx, s)), y: fit_i32(scale_i128(sy, s)) };
        *pos = Position { x: fit_i32(p.x as i128 + sx), y: fit_i32(p.y as i128 + sy) };
    }

    /// Alignment over the first `max_proximal_boids` of the ranked
    /// neighbours' `velocities`: their average, scaled, is added to the
    /// velocity and, unscaled, to the position. Nothing changes without
    /// neighbours.
    pub fn align(&self, pos: &mut Position, vel: &mut Velocity, velocities: &[Velocity])
        requires
            self.config.valid(),
        ensures
            (*final(pos), *final(vel)) == aligned(self.config, *old(pos), *old(vel), velocities@),
    {
        let k = self.nearest_count(velocities.len());
        if k == 0 {
            return;
        }
        let mut sx: i128 = 0;
        let mut sy: i128 = 0;
        let mut j: usize = 0;
        while j < k
            invariant
                k == nearest(self.config, velocities@.len() as int),
                k <= 0x1_0000_0000,
                j <= k,
                sx == sum_vx(velocities@, j as int),
                sy == sum_vy(velocities@, j as int),
                -(j as int) * 0x8000_0000 <= sx <= (j as int) * 0x8000_0000,
                -(j as int) * 0x8000_0000 <= sy <= (j as int) * 0x8000_0000,
            decreases k - j,
        {
            sx = sx + velocities[j].x as i128;
            sy = sy + velocities[j].y as i128;
            j = j + 1;
        }
        let dx = trunc_div_i128(sx, k as i128);
        let dy = trunc_div_i128(sy, k as i128);
        let s = self.config.scale_permille;
        *vel = Velocity {
            x: fit_i32(vel.x as i128 + scale_i128(dx, s)),
            y: fit_i32(vel.y as i128 + scale_i128(dy, s)),
        };
        *pos = Position { x: fit_i32(pos.x as i128 + dx), y: fit_i32(pos.y as i128 + dy) };
    }

    /// Cohesion over the first `max_proximal_boids` of the ranked
    /// `positions`: the offset from `pos` to their centroid, divided by
    /// `coherence_factor`, is added scaled to the velocity and unscaled to the
    /// position. Nothing changes without neighbours.
    pub fn cohere(&self, pos: &mut Position, vel: &mut Velocity, positions: &[Position])
        requires
            self.config.valid(),
        ensures
            (*final(pos), *final(vel)) == cohered(self.config, *old(pos), *old(vel), positions@),
    {
        let k = self.nearest_count(positions.len());
        if k == 0 {
            return;
        }
        let mut sx: i128 = 0;
        let mut sy: i128 = 0;
        let mut j: usize = 0;
        while j < k
            invariant
                k == nearest(self.config, positions@.len() as int),
                k <= 0x1_0000_0000,
                j <= k,
                sx == sum_x(positions@, j as int),
                sy == sum_y(positions@, j as int),
                -(j as int) * 0x8000_0000 <= sx <= (j as int) * 0x8000_0000,
                -(j as int) * 0x8000_0000 <= sy <= (j as int) * 0x8000_0000,
            decreases k - j,
        {
            sx = sx + positions[j].x as i128;
            sy = sy + positions[j].y as i128;
            j = j + 1;
        }
        let kw: i128 = k as i128;
        let px: i128 = pos.x as i128;
        let py: i128 = pos.y as i128;
        let cf: i128 = self.config.coherence_factor as i128;
        proof {
            assert(-0x1_0000_0000 * 0x8000_0000 <= kw * px <= 0x1_0000_0000 * 0x8000_0000)
                by (nonlinear_arith)
                requires
                    0 <= kw <= 0x1_0000_0000,
                    -0x8000_0000 <= px <= 0x8000_0000,
            ;
            assert(-0x1_0000_0000 * 0x8000_0000 <= kw * py <= 0x1_0000_0000 * 0x8000_0000)
                by (nonlinear_arith)
                requires
                    0 <= kw <= 0x1_0000_0000,
                    -0x8000_0000 <= py <= 0x8000_0000,
            ;
            assert(1 <= kw * cf <= 0x1_0000_0000 * 0x8000_0000) by (nonlinear_arith)
                requires
                    1 <= kw <= 0x1_0000_0000,
                    1 <= cf <= 0x8000_0000,
            ;
        }
        let dx = trunc_div_i128(sx - kw * px, kw * cf);
        let dy = trunc_div_i128(sy - kw * py, kw * cf);
        let s = self.config.scale_permille;
        *vel = Velocity {
            x: fit_i32(vel.x as i128 + scale_i128(dx, s)),
            y: fit_i32(vel.y as i128 + scale_i128(dy, s)),
        };
        *pos = Position { x: fit_i32(px + dx), y: fit_i32(py + dy) };
    }

    /// Agent `i` of `snapshot` after one steering pass against the rest of
    /// the snapshot: ranking, separation, alignment, cohesion, speed limit.
    pub fn steer(&self, snapshot: &[Agent], i: usize) -> (r: Agent)
        requires
            self.config.valid(),
            i < snapshot@.len(),
        ensures
            r == steered(self.config, snapshot@, i as int),
    {
        let n = snapshot.len();
        let me = snapshot[i];
        let mut rest: Vec<Agent> = Vec::new();
        let mut rest_pos: Vec<Position> = Vec::new();
        let mut j: usize = 0;
        while j < n
            invariant
                n == snapshot@.len(),
                i < n,
                j <= n,
                j <= i ==> rest@ =~= snapshot@.subrange(0, j as int),
                j > i ==> rest@ =~= snapshot@.subrange(0, i as int) + snapshot@.subrange(
                    i + 1,
                    j as int,
                ),
                rest_pos@ =~= positions_of(rest@),
            decreases n - j,
        {
            if j != i {
                rest.push(snapshot[j]);
                rest_pos.push(snapshot[j].position);
            }
            j = j + 1;
            assert(rest_pos@ =~= positions_of(rest@));
        }
        assert(rest@ =~= snapshot@.remove(i as int));
        let order = rank(&me.position, rest_pos.as_slice());
        let ghost o = order@;
        let mut pts: Vec<Position> = Vec::new();
        let mut vels: Vec<Velocity> = Vec::new();
        let mut m: usize = 0;
        while m < order.len()
            invariant
                o == order@,
                crate::ranking::is_ranking(me.position, rest_pos@, o),
                rest_pos@.len() == rest@.len(),
                m <= o.len(),
                pts@ =~= o.take(m as int).map_values(|j: usize| rest@[j as int].position),
                vels@ =~= o.take(m as int).map_values(|j: usize| rest@[j as int].velocity),
            decreases o.len() - m,
        {
            let a = rest[order[m]];
            pts.push(a.position);
            vels.push(a.velocity);
            m = m + 1;
            assert(pts@ =~= o.take(m as int).map_values(|j: usize| rest@[j as int].position));
            assert(vels@ =~= o.take(m as int).map_values(|j: usize| rest@[j as int].velocity));
        }
        assert(o.take(m as int) =~= o);
        let mut p = me.position;
        let mut v = me.velocity;
        self.separate(&mut p, &mut v, pts.as_slice());
        self.align(&mut p, &mut v, vels.as_slice());
        self.cohere(&mut p, &mut v, pts.as_slice());
        self.limit_speed(&mut v);
        Agent { position: p, velocity: v, is_boid: me.is_boid }
    }

    /// One steering pass over the population: the boundary policy for every
    /// agent, then every boid steered against one snapshot taken after it.
    pub fn run(&mut self, agents: &mut Vec<Agent>)
        requires
            old(self).config.valid(),
        ensures
            final(agents)@ == flocked(old(self).config, bounded_all(old(self).config, old(agents)@)),
            final(agents)@.len() == old(agents)@.len(),
            final(self).config == old(self).config,
    {
        let n = agents.len();
        let mut i: usize = 0;
        while i < n
            invariant
                self.config.valid(),
                n == agents@.len(),
                n == old(agents)@.len(),
                i <= n,
                forall|k: int|
                    0 <= k < i ==> agents@[k] == bounded(self.config, old(agents)@[k]),
                forall|k: int| i <= k < n ==> agents@[k] == old(agents)@[k],
            decreases n - i,
        {
            let mut a = agents[i];
            self.apply_boundary(&mut a);
            agents.set(i, a);
            i = i + 1;
        }
        let ghost snap = bounded_all(self.config, old(agents)@);
        assert(agents@ =~= snap);
        let mut snapshot: Vec<Agent> = Vec::new();
        let mut c: usize = 0;
        while c < n
            invariant
                n == agents@.len(),
                agents@ == snap,
                c <= n,
                snapshot@ =~= snap.take(c as int),
            decreases n - c,
        {
            snapshot.push(agents[c]);
            c = c + 1;
            assert(snapshot@ =~= snap.take(c as int));
        }
        assert(snap.take(n as int) =~= snap);
        let mut i: usize = 0;
        while i < n
            invariant
                self.config.valid(),
                n == agents@.len(),
                snapshot@ == snap,
                n == snap.len(),
                i <= n,
                forall|k: int| 0 <= k < i ==> agents@[k] == flocked(self.config, snap)[k],
                forall|k: int| i <= k < n ==> agents@[k] == snap[k],
            decreases n - i,
        {
            if snapshot[i].is_boid {
                let r = self.steer(snapshot.as_slice(), i);
                agents.set(i, r);
            }
            i = i + 1;
        }
        assert(agents@ =~= flocked(self.config, snap));
    }

    /// Orders `positions` by distance from `pos`, nearest first, equally
    /// distant positions in their previous order.
    pub fn neighbours(&self, pos: &Position, positions: &mut Vec<Position>)
        ensures
            final(positions)@ == ranking(*pos, old(positions)@).map_values(
                |j: usize| old(positions)@[j as int],
            ),
    {
        let order = rank(pos, positions.as_slice());
        let ghost src = positions@;
        let mut sorted: Vec<Position> = Vec::new();
        let mut m: usize = 0;
        while m < order.len()
            invariant
                src == positions@,
                crate::ranking::is_ranking(*pos, src, order@),
                m <= order@.len(),
                sorted@ =~= order@.take(m as int).map_values(|j: usize| src[j as int]),
            decreases order@.len() - m,
        {
            sorted.push(positions[order[m]]);
            m = m + 1;
            assert(sorted@ =~= order@.take(m as int).map_values(|j: usize| src[j as int]));
        }
        assert(order@.take(m as int) =~= order@);
        *positions = sorted;
    }
}

} // verus!

verus! {

/// Under the reflect policy an agent outside the arena keeps its position and
/// has both velocity components exactly negated; a second pass restores it.
pub proof fn lemma_reflect_negates(cfg: Config, a: Agent)
    requires
        cfg.boundary == Boundary::Reflect,
        outside(cfg, a.position),
        a.velocity.x != i32::MIN,
        a.velocity.y != i32::MIN,
    ensures
        bounded(cfg, a).velocity.x == -a.velocity.x,
        bounded(cfg, a).velocity.y == -a.velocity.y,
        bounded(cfg, a).position == a.position,
        bounded(cfg, a).is_boid == a.is_boid,
        bounded(cfg, bounded(cfg, a)) == a,
{
}

/// Under the reflect policy an agent inside the arena, on its lower edges
/// included, is left as it is.
pub proof fn lemma_reflect_keeps_inside(cfg: Config, a: Agent)
    requires
        cfg.boundary == Boundary::Reflect,
        !outside(cfg, a.position),
    ensures
        bounded(cfg, a) == a,
{
}

} // verus!

//! Integration of velocities into positions over one tick.
use vstd::prelude::*;

use crate::arith::{fit, fit_i32, trunc_div, trunc_div_i128};
use crate::components::{Agent, DeltaTime, Position, Velocity};
use crate::constants::MICROS_PER_SECOND;

verus! {

/// Coordinate `c` moved for `micros` microseconds at `v` units per second,
/// the displacement rounded toward zero.
pub open spec fn advanced(c: int, v: int, micros: int) -> int {
    fit(c + trunc_div(v * micros, MICROS_PER_SECOND as int))
}

/// Position `p` moved along `v` for `micros` microseconds.
pub open spec fn integrated(p: Position, v: Velocity, micros: int) -> Position {
    Position {
        x: advanced(p.x as int, v.x as int, micros) as i32,
        y: advanced(p.y as int, v.y as int, micros) as i32,
    }
}

/// Every agent moved along its own velocity.
pub open spec fn moved(agents: Seq<Agent>, micros: int) -> Seq<Agent> {
    agents.map_values(
        |a: Agent|
            Agent { position: integrated(a.position, a.velocity, micros), ..a },
    )
}

fn advance(c: i32, v: i32, micros: u32) -> (r: i32)
    ensures
        r as int == advanced(c as int, v as int, micros as int),
{
    let vw: i128 = v as i128;
    let mw: i128 = micros as i128;
    proof {
        assert(-0x8000_0000 * 0x1_0000_0000 <= vw * mw <= 0x8000_0000 * 0x1_0000_0000)
            by (nonlinear_arith)
            requires
                -0x8000_0000 <= vw <= 0x8000_0000,
                0 <= mw <= 0x1_0000_0000,
        ;
    }
    let prod: i128 = vw * mw;
    let d = trunc_div_i128(prod, MICROS_PER_SECOND);
    fit_i32(c as i128 + d)
}

/// Moves `pos` along `vel` for `delta` microseconds:
/// `pos += vel * delta`, each coordinate saturating at the range of `i32`.
pub fn update_position(pos: &mut Position, vel: &Velocity, delta: u32)
    ensures
        *final(pos) == integrated(*old(pos), *vel, delta as int),
{
    pos.x = advance(pos.x, vel.x, delta);
    pos.y = advance(pos.y, vel.y, delta);
}

/// Moves every agent along its velocity.
pub struct MovementSys;

impl MovementSys {
    /// Integrates all agents over the elapsed time; the population keeps its
    /// size and order.
    pub fn run(&mut self, delta: &DeltaTime, agents: &mut Vec<Agent>)
        ensures
            final(agents)@ == moved(old(agents)@, delta.0 as int),
            final(agents)@.len() == old(agents)@.len(),
    {
        let n = agents.len();
        let mut i: usize = 0;
        while i < n
            invariant
                n == agents@.len(),
                n == old(agents)@.len(),
                i <= n,
                forall|k: int| 0 <= k < i ==> agents@[k] == moved(old(agents)@, delta.0 as int)[k],
                forall|k: int| i <= k < n ==> agents@[k] == old(agents)@[k],
            decreases n - i,
        {
            let mut a = agents[i];
            update_position(&mut a.position, &a.velocity, delta.0);
            agents.set(i, a);
            i = i + 1;
        }
        assert(agents@ =~= moved(old(agents)@, delta.0 as int));
    }
}

} // verus!

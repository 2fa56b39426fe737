//! Drifting obstacles: spawned once with a random placement and heading,
//! turning at a constant rate in a direction fixed at creation, and —
//! unlike the craft — never wrapped back into the world: an obstacle may
//! drift out of bounds for good, and is drawn once, without wrap
//! replication.

use vstd::prelude::*;

verus! {

use crate::{TAU, COORD_LIMIT};
use crate::util::{
    Vec2, V2, KinModel, CommonProperties, Direction, Rotor, RotorModel, rem_trunc, rotate,
    rotate_vec, in_coord_bounds, reduce_rotation,
};
use crate::render::{DrawCmd, CmdModel, SpriteKind};
use crate::rng::{random_in_range, random_coin};

/// Angle an obstacle turns per tick.
pub const ASTEROID_ROTATION_SPEED: i64 = 20;

/// Magnitude of the velocity an obstacle receives at creation: the base
/// vector of exactly this length, along the local up direction, rotated
/// by the sampled heading.
pub const ASTEROID_SPEED: i64 = 400;

/// Mathematical model of an obstacle.
pub ghost struct AsteroidModel {
    pub kin: KinModel,
    pub rotation_direction: Direction,
}

impl AsteroidModel {
    /// One tick of obstacle motion: turn by the fixed step in the
    /// direction chosen at creation, reduce the rotation with the sign
    /// kept, and move by the velocity — without wrapping.
    pub open spec fn step(self) -> AsteroidModel {
        let delta = match self.rotation_direction {
            Direction::Left => -(ASTEROID_ROTATION_SPEED as int),
            Direction::Right => ASTEROID_ROTATION_SPEED as int,
        };
        AsteroidModel {
            kin: KinModel {
                position: self.kin.position.plus(self.kin.velocity),
                velocity: self.kin.velocity,
                rotation: rem_trunc(self.kin.rotation + delta, TAU as int),
            },
            ..self
        }
    }

    /// The obstacle after `n` ticks.
    pub open spec fn steps(self, n: nat) -> AsteroidModel
        decreases n,
    {
        if n == 0 {
            self
        } else {
            self.steps((n - 1) as nat).step()
        }
    }
}

/// Law: obstacle motion is unwrapped — after `n` ticks the position is
/// the start plus `n` times the velocity, which never changes.
pub proof fn lemma_drift_position(a: AsteroidModel, n: nat)
    ensures
        a.steps(n).kin.velocity == a.kin.velocity,
        a.steps(n).kin.position == (V2 {
            x: a.kin.position.x + n * a.kin.velocity.x,
            y: a.kin.position.y + n * a.kin.velocity.y,
        }),
    decreases n,
{
    if n > 0 {
        lemma_drift_position(a, (n - 1) as nat);
        assert(n * a.kin.velocity.x == (n - 1) * a.kin.velocity.x + a.kin.velocity.x)
            by (nonlinear_arith);
        assert(n * a.kin.velocity.y == (n - 1) * a.kin.velocity.y + a.kin.velocity.y)
            by (nonlinear_arith);
    } else {
        assert(a.steps(0) == a);
    }
}

/// Law: an obstacle with any rightward velocity eventually leaves the
/// world: after at least `w` ticks its horizontal coordinate is at or
/// beyond the right edge, since nothing ever wraps it back.
pub proof fn lemma_drift_escapes(a: AsteroidModel, w: int, n: nat)
    requires
        a.kin.velocity.x >= 1,
        a.kin.position.x >= 0,
        n >= w,
    ensures
        a.steps(n).kin.position.x >= w,
{
    lemma_drift_position(a, n);
    assert(n * a.kin.velocity.x >= n) by (nonlinear_arith)
        requires a.kin.velocity.x >= 1 && n >= 0;
}

/// The randomly sampled ingredients of a new obstacle: a position inside
/// the world, a heading within one turn, and a turning direction. The
/// host turns the heading into a rotor before construction.
#[derive(Clone, Copy, Debug)]
pub struct AsteroidSpawn {
    pub position: Vec2,
    pub heading: i64,
    pub rotation_direction: Direction,
}

/// A drifting obstacle.
pub struct Asteroid {
    pub common: CommonProperties,
    pub rotation_direction: Direction,
}

impl View for Asteroid {
    type V = AsteroidModel;

    open spec fn view(&self) -> AsteroidModel {
        AsteroidModel { kin: self.common@, rotation_direction: self.rotation_direction }
    }
}

/// The model of the single draw command an obstacle issues: its sprite at
/// the unwrapped position, rotated as the obstacle is.
pub open spec fn asteroid_cmd_model(a: AsteroidModel) -> CmdModel {
    CmdModel::Sprite { kind: SpriteKind::Asteroid, dest: a.kin.position, rotation: a.kin.rotation }
}

impl Asteroid {
    /// The rotation invariant: reduced within one full turn.
    pub open spec fn wf(self) -> bool {
        -TAU < self.common.rotation < TAU
    }

    /// Magnitude bounds under which one tick cannot overflow.
    pub open spec fn step_ok(self) -> bool {
        &&& in_coord_bounds(self.common.position@)
        &&& in_coord_bounds(self.common.velocity@)
    }

    /// Draws position, heading and turning direction uniformly from the
    /// process-wide random source, for a world of the given size.
    pub fn sample_spawn(w: i64, h: i64) -> (s: AsteroidSpawn)
        requires
            0 < w,
            0 < h,
        ensures
            0 <= s.position.x < w,
            0 <= s.position.y < h,
            0 <= s.heading < TAU,
    {
        let x = random_in_range(0, w);
        let y = random_in_range(0, h);
        let heading = random_in_range(0, TAU);
        let rotation_direction = if random_coin() {
            Direction::Left
        } else {
            Direction::Right
        };
        AsteroidSpawn { position: Vec2 { x, y }, heading, rotation_direction }
    }

    /// Builds the obstacle a spawn describes. `rotor` is the host's rotor
    /// for the spawn's heading: the fixed-magnitude base velocity vector
    /// rotated by it becomes the obstacle's velocity.
    pub fn new(spawn: AsteroidSpawn, rotor: Rotor) -> (a: Asteroid)
        requires
            rotor.wf(),
        ensures
            a.common.position == spawn.position,
            a.common.rotation == spawn.heading,
            a.common.velocity@ == rotate(V2 { x: 0, y: -(ASTEROID_SPEED as int) }, rotor@),
            a.rotation_direction == spawn.rotation_direction,
    {
        let velocity = rotate_vec(Vec2 { x: 0, y: -ASTEROID_SPEED }, rotor);
        Asteroid {
            common: CommonProperties::new(spawn.position, velocity, spawn.heading),
            rotation_direction: spawn.rotation_direction,
        }
    }

    /// One simulation tick.
    pub fn update(&mut self)
        requires
            old(self).wf(),
            old(self).step_ok(),
        ensures
            final(self)@ == old(self)@.step(),
            final(self).wf(),
    {
        let delta = match self.rotation_direction {
            Direction::Left => -ASTEROID_ROTATION_SPEED,
            Direction::Right => ASTEROID_ROTATION_SPEED,
        };
        self.common.rotation = reduce_rotation(self.common.rotation + delta);
        self.common.position = Vec2 {
            x: self.common.position.x + self.common.velocity.x,
            y: self.common.position.y + self.common.velocity.y,
        };
    }

    /// The obstacle's draw pass: one sprite command, no wrap replication.
    pub fn draw_command(&self) -> (c: DrawCmd)
        ensures
            c@ == asteroid_cmd_model(self@),
    {
        DrawCmd::Sprite {
            kind: SpriteKind::Asteroid,
            dest: self.common.position,
            rotation: self.common.rotation,
        }
    }
}

} // verus!

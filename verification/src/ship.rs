//! The player-controlled craft: control intents (turning, thrusters), one
//! tick of motion integration, and the wrap-replicated draw pass.
//!
//! Rotating the thrust vector needs the sine and cosine of the craft's
//! new rotation, which only the host can compute: each tick the host
//! reads `next_rotation`, builds the matching `Rotor`, and hands it to
//! `update`. The contracts state exactly what is done with whatever rotor
//! arrives.

use vstd::prelude::*;

verus! {

use vstd::math::abs;
use crate::{SCALE, TAU, COORD_LIMIT};
use crate::util::{
    Vec2, V2, KinModel, CommonProperties, Direction, Rotor, RotorModel, rem_trunc, rotate,
    rotate_vec, wrap_pos, wrap_position, wrap_offsets, wrap_offsets_model, in_coord_bounds,
    reduce_rotation, lemma_rem_trunc_props, div_trunc,
};
use crate::render::{DrawCmd, CmdModel, SpriteKind};

/// Angle added or removed per tick while a turn intent is held.
pub const ROTATION_SPEED: i64 = 60;

/// Magnitude of the thrust acceleration per tick.
pub const ACCELERATION: i64 = 100;

/// Distance from the craft's center to its name label, along the craft's
/// local backward direction.
pub const NAME_DISTANCE: i64 = 20_000;

/// Mathematical model of a craft.
pub ghost struct ShipModel {
    pub kin: KinModel,
    pub turning: Option<Direction>,
    pub thrusters_on: bool,
    pub name: Seq<char>,
}

/// The rotation change a turn intent causes in one tick.
pub open spec fn turn_delta(turning: Option<Direction>) -> int {
    match turning {
        Some(Direction::Left) => -(ROTATION_SPEED as int),
        Some(Direction::Right) => ROTATION_SPEED as int,
        None => 0,
    }
}

impl ShipModel {
    /// The rotation the craft will hold after the next tick: the turn
    /// intent applied, then reduced modulo a full turn with the sign
    /// kept.
    pub open spec fn next_rotation(self) -> int {
        rem_trunc(self.kin.rotation + turn_delta(self.turning), TAU as int)
    }

    /// The thrust acceleration: a vector of magnitude `ACCELERATION`
    /// along the craft's local up direction, rotated into world space.
    pub open spec fn accel(self, rotor: RotorModel) -> V2 {
        rotate(V2 { x: 0, y: -(ACCELERATION as int) }, rotor)
    }

    /// One tick of craft motion: turn, reduce the rotation, accelerate if
    /// the thrusters are on, move by the velocity, wrap the position into
    /// the world. `rotor` must be the host's rotor for `next_rotation`;
    /// the step uses it as given.
    pub open spec fn step(self, rotor: RotorModel, w: int, h: int) -> ShipModel {
        let rot1 = self.next_rotation();
        let vel1 = if self.thrusters_on {
            self.kin.velocity.plus(self.accel(rotor))
        } else {
            self.kin.velocity
        };
        let pos1 = wrap_pos(self.kin.position.plus(vel1), w, h);
        ShipModel {
            kin: KinModel { position: pos1, velocity: vel1, rotation: rot1 },
            ..self
        }
    }
}

/// The model of a freshly created craft: a fixed starting position, at
/// rest, rotated half a turn, no intents, named "player".
pub open spec fn ship_initial_model() -> ShipModel {
    ShipModel {
        kin: KinModel {
            position: V2 { x: 100 * SCALE as int, y: 100 * SCALE as int },
            velocity: V2::zero(),
            rotation: TAU as int / 2,
        },
        turning: None,
        thrusters_on: false,
        name: "player"@,
    }
}

/// Law: a craft at rest with thrusters off and no turn intent, holding a
/// reduced rotation and a canonical position, is left exactly as it is
/// by one tick, whatever rotor the host supplies.
pub proof fn lemma_rest_craft_unchanged(s: ShipModel, rotor: RotorModel, w: int, h: int)
    requires
        s.kin.velocity == V2::zero(),
        !s.thrusters_on,
        s.turning is None,
        -TAU < s.kin.rotation < TAU,
        0 <= s.kin.position.x < w,
        0 <= s.kin.position.y < h,
    ensures
        s.step(rotor, w, h) == s,
{
    lemma_rem_trunc_props(s.kin.rotation, TAU as int);
    assert(s.kin.position.plus(V2::zero()) == s.kin.position);
    crate::util::lemma_wrap_idempotent(s.kin.position.x, w);
    crate::util::lemma_wrap_idempotent(s.kin.position.y, h);
}

/// Law: from rest at rotation zero with thrusters on, one tick gives the
/// craft exactly the thrust vector rotated by zero radians — straight up,
/// magnitude `ACCELERATION` — and a second identical tick doubles it:
/// acceleration accumulates with no damping.
pub proof fn lemma_thrust_from_rest(s: ShipModel, w: int, h: int)
    requires
        s.kin.velocity == V2::zero(),
        s.kin.rotation == 0,
        s.turning is None,
        s.thrusters_on,
    ensures
        s.step(RotorModel { cos: SCALE as int, sin: 0 }, w, h).kin.velocity == (V2 {
            x: 0,
            y: -(ACCELERATION as int),
        }),
        s.step(RotorModel { cos: SCALE as int, sin: 0 }, w, h).step(
            RotorModel { cos: SCALE as int, sin: 0 },
            w,
            h,
        ).kin.velocity == (V2 { x: 0, y: -2 * ACCELERATION as int }),
{
    let id = RotorModel { cos: SCALE as int, sin: 0 };
    assert(SCALE == 1000 && ACCELERATION == 100);
    assert(0 * 1000 - (-100) * 0 == 0) by (nonlinear_arith);
    assert(0 * 0 + (-100) * 1000 == -100000) by (nonlinear_arith);
    assert(div_trunc(0, 1000) == 0);
    assert(div_trunc(-100000, 1000) == -100);
    assert(s.accel(id) == (V2 { x: 0, y: -(ACCELERATION as int) }));
    let s1 = s.step(id, w, h);
    assert(s1.kin.rotation == 0);
    assert(s1.accel(id) == (V2 { x: 0, y: -(ACCELERATION as int) }));
}

/// The player-controlled craft.
pub struct Ship {
    pub common: CommonProperties,
    pub turning: Option<Direction>,
    pub thrusters_on: bool,
    pub name: String,
}

impl View for Ship {
    type V = ShipModel;

    open spec fn view(&self) -> ShipModel {
        ShipModel {
            kin: self.common@,
            turning: self.turning,
            thrusters_on: self.thrusters_on,
            name: self.name@,
        }
    }
}

impl Ship {
    /// The rotation invariant every constructor establishes and every
    /// tick restores: reduced within one full turn.
    pub open spec fn wf(self) -> bool {
        -TAU < self.common.rotation < TAU
    }

    /// Magnitude bounds under which one tick cannot overflow the
    /// fixed-point arithmetic.
    pub open spec fn step_ok(self, w: int, h: int) -> bool {
        &&& in_coord_bounds(self.common.position@)
        &&& in_coord_bounds(self.common.velocity@)
        &&& 0 < w <= COORD_LIMIT
        &&& 0 < h <= COORD_LIMIT
    }

    pub fn new() -> (s: Ship)
        ensures
            s@ == ship_initial_model(),
            s.wf(),
    {
        let common = CommonProperties::new(
            Vec2::new(100 * SCALE, 100 * SCALE),
            Vec2::zero(),
            TAU / 2,
        );
        Ship { common, turning: None, thrusters_on: false, name: "player".to_owned() }
    }

    pub fn get_turning(&self) -> (d: Option<Direction>)
        ensures
            d == self.turning,
    {
        self.turning
    }

    pub fn set_turning(&mut self, dir: Option<Direction>)
        ensures
            final(self).turning == dir,
            final(self).common == old(self).common,
            final(self).thrusters_on == old(self).thrusters_on,
            final(self).name == old(self).name,
    {
        self.turning = dir;
    }

    pub fn set_thruster_on(&mut self, state: bool)
        ensures
            final(self).thrusters_on == state,
            final(self).common == old(self).common,
            final(self).turning == old(self).turning,
            final(self).name == old(self).name,
    {
        self.thrusters_on = state;
    }

    /// The rotation the craft will hold after the next tick; the host
    /// computes the tick's rotor from it.
    pub fn next_rotation(&self) -> (r: i64)
        requires
            self.wf(),
        ensures
            r == self@.next_rotation(),
            -TAU < r < TAU,
    {
        let raw = match self.turning {
            Some(Direction::Left) => self.common.rotation - ROTATION_SPEED,
            Some(Direction::Right) => self.common.rotation + ROTATION_SPEED,
            None => self.common.rotation,
        };
        reduce_rotation(raw)
    }

    /// One simulation tick. `rotor` is the host's rotor for
    /// `next_rotation`.
    pub fn update(&mut self, w: i64, h: i64, rotor: Rotor)
        requires
            old(self).wf(),
            old(self).step_ok(w as int, h as int),
            rotor.wf(),
        ensures
            final(self)@ == old(self)@.step(rotor@, w as int, h as int),
            final(self).wf(),
    {
        let rot1 = self.next_rotation();
        self.common.rotation = rot1;

        let accel = rotate_vec(Vec2 { x: 0, y: -ACCELERATION }, rotor);
        if self.thrusters_on {
            self.common.velocity = Vec2 {
                x: self.common.velocity.x + accel.x,
                y: self.common.velocity.y + accel.y,
            };
        }

        let moved = Vec2 {
            x: self.common.position.x + self.common.velocity.x,
            y: self.common.position.y + self.common.velocity.y,
        };
        self.common.position = wrap_position(moved, w, h);
    }

    /// How many draw commands one craft issues.
    pub open spec fn cmd_count(debug: bool) -> int {
        if debug {
            19
        } else {
            18
        }
    }

    /// The `k`-th draw command of a craft: the sprite at the canonical
    /// position plus each of the nine wrap offsets, then the name label
    /// at each of those positions shifted along the craft's backward
    /// direction, then, in debug mode, a marker at the canonical position
    /// alone.
    pub open spec fn cmd_model(
        s: ShipModel,
        rotor: RotorModel,
        w: int,
        h: int,
        debug: bool,
        k: int,
    ) -> CmdModel {
        if k < 9 {
            CmdModel::Sprite {
                kind: SpriteKind::Ship,
                dest: s.kin.position.plus(wrap_offsets_model(w, h)[k]),
                rotation: s.kin.rotation,
            }
        } else if k < 18 {
            CmdModel::Label {
                dest: s.kin.position.plus(wrap_offsets_model(w, h)[k - 9]).plus(
                    rotate(V2 { x: 0, y: NAME_DISTANCE as int }, rotor),
                ),
                rotation: s.kin.rotation,
            }
        } else {
            CmdModel::Marker { dest: s.kin.position }
        }
    }

    /// The craft's draw pass as a command list. `rotor` is the host's
    /// rotor for the current rotation (it places the name label).
    pub fn draw_commands(&self, w: i64, h: i64, rotor: Rotor, debug: bool) -> (v: Vec<DrawCmd>)
        requires
            in_coord_bounds(self.common.position@),
            rotor.wf(),
            0 < w <= COORD_LIMIT,
            0 < h <= COORD_LIMIT,
        ensures
            v@.len() == Ship::cmd_count(debug),
            forall|k: int|
                0 <= k < v@.len() ==> #[trigger] v@[k]@ == Ship::cmd_model(
                    self@,
                    rotor@,
                    w as int,
                    h as int,
                    debug,
                    k,
                ),
    {
        let offsets = wrap_offsets(w, h);
        let mut v: Vec<DrawCmd> = Vec::new();

        let mut i: usize = 0;
        while i < 9
            invariant
                0 <= i <= 9,
                offsets@.len() == 9,
                forall|j: int|
                    0 <= j < 9 ==> #[trigger] offsets@[j]@ == wrap_offsets_model(
                        w as int,
                        h as int,
                    )[j],
                forall|j: int|
                    0 <= j < 9 ==> -w <= (#[trigger] offsets@[j]).x <= w && -h <= offsets@[j].y
                        <= h,
                v@.len() == i,
                in_coord_bounds(self.common.position@),
                0 < w <= COORD_LIMIT,
                0 < h <= COORD_LIMIT,
                forall|k: int|
                    0 <= k < i ==> #[trigger] v@[k]@ == Ship::cmd_model(
                        self@,
                        rotor@,
                        w as int,
                        h as int,
                        debug,
                        k,
                    ),
            decreases 9 - i,
        {
            let off = offsets[i];
            proof {
                assert(offsets@[i as int]@ == wrap_offsets_model(w as int, h as int)[i as int]);
            }
            v.push(DrawCmd::Sprite {
                kind: SpriteKind::Ship,
                dest: Vec2 {
                    x: self.common.position.x + off.x,
                    y: self.common.position.y + off.y,
                },
                rotation: self.common.rotation,
            });
            i = i + 1;
        }

        let name_off = rotate_vec(Vec2 { x: 0, y: NAME_DISTANCE }, rotor);
        let mut i: usize = 0;
        while i < 9
            invariant
                0 <= i <= 9,
                offsets@.len() == 9,
                forall|j: int|
                    0 <= j < 9 ==> #[trigger] offsets@[j]@ == wrap_offsets_model(
                        w as int,
                        h as int,
                    )[j],
                forall|j: int|
                    0 <= j < 9 ==> -w <= (#[trigger] offsets@[j]).x <= w && -h <= offsets@[j].y
                        <= h,
                name_off@ == rotate(V2 { x: 0, y: NAME_DISTANCE as int }, rotor@),
                abs(name_off.x as int) <= NAME_DISTANCE,
                abs(name_off.y as int) <= NAME_DISTANCE,
                v@.len() == 9 + i,
                in_coord_bounds(self.common.position@),
                0 < w <= COORD_LIMIT,
                0 < h <= COORD_LIMIT,
                forall|k: int|
                    0 <= k < 9 + i ==> #[trigger] v@[k]@ == Ship::cmd_model(
                        self@,
                        rotor@,
                        w as int,
                        h as int,
                        debug,
                        k,
                    ),
            decreases 9 - i,
        {
            let off = offsets[i];
            proof {
                assert(offsets@[i as int]@ == wrap_offsets_model(w as int, h as int)[i as int]);
            }
            v.push(DrawCmd::Label {
                dest: Vec2 {
                    x: self.common.position.x + off.x + name_off.x,
                    y: self.common.position.y + off.y + name_off.y,
                },
                rotation: self.common.rotation,
            });
            i = i + 1;
        }

        if debug {
            v.push(DrawCmd::Marker { dest: self.common.position });
        }
        v
    }
}

} // verus!

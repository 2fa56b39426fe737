//! The world: an ordered collection of craft (one, by construction) and
//! an ordered collection of obstacles. Updates fan out to every craft and
//! then every obstacle; draw passes emit every obstacle's commands before
//! any craft's, so obstacles always render behind craft.

use vstd::prelude::*;

verus! {

use crate::COORD_LIMIT;
use crate::util::{Direction, Rotor};
use crate::ship::{Ship, ShipModel, ship_initial_model};
use crate::asteroid::{Asteroid, AsteroidModel, asteroid_cmd_model};
use crate::render::{DrawCmd, CmdModel, SpriteKind};

/// How many obstacles a world is given at startup.
pub const ASTEROID_COUNT: usize = 20;

/// Whether a command belongs to an obstacle's draw pass.
pub open spec fn is_obstacle_cmd(c: CmdModel) -> bool {
    c matches CmdModel::Sprite { kind: SpriteKind::Asteroid, .. }
}

/// Whether a command belongs to a craft's draw pass.
pub open spec fn is_craft_cmd(c: CmdModel) -> bool {
    match c {
        CmdModel::Sprite { kind, .. } => kind == SpriteKind::Ship,
        CmdModel::Label { .. } => true,
        CmdModel::Marker { .. } => true,
    }
}

/// Mathematical model of the world.
pub ghost struct WorldModel {
    pub ships: Seq<ShipModel>,
    pub asteroids: Seq<AsteroidModel>,
}

/// The world: every entity is owned here and nowhere else.
pub struct World {
    pub ships: Vec<Ship>,
    pub asteroids: Vec<Asteroid>,
}

impl View for World {
    type V = WorldModel;

    open spec fn view(&self) -> WorldModel {
        WorldModel {
            ships: self.ships@.map_values(|s: Ship| s@),
            asteroids: self.asteroids@.map_values(|a: Asteroid| a@),
        }
    }
}

impl World {
    /// Builds a world holding exactly one freshly created craft and the
    /// given obstacles.
    pub fn new(asteroids: Vec<Asteroid>) -> (w: World)
        ensures
            w.ships@.len() == 1,
            w.ships@[0]@ == ship_initial_model(),
            w.ships@[0].wf(),
            w.asteroids@ == asteroids@,
    {
        let mut ships: Vec<Ship> = Vec::new();
        ships.push(Ship::new());
        World { ships, asteroids }
    }

    /// Sets the player craft's turn intent. The craft collection must not
    /// be empty, as construction guarantees.
    pub fn set_ship_turning(&mut self, dir: Option<Direction>)
        requires
            old(self).ships@.len() >= 1,
        ensures
            final(self).asteroids == old(self).asteroids,
            final(self).ships@.len() == old(self).ships@.len(),
            final(self).ships@[0].turning == dir,
            final(self).ships@[0].common == old(self).ships@[0].common,
            final(self).ships@[0].thrusters_on == old(self).ships@[0].thrusters_on,
            final(self).ships@[0].name == old(self).ships@[0].name,
            forall|i: int|
                1 <= i < old(self).ships@.len() ==> final(self).ships@[i] == old(self).ships@[i],
    {
        self.ships[0].set_turning(dir);
    }

    /// Sets the player craft's thrust intent.
    pub fn set_ship_thruster_on(&mut self, state: bool)
        requires
            old(self).ships@.len() >= 1,
        ensures
            final(self).asteroids == old(self).asteroids,
            final(self).ships@.len() == old(self).ships@.len(),
            final(self).ships@[0].thrusters_on == state,
            final(self).ships@[0].common == old(self).ships@[0].common,
            final(self).ships@[0].turning == old(self).ships@[0].turning,
            final(self).ships@[0].name == old(self).ships@[0].name,
            forall|i: int|
                1 <= i < old(self).ships@.len() ==> final(self).ships@[i] == old(self).ships@[i],
    {
        self.ships[0].set_thruster_on(state);
    }

    /// Reads the player craft's turn intent.
    pub fn get_ship_turning(&self) -> (d: Option<Direction>)
        requires
            self.ships@.len() >= 1,
        ensures
            d == self.ships@[0].turning,
    {
        self.ships[0].get_turning()
    }

    /// The rotation the player craft will hold after the next tick; the
    /// host computes the tick's rotor from it.
    pub fn ship_next_rotation(&self) -> (r: i64)
        requires
            self.ships@.len() >= 1,
            self.ships@[0].wf(),
        ensures
            r == self@.ships[0].next_rotation(),
    {
        self.ships[0].next_rotation()
    }

    /// One simulation tick: every craft steps, then every obstacle, in
    /// collection order. `rotors` holds, for each craft in order, the
    /// host's rotor for that craft's next rotation.
    pub fn update(&mut self, w: i64, h: i64, rotors: &Vec<Rotor>)
        requires
            rotors@.len() == old(self).ships@.len(),
            forall|i: int| 0 <= i < rotors@.len() ==> (#[trigger] rotors@[i]).wf(),
            forall|i: int|
                0 <= i < old(self).ships@.len() ==> (#[trigger] old(self).ships@[i]).wf()
                    && old(self).ships@[i].step_ok(w as int, h as int),
            forall|i: int|
                0 <= i < old(self).asteroids@.len() ==> (#[trigger] old(
                    self,
                ).asteroids@[i]).wf() && old(self).asteroids@[i].step_ok(),
            0 < w <= COORD_LIMIT,
            0 < h <= COORD_LIMIT,
        ensures
            final(self).ships@.len() == old(self).ships@.len(),
            final(self).asteroids@.len() == old(self).asteroids@.len(),
            forall|i: int|
                0 <= i < old(self).ships@.len() ==> #[trigger] final(self).ships@[i]@ == old(
                    self,
                ).ships@[i]@.step(rotors@[i]@, w as int, h as int),
            forall|i: int|
                0 <= i < old(self).ships@.len() ==> (#[trigger] final(self).ships@[i]).wf(),
            forall|i: int|
                0 <= i < old(self).asteroids@.len() ==> #[trigger] final(self).asteroids@[i]@
                    == old(self).asteroids@[i]@.step(),
            forall|i: int|
                0 <= i < old(self).asteroids@.len() ==> (#[trigger] final(self).asteroids@[i]).wf(),
    {
        let ghost orig = *self;
        let mut i: usize = 0;
        while i < self.ships.len()
            invariant
                0 <= i <= self.ships@.len(),
                self.ships@.len() == orig.ships@.len(),
                self.asteroids@ == orig.asteroids@,
                rotors@.len() == orig.ships@.len(),
                forall|j: int| 0 <= j < rotors@.len() ==> (#[trigger] rotors@[j]).wf(),
                forall|j: int|
                    0 <= j < orig.ships@.len() ==> (#[trigger] orig.ships@[j]).wf()
                        && orig.ships@[j].step_ok(w as int, h as int),
                0 < w <= COORD_LIMIT,
                0 < h <= COORD_LIMIT,
                forall|j: int| i <= j < orig.ships@.len() ==> #[trigger] self.ships@[j] == orig.ships@[j],
                forall|j: int|
                    0 <= j < i ==> #[trigger] self.ships@[j]@ == orig.ships@[j]@.step(
                        rotors@[j]@,
                        w as int,
                        h as int,
                    ),
                forall|j: int| 0 <= j < i ==> (#[trigger] self.ships@[j]).wf(),
            decreases self.ships@.len() - i,
        {
            let rotor = rotors[i];
            self.ships[i].update(w, h, rotor);
            i = i + 1;
        }

        let mut i: usize = 0;
        while i < self.asteroids.len()
            invariant
                0 <= i <= self.asteroids@.len(),
                self.asteroids@.len() == orig.asteroids@.len(),
                self.ships@.len() == orig.ships@.len(),
                rotors@.len() == orig.ships@.len(),
                forall|j: int|
                    0 <= j < orig.ships@.len() ==> #[trigger] self.ships@[j]@ == orig.ships@[j]@.step(
                        rotors@[j]@,
                        w as int,
                        h as int,
                    ),
                forall|j: int| 0 <= j < orig.ships@.len() ==> (#[trigger] self.ships@[j]).wf(),
                forall|j: int|
                    0 <= j < orig.asteroids@.len() ==> (#[trigger] orig.asteroids@[j]).wf()
                        && orig.asteroids@[j].step_ok(),
                forall|j: int|
                    i <= j < orig.asteroids@.len() ==> #[trigger] self.asteroids@[j]
                        == orig.asteroids@[j],
                forall|j: int|
                    0 <= j < i ==> #[trigger] self.asteroids@[j]@ == orig.asteroids@[j]@.step(),
                forall|j: int| 0 <= j < i ==> (#[trigger] self.asteroids@[j]).wf(),
            decreases self.asteroids@.len() - i,
        {
            self.asteroids[i].update();
            i = i + 1;
        }
    }

    /// One draw pass as a command list: every obstacle's single command,
    /// in collection order, then every craft's commands, in collection
    /// order — obstacles strictly before craft. `rotors` holds, for each
    /// craft in order, the host's rotor for that craft's current rotation
    /// (it places the name label).
    pub fn draw_commands(&self, w: i64, h: i64, rotors: &Vec<Rotor>, debug: bool) -> (v: Vec<
        DrawCmd,
    >)
        requires
            rotors@.len() == self.ships@.len(),
            forall|i: int| 0 <= i < rotors@.len() ==> (#[trigger] rotors@[i]).wf(),
            forall|i: int|
                0 <= i < self.ships@.len() ==> (#[trigger] self.ships@[i]).step_ok(
                    w as int,
                    h as int,
                ),
            0 < w <= COORD_LIMIT,
            0 < h <= COORD_LIMIT,
        ensures
            v@.len() == self.asteroids@.len() + self.ships@.len() * Ship::cmd_count(debug),
            forall|i: int|
                0 <= i < self.asteroids@.len() ==> #[trigger] v@[i]@ == asteroid_cmd_model(
                    self@.asteroids[i],
                ),
            forall|j: int, k: int|
                0 <= j < self.ships@.len() && 0 <= k < Ship::cmd_count(debug) ==> v@[self.asteroids@.len()
                    + j * Ship::cmd_count(debug) + k]@ == #[trigger] Ship::cmd_model(
                    self@.ships[j],
                    rotors@[j]@,
                    w as int,
                    h as int,
                    debug,
                    k,
                ),
            forall|i: int| 0 <= i < self.asteroids@.len() ==> is_obstacle_cmd(#[trigger] v@[i]@),
            forall|i: int|
                self.asteroids@.len() <= i < v@.len() ==> is_craft_cmd(#[trigger] v@[i]@),
    {
        let n = self.asteroids.len();
        let ghost per = Ship::cmd_count(debug);
        let mut v: Vec<DrawCmd> = Vec::new();

        let mut i: usize = 0;
        while i < n
            invariant
                0 <= i <= n,
                n == self.asteroids@.len(),
                v@.len() == i,
                forall|j: int|
                    0 <= j < i ==> #[trigger] v@[j]@ == asteroid_cmd_model(self@.asteroids[j]),
                forall|j: int| 0 <= j < i ==> is_obstacle_cmd(#[trigger] v@[j]@),
            decreases n - i,
        {
            let c = self.asteroids[i].draw_command();
            v.push(c);
            i = i + 1;
        }

        let mut j: usize = 0;
        while j < self.ships.len()
            invariant
                0 <= j <= self.ships@.len(),
                n == self.asteroids@.len(),
                rotors@.len() == self.ships@.len(),
                forall|t: int| 0 <= t < rotors@.len() ==> (#[trigger] rotors@[t]).wf(),
                forall|t: int|
                    0 <= t < self.ships@.len() ==> (#[trigger] self.ships@[t]).step_ok(
                        w as int,
                        h as int,
                    ),
                0 < w <= COORD_LIMIT,
                0 < h <= COORD_LIMIT,
                per == Ship::cmd_count(debug),
                v@.len() == n + j * per,
                forall|t: int|
                    0 <= t < n ==> #[trigger] v@[t]@ == asteroid_cmd_model(self@.asteroids[t]),
                forall|t: int| 0 <= t < n ==> is_obstacle_cmd(#[trigger] v@[t]@),
                forall|t: int, k: int|
                    0 <= t < j && 0 <= k < per ==> v@[n + t * per + k]@ == #[trigger] Ship::cmd_model(
                        self@.ships[t],
                        rotors@[t]@,
                        w as int,
                        h as int,
                        debug,
                        k,
                    ),
                forall|t: int| n <= t < v@.len() ==> is_craft_cmd(#[trigger] v@[t]@),
            decreases self.ships@.len() - j,
        {
            let rotor = rotors[j];
            let mut cmds = self.ships[j].draw_commands(w, h, rotor, debug);
            proof {
                assert(j * per + per == (j + 1) * per) by (nonlinear_arith);
                assert forall|k: int| 0 <= k < per implies is_craft_cmd(
                    #[trigger] Ship::cmd_model(
                        self@.ships[j as int],
                        rotors@[j as int]@,
                        w as int,
                        h as int,
                        debug,
                        k,
                    ),
                ) by {
                }
            }
            v.append(&mut cmds);
            j = j + 1;
        }
        v
    }
}

} // verus!

//! Draw commands: the render-side output of the simulation. A draw pass
//! computes a sequence of commands; the host executes them in order
//! against its graphics context, stopping at the first failure.

use vstd::prelude::*;

verus! {

use crate::util::{Vec2, V2};

/// Scale the host applies to the craft sprite, in fixed-point units
/// (one fifth of the sprite's natural size).
pub const SHIP_SPRITE_SCALE: i64 = 200;

/// Scale the host applies to the obstacle sprite (one tenth of the
/// sprite's natural size).
pub const ASTEROID_SPRITE_SCALE: i64 = 100;

/// Both sprites and the label anchor at their center: this offset, in
/// fixed-point fractions of the drawable's size, on each axis.
pub const CENTER_ANCHOR: i64 = 500;

/// Each channel — red, green, blue and alpha alike — of the label's
/// reduced-opacity near-white tint, in fixed-point fractions of full
/// intensity.
pub const LABEL_TINT: i64 = 900;

/// Radius of the debug position marker, in fixed-point world units
/// (five pixels).
pub const MARKER_RADIUS: i64 = 5_000;

/// Which sprite a draw command refers to.
#[derive(Clone, Copy, Debug, PartialEq, Eq, Structural)]
pub enum SpriteKind {
    Ship,
    Asteroid,
}

/// One render call: a sprite drawn centered at `dest` with a rotation, a
/// text label, or the debug position marker.
#[derive(Clone, Copy, Debug, PartialEq, Eq, Structural)]
pub enum DrawCmd {
    Sprite { kind: SpriteKind, dest: Vec2, rotation: i64 },
    Label { dest: Vec2, rotation: i64 },
    Marker { dest: Vec2 },
}

/// The scale the host applies to a sprite command of the given kind.
pub fn sprite_scale(kind: SpriteKind) -> (s: i64)
    ensures
        kind == SpriteKind::Ship ==> s == SHIP_SPRITE_SCALE,
        kind == SpriteKind::Asteroid ==> s == ASTEROID_SPRITE_SCALE,
{
    match kind {
        SpriteKind::Ship => SHIP_SPRITE_SCALE,
        SpriteKind::Asteroid => ASTEROID_SPRITE_SCALE,
    }
}

/// Mathematical model of a draw command.
pub ghost enum CmdModel {
    Sprite { kind: SpriteKind, dest: V2, rotation: int },
    Label { dest: V2, rotation: int },
    Marker { dest: V2 },
}

impl View for DrawCmd {
    type V = CmdModel;

    open spec fn view(&self) -> CmdModel {
        match *self {
            DrawCmd::Sprite { kind, dest, rotation } => CmdModel::Sprite {
                kind,
                dest: dest@,
                rotation: rotation as int,
            },
            DrawCmd::Label { dest, rotation } => CmdModel::Label {
                dest: dest@,
                rotation: rotation as int,
            },
            DrawCmd::Marker { dest } => CmdModel::Marker { dest: dest@ },
        }
    }
}

} // verus!

//! Static parameter tables for attack and enemy kinds.
//!
//! Every geometric quantity is an integer number of subunits; one screen
//! pixel is `SUBPX` subunits.  This keeps every speed and hitbox of the game
//! exact while staying inside integer arithmetic.

use vstd::prelude::*;

verus! {

/// Subunits per screen pixel.
pub const SUBPX: i64 = 10;

/// Width of the playing field, in subunits.
pub const WINDOW_WIDTH: i64 = 700 * SUBPX;
/// Height of the playing field, in subunits.
pub const WINDOW_HEIGHT: i64 = 1050 * SUBPX;

/// A player's centre may not leave `[-CLAMP_X, CLAMP_X]` horizontally.
pub const CLAMP_X: i64 = 350 * SUBPX;
/// A player's centre may not leave `[-CLAMP_Y, CLAMP_Y]` vertically.
pub const CLAMP_Y: i64 = 525 * SUBPX;

/// One kind of projectile.  `Shotgun` fans out into the five shotgun kinds;
/// `Rebound` flips its heading at the side walls (`true` means rightwards).
#[derive(Clone, Copy, Debug, PartialEq, Eq, Structural)]
pub enum AttackKind {
    Normal,
    Power,
    Shotgun,
    Shotgun2,
    Shotgun3,
    Shotgun4,
    Shotgun5,
    Rebound(bool),
    EnemyNormal,
}

/// One kind of enemy.
#[derive(Clone, Copy, Debug, PartialEq, Eq, Structural)]
pub enum EnemyKind {
    Normal,
    Drop,
}

impl AttackKind {
    /// Damage dealt by an attack of this kind; also the attack's initial
    /// durability.
    pub open spec fn power_spec(self) -> int {
        match self {
            AttackKind::Normal => 11,
            AttackKind::Power => 20,
            AttackKind::Shotgun => 4,
            AttackKind::Shotgun2 => 5,
            AttackKind::Shotgun3 => 6,
            AttackKind::Shotgun4 => 5,
            AttackKind::Shotgun5 => 4,
            AttackKind::Rebound(_) => 8,
            AttackKind::EnemyNormal => 3,
        }
    }

    pub fn power(self) -> (r: i64)
        ensures
            r as int == self.power_spec(),
            1 <= r <= 20,
    {
        match self {
            AttackKind::Normal => 11,
            AttackKind::Power => 20,
            AttackKind::Shotgun => 4,
            AttackKind::Shotgun2 => 5,
            AttackKind::Shotgun3 => 6,
            AttackKind::Shotgun4 => 5,
            AttackKind::Shotgun5 => 4,
            AttackKind::Rebound(_) => 8,
            AttackKind::EnemyNormal => 3,
        }
    }

    /// Full hitbox extent (width, height) in subunits.
    pub open spec fn scale_spec(self) -> (int, int) {
        match self {
            AttackKind::Power => (40 * SUBPX as int, 40 * SUBPX as int),
            _ => (20 * SUBPX as int, 20 * SUBPX as int),
        }
    }

    pub fn scale(self) -> (r: (i64, i64))
        ensures
            (r.0 as int, r.1 as int) == self.scale_spec(),
    {
        match self {
            AttackKind::Power => (40 * SUBPX, 40 * SUBPX),
            _ => (20 * SUBPX, 20 * SUBPX),
        }
    }

    /// Upward distance travelled per simulation frame, in subunits.
    pub open spec fn y_speed_spec(self) -> int {
        match self {
            AttackKind::Rebound(_) => 2 * SUBPX as int,
            _ => 15 * SUBPX as int,
        }
    }

    pub fn y_speed(self) -> (r: i64)
        ensures
            r as int == self.y_speed_spec(),
            0 < r <= 15 * SUBPX,
    {
        match self {
            AttackKind::Rebound(_) => 2 * SUBPX,
            _ => 15 * SUBPX,
        }
    }

    /// Sideways distance travelled per simulation frame, in subunits.
    pub open spec fn x_speed_spec(self) -> int {
        match self {
            AttackKind::Shotgun => 3 * SUBPX as int,
            AttackKind::Shotgun2 => 7 * SUBPX as int,
            AttackKind::Shotgun3 => 0,
            AttackKind::Shotgun4 => -7 * SUBPX as int,
            AttackKind::Shotgun5 => -3 * SUBPX as int,
            AttackKind::Rebound(true) => 10 * SUBPX as int,
            AttackKind::Rebound(false) => -10 * SUBPX as int,
            _ => 0,
        }
    }

    pub fn x_speed(self) -> (r: i64)
        ensures
            r as int == self.x_speed_spec(),
            -10 * SUBPX <= r <= 10 * SUBPX,
    {
        match self {
            AttackKind::Shotgun => 3 * SUBPX,
            AttackKind::Shotgun2 => 7 * SUBPX,
            AttackKind::Shotgun3 => 0,
            AttackKind::Shotgun4 => -7 * SUBPX,
            AttackKind::Shotgun5 => -3 * SUBPX,
            AttackKind::Rebound(true) => 10 * SUBPX,
            AttackKind::Rebound(false) => -10 * SUBPX,
            _ => 0,
        }
    }

    /// The set of kinds actually spawned when a kind is fired once: shotgun
    /// fans out into its five spread variants, a rebound launches one shot
    /// per heading, every other kind launches itself alone.
    pub open spec fn launch_group_spec(self) -> Seq<AttackKind> {
        match self {
            AttackKind::Shotgun => seq![
                AttackKind::Shotgun,
                AttackKind::Shotgun2,
                AttackKind::Shotgun3,
                AttackKind::Shotgun4,
                AttackKind::Shotgun5,
            ],
            AttackKind::Rebound(_) => seq![AttackKind::Rebound(false), AttackKind::Rebound(true)],
            _ => seq![self],
        }
    }

    pub fn launch_group(self) -> (r: Vec<AttackKind>)
        ensures
            r@ == self.launch_group_spec(),
    {
        match self {
            AttackKind::Shotgun => {
                let v = vec![
                    AttackKind::Shotgun,
                    AttackKind::Shotgun2,
                    AttackKind::Shotgun3,
                    AttackKind::Shotgun4,
                    AttackKind::Shotgun5,
                ];
                proof {
                    assert(v@ =~= self.launch_group_spec());
                }
                v
            }
            AttackKind::Rebound(_) => {
                let v = vec![AttackKind::Rebound(false), AttackKind::Rebound(true)];
                proof {
                    assert(v@ =~= self.launch_group_spec());
                }
                v
            }
            _ => {
                let v = vec![self];
                proof {
                    assert(v@ =~= self.launch_group_spec());
                }
                v
            }
        }
    }

    /// Time between two automatic shots while this kind is selected, in
    /// milliseconds.
    pub open spec fn fire_period_ms_spec(self) -> int {
        match self {
            AttackKind::Normal => 80,
            AttackKind::Power => 100,
            _ => 130,
        }
    }

    pub fn fire_period_ms(self) -> (r: u64)
        ensures
            r as int == self.fire_period_ms_spec(),
    {
        match self {
            AttackKind::Normal => 80,
            AttackKind::Power => 100,
            _ => 130,
        }
    }
}

impl EnemyKind {
    /// Hit points an enemy of this kind starts with.
    pub open spec fn initial_hp_spec(self) -> int {
        match self {
            EnemyKind::Normal => 25,
            EnemyKind::Drop => 30,
        }
    }

    pub fn initial_hp(self) -> (r: i64)
        ensures
            r as int == self.initial_hp_spec(),
            0 < r <= 30,
    {
        match self {
            EnemyKind::Normal => 25,
            EnemyKind::Drop => 30,
        }
    }

    /// Downward speed in subunits per second.
    pub open spec fn fall_speed_spec(self) -> int {
        match self {
            EnemyKind::Normal => 0,
            EnemyKind::Drop => 250 * SUBPX as int,
        }
    }

    pub fn fall_speed(self) -> (r: i64)
        ensures
            r as int == self.fall_speed_spec(),
            0 <= r <= 250 * SUBPX,
    {
        match self {
            EnemyKind::Normal => 0,
            EnemyKind::Drop => 250 * SUBPX,
        }
    }

    /// Full hitbox extent (width, height) in subunits.
    pub open spec fn scale_spec(self) -> (int, int) {
        match self {
            EnemyKind::Normal => (50 * SUBPX as int, 40 * SUBPX as int),
            EnemyKind::Drop => (30 * SUBPX as int, 40 * SUBPX as int),
        }
    }

    pub fn scale(self) -> (r: (i64, i64))
        ensures
            (r.0 as int, r.1 as int) == self.scale_spec(),
    {
        match self {
            EnemyKind::Normal => (50 * SUBPX, 40 * SUBPX),
            EnemyKind::Drop => (30 * SUBPX, 40 * SUBPX),
        }
    }
}

} // verus!

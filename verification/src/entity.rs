//! The combat records shared by every play mode, and the capability traits
//! through which the resolver and the spawners see a mode's own entity
//! types.

use vstd::prelude::*;

use crate::catalog::AttackKind;
use crate::catalog::EnemyKind;

verus! {

/// Hit points a player starts a round with outside versus play.
pub const INITIAL_PLAYER_HP: i64 = 10;

/// Kills a player starts a round with.
pub const INITIAL_KILL_COUNT: u64 = 0;

/// A projectile in flight.  `remaining_hp` is its durability: it starts at
/// the kind's power and is consumed when the projectile itself is hit.
#[derive(Clone, Copy, Debug, PartialEq, Eq, Structural)]
pub struct Attack {
    pub remaining_hp: i64,
    pub kind: AttackKind,
}

impl Attack {
    /// A projectile never regains durability, so its remaining hit points
    /// stay at or below its kind's power.
    pub open spec fn wf(self) -> bool {
        self.remaining_hp <= self.kind.power_spec()
    }

    pub fn new(kind: AttackKind) -> (r: Attack)
        ensures
            r.kind == kind,
            r.remaining_hp as int == kind.power_spec(),
            r.wf(),
    {
        Attack { remaining_hp: kind.power(), kind }
    }

    pub fn damage(&mut self, amount: i64)
        requires
            i64::MIN <= old(self).remaining_hp - amount <= i64::MAX,
        ensures
            final(self).remaining_hp == old(self).remaining_hp - amount,
            final(self).kind == old(self).kind,
    {
        self.remaining_hp = self.remaining_hp - amount;
    }
}

/// A live enemy body.
#[derive(Clone, Copy, Debug, PartialEq, Eq, Structural)]
pub struct Enemy {
    pub hp: i64,
    pub kind: EnemyKind,
}

impl Enemy {
    /// An enemy never heals, so its hit points stay at or below the kind's
    /// starting value.
    pub open spec fn wf(self) -> bool {
        self.hp <= self.kind.initial_hp_spec()
    }

    pub fn new(kind: EnemyKind) -> (r: Enemy)
        ensures
            r.kind == kind,
            r.hp as int == kind.initial_hp_spec(),
            r.wf(),
    {
        Enemy { hp: kind.initial_hp(), kind }
    }

    pub fn damage(&mut self, amount: i64)
        requires
            i64::MIN <= old(self).hp - amount <= i64::MAX,
        ensures
            final(self).hp == old(self).hp - amount,
            final(self).kind == old(self).kind,
    {
        self.hp = self.hp - amount;
    }
}

/// The per-participant record: current hit points, kills registered this
/// round, the selected attack kind and the cycling position that selects
/// the next one.
#[derive(Clone, Copy, Debug, PartialEq, Eq, Structural)]
pub struct Player {
    pub hp: i64,
    pub kill_count: u64,
    pub active_attack_kind: AttackKind,
    pub next_attack_index: usize,
}

impl Player {
    pub fn new(hp: i64) -> (r: Player)
        ensures
            r == (Player {
                hp,
                kill_count: INITIAL_KILL_COUNT,
                active_attack_kind: AttackKind::Normal,
                next_attack_index: 1,
            }),
    {
        Player { hp, kill_count: INITIAL_KILL_COUNT, active_attack_kind: AttackKind::Normal, next_attack_index: 1 }
    }
}

impl Default for Player {
    fn default() -> (r: Player)
        ensures
            r == (Player {
                hp: INITIAL_PLAYER_HP,
                kill_count: INITIAL_KILL_COUNT,
                active_attack_kind: AttackKind::Normal,
                next_attack_index: 1,
            }),
    {
        Player::new(INITIAL_PLAYER_HP)
    }
}

/// The sole channel by which an enemy projectile that reached a player
/// becomes a hit-point mutation: it carries only the source attack kind.
#[derive(Clone, Copy, Debug, PartialEq, Eq, Structural)]
pub struct DamageEvent {
    pub kind: AttackKind,
}

/// What the resolver and the spawners may do with a mode's player type.
/// Each mode wraps the shared [`Player`] record in a type of its own, so
/// that two participants of one mode never answer each other's queries.
pub trait PlayerMethod: Sized {
    /// The shared record this mode-specific player carries.
    spec fn view_player(&self) -> Player;

    fn hp(&self) -> (r: i64)
        ensures
            r == self.view_player().hp,
    ;

    fn get_kill(&self) -> (r: u64)
        ensures
            r == self.view_player().kill_count,
    ;

    fn damage(&mut self, amount: i64)
        requires
            i64::MIN <= old(self).view_player().hp - amount <= i64::MAX,
        ensures
            final(self).view_player() == (Player { hp: (old(self).view_player().hp - amount) as i64, ..old(self).view_player() }),
    ;

    fn kill(&mut self)
        requires
            old(self).view_player().kill_count < u64::MAX,
        ensures
            final(self).view_player() == (Player {
                kill_count: (old(self).view_player().kill_count + 1) as u64,
                ..old(self).view_player()
            }),
    ;

    fn get_attack(&self) -> (r: AttackKind)
        ensures
            r == self.view_player().active_attack_kind,
    ;

    fn next_index(&self) -> (r: usize)
        ensures
            r == self.view_player().next_attack_index,
    ;

    fn change_attack(&mut self, kind: AttackKind, next_index: usize)
        ensures
            final(self).view_player() == (Player {
                active_attack_kind: kind,
                next_attack_index: next_index,
                ..old(self).view_player()
            }),
    ;
}

/// What the resolver and the spawners may do with a mode's projectile type.
pub trait AttackMethod: Sized {
    /// The shared record this mode-specific projectile carries.
    spec fn view_attack(&self) -> Attack;

    fn new(kind: AttackKind) -> (r: Self)
        ensures
            r.view_attack().kind == kind,
            r.view_attack().remaining_hp as int == kind.power_spec(),
    ;

    fn attack(&self) -> (r: AttackKind)
        ensures
            r == self.view_attack().kind,
    ;

    fn hp(&self) -> (r: i64)
        ensures
            r == self.view_attack().remaining_hp,
    ;

    fn damage(&mut self, amount: i64)
        requires
            i64::MIN <= old(self).view_attack().remaining_hp - amount <= i64::MAX,
        ensures
            final(self).view_attack() == (Attack {
                remaining_hp: (old(self).view_attack().remaining_hp - amount) as i64,
                ..old(self).view_attack()
            }),
    ;
}

/// What the resolver may do with a mode's damage-event type.
pub trait DamageEventMethod: Sized {
    /// The attack kind the event carries.
    spec fn view_kind(&self) -> AttackKind;

    fn event(kind: AttackKind) -> (r: Self)
        ensures
            r.view_kind() == kind,
    ;

    fn power(&self) -> (r: i64)
        ensures
            r as int == self.view_kind().power_spec(),
    ;
}

impl PlayerMethod for Player {
    open spec fn view_player(&self) -> Player {
        *self
    }

    fn hp(&self) -> (r: i64) {
        self.hp
    }

    fn get_kill(&self) -> (r: u64) {
        self.kill_count
    }

    fn damage(&mut self, amount: i64) {
        self.hp = self.hp - amount;
    }

    fn kill(&mut self) {
        self.kill_count = self.kill_count + 1;
    }

    fn get_attack(&self) -> (r: AttackKind) {
        self.active_attack_kind
    }

    fn next_index(&self) -> (r: usize) {
        self.next_attack_index
    }

    fn change_attack(&mut self, kind: AttackKind, next_index: usize) {
        self.active_attack_kind = kind;
        self.next_attack_index = next_index;
    }
}

impl AttackMethod for Attack {
    open spec fn view_attack(&self) -> Attack {
        *self
    }

    fn new(kind: AttackKind) -> (r: Attack) {
        Attack::new(kind)
    }

    fn attack(&self) -> (r: AttackKind) {
        self.kind
    }

    fn hp(&self) -> (r: i64) {
        self.remaining_hp
    }

    fn damage(&mut self, amount: i64) {
        Attack::damage(self, amount)
    }
}

impl DamageEventMethod for DamageEvent {
    open spec fn view_kind(&self) -> AttackKind {
        self.kind
    }

    fn event(kind: AttackKind) -> (r: DamageEvent) {
        DamageEvent { kind }
    }

    fn power(&self) -> (r: i64) {
        self.kind.power()
    }
}

} // verus!

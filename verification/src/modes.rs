//! The mode-specific entity types.
//!
//! Every play mode wraps the shared records in types of its own and
//! implements the capability traits for them, so the one resolver and the
//! one set of spawners serve single-player, shared-screen and versus play
//! without knowing which mode is running — and the two participants of a
//! shared screen never answer each other's queries.

use vstd::prelude::*;

use crate::catalog::AttackKind;
use crate::entity::Attack;
use crate::entity::AttackMethod;
use crate::entity::DamageEventMethod;
use crate::entity::Player;
use crate::entity::PlayerMethod;
use crate::sim::attack_list_spec;

verus! {

/// Hit points the single-player mode starts with.
pub const SINGLE_PLAYER_HP: i64 = 100;

/// Hit points each shared-screen participant starts with.
pub const TWO_PLAYER_HP: i64 = 30;

/// The single-player participant.
#[derive(Clone, Copy, Debug, PartialEq, Eq, Structural)]
pub struct SinglePlayer(pub Player);

/// A single-player projectile.
#[derive(Clone, Copy, Debug, PartialEq, Eq, Structural)]
pub struct SinglePlayerAttack(pub Attack);

/// A single-player damage event.
#[derive(Clone, Copy, Debug, PartialEq, Eq, Structural)]
pub struct SinglePlayerEvent {
    pub attack: AttackKind,
}

/// The first shared-screen participant.
#[derive(Clone, Copy, Debug, PartialEq, Eq, Structural)]
pub struct Player1(pub Player);

/// The second shared-screen participant.
#[derive(Clone, Copy, Debug, PartialEq, Eq, Structural)]
pub struct Player2(pub Player);

/// A projectile of the first participant.
#[derive(Clone, Copy, Debug, PartialEq, Eq, Structural)]
pub struct PlayerAttack1(pub Attack);

/// A projectile of the second participant.
#[derive(Clone, Copy, Debug, PartialEq, Eq, Structural)]
pub struct PlayerAttack2(pub Attack);

/// A damage event aimed at the first participant.
#[derive(Clone, Copy, Debug, PartialEq, Eq, Structural)]
pub struct Player1Damage {
    pub attack: AttackKind,
}

/// A damage event aimed at the second participant.
#[derive(Clone, Copy, Debug, PartialEq, Eq, Structural)]
pub struct Player2Damage {
    pub attack: AttackKind,
}

/// The single-player round starts with extra hit points and the first
/// kind of the cycling list selected.
pub fn single_player_new() -> (r: SinglePlayer)
    ensures
        r.0 == (Player {
            hp: SINGLE_PLAYER_HP,
            kill_count: 0u64,
            active_attack_kind: attack_list_spec()[0],
            next_attack_index: 1usize,
        }),
{
    let mut p = Player::new(SINGLE_PLAYER_HP);
    p.active_attack_kind = AttackKind::Rebound(false);
    proof {
        assert(attack_list_spec()[0] == AttackKind::Rebound(false));
    }
    SinglePlayer(p)
}

/// Both shared-screen participants start alike.
pub fn two_players_new() -> (r: (Player1, Player2))
    ensures
        r.0.0 == (Player {
            hp: TWO_PLAYER_HP,
            kill_count: 0u64,
            active_attack_kind: AttackKind::Normal,
            next_attack_index: 1usize,
        }),
        r.1.0 == r.0.0,
{
    (Player1(Player::new(TWO_PLAYER_HP)), Player2(Player::new(TWO_PLAYER_HP)))
}

impl PlayerMethod for SinglePlayer {
    open spec fn view_player(&self) -> Player {
        self.0
    }

    fn hp(&self) -> (r: i64) {
        self.0.hp
    }

    fn get_kill(&self) -> (r: u64) {
        self.0.kill_count
    }

    fn damage(&mut self, amount: i64) {
        self.0.hp = self.0.hp - amount;
    }

    fn kill(&mut self) {
        self.0.kill_count = self.0.kill_count + 1;
    }

    fn get_attack(&self) -> (r: AttackKind) {
        self.0.active_attack_kind
    }

    fn next_index(&self) -> (r: usize) {
        self.0.next_attack_index
    }

    fn change_attack(&mut self, kind: AttackKind, next_index: usize) {
        self.0.active_attack_kind = kind;
        self.0.next_attack_index = next_index;
    }
}

impl AttackMethod for SinglePlayerAttack {
    open spec fn view_attack(&self) -> Attack {
        self.0
    }

    fn new(kind: AttackKind) -> (r: SinglePlayerAttack) {
        SinglePlayerAttack(Attack::new(kind))
    }

    fn attack(&self) -> (r: AttackKind) {
        self.0.kind
    }

    fn hp(&self) -> (r: i64) {
        self.0.remaining_hp
    }

    fn damage(&mut self, amount: i64) {
        self.0.remaining_hp = self.0.remaining_hp - amount;
    }
}

impl DamageEventMethod for SinglePlayerEvent {
    open spec fn view_kind(&self) -> AttackKind {
        self.attack
    }

    fn event(kind: AttackKind) -> (r: SinglePlayerEvent) {
        SinglePlayerEvent { attack: kind }
    }

    fn power(&self) -> (r: i64) {
        self.attack.power()
    }
}

impl PlayerMethod for Player1 {
    open spec fn view_player(&self) -> Player {
        self.0
    }

    fn hp(&self) -> (r: i64) {
        self.0.hp
    }

    fn get_kill(&self) -> (r: u64) {
        self.0.kill_count
    }

    fn damage(&mut self, amount: i64) {
        self.0.hp = self.0.hp - amount;
    }

    fn kill(&mut self) {
        self.0.kill_count = self.0.kill_count + 1;
    }

    fn get_attack(&self) -> (r: AttackKind) {
        self.0.active_attack_kind
    }

    fn next_index(&self) -> (r: usize) {
        self.0.next_attack_index
    }

    fn change_attack(&mut self, kind: AttackKind, next_index: usize) {
        self.0.active_attack_kind = kind;
        self.0.next_attack_index = next_index;
    }
}

impl PlayerMethod for Player2 {
    open spec fn view_player(&self) -> Player {
        self.0
    }

    fn hp(&self) -> (r: i64) {
        self.0.hp
    }

    fn get_kill(&self) -> (r: u64) {
        self.0.kill_count
    }

    fn damage(&mut self, amount: i64) {
        self.0.hp = self.0.hp - amount;
    }

    fn kill(&mut self) {
        self.0.kill_count = self.0.kill_count + 1;
    }

    fn get_attack(&self) -> (r: AttackKind) {
        self.0.active_attack_kind
    }

    fn next_index(&self) -> (r: usize) {
        self.0.next_attack_index
    }

    fn change_attack(&mut self, kind: AttackKind, next_index: usize) {
        self.0.active_attack_kind = kind;
        self.0.next_attack_index = next_index;
    }
}

impl AttackMethod for PlayerAttack1 {
    open spec fn view_attack(&self) -> Attack {
        self.0
    }

    fn new(kind: AttackKind) -> (r: PlayerAttack1) {
        PlayerAttack1(Attack::new(kind))
    }

    fn attack(&self) -> (r: AttackKind) {
        self.0.kind
    }

    fn hp(&self) -> (r: i64) {
        self.0.remaining_hp
    }

    fn damage(&mut self, amount: i64) {
        self.0.remaining_hp = self.0.remaining_hp - amount;
    }
}

impl AttackMethod for PlayerAttack2 {
    open spec fn view_attack(&self) -> Attack {
        self.0
    }

    fn new(kind: AttackKind) -> (r: PlayerAttack2) {
        PlayerAttack2(Attack::new(kind))
    }

    fn attack(&self) -> (r: AttackKind) {
        self.0.kind
    }

    fn hp(&self) -> (r: i64) {
        self.0.remaining_hp
    }

    fn damage(&mut self, amount: i64) {
        self.0.remaining_hp = self.0.remaining_hp - amount;
    }
}

impl DamageEventMethod for Player1Damage {
    open spec fn view_kind(&self) -> AttackKind {
        self.attack
    }

    fn event(kind: AttackKind) -> (r: Player1Damage) {
        Player1Damage { attack: kind }
    }

    fn power(&self) -> (r: i64) {
        self.attack.power()
    }
}

impl DamageEventMethod for Player2Damage {
    open spec fn view_kind(&self) -> AttackKind {
        self.attack
    }

    fn event(kind: AttackKind) -> (r: Player2Damage) {
        Player2Damage { attack: kind }
    }

    fn power(&self) -> (r: i64) {
        self.attack.power()
    }
}

} // verus!

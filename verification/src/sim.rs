//! The per-mode simulation driver: movement and despawn rules, the
//! periodic enemy spawner, the enemy volley, attack firing and
//! attack-kind cycling.
//!
//! Distances are subunits (see [`crate::catalog`]); per-frame speeds come
//! straight from the catalog, per-second speeds are scaled by the elapsed
//! milliseconds of the tick.

use vstd::prelude::*;

use crate::catalog::AttackKind;
use crate::catalog::EnemyKind;
use crate::catalog::CLAMP_X;
use crate::catalog::CLAMP_Y;
use crate::catalog::SUBPX;
use crate::combat::AttackEnt;
use crate::combat::AttackModel;
use crate::combat::Collider;
use crate::combat::ColliderBody;
use crate::combat::live_attack_ok;
use crate::combat::live_collider_ok;
use crate::combat::models;
use crate::entity::Attack;
use crate::entity::AttackMethod;
use crate::entity::Player;
use crate::entity::PlayerMethod;
use crate::geom::Hitbox;
use crate::geom::Vec2i;
use crate::rng::rand_in_range;

verus! {

/// Enemies spawned by each firing of the periodic spawner.
pub const ENEMY_CREATE_NUMBER: usize = 10;

/// Extra downward drift of an enemy projectile, in subunits per frame.
pub const ENEMY_ATTACK_DRIFT: i64 = 4;

/// A player projectile despawns above this height.
pub const PLAYER_ATTACK_DESPAWN_Y: i64 = 525 * SUBPX;

/// An enemy or enemy projectile despawns below the bottom edge.
pub const BOTTOM_Y: i64 = -525 * SUBPX;

/// Full extent of a player's hitbox.
pub const PLAYER_SIZE: i64 = 50 * SUBPX;

/// Full extent of a player projectile's hitbox (every kind, as fired).
pub const PLAYER_ATTACK_SIZE: i64 = 20 * SUBPX;

/// A player's speed in subunits per second.
pub const PLAYER_SPEED: i64 = 450 * SUBPX;

/// The ordered list a player's attack selection cycles through.
pub open spec fn attack_list_spec() -> Seq<AttackKind> {
    seq![AttackKind::Rebound(false), AttackKind::Shotgun, AttackKind::Normal, AttackKind::Power]
}

/// Number of entries in [`attack_list_spec`].
pub const ATTACK_LIST_LEN: usize = 4;

pub fn attack_list_at(i: usize) -> (r: AttackKind)
    requires
        i < ATTACK_LIST_LEN,
    ensures
        r == attack_list_spec()[i as int],
{
    match i {
        0 => AttackKind::Rebound(false),
        1 => AttackKind::Shotgun,
        2 => AttackKind::Normal,
        _ => AttackKind::Power,
    }
}

/// The spawn, volley and fire periods a mode runs with, in milliseconds.
#[derive(Clone, Copy, Debug, PartialEq, Eq, Structural)]
pub struct ModeConfig {
    pub player_attack_ms: u64,
    pub enemy_create_ms: u64,
    pub enemy_attack_ms: u64,
}

impl Default for ModeConfig {
    fn default() -> (r: ModeConfig)
        ensures
            r == (ModeConfig { player_attack_ms: 150u64, enemy_create_ms: 5000u64, enemy_attack_ms: 2000u64 }),
    {
        ModeConfig { player_attack_ms: 150, enemy_create_ms: 5000, enemy_attack_ms: 2000 }
    }
}

impl ModeConfig {
    /// The single-player pacing.
    pub fn single_play() -> (r: ModeConfig)
        ensures
            r == (ModeConfig { player_attack_ms: 180u64, enemy_create_ms: 4000u64, enemy_attack_ms: 700u64 }),
    {
        ModeConfig { player_attack_ms: 180, enemy_create_ms: 4000, enemy_attack_ms: 700 }
    }

    /// The shared-screen pacing: enemies spawn and fire faster.
    pub fn two_play() -> (r: ModeConfig)
        ensures
            r == (ModeConfig { player_attack_ms: 150u64, enemy_create_ms: 2500u64, enemy_attack_ms: 1000u64 }),
    {
        ModeConfig { player_attack_ms: 150, enemy_create_ms: 2500, enemy_attack_ms: 1000 }
    }
}

/// The distance a per-second speed covers in one tick of `dt_ms`
/// milliseconds.
pub fn speed_step(speed: i64, dt_ms: u64) -> (r: i64)
    requires
        0 <= speed <= 10_000_000,
        dt_ms <= 1_000_000,
    ensures
        r == speed * dt_ms / 1000,
        0 <= r,
{
    let d = dt_ms as i64;
    proof {
        assert(0 <= speed * d <= 10_000_000_000_000i64) by (nonlinear_arith)
            requires
                0 <= speed <= 10_000_000,
                0 <= d <= 1_000_000,
        {}
    }
    speed * d / 1000
}

/// Clamp a coordinate into `[lo, hi]`.
pub open spec fn clamp(v: int, lo: int, hi: int) -> int {
    if v < lo {
        lo
    } else if v > hi {
        hi
    } else {
        v
    }
}

/// The step two opposing direction flags combine to: `step` towards the
/// positive flag, minus `step` towards the negative one, nothing when
/// both or neither is held.
pub open spec fn dir_step(neg: bool, pos: bool, step: int) -> int {
    (if pos {
        step
    } else {
        0int
    }) - (if neg {
        step
    } else {
        0int
    })
}

/// Move a player by its direction flags, `step` subunits along each
/// pressed axis, clamped to the playing field.
pub fn move_player(pos: Vec2i, up: bool, down: bool, left: bool, right: bool, step: i64) -> (r:
    Vec2i)
    requires
        0 <= step,
        i64::MIN < pos.x - step && pos.x + step <= i64::MAX,
        i64::MIN < pos.y - step && pos.y + step <= i64::MAX,
    ensures
        r.x == clamp(pos.x + dir_step(left, right, step as int), -CLAMP_X as int, CLAMP_X as int),
        r.y == clamp(pos.y + dir_step(down, up, step as int), -CLAMP_Y as int, CLAMP_Y as int),
{
    let mut x: i64 = pos.x;
    let mut y: i64 = pos.y;
    if right {
        x = x + step;
    }
    if left {
        x = x - step;
    }
    if up {
        y = y + step;
    }
    if down {
        y = y - step;
    }
    if x < -CLAMP_X {
        x = -CLAMP_X;
    }
    if x > CLAMP_X {
        x = CLAMP_X;
    }
    if y < -CLAMP_Y {
        y = -CLAMP_Y;
    }
    if y > CLAMP_Y {
        y = CLAMP_Y;
    }
    Vec2i { x, y }
}

/// Where a player projectile stands after one frame: it advances by its
/// kind's speeds, a rebound shot that crosses a side wall is relaunched
/// with the opposite heading (fresh durability, as fired), and a shot
/// above the top edge despawns.
pub open spec fn player_attack_step(m: AttackModel) -> Option<AttackModel> {
    let kind = m.attack.kind;
    let x2 = m.hitbox.pos.x + kind.x_speed_spec();
    let y2 = m.hitbox.pos.y + kind.y_speed_spec();
    let attack2 = if kind == AttackKind::Rebound(true) && x2 > CLAMP_X {
        Attack { remaining_hp: AttackKind::Rebound(false).power_spec() as i64, kind: AttackKind::Rebound(false) }
    } else if kind == AttackKind::Rebound(false) && x2 < -CLAMP_X {
        Attack { remaining_hp: AttackKind::Rebound(true).power_spec() as i64, kind: AttackKind::Rebound(true) }
    } else {
        m.attack
    };
    if y2 > PLAYER_ATTACK_DESPAWN_Y {
        None
    } else {
        Some(
            AttackModel {
                hitbox: Hitbox { pos: Vec2i { x: x2 as i64, y: y2 as i64 }, ..m.hitbox },
                attack: attack2,
                ..m
            },
        )
    }
}

/// Advance one player projectile by one frame; `None` means it left the
/// field and despawns.
pub fn advance_player_attack<A: AttackMethod>(ent: AttackEnt<A>) -> (r: Option<AttackEnt<A>>)
    requires
        i64::MIN + 200 <= ent.model().hitbox.pos.x <= i64::MAX - 200,
        i64::MIN + 200 <= ent.model().hitbox.pos.y <= i64::MAX - 200,
    ensures
        r is Some <==> player_attack_step(ent.model()) is Some,
        r is Some ==> r->Some_0.model() == player_attack_step(ent.model())->Some_0,
{
    let mut ent = ent;
    let kind = ent.payload.attack();
    let x2 = ent.hitbox.pos.x + kind.x_speed();
    let y2 = ent.hitbox.pos.y + kind.y_speed();
    ent.hitbox.pos.x = x2;
    ent.hitbox.pos.y = y2;
    if kind == AttackKind::Rebound(true) && x2 > CLAMP_X {
        ent.payload = A::new(AttackKind::Rebound(false));
    } else if kind == AttackKind::Rebound(false) && x2 < -CLAMP_X {
        ent.payload = A::new(AttackKind::Rebound(true));
    }
    if y2 > PLAYER_ATTACK_DESPAWN_Y {
        None
    } else {
        Some(ent)
    }
}

/// Where a collider stands after one tick of `dt_ms` milliseconds: an
/// enemy body falls at its kind's per-second speed and despawns at the
/// bottom edge; an enemy projectile retreats by its kind's per-frame
/// speeds plus the fixed drift and despawns below the bottom edge.
pub open spec fn collider_step(c: Collider, dt_ms: int) -> Option<Collider> {
    match c.body {
        ColliderBody::Body(e) => {
            let y2 = c.hitbox.pos.y - e.kind.fall_speed_spec() * dt_ms / 1000;
            if y2 <= BOTTOM_Y {
                None
            } else {
                Some(Collider { hitbox: Hitbox { pos: Vec2i { y: y2 as i64, ..c.hitbox.pos }, ..c.hitbox }, ..c })
            }
        },
        ColliderBody::Missile(a) => {
            let x2 = c.hitbox.pos.x - a.kind.x_speed_spec();
            let y2 = c.hitbox.pos.y - a.kind.y_speed_spec() - ENEMY_ATTACK_DRIFT;
            if y2 < BOTTOM_Y {
                None
            } else {
                Some(
                    Collider {
                        hitbox: Hitbox { pos: Vec2i { x: x2 as i64, y: y2 as i64 }, ..c.hitbox },
                        ..c
                    },
                )
            }
        },
    }
}

/// Advance one collider by one tick; `None` means it crossed the bottom
/// boundary and despawns.
pub fn advance_collider(c: Collider, dt_ms: u64) -> (r: Option<Collider>)
    requires
        dt_ms <= 1_000_000,
        i64::MIN + 3_000_000_000 <= c.hitbox.pos.x <= i64::MAX - 3_000_000_000,
        i64::MIN + 3_000_000_000 <= c.hitbox.pos.y <= i64::MAX - 3_000_000_000,
    ensures
        r == collider_step(c, dt_ms as int),
{
    match c.body {
        ColliderBody::Body(e) => {
            let dy = e.kind.fall_speed() * dt_ms as i64 / 1000;
            let y2 = c.hitbox.pos.y - dy;
            if y2 <= BOTTOM_Y {
                None
            } else {
                Some(
                    Collider {
                        hitbox: Hitbox {
                            pos: Vec2i { x: c.hitbox.pos.x, y: y2 },
                            size: c.hitbox.size,
                        },
                        body: c.body,
                        alive: c.alive,
                    },
                )
            }
        },
        ColliderBody::Missile(a) => {
            let x2 = c.hitbox.pos.x - a.kind.x_speed();
            let y2 = c.hitbox.pos.y - a.kind.y_speed() - ENEMY_ATTACK_DRIFT;
            if y2 < BOTTOM_Y {
                None
            } else {
                Some(
                    Collider {
                        hitbox: Hitbox { pos: Vec2i { x: x2, y: y2 }, size: c.hitbox.size },
                        body: c.body,
                        alive: c.alive,
                    },
                )
            }
        },
    }
}

/// The horizontally uniform band an enemy kind may spawn in.
pub open spec fn in_spawn_region(k: EnemyKind, pos: Vec2i) -> bool {
    &&& -350 * SUBPX <= pos.x < 350 * SUBPX
    &&& match k {
        EnemyKind::Normal => 0 <= pos.y < 525 * SUBPX,
        EnemyKind::Drop => 262 * SUBPX <= pos.y < 1050 * SUBPX,
    }
}

/// Draw one of the two enemy kinds, each half the time.
pub fn random_enemy_kind() -> (k: EnemyKind) {
    let d = rand_in_range(0, 2);
    if d == 0 {
        EnemyKind::Normal
    } else {
        EnemyKind::Drop
    }
}

/// Draw a spawn position uniformly (per pixel) from the kind's region.
pub fn spawn_position(k: EnemyKind) -> (pos: Vec2i)
    ensures
        in_spawn_region(k, pos),
{
    let x_px = rand_in_range(-350, 350);
    let y_px = match k {
        EnemyKind::Normal => rand_in_range(0, 525),
        EnemyKind::Drop => rand_in_range(262, 1050),
    };
    Vec2i { x: x_px * SUBPX, y: y_px * SUBPX }
}

/// A freshly spawned enemy: random kind, full hit points, random position
/// in its kind's region, the kind's hitbox.
pub open spec fn fresh_enemy(c: Collider) -> bool {
    &&& c.alive
    &&& c.body is Body
    &&& c.body->Body_0.hp as int == c.body->Body_0.kind.initial_hp_spec()
    &&& in_spawn_region(c.body->Body_0.kind, c.hitbox.pos)
    &&& (c.hitbox.size.x as int, c.hitbox.size.y as int) == c.body->Body_0.kind.scale_spec()
}

pub fn spawn_enemy() -> (c: Collider)
    ensures
        fresh_enemy(c),
        live_collider_ok(c),
{
    let kind = random_enemy_kind();
    let pos = spawn_position(kind);
    let (w, h) = kind.scale();
    Collider {
        hitbox: Hitbox { pos, size: Vec2i { x: w, y: h } },
        body: ColliderBody::Body(crate::entity::Enemy::new(kind)),
        alive: true,
    }
}

/// One firing of the periodic spawner: append the fixed batch of fresh
/// enemies.
pub fn create_enemies(out: &mut Vec<Collider>)
    ensures
        final(out)@.len() == old(out)@.len() + ENEMY_CREATE_NUMBER,
        final(out)@.take(old(out)@.len() as int) == old(out)@,
        forall|i: int|
            old(out)@.len() <= i < final(out)@.len() ==> fresh_enemy(#[trigger] final(out)@[i])
                && live_collider_ok(final(out)@[i]),
{
    let ghost n0 = out@.len();
    let mut made: usize = 0;
    while made < ENEMY_CREATE_NUMBER
        invariant
            made <= ENEMY_CREATE_NUMBER,
            out@.len() == n0 + made,
            out@.take(n0 as int) == out@.subrange(0, n0 as int),
            forall|i: int| 0 <= i < n0 ==> out@[i] == old(out)@[i],
            n0 == old(out)@.len(),
            forall|i: int|
                n0 <= i < out@.len() ==> fresh_enemy(#[trigger] out@[i]) && live_collider_ok(
                    out@[i],
                ),
        decreases ENEMY_CREATE_NUMBER - made,
    {
        let e = spawn_enemy();
        out.push(e);
        made = made + 1;
    }
    proof {
        assert(out@.take(n0 as int) =~= old(out)@);
    }
}

/// The projectile an enemy fires: the `Normal` kind, straight down from
/// the enemy's position, with that kind's hitbox.
pub open spec fn enemy_missile_at(pos: Vec2i) -> Collider {
    Collider {
        hitbox: Hitbox {
            pos,
            size: Vec2i {
                x: AttackKind::Normal.scale_spec().0 as i64,
                y: AttackKind::Normal.scale_spec().1 as i64,
            },
        },
        body: ColliderBody::Missile(
            Attack {
                remaining_hp: AttackKind::Normal.power_spec() as i64,
                kind: AttackKind::Normal,
            },
        ),
        alive: true,
    }
}

/// The volley one tick of the enemy-fire timer produces: one missile per
/// live enemy body, in order.
pub open spec fn volley_spec(cols: Seq<Collider>) -> Seq<Collider>
    decreases cols.len(),
{
    if cols.len() == 0 {
        Seq::empty()
    } else {
        let rest = volley_spec(cols.drop_last());
        let c = cols.last();
        if c.alive && c.body is Body {
            rest.push(enemy_missile_at(c.hitbox.pos))
        } else {
            rest
        }
    }
}

/// Fire the enemy volley: every live enemy body appends one missile at
/// its own position.
pub fn enemy_volley(cols: &Vec<Collider>, out: &mut Vec<Collider>)
    ensures
        final(out)@ == old(out)@ + volley_spec(cols@),
{
    let ghost out0 = out@;
    let n = cols.len();
    let mut i: usize = 0;
    while i < n
        invariant
            n == cols@.len(),
            i <= n,
            out@ == out0 + volley_spec(cols@.take(i as int)),
        decreases n - i,
    {
        proof {
            assert(cols@.take(i + 1).drop_last() =~= cols@.take(i as int));
            assert(cols@.take(i + 1).last() == cols@[i as int]);
        }
        let c = cols[i];
        if c.alive {
            if let ColliderBody::Body(_) = c.body {
                let (w, h) = AttackKind::Normal.scale();
                out.push(
                    Collider {
                        hitbox: Hitbox { pos: c.hitbox.pos, size: Vec2i { x: w, y: h } },
                        body: ColliderBody::Missile(Attack::new(AttackKind::Normal)),
                        alive: true,
                    },
                );
                proof {
                    assert(out@ =~= out0 + volley_spec(cols@.take(i + 1)));
                }
            }
        }
        proof {
            assert(out@ =~= out0 + volley_spec(cols@.take(i + 1)));
        }
        i = i + 1;
    }
    proof {
        assert(cols@.take(n as int) =~= cols@);
    }
}

/// The fan the selected kind launches, as models: one fresh projectile per
/// kind of the launch group, all at the firing position, with the fixed
/// player-projectile hitbox.
pub open spec fn fire_models(kind: AttackKind, pos: Vec2i) -> Seq<AttackModel> {
    kind.launch_group_spec().map_values(
        |k: AttackKind|
            AttackModel {
                hitbox: Hitbox { pos, size: Vec2i { x: PLAYER_ATTACK_SIZE, y: PLAYER_ATTACK_SIZE } },
                attack: Attack { remaining_hp: k.power_spec() as i64, kind: k },
                alive: true,
            },
    )
}

/// Fire the selected kind once: expand it through its launch group and
/// append one projectile per resulting kind, all at the player's
/// position.  Firing `Shotgun` appends exactly its five spread kinds.
pub fn fire_attacks<A: AttackMethod>(kind: AttackKind, pos: Vec2i, out: &mut Vec<AttackEnt<A>>)
    ensures
        models(final(out)@) == models(old(out)@) + fire_models(kind, pos),
        final(out)@.len() == old(out)@.len() + kind.launch_group_spec().len(),
        forall|i: int|
            old(out)@.len() <= i < final(out)@.len() ==> live_attack_ok(
                #[trigger] models(final(out)@)[i],
            ),
{
    let ghost out0 = out@;
    let group = kind.launch_group();
    let n = group.len();
    let mut i: usize = 0;
    while i < n
        invariant
            n == group@.len(),
            group@ == kind.launch_group_spec(),
            i <= n,
            models(out@) == models(out0) + fire_models(kind, pos).take(i as int),
            out@.len() == out0.len() + i,
        decreases n - i,
    {
        let k = group[i];
        let ent = AttackEnt {
            hitbox: Hitbox { pos, size: Vec2i { x: PLAYER_ATTACK_SIZE, y: PLAYER_ATTACK_SIZE } },
            payload: A::new(k),
            alive: true,
        };
        let ghost pre = out@;
        out.push(ent);
        proof {
            assert(1 <= k.power_spec() <= 20);
            assert(ent.model() == fire_models(kind, pos)[i as int]);
            assert(models(out@) =~= models(pre).push(ent.model()));
            assert(models(pre).push(ent.model()) =~= models(out0) + fire_models(kind, pos).take(
                i + 1,
            ));
        }
        i = i + 1;
    }
    proof {
        assert(fire_models(kind, pos).take(n as int) =~= fire_models(kind, pos));
        assert(forall|i: int|
            out0.len() <= i < out@.len() ==> live_attack_ok(#[trigger] models(out@)[i]));
    }
}

/// Advance the player's selection to the next kind of the fixed list,
/// wrapping at the end, and return the fire period the new kind re-arms
/// the timer with.
pub fn cycle_attack<P: PlayerMethod>(player: &mut P) -> (period_ms: u64)
    requires
        old(player).view_player().next_attack_index < ATTACK_LIST_LEN,
    ensures
        final(player).view_player() == (Player {
            active_attack_kind: attack_list_spec()[old(player).view_player().next_attack_index as int],
            next_attack_index: ((old(player).view_player().next_attack_index + 1) % ATTACK_LIST_LEN as int) as usize,
            ..old(player).view_player()
        }),
        period_ms as int == final(player).view_player().active_attack_kind.fire_period_ms_spec(),
{
    let idx = player.next_index();
    let kind = attack_list_at(idx);
    let next = if idx + 1 == ATTACK_LIST_LEN {
        0
    } else {
        idx + 1
    };
    player.change_attack(kind, next);
    kind.fire_period_ms()
}

} // verus!

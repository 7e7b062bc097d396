//! The per-tick collision resolver.
//!
//! Three rules, in this precedence, are applied to every overlapping pair:
//! a player attack hitting an enemy body damages it by the attack's power
//! (a dying enemy is removed and counted, the attack pierces; a surviving
//! enemy absorbs the attack); a player attack hitting an enemy projectile
//! fights a symmetric duel over remaining durability; an enemy body or
//! projectile reaching the player is handled separately by
//! [`player_collision`] and [`apply_damage_events`].

use vstd::prelude::*;

use crate::catalog::AttackKind;
use crate::entity::Attack;
use crate::entity::AttackMethod;
use crate::entity::DamageEventMethod;
use crate::entity::Enemy;
use crate::entity::Player;
use crate::entity::PlayerMethod;
use crate::geom::Hitbox;

verus! {

/// What a collider is: a raw enemy body, or an enemy projectile.
#[derive(Clone, Copy, Debug, PartialEq, Eq, Structural)]
pub enum ColliderBody {
    Body(Enemy),
    Missile(Attack),
}

/// One entity the player's attacks (and the player) can run into.  A dead
/// collider stays in the vector until the tick ends but takes part in no
/// further pair.
#[derive(Clone, Copy, Debug, PartialEq, Eq, Structural)]
pub struct Collider {
    pub hitbox: Hitbox,
    pub body: ColliderBody,
    pub alive: bool,
}

/// A player projectile in flight, carrying a mode's own attack type.
pub struct AttackEnt<A> {
    pub hitbox: Hitbox,
    pub payload: A,
    pub alive: bool,
}

/// The mathematical shadow of an [`AttackEnt`]: the same entity with the
/// payload replaced by the shared record it carries.
#[derive(Clone, Copy, Debug, PartialEq, Eq, Structural)]
pub struct AttackModel {
    pub hitbox: Hitbox,
    pub attack: Attack,
    pub alive: bool,
}

impl<A: AttackMethod> AttackEnt<A> {
    pub open spec fn model(self) -> AttackModel {
        AttackModel { hitbox: self.hitbox, attack: self.payload.view_attack(), alive: self.alive }
    }
}

/// The models of a whole vector of projectiles.
pub open spec fn models<A: AttackMethod>(v: Seq<AttackEnt<A>>) -> Seq<AttackModel> {
    v.map_values(|e: AttackEnt<A>| e.model())
}

/// A projectile that still flies has positive durability, at most its
/// kind's power.
pub open spec fn live_attack_ok(m: AttackModel) -> bool {
    m.alive ==> 0 < m.attack.remaining_hp <= m.attack.kind.power_spec()
}

/// A collider that still lives has positive hit points, at most its
/// starting value.
pub open spec fn live_collider_ok(c: Collider) -> bool {
    c.alive ==> match c.body {
        ColliderBody::Body(e) => 0 < e.hp <= e.kind.initial_hp_spec(),
        ColliderBody::Missile(a) => 0 < a.remaining_hp <= a.kind.power_spec(),
    }
}

/// The projectile duel: the side with strictly smaller remaining durability
/// is destroyed and the larger side keeps the difference; equal durability
/// destroys both.  Returns each side paired with its survival flag.
pub open spec fn duel_spec(a: Attack, b: Attack) -> ((Attack, bool), (Attack, bool)) {
    if a.remaining_hp > b.remaining_hp {
        (
            (Attack { remaining_hp: (a.remaining_hp - b.remaining_hp) as i64, ..a }, true),
            (b, false),
        )
    } else if b.remaining_hp > a.remaining_hp {
        (
            (a, false),
            (Attack { remaining_hp: (b.remaining_hp - a.remaining_hp) as i64, ..b }, true),
        )
    } else {
        ((a, false), (b, false))
    }
}

/// The duel is commutative: swapping the sides swaps the outcome and
/// nothing else, so the surviving side is the same whichever entity the
/// resolver happened to call the attacker.
pub proof fn lemma_duel_commutes(a: Attack, b: Attack)
    ensures
        duel_spec(b, a) == (duel_spec(a, b).1, duel_spec(a, b).0),
{
}

/// A duel between equal durabilities is mutual annihilation: no survivor.
pub proof fn lemma_duel_tie(a: Attack, b: Attack)
    requires
        a.remaining_hp == b.remaining_hp,
    ensures
        !duel_spec(a, b).0.1,
        !duel_spec(a, b).1.1,
{
}

/// One attack against one collider: the resolver's single step.  `kills`
/// and `info` accumulate the player's kill count and whether a display
/// refresh is owed.
pub open spec fn pair_step(att: AttackModel, col: Collider, kills: int, info: bool) -> (
    AttackModel,
    Collider,
    int,
    bool,
) {
    if att.alive && col.alive && att.hitbox.overlaps_spec(col.hitbox) {
        match col.body {
            ColliderBody::Body(e) => {
                let hp2 = e.hp - att.attack.kind.power_spec();
                if hp2 <= 0 {
                    (
                        att,
                        Collider {
                            body: ColliderBody::Body(Enemy { hp: hp2 as i64, ..e }),
                            alive: false,
                            ..col
                        },
                        kills + 1,
                        true,
                    )
                } else {
                    (
                        AttackModel { alive: false, ..att },
                        Collider { body: ColliderBody::Body(Enemy { hp: hp2 as i64, ..e }), ..col },
                        kills,
                        info,
                    )
                }
            },
            ColliderBody::Missile(b) => {
                let ((a2, a_lives), (b2, b_lives)) = duel_spec(att.attack, b);
                (
                    AttackModel { attack: a2, alive: a_lives, ..att },
                    Collider { body: ColliderBody::Missile(b2), alive: b_lives, ..col },
                    kills,
                    info,
                )
            },
        }
    } else {
        (att, col, kills, info)
    }
}

/// Player attack against enemy body, spelled out: a hit that brings the
/// enemy to zero or below removes it and registers exactly one kill while
/// the attack persists; a hit the enemy survives leaves it with the reduced
/// hit points and removes the attack instead.
pub proof fn lemma_attack_vs_enemy(att: AttackModel, col: Collider, e: Enemy, kills: int, info: bool)
    requires
        att.alive,
        col.alive,
        att.hitbox.overlaps_spec(col.hitbox),
        col.body == ColliderBody::Body(e),
    ensures
        e.hp - att.attack.kind.power_spec() <= 0 ==> {
            let (att2, col2, kills2, info2) = pair_step(att, col, kills, info);
            &&& att2 == att
            &&& !col2.alive
            &&& kills2 == kills + 1
            &&& info2
        },
        e.hp - att.attack.kind.power_spec() > 0 ==> {
            let (att2, col2, kills2, info2) = pair_step(att, col, kills, info);
            &&& !att2.alive
            &&& col2.alive
            &&& col2.body == ColliderBody::Body(
                Enemy { hp: (e.hp - att.attack.kind.power_spec()) as i64, ..e },
            )
            &&& kills2 == kills
        },
{
}



/// Number of live colliders in `cols[i..]`.
pub open spec fn alive_count(cols: Seq<Collider>, i: int) -> int
    decreases cols.len() - i,
{
    if i < 0 || i >= cols.len() {
        0
    } else {
        (if cols[i].alive {
            1int
        } else {
            0int
        }) + alive_count(cols, i + 1)
    }
}

pub proof fn lemma_alive_count_bounds(cols: Seq<Collider>, i: int)
    ensures
        0 <= alive_count(cols, i),
        alive_count(cols, i) <= cols.len(),
        0 <= i <= cols.len() ==> alive_count(cols, i) <= cols.len() - i,
    decreases cols.len() - i,
{
    if 0 <= i < cols.len() {
        lemma_alive_count_bounds(cols, i + 1);
    }
}

/// Updating one collider moves the live count by exactly the change at
/// that index, seen from any starting point at or before it.
pub proof fn lemma_alive_count_update(cols: Seq<Collider>, i: int, c: Collider, from: int)
    requires
        0 <= i < cols.len(),
        0 <= from <= i,
    ensures
        alive_count(cols.update(i, c), from) == alive_count(cols, from) - (if cols[i].alive {
            1int
        } else {
            0int
        }) + (if c.alive {
            1int
        } else {
            0int
        }),
    decreases i - from,
{
    let cols2 = cols.update(i, c);
    if from == i {
        lemma_alive_count_agree(cols, cols2, i + 1);
    } else {
        lemma_alive_count_update(cols, i, c, from + 1);
    }
}

/// Two equally long collider sequences that agree from `i` on have the
/// same live count there.
pub proof fn lemma_alive_count_agree(a: Seq<Collider>, b: Seq<Collider>, i: int)
    requires
        a.len() == b.len(),
        forall|t: int| i <= t < a.len() ==> a[t] == b[t],
    ensures
        alive_count(a, i) == alive_count(b, i),
    decreases a.len() - i,
{
    if 0 <= i < a.len() {
        lemma_alive_count_agree(a, b, i + 1);
    }
}

/// A live collider anywhere means the live count from the start is
/// positive.
pub proof fn lemma_alive_count_pos(cols: Seq<Collider>, i: int)
    requires
        0 <= i < cols.len(),
        cols[i].alive,
    ensures
        alive_count(cols, 0) >= 1,
{
    lemma_alive_count_pos_from(cols, i, 0);
}

proof fn lemma_alive_count_pos_from(cols: Seq<Collider>, i: int, from: int)
    requires
        0 <= from <= i < cols.len(),
        cols[i].alive,
    ensures
        alive_count(cols, from) >= 1,
    decreases i - from,
{
    lemma_alive_count_bounds(cols, from + 1);
    if from < i {
        lemma_alive_count_pos_from(cols, i, from + 1);
    }
}

/// One attack swept over `cols[i..]`, one pair step at a time.
pub open spec fn sweep_from(
    att: AttackModel,
    cols: Seq<Collider>,
    i: int,
    kills: int,
    info: bool,
) -> (AttackModel, Seq<Collider>, int, bool)
    decreases cols.len() - i,
{
    if i < 0 || i >= cols.len() {
        (att, cols, kills, info)
    } else {
        let (att2, col2, k2, f2) = pair_step(att, cols[i], kills, info);
        sweep_from(att2, cols.update(i, col2), i + 1, k2, f2)
    }
}

/// Every attack swept in turn over the colliders, from attack `j` on.
pub open spec fn tick_from(
    atts: Seq<AttackModel>,
    cols: Seq<Collider>,
    j: int,
    kills: int,
    info: bool,
) -> (Seq<AttackModel>, Seq<Collider>, int, bool)
    decreases atts.len() - j,
{
    if j < 0 || j >= atts.len() {
        (atts, cols, kills, info)
    } else {
        let (att2, cols2, k2, f2) = sweep_from(atts[j], cols, 0, kills, info);
        tick_from(atts.update(j, att2), cols2, j + 1, k2, f2)
    }
}

/// The sweep never takes kills back.
pub proof fn lemma_sweep_kills_monotone(
    att: AttackModel,
    cols: Seq<Collider>,
    i: int,
    kills: int,
    info: bool,
)
    ensures
        sweep_from(att, cols, i, kills, info).2 >= kills,
    decreases cols.len() - i,
{
    if 0 <= i < cols.len() {
        let (att2, col2, k2, f2) = pair_step(att, cols[i], kills, info);
        lemma_sweep_kills_monotone(att2, cols.update(i, col2), i + 1, k2, f2);
    }
}

/// Sweep one projectile over every collider, mutating the player's kill
/// count and the refresh flag exactly as the mathematical sweep says.
fn sweep_one<P: PlayerMethod, A: AttackMethod>(
    player: &mut P,
    att: AttackEnt<A>,
    colliders: &mut Vec<Collider>,
    info: &mut bool,
) -> (r: AttackEnt<A>)
    requires
        live_attack_ok(att.model()),
        forall|t: int| 0 <= t < old(colliders)@.len() ==> live_collider_ok(old(colliders)@[t]),
        old(player).view_player().kill_count + alive_count(old(colliders)@, 0) <= u64::MAX,
    ensures
        ({
            let (am, cs, k2, f2) = sweep_from(
                att.model(),
                old(colliders)@,
                0,
                old(player).view_player().kill_count as int,
                *old(info),
            );
            &&& r.model() == am
            &&& final(colliders)@ == cs
            &&& final(player).view_player() == (Player {
                kill_count: k2 as u64,
                ..old(player).view_player()
            })
            &&& *final(info) == f2
            &&& k2 + alive_count(cs, 0) <= old(player).view_player().kill_count + alive_count(
                old(colliders)@,
                0,
            )
        }),
        live_attack_ok(r.model()),
        forall|t: int| 0 <= t < final(colliders)@.len() ==> live_collider_ok(final(colliders)@[t]),
        final(colliders)@.len() == old(colliders)@.len(),
{
    let ghost a0 = att.model();
    let ghost cols0 = colliders@;
    let ghost p0 = player.view_player();
    let ghost f0 = *info;
    let ghost bound = p0.kill_count + alive_count(cols0, 0);
    let mut att = att;
    let n = colliders.len();
    let mut i: usize = 0;
    while i < n
        invariant
            n == colliders@.len(),
            i <= n,
            sweep_from(a0, cols0, 0, p0.kill_count as int, f0) == sweep_from(
                att.model(),
                colliders@,
                i as int,
                player.view_player().kill_count as int,
                *info,
            ),
            live_attack_ok(att.model()),
            forall|t: int| 0 <= t < colliders@.len() ==> live_collider_ok(colliders@[t]),
            player.view_player() == (Player {
                kill_count: player.view_player().kill_count,
                ..p0
            }),
            player.view_player().kill_count + alive_count(colliders@, 0) <= bound,
            bound <= u64::MAX,
        decreases n - i,
    {
        let ghost att_pre = att.model();
        let ghost cols_pre = colliders@;
        let ghost k_pre = player.view_player().kill_count as int;
        let ghost f_pre = *info;
        let c = colliders[i];
        let overlap = att.hitbox.overlaps(&c.hitbox);
        if att.alive && c.alive && overlap {
            match c.body {
                ColliderBody::Body(e) => {
                    let power = att.payload.attack().power();
                    let hp2 = e.hp - power;
                    if hp2 <= 0 {
                        proof {
                            lemma_alive_count_pos(colliders@, i as int);
                        }
                        player.kill();
                        *info = true;
                        let c2 = Collider {
                            body: ColliderBody::Body(Enemy { hp: hp2, kind: e.kind }),
                            alive: false,
                            hitbox: c.hitbox,
                        };
                        proof {
                            lemma_alive_count_update(cols_pre, i as int, c2, 0);
                        }
                        colliders.set(i, c2);
                    } else {
                        att.alive = false;
                        let c2 = Collider {
                            body: ColliderBody::Body(Enemy { hp: hp2, kind: e.kind }),
                            alive: true,
                            hitbox: c.hitbox,
                        };
                        proof {
                            lemma_alive_count_update(cols_pre, i as int, c2, 0);
                        }
                        colliders.set(i, c2);
                    }
                },
                ColliderBody::Missile(b) => {
                    let ahp = att.payload.hp();
                    if ahp > b.remaining_hp {
                        att.payload.damage(b.remaining_hp);
                        let c2 = Collider { alive: false, ..c };
                        proof {
                            lemma_alive_count_update(cols_pre, i as int, c2, 0);
                        }
                        colliders.set(i, c2);
                    } else if b.remaining_hp > ahp {
                        att.alive = false;
                        let c2 = Collider {
                            body: ColliderBody::Missile(
                                Attack { remaining_hp: b.remaining_hp - ahp, kind: b.kind },
                            ),
                            alive: true,
                            hitbox: c.hitbox,
                        };
                        proof {
                            lemma_alive_count_update(cols_pre, i as int, c2, 0);
                        }
                        colliders.set(i, c2);
                    } else {
                        att.alive = false;
                        let c2 = Collider { alive: false, ..c };
                        proof {
                            lemma_alive_count_update(cols_pre, i as int, c2, 0);
                        }
                        colliders.set(i, c2);
                    }
                },
            }
        }
        proof {
            let (am1, c1, k1, f1) = pair_step(att_pre, cols_pre[i as int], k_pre, f_pre);
            assert(att.model() == am1);
            assert(colliders@ =~= cols_pre.update(i as int, c1));
            assert(player.view_player().kill_count as int == k1);
            assert(*info == f1);
        }
        i = i + 1;
    }
    proof {
        lemma_alive_count_bounds(colliders@, 0);
    }
    att
}


/// Resolve one simulation tick: every player projectile is tested against
/// every collider, in order, and the rules above are applied pair by pair.
/// The result is exactly the mathematical fold [`tick_from`] of the
/// starting state; `info_changed` reports whether any kill was registered,
/// so the display can be refreshed.
pub fn resolve_combat<P: PlayerMethod, A: AttackMethod>(
    player: &mut P,
    attacks: &mut Vec<AttackEnt<A>>,
    colliders: &mut Vec<Collider>,
) -> (info_changed: bool)
    requires
        forall|t: int|
            0 <= t < old(attacks)@.len() ==> live_attack_ok(#[trigger] models(old(attacks)@)[t]),
        forall|t: int| 0 <= t < old(colliders)@.len() ==> live_collider_ok(old(colliders)@[t]),
        old(player).view_player().kill_count + old(colliders)@.len() <= u64::MAX,
    ensures
        ({
            let (ams, cs, k, f) = tick_from(
                models(old(attacks)@),
                old(colliders)@,
                0,
                old(player).view_player().kill_count as int,
                false,
            );
            &&& models(final(attacks)@) == ams
            &&& final(colliders)@ == cs
            &&& final(player).view_player() == (Player {
                kill_count: k as u64,
                ..old(player).view_player()
            })
            &&& info_changed == f
        }),
        forall|t: int|
            0 <= t < final(attacks)@.len() ==> live_attack_ok(#[trigger] models(final(attacks)@)[t]),
        forall|t: int| 0 <= t < final(colliders)@.len() ==> live_collider_ok(final(colliders)@[t]),
        final(attacks)@.len() == old(attacks)@.len(),
        final(colliders)@.len() == old(colliders)@.len(),
{
    let ghost atts0 = models(attacks@);
    let ghost cols0 = colliders@;
    let ghost p0 = player.view_player();
    proof {
        lemma_alive_count_bounds(cols0, 0);
    }
    let mut info = false;
    let n = attacks.len();
    let mut j: usize = 0;
    while j < n
        invariant
            n == attacks@.len(),
            j <= n,
            colliders@.len() == cols0.len(),
            tick_from(atts0, cols0, 0, p0.kill_count as int, false) == tick_from(
                models(attacks@),
                colliders@,
                j as int,
                player.view_player().kill_count as int,
                info,
            ),
            forall|t: int| 0 <= t < attacks@.len() ==> live_attack_ok(#[trigger] models(attacks@)[t]),
            forall|t: int| 0 <= t < colliders@.len() ==> live_collider_ok(colliders@[t]),
            player.view_player() == (Player { kill_count: player.view_player().kill_count, ..p0 }),
            player.view_player().kill_count + alive_count(colliders@, 0) <= u64::MAX,
        decreases n - j,
    {
        let ghost raw_pre = attacks@;
        let ghost atts_pre = models(attacks@);
        let ghost cols_pre = colliders@;
        let ghost k_pre = player.view_player().kill_count as int;
        let ghost f_pre = info;
        let att = attacks.remove(j);
        proof {
            assert(att.model() == atts_pre[j as int]);
        }
        let att2 = sweep_one(player, att, colliders, &mut info);
        attacks.insert(j, att2);
        proof {
            assert(attacks@ =~= raw_pre.update(j as int, att2));
            let (am1, cs1, k1, f1) = sweep_from(atts_pre[j as int], cols_pre, 0, k_pre, f_pre);
            lemma_sweep_kills_monotone(atts_pre[j as int], cols_pre, 0, k_pre, f_pre);
            lemma_alive_count_bounds(cs1, 0);
            assert(am1 == att2.model());
            assert(models(attacks@) =~= atts_pre.update(j as int, am1));
            assert(colliders@ == cs1);
            assert(player.view_player().kill_count as int == k1);
            assert(info == f1);
            assert(tick_from(atts_pre, cols_pre, j as int, k_pre, f_pre) == tick_from(
                atts_pre.update(j as int, am1),
                cs1,
                j as int + 1,
                k1,
                f1,
            ));
        }
        j = j + 1;
    }
    info
}


/// The attack kinds carried by a vector of damage events.
pub open spec fn event_kinds<E: DamageEventMethod>(v: Seq<E>) -> Seq<AttackKind> {
    v.map_values(|e: E| e.view_kind())
}

/// One collider tested against the player's own hitbox: touching a raw
/// enemy body is fatal contact and ends the round on the spot; touching an
/// enemy projectile consumes it and queues a damage event carrying its
/// kind.
pub open spec fn contact_step(pbox: Hitbox, col: Collider, events: Seq<AttackKind>, fatal: bool) -> (
    Collider,
    Seq<AttackKind>,
    bool,
) {
    if col.alive && pbox.overlaps_spec(col.hitbox) {
        match col.body {
            ColliderBody::Body(_) => (col, events, true),
            ColliderBody::Missile(a) => (Collider { alive: false, ..col }, events.push(a.kind), fatal),
        }
    } else {
        (col, events, fatal)
    }
}

/// The player tested against `cols[i..]`, one collider at a time.
pub open spec fn contact_from(
    pbox: Hitbox,
    cols: Seq<Collider>,
    i: int,
    events: Seq<AttackKind>,
    fatal: bool,
) -> (Seq<Collider>, Seq<AttackKind>, bool)
    decreases cols.len() - i,
{
    if i < 0 || i >= cols.len() {
        (cols, events, fatal)
    } else {
        let (c2, e2, f2) = contact_step(pbox, cols[i], events, fatal);
        contact_from(pbox, cols.update(i, c2), i + 1, e2, f2)
    }
}

/// Fatal contact happens exactly when some live enemy body overlaps the
/// player, no matter what the player's hit points are.
pub proof fn lemma_contact_fatal_iff(
    pbox: Hitbox,
    cols: Seq<Collider>,
    i: int,
    events: Seq<AttackKind>,
    fatal: bool,
)
    requires
        0 <= i,
    ensures
        contact_from(pbox, cols, i, events, fatal).2 == (fatal || exists|t: int|
            i <= t < cols.len() && cols[t].alive && pbox.overlaps_spec(#[trigger] cols[t].hitbox)
                && cols[t].body is Body),
    decreases cols.len() - i,
{
    if 0 <= i < cols.len() {
        let (c2, e2, f2) = contact_step(pbox, cols[i], events, fatal);
        let cols2 = cols.update(i, c2);
        lemma_contact_fatal_iff(pbox, cols2, i + 1, e2, f2);
        assert(forall|t: int| i + 1 <= t < cols.len() ==> cols2[t] == cols[t]);
        if f2 && !fatal {
            assert(cols[i].alive && pbox.overlaps_spec(cols[i].hitbox) && cols[i].body is Body);
        }
        if exists|t: int|
            i + 1 <= t < cols2.len() && cols2[t].alive && pbox.overlaps_spec(
                #[trigger] cols2[t].hitbox,
            ) && cols2[t].body is Body {
            let t = choose|t: int|
                i + 1 <= t < cols2.len() && cols2[t].alive && pbox.overlaps_spec(
                    #[trigger] cols2[t].hitbox,
                ) && cols2[t].body is Body;
            assert(cols[t].alive && pbox.overlaps_spec(cols[t].hitbox) && cols[t].body is Body);
        }
        if exists|t: int|
            i <= t < cols.len() && cols[t].alive && pbox.overlaps_spec(#[trigger] cols[t].hitbox)
                && cols[t].body is Body {
            let t = choose|t: int|
                i <= t < cols.len() && cols[t].alive && pbox.overlaps_spec(
                    #[trigger] cols[t].hitbox,
                ) && cols[t].body is Body;
            if t == i {
                assert(f2);
            } else {
                assert(cols2[t].alive && pbox.overlaps_spec(cols2[t].hitbox) && cols2[t].body
                    is Body);
            }
        }
    }
}

/// Test every collider against the player's hitbox.  Enemy projectiles
/// that reach the player are consumed and queued as damage events; a raw
/// enemy body in contact makes the result fatal, ending the round
/// regardless of hit points.
pub fn player_collision<E: DamageEventMethod>(
    player_box: &Hitbox,
    colliders: &mut Vec<Collider>,
    events: &mut Vec<E>,
) -> (fatal: bool)
    ensures
        ({
            let (cs, ev, f) = contact_from(
                *player_box,
                old(colliders)@,
                0,
                event_kinds(old(events)@),
                false,
            );
            &&& final(colliders)@ == cs
            &&& event_kinds(final(events)@) == ev
            &&& fatal == f
        }),
        final(colliders)@.len() == old(colliders)@.len(),
{
    let ghost pbox = *player_box;
    let ghost cols0 = colliders@;
    let ghost ev0 = event_kinds(events@);
    let mut fatal = false;
    let n = colliders.len();
    let mut i: usize = 0;
    while i < n
        invariant
            n == colliders@.len(),
            i <= n,
            contact_from(pbox, cols0, 0, ev0, false) == contact_from(
                pbox,
                colliders@,
                i as int,
                event_kinds(events@),
                fatal,
            ),
            pbox == *player_box,
        decreases n - i,
    {
        let ghost cols_pre = colliders@;
        let ghost ev_pre = event_kinds(events@);
        let ghost f_pre = fatal;
        let c = colliders[i];
        if c.alive && player_box.overlaps(&c.hitbox) {
            match c.body {
                ColliderBody::Body(_) => {
                    fatal = true;
                },
                ColliderBody::Missile(a) => {
                    colliders.set(i, Collider { alive: false, ..c });
                    events.push(E::event(a.kind));
                },
            }
        }
        proof {
            let (c2, e2, f2) = contact_step(pbox, cols_pre[i as int], ev_pre, f_pre);
            assert(colliders@ =~= cols_pre.update(i as int, c2));
            assert(event_kinds(events@) =~= e2);
            assert(fatal == f2);
        }
        i = i + 1;
    }
    fatal
}

/// Total damage carried by a queue of attack kinds.
pub open spec fn sum_powers(ks: Seq<AttackKind>) -> int
    decreases ks.len(),
{
    if ks.len() == 0 {
        0
    } else {
        sum_powers(ks.drop_last()) + ks.last().power_spec()
    }
}

/// A prefix never carries more damage than the whole queue, and no queue
/// carries negative damage.
pub proof fn lemma_sum_powers_prefix(ks: Seq<AttackKind>, i: int)
    requires
        0 <= i <= ks.len(),
    ensures
        0 <= sum_powers(ks.take(i)) <= sum_powers(ks),
    decreases ks.len(),
{
    assert(forall|k: AttackKind| #[trigger] k.power_spec() >= 1);
    if ks.len() == 0 {
        assert(ks.take(i) =~= ks);
    } else if i == ks.len() {
        assert(ks.take(i) =~= ks);
        lemma_sum_powers_prefix(ks.drop_last(), ks.len() - 1);
    } else {
        assert(ks.take(i) =~= ks.drop_last().take(i));
        lemma_sum_powers_prefix(ks.drop_last(), i);
    }
}

/// Apply every queued damage event to the player, in order.  The round is
/// over exactly when there was at least one event and the resulting hit
/// points are at or below zero; a display refresh is owed exactly when
/// there was at least one event.
pub fn apply_damage_events<P: PlayerMethod, E: DamageEventMethod>(player: &mut P, events: &Vec<E>) -> (r:
    (bool, bool))
    requires
        old(player).view_player().hp - sum_powers(event_kinds(events@)) >= i64::MIN,
    ensures
        final(player).view_player() == (Player {
            hp: (old(player).view_player().hp - sum_powers(event_kinds(events@))) as i64,
            ..old(player).view_player()
        }),
        r.0 == (events@.len() > 0 && final(player).view_player().hp <= 0),
        r.1 == (events@.len() > 0),
{
    let ghost ks = event_kinds(events@);
    let ghost p0 = player.view_player();
    let mut over = false;
    let n = events.len();
    let mut i: usize = 0;
    while i < n
        invariant
            n == events@.len(),
            i <= n,
            ks == event_kinds(events@),
            p0.hp - sum_powers(ks) >= i64::MIN,
            player.view_player() == (Player {
                hp: (p0.hp - sum_powers(ks.take(i as int))) as i64,
                ..p0
            }),
            over == (i > 0 && player.view_player().hp <= 0),
        decreases n - i,
    {
        proof {
            assert(forall|k: AttackKind| #[trigger] k.power_spec() >= 1);
            lemma_sum_powers_prefix(ks, i as int);
            lemma_sum_powers_prefix(ks, i + 1);
            assert(ks.take(i + 1).drop_last() =~= ks.take(i as int));
            assert(ks.take(i + 1).last() == ks[i as int]);
        }
        let power = events[i].power();
        player.damage(power);
        if player.hp() <= 0 {
            over = true;
        }
        i = i + 1;
    }
    proof {
        assert(ks.take(n as int) =~= ks);
    }
    (over, n > 0)
}

} // verus!

//! Versus play: two independently authoritative simulations joined only
//! by the unreliable datagram channels.
//!
//! Each peer owns its own hit points.  When its player is hit it applies
//! the damage locally and pushes its new total out tagged `m` ("mine");
//! the receiver stores an `m` value as its opponent's hit points and
//! never lets a remote value overwrite its own.  Positions are
//! last-writer-wins overwrites in the mirrored coordinate frame; attack
//! datagrams spawn a local opponent projectile that the ordinary
//! collision resolver then handles.

use vstd::prelude::*;

use crate::catalog::AttackKind;
use crate::catalog::SUBPX;
use crate::codec::decode_info;
use crate::codec::decode_position;
use crate::codec::encode_info;
use crate::codec::encode_position;
use crate::codec::info_hp;
use crate::codec::info_tag;
use crate::codec::info_text;
use crate::codec::pos_text;
use crate::codec::pos_x;
use crate::codec::pos_y;
use crate::codec::valid_info;
use crate::codec::valid_pos;
use crate::codec::InfoTag;
use crate::combat::Collider;
use crate::combat::ColliderBody;
use crate::entity::Attack;
use crate::geom::Hitbox;
use crate::geom::Vec2i;
use crate::sim::BOTTOM_Y;
use crate::sim::PLAYER_ATTACK_DESPAWN_Y;
use crate::sim::PLAYER_ATTACK_SIZE;

verus! {

/// Hit points each side starts a versus match with.
pub const VS_PLAYER_HP: i64 = 50;

/// Damage one projectile hit deals in versus play.
pub const VS_HIT_DAMAGE: i64 = 1;

/// A versus player's speed, in subunits per second.
pub const VS_MY_SPEED: i64 = 300 * SUBPX;

/// A versus projectile's speed, in subunits per second.
pub const VS_ATTACK_SPEED: i64 = 400 * SUBPX;

/// Both sides' hit points as this peer sees them.  `my_hp` is
/// authoritative here; `opp_hp` only mirrors what the peer reported.
#[derive(Clone, Copy, Debug, PartialEq, Eq, Structural)]
pub struct VsGame {
    pub my_hp: i64,
    pub opp_hp: i64,
}

impl Default for VsGame {
    fn default() -> (r: VsGame)
        ensures
            r == (VsGame { my_hp: VS_PLAYER_HP, opp_hp: VS_PLAYER_HP }),
    {
        VsGame { my_hp: VS_PLAYER_HP, opp_hp: VS_PLAYER_HP }
    }
}

/// What one decoded info datagram does to the receiving side's state.
pub open spec fn apply_info_spec(g: VsGame, hp: i64, tag: InfoTag) -> VsGame {
    match tag {
        InfoTag::Mine => VsGame { opp_hp: hp, ..g },
        InfoTag::Opponent => g,
    }
}

impl VsGame {
    /// The display snapshot: (own hit points, opponent's hit points).
    pub fn info(&self) -> (r: (i64, i64))
        ensures
            r == (self.my_hp, self.opp_hp),
    {
        (self.my_hp, self.opp_hp)
    }

    /// Apply one decoded info datagram.  A value the peer tagged `m` is
    /// the peer's own hit points and becomes this side's opponent total;
    /// a value tagged `o` is the peer's estimate of *this* side's hit
    /// points, which this side is authoritative for, so it is discarded.
    pub fn apply_info(&mut self, hp: i64, tag: InfoTag)
        ensures
            *final(self) == apply_info_spec(*old(self), hp, tag),
            tag == InfoTag::Mine ==> *final(self) == (VsGame { opp_hp: hp, ..*old(self) }),
            tag == InfoTag::Opponent ==> *final(self) == *old(self),
    {
        match tag {
            InfoTag::Mine => {
                self.opp_hp = hp;
            },
            InfoTag::Opponent => {},
        }
    }

    /// Receive one raw info datagram: decode it and apply it as
    /// [`apply_info`] says; a malformed datagram is discarded and the
    /// state kept.  Returns whether the display needs a refresh.
    pub fn recv_info(&mut self, datagram: &Vec<u8>) -> (updated: bool)
        ensures
            updated == (valid_info(datagram@) && i64::MIN <= info_hp(datagram@) <= i64::MAX),
            updated && info_tag(datagram@) == InfoTag::Mine ==> *final(self) == (VsGame {
                opp_hp: info_hp(datagram@) as i64,
                ..*old(self)
            }),
            updated && info_tag(datagram@) == InfoTag::Opponent ==> *final(self) == *old(self),
            !updated ==> *final(self) == *old(self),
    {
        match decode_info(datagram) {
            None => false,
            Some((hp, tag)) => {
                self.apply_info(hp, tag);
                true
            },
        }
    }

    /// This side's player was hit: apply the damage to the authoritative
    /// total and build the info datagram that reports it, tagged `m`.
    pub fn my_hit(&mut self) -> (msg: Vec<u8>)
        requires
            old(self).my_hp > i64::MIN,
        ensures
            *final(self) == (VsGame { my_hp: (old(self).my_hp - VS_HIT_DAMAGE) as i64, ..*old(self) }),
            msg@ == info_text(final(self).my_hp as int, InfoTag::Mine),
    {
        self.my_hp = self.my_hp - VS_HIT_DAMAGE;
        encode_info(self.my_hp, InfoTag::Mine)
    }

    /// This side's projectile hit the opponent's avatar: lower the local
    /// mirror of the opponent's total and build the info datagram that
    /// reports the estimate, tagged `o`.
    pub fn opponent_hit(&mut self) -> (msg: Vec<u8>)
        requires
            old(self).opp_hp > i64::MIN,
        ensures
            *final(self) == (VsGame { opp_hp: (old(self).opp_hp - VS_HIT_DAMAGE) as i64, ..*old(self) }),
            msg@ == info_text(final(self).opp_hp as int, InfoTag::Opponent),
    {
        self.opp_hp = self.opp_hp - VS_HIT_DAMAGE;
        encode_info(self.opp_hp, InfoTag::Opponent)
    }
}

/// The views of a batch of datagrams.
pub open spec fn msg_views(s: Seq<Vec<u8>>) -> Seq<Seq<u8>> {
    s.map_values(|m: Vec<u8>| m@)
}

/// The info datagrams a run of `hits` own-side hits sends out: after the
/// i-th hit the new total `hp0 - i - 1` goes out under the given tag.
pub open spec fn hit_reports(hp0: int, hits: nat, tag: InfoTag) -> Seq<Seq<u8>> {
    Seq::new(hits, |i: int| info_text(hp0 - i - 1, tag))
}

/// Apply a tick's worth of hits on this side's player: each one costs
/// one authoritative hit point and appends the datagram reporting the
/// new total, tagged `m`.
pub fn vs_my_hits(game: &mut VsGame, hits: usize, msgs: &mut Vec<Vec<u8>>)
    requires
        old(game).my_hp - hits >= i64::MIN,
    ensures
        *final(game) == (VsGame { my_hp: (old(game).my_hp - hits) as i64, ..*old(game) }),
        msg_views(final(msgs)@) == msg_views(old(msgs)@) + hit_reports(
            old(game).my_hp as int,
            hits as nat,
            InfoTag::Mine,
        ),
{
    let ghost hp0 = game.my_hp as int;
    let ghost m0 = msg_views(msgs@);
    let mut k: usize = 0;
    while k < hits
        invariant
            k <= hits,
            hp0 - hits >= i64::MIN,
            game.my_hp == hp0 - k,
            game.opp_hp == old(game).opp_hp,
            msg_views(msgs@) == m0 + hit_reports(hp0, k as nat, InfoTag::Mine),
        decreases hits - k,
    {
        let ghost pre = msgs@;
        let msg = game.my_hit();
        msgs.push(msg);
        proof {
            assert(msg_views(msgs@) =~= msg_views(pre).push(info_text(hp0 - k - 1, InfoTag::Mine)));
            assert(msg_views(msgs@) =~= m0 + hit_reports(hp0, (k + 1) as nat, InfoTag::Mine));
        }
        k = k + 1;
    }
}

/// Apply a tick's worth of hits this side landed on the opponent's
/// avatar: each one lowers the local estimate and appends the datagram
/// reporting it, tagged `o`.
pub fn vs_opponent_hits(game: &mut VsGame, hits: usize, msgs: &mut Vec<Vec<u8>>)
    requires
        old(game).opp_hp - hits >= i64::MIN,
    ensures
        *final(game) == (VsGame { opp_hp: (old(game).opp_hp - hits) as i64, ..*old(game) }),
        msg_views(final(msgs)@) == msg_views(old(msgs)@) + hit_reports(
            old(game).opp_hp as int,
            hits as nat,
            InfoTag::Opponent,
        ),
{
    let ghost hp0 = game.opp_hp as int;
    let ghost m0 = msg_views(msgs@);
    let mut k: usize = 0;
    while k < hits
        invariant
            k <= hits,
            hp0 - hits >= i64::MIN,
            game.opp_hp == hp0 - k,
            game.my_hp == old(game).my_hp,
            msg_views(msgs@) == m0 + hit_reports(hp0, k as nat, InfoTag::Opponent),
        decreases hits - k,
    {
        let ghost pre = msgs@;
        let msg = game.opponent_hit();
        msgs.push(msg);
        proof {
            assert(msg_views(msgs@) =~= msg_views(pre).push(
                info_text(hp0 - k - 1, InfoTag::Opponent),
            ));
            assert(msg_views(msgs@) =~= m0 + hit_reports(hp0, (k + 1) as nat, InfoTag::Opponent));
        }
        k = k + 1;
    }
}

/// A received coordinate pair, carried into this peer's frame: the two
/// fields simulate from opposite ends, so both axes flip.
pub fn opponent_frame(x: i64, y: i64) -> (r: Vec2i)
    requires
        x > i64::MIN,
        y > i64::MIN,
    ensures
        r == (Vec2i { x: (-x) as i64, y: (-y) as i64 }),
{
    Vec2i { x: -x, y: -y }
}

/// Receive one raw position datagram: on success overwrite the opponent
/// avatar's position with the mirrored pair, last writer wins, no
/// smoothing; a malformed datagram (or one whose mirror would not fit) is
/// discarded.
pub fn apply_opponent_position(pos: &mut Vec2i, datagram: &Vec<u8>) -> (updated: bool)
    ensures
        updated == (valid_pos(datagram@) && i64::MIN < pos_x(datagram@) <= i64::MAX && i64::MIN
            < pos_y(datagram@) <= i64::MAX),
        updated ==> *final(pos) == (Vec2i {
            x: (-pos_x(datagram@)) as i64,
            y: (-pos_y(datagram@)) as i64,
        }),
        !updated ==> *final(pos) == *old(pos),
{
    match decode_position(datagram) {
        None => false,
        Some((x, y)) => {
            if x == i64::MIN || y == i64::MIN {
                false
            } else {
                *pos = opponent_frame(x, y);
                true
            }
        },
    }
}

/// The projectile one fire action launches in versus play.
pub open spec fn vs_missile(kind: AttackKind, pos: Vec2i) -> Collider {
    Collider {
        hitbox: Hitbox { pos, size: Vec2i { x: PLAYER_ATTACK_SIZE, y: PLAYER_ATTACK_SIZE } },
        body: ColliderBody::Missile(
            Attack { remaining_hp: kind.power_spec() as i64, kind },
        ),
        alive: true,
    }
}

/// Fire this side's attack: spawn the `Power` projectile at the player's
/// position and build the attack datagram that tells the peer where it
/// was fired.
pub fn vs_fire(pos: Vec2i) -> (r: (Collider, Vec<u8>))
    ensures
        r.0 == vs_missile(AttackKind::Power, pos),
        r.1@ == pos_text(pos.x as int, pos.y as int),
{
    let c = Collider {
        hitbox: Hitbox { pos, size: Vec2i { x: PLAYER_ATTACK_SIZE, y: PLAYER_ATTACK_SIZE } },
        body: ColliderBody::Missile(Attack::new(AttackKind::Power)),
        alive: true,
    };
    let msg = encode_position(pos.x, pos.y);
    (c, msg)
}

/// Receive one raw attack datagram: on success spawn the opponent's
/// `Normal` projectile at the mirrored position, to be resolved by the
/// ordinary collision rules; a malformed datagram is discarded.
pub fn spawn_opponent_attack(datagram: &Vec<u8>) -> (r: Option<Collider>)
    ensures
        r is Some == (valid_pos(datagram@) && i64::MIN < pos_x(datagram@) <= i64::MAX && i64::MIN
            < pos_y(datagram@) <= i64::MAX),
        r is Some ==> r->Some_0 == vs_missile(
            AttackKind::Normal,
            Vec2i { x: (-pos_x(datagram@)) as i64, y: (-pos_y(datagram@)) as i64 },
        ),
{
    match decode_position(datagram) {
        None => None,
        Some((x, y)) => {
            if x == i64::MIN || y == i64::MIN {
                None
            } else {
                let pos = opponent_frame(x, y);
                Some(
                    Collider {
                        hitbox: Hitbox {
                            pos,
                            size: Vec2i { x: PLAYER_ATTACK_SIZE, y: PLAYER_ATTACK_SIZE },
                        },
                        body: ColliderBody::Missile(Attack::new(AttackKind::Normal)),
                        alive: true,
                    },
                )
            }
        },
    }
}

/// Advance one of this side's projectiles by `dy` subunits upward; it
/// despawns above the top edge.
pub fn advance_my_vs_attack(c: Collider, dy: i64) -> (r: Option<Collider>)
    requires
        0 <= dy,
        c.hitbox.pos.y + dy <= i64::MAX,
    ensures
        c.hitbox.pos.y + dy > PLAYER_ATTACK_DESPAWN_Y ==> r is None,
        c.hitbox.pos.y + dy <= PLAYER_ATTACK_DESPAWN_Y ==> r == Some(
            Collider {
                hitbox: Hitbox {
                    pos: Vec2i { x: c.hitbox.pos.x, y: (c.hitbox.pos.y + dy) as i64 },
                    ..c.hitbox
                },
                ..c
            },
        ),
{
    let y2 = c.hitbox.pos.y + dy;
    if y2 > PLAYER_ATTACK_DESPAWN_Y {
        None
    } else {
        Some(
            Collider {
                hitbox: Hitbox { pos: Vec2i { x: c.hitbox.pos.x, y: y2 }, size: c.hitbox.size },
                body: c.body,
                alive: c.alive,
            },
        )
    }
}

/// Advance one opponent projectile by `dy` subunits downward; it despawns
/// below the bottom edge.
pub fn advance_opponent_vs_attack(c: Collider, dy: i64) -> (r: Option<Collider>)
    requires
        0 <= dy,
        c.hitbox.pos.y - dy >= i64::MIN,
    ensures
        c.hitbox.pos.y - dy < BOTTOM_Y ==> r is None,
        c.hitbox.pos.y - dy >= BOTTOM_Y ==> r == Some(
            Collider {
                hitbox: Hitbox {
                    pos: Vec2i { x: c.hitbox.pos.x, y: (c.hitbox.pos.y - dy) as i64 },
                    ..c.hitbox
                },
                ..c
            },
        ),
{
    let y2 = c.hitbox.pos.y - dy;
    if y2 < BOTTOM_Y {
        None
    } else {
        Some(
            Collider {
                hitbox: Hitbox { pos: Vec2i { x: c.hitbox.pos.x, y: y2 }, size: c.hitbox.size },
                body: c.body,
                alive: c.alive,
            },
        )
    }
}

/// The info-channel round trip: a total the sender tagged `m` survives
/// the wire exactly and lands in the receiver's opponent field, never in
/// the receiver's own.
pub proof fn lemma_info_channel_round_trip(sender: VsGame, receiver: VsGame)
    ensures
        ({
            let msg = info_text(sender.my_hp as int, InfoTag::Mine);
            &&& valid_info(msg)
            &&& info_hp(msg) == sender.my_hp as int
            &&& info_tag(msg) == InfoTag::Mine
        }),
        apply_info_spec(receiver, sender.my_hp, InfoTag::Mine) == (VsGame {
            opp_hp: sender.my_hp,
            ..receiver
        }),
        apply_info_spec(receiver, sender.my_hp, InfoTag::Mine).my_hp == receiver.my_hp,
{
    crate::codec::lemma_info_round_trip(sender.my_hp as int, InfoTag::Mine);
}

} // verus!

use invader_core::catalog::AttackKind;
use invader_core::catalog::EnemyKind;
use invader_core::combat::apply_damage_events;
use invader_core::combat::player_collision;
use invader_core::combat::resolve_combat;
use invader_core::combat::AttackEnt;
use invader_core::combat::Collider;
use invader_core::combat::ColliderBody;
use invader_core::entity::Attack;
use invader_core::entity::DamageEvent;
use invader_core::entity::Enemy;
use invader_core::entity::Player;
use invader_core::geom::Hitbox;
use invader_core::geom::Vec2i;
use invader_core::session::round_over;
use invader_core::session::GameMode;
use invader_core::session::MainState;

fn boxed(x: i64, y: i64) -> Hitbox {
    Hitbox { pos: Vec2i { x, y }, size: Vec2i { x: 200, y: 200 } }
}

fn attack_ent(kind: AttackKind, x: i64, y: i64) -> AttackEnt<Attack> {
    AttackEnt { hitbox: boxed(x, y), payload: Attack::new(kind), alive: true }
}

fn enemy_collider(kind: EnemyKind, x: i64, y: i64) -> Collider {
    Collider { hitbox: boxed(x, y), body: ColliderBody::Body(Enemy::new(kind)), alive: true }
}

fn missile_collider(kind: AttackKind, x: i64, y: i64) -> Collider {
    Collider { hitbox: boxed(x, y), body: ColliderBody::Missile(Attack::new(kind)), alive: true }
}

#[test]
fn attack_starts_with_its_kinds_power() {
    let kinds = [
        AttackKind::Normal,
        AttackKind::Power,
        AttackKind::Shotgun,
        AttackKind::Shotgun2,
        AttackKind::Shotgun3,
        AttackKind::Shotgun4,
        AttackKind::Shotgun5,
        AttackKind::Rebound(false),
        AttackKind::Rebound(true),
        AttackKind::EnemyNormal,
    ];
    for k in kinds {
        assert_eq!(Attack::new(k).remaining_hp, k.power());
    }
    assert_eq!(AttackKind::Normal.power(), 11);
    assert_eq!(AttackKind::Power.power(), 20);
    assert_eq!(AttackKind::Shotgun.power(), 4);
    assert_eq!(AttackKind::EnemyNormal.power(), 3);
}

#[test]
fn surviving_enemy_absorbs_the_attack() {
    let mut player = Player::default();
    let mut attacks = vec![attack_ent(AttackKind::Normal, 0, 0)];
    let mut colliders = vec![enemy_collider(EnemyKind::Normal, 0, 0)];
    let info = resolve_combat(&mut player, &mut attacks, &mut colliders);
    assert!(!info);
    assert_eq!(player.kill_count, 0);
    assert!(!attacks[0].alive);
    assert!(colliders[0].alive);
    match colliders[0].body {
        ColliderBody::Body(e) => assert_eq!(e.hp, 25 - 11),
        _ => panic!("collider changed shape"),
    }
}

#[test]
fn dying_enemy_counts_one_kill_and_the_attack_pierces() {
    let mut player = Player::default();
    let mut attacks = vec![attack_ent(AttackKind::Power, 0, 0)];
    let mut colliders = vec![enemy_collider(EnemyKind::Normal, 0, 0)];
    // Soften the enemy so one hit is lethal.
    if let ColliderBody::Body(ref mut e) = colliders[0].body {
        e.hp = 5;
    }
    let info = resolve_combat(&mut player, &mut attacks, &mut colliders);
    assert!(info);
    assert_eq!(player.kill_count, 1);
    assert!(attacks[0].alive);
    assert!(!colliders[0].alive);
}

#[test]
fn piercing_attack_reaches_the_next_enemy() {
    let mut player = Player::default();
    let mut attacks = vec![attack_ent(AttackKind::Power, 0, 0)];
    let mut colliders = vec![enemy_collider(EnemyKind::Normal, 0, 0), enemy_collider(EnemyKind::Normal, 0, 0)];
    if let ColliderBody::Body(ref mut e) = colliders[0].body {
        e.hp = 3;
    }
    let info = resolve_combat(&mut player, &mut attacks, &mut colliders);
    assert!(info);
    assert_eq!(player.kill_count, 1);
    // The first enemy died, the attack went on and was absorbed by the
    // second, which keeps the reduced hit points.
    assert!(!colliders[0].alive);
    assert!(colliders[1].alive);
    assert!(!attacks[0].alive);
    match colliders[1].body {
        ColliderBody::Body(e) => assert_eq!(e.hp, 25 - 20),
        _ => panic!("collider changed shape"),
    }
}

#[test]
fn duel_outcome_is_the_same_from_both_sides() {
    // Power (20) against Normal (11): Power survives with 9 either way.
    let mut player = Player::default();
    let mut attacks = vec![attack_ent(AttackKind::Power, 0, 0)];
    let mut colliders = vec![missile_collider(AttackKind::Normal, 0, 0)];
    resolve_combat(&mut player, &mut attacks, &mut colliders);
    assert!(attacks[0].alive);
    assert!(!colliders[0].alive);
    assert_eq!(attacks[0].payload.remaining_hp, 9);

    let mut player = Player::default();
    let mut attacks = vec![attack_ent(AttackKind::Normal, 0, 0)];
    let mut colliders = vec![missile_collider(AttackKind::Power, 0, 0)];
    resolve_combat(&mut player, &mut attacks, &mut colliders);
    assert!(!attacks[0].alive);
    assert!(colliders[0].alive);
    match colliders[0].body {
        ColliderBody::Missile(a) => assert_eq!(a.remaining_hp, 9),
        _ => panic!("collider changed shape"),
    }
}

#[test]
fn duel_tie_annihilates_both() {
    let mut player = Player::default();
    let mut attacks = vec![attack_ent(AttackKind::Normal, 0, 0)];
    let mut colliders = vec![missile_collider(AttackKind::Normal, 0, 0)];
    let info = resolve_combat(&mut player, &mut attacks, &mut colliders);
    assert!(!info);
    assert!(!attacks[0].alive);
    assert!(!colliders[0].alive);
    assert_eq!(player.kill_count, 0);
}

#[test]
fn separated_pair_does_not_interact() {
    let mut player = Player::default();
    let mut attacks = vec![attack_ent(AttackKind::Normal, 0, 0)];
    // 500 subunits apart horizontally: half-extents sum to 200, no overlap.
    let mut colliders = vec![enemy_collider(EnemyKind::Normal, 500, 0)];
    resolve_combat(&mut player, &mut attacks, &mut colliders);
    assert!(attacks[0].alive);
    assert!(colliders[0].alive);
    match colliders[0].body {
        ColliderBody::Body(e) => assert_eq!(e.hp, 25),
        _ => panic!("collider changed shape"),
    }
}

#[test]
fn seven_power_four_hits_fell_a_normal_enemy() {
    // A power-4 shot against a fresh 25-hp enemy, fired once per tick:
    // after three hits 13 hit points remain, after four 9, and the
    // seventh hit (28 damage in all) kills it and counts exactly one
    // kill.  Every absorbed shot is consumed.
    let mut player = Player::default();
    let mut colliders = vec![enemy_collider(EnemyKind::Normal, 0, 0)];
    let mut hits = 0;
    for round in 1..=7 {
        let mut attacks = vec![attack_ent(AttackKind::Shotgun, 0, 0)];
        assert_eq!(attacks[0].payload.remaining_hp, 4);
        resolve_combat(&mut player, &mut attacks, &mut colliders);
        hits = round;
        let enemy = match colliders[0].body {
            ColliderBody::Body(e) => e,
            _ => panic!("collider changed shape"),
        };
        if round == 3 {
            assert_eq!(enemy.hp, 13);
            assert!(colliders[0].alive);
            assert!(!attacks[0].alive);
        }
        if round == 4 {
            assert_eq!(enemy.hp, 9);
            assert!(colliders[0].alive);
        }
        if round < 7 {
            assert!(colliders[0].alive);
            assert!(!attacks[0].alive);
            assert_eq!(player.kill_count, 0);
        } else {
            assert!(!colliders[0].alive);
            assert!(attacks[0].alive);
            assert_eq!(player.kill_count, 1);
        }
    }
    assert_eq!(hits, 7);
}

#[test]
fn body_contact_is_fatal_whatever_the_hit_points() {
    let player = Player::default();
    assert_eq!(player.hp, 10);
    let player_box = Hitbox { pos: Vec2i { x: 0, y: 0 }, size: Vec2i { x: 500, y: 500 } };
    let mut colliders = vec![enemy_collider(EnemyKind::Normal, 0, 0)];
    let mut events: Vec<DamageEvent> = Vec::new();

    // First contact: fatal at once, no hit-point arithmetic involved.
    let fatal = player_collision(&player_box, &mut colliders, &mut events);
    assert!(fatal);
    assert!(events.is_empty());
    let t = round_over();
    assert_eq!(t.main, Some(MainState::GameOver));
    assert_eq!(t.mode, Some(GameMode::Disabled));

    // A second unresolved contact says the same thing; hit points never
    // entered into it.
    let fatal2 = player_collision(&player_box, &mut colliders, &mut events);
    assert!(fatal2);
    assert_eq!(player.hp, 10);
}

#[test]
fn enemy_missile_contact_queues_damage_and_is_consumed() {
    let mut player = Player::default();
    let player_box = Hitbox { pos: Vec2i { x: 0, y: 0 }, size: Vec2i { x: 500, y: 500 } };
    let mut colliders = vec![missile_collider(AttackKind::Normal, 0, 0)];
    let mut events: Vec<DamageEvent> = Vec::new();
    let fatal = player_collision(&player_box, &mut colliders, &mut events);
    assert!(!fatal);
    assert!(!colliders[0].alive);
    assert_eq!(events.len(), 1);
    assert_eq!(events[0].kind, AttackKind::Normal);

    // One Normal hit carries 11 damage: 10 hit points go to -1 and the
    // round is over.
    let (over, info) = apply_damage_events(&mut player, &events);
    assert!(info);
    assert!(over);
    assert_eq!(player.hp, -1);
}

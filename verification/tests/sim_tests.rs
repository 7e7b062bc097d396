use invader_core::catalog::AttackKind;
use invader_core::catalog::EnemyKind;
use invader_core::catalog::CLAMP_X;
use invader_core::catalog::CLAMP_Y;
use invader_core::combat::AttackEnt;
use invader_core::combat::Collider;
use invader_core::combat::ColliderBody;
use invader_core::entity::Attack;
use invader_core::entity::Enemy;
use invader_core::entity::Player;
use invader_core::entity::PlayerMethod;
use invader_core::geom::Hitbox;
use invader_core::geom::Vec2i;
use invader_core::modes::single_player_new;
use invader_core::modes::two_players_new;
use invader_core::sim::advance_collider;
use invader_core::sim::advance_player_attack;
use invader_core::sim::attack_list_at;
use invader_core::sim::create_enemies;
use invader_core::sim::cycle_attack;
use invader_core::sim::enemy_volley;
use invader_core::sim::fire_attacks;
use invader_core::sim::move_player;
use invader_core::sim::random_enemy_kind;
use invader_core::sim::spawn_position;
use invader_core::sim::speed_step;
use invader_core::sim::ModeConfig;
use invader_core::sim::ENEMY_CREATE_NUMBER;

#[test]
fn shotgun_fires_exactly_its_five_spread_kinds() {
    let mut out: Vec<AttackEnt<Attack>> = Vec::new();
    let pos = Vec2i { x: 70, y: -4500 };
    fire_attacks(AttackKind::Shotgun, pos, &mut out);
    assert_eq!(out.len(), 5);
    let kinds: Vec<AttackKind> = out.iter().map(|e| e.payload.kind).collect();
    assert_eq!(
        kinds,
        vec![
            AttackKind::Shotgun,
            AttackKind::Shotgun2,
            AttackKind::Shotgun3,
            AttackKind::Shotgun4,
            AttackKind::Shotgun5,
        ]
    );
    for e in &out {
        assert!(e.alive);
        assert_eq!(e.hitbox.pos, pos);
        assert_eq!(e.payload.remaining_hp, e.payload.kind.power());
    }
}

#[test]
fn single_kind_fires_one_and_rebound_fires_both_headings() {
    let mut out: Vec<AttackEnt<Attack>> = Vec::new();
    fire_attacks(AttackKind::Normal, Vec2i { x: 0, y: 0 }, &mut out);
    assert_eq!(out.len(), 1);
    assert_eq!(out[0].payload.kind, AttackKind::Normal);

    let mut out: Vec<AttackEnt<Attack>> = Vec::new();
    fire_attacks(AttackKind::Rebound(true), Vec2i { x: 0, y: 0 }, &mut out);
    assert_eq!(out.len(), 2);
    assert_eq!(out[0].payload.kind, AttackKind::Rebound(false));
    assert_eq!(out[1].payload.kind, AttackKind::Rebound(true));
}

#[test]
fn movement_clamps_to_the_field() {
    let pos = Vec2i { x: CLAMP_X - 10, y: 0 };
    let moved = move_player(pos, false, false, false, true, 100);
    assert_eq!(moved.x, CLAMP_X);
    let moved = move_player(Vec2i { x: 0, y: -CLAMP_Y }, false, true, false, false, 100);
    assert_eq!(moved.y, -CLAMP_Y);
    // Opposed flags cancel.
    let moved = move_player(Vec2i { x: 5, y: 7 }, true, true, true, true, 100);
    assert_eq!(moved, Vec2i { x: 5, y: 7 });
}

#[test]
fn rebound_shot_flips_at_the_side_wall() {
    let ent = AttackEnt {
        hitbox: Hitbox { pos: Vec2i { x: CLAMP_X - 50, y: 0 }, size: Vec2i { x: 200, y: 200 } },
        payload: Attack::new(AttackKind::Rebound(true)),
        alive: true,
    };
    // Rebound moves 100 subunits per frame to the right: past the wall.
    let moved = advance_player_attack(ent).expect("still on the field");
    assert_eq!(moved.payload.kind, AttackKind::Rebound(false));
    assert_eq!(moved.payload.remaining_hp, AttackKind::Rebound(false).power());
    assert_eq!(moved.hitbox.pos.x, CLAMP_X + 50);
}

#[test]
fn player_attack_despawns_above_the_top_edge() {
    let ent = AttackEnt {
        hitbox: Hitbox { pos: Vec2i { x: 0, y: CLAMP_Y }, size: Vec2i { x: 200, y: 200 } },
        payload: Attack::new(AttackKind::Normal),
        alive: true,
    };
    assert!(advance_player_attack(ent).is_none());
}

#[test]
fn drop_enemy_falls_and_despawns_at_the_bottom() {
    let enemy = Collider {
        hitbox: Hitbox { pos: Vec2i { x: 0, y: 0 }, size: Vec2i { x: 300, y: 400 } },
        body: ColliderBody::Body(Enemy::new(EnemyKind::Drop)),
        alive: true,
    };
    // 100 ms at 250 px/s: 250 subunits down.
    let moved = advance_collider(enemy, 100).expect("still falling");
    assert_eq!(moved.hitbox.pos.y, -250);
    // A Normal enemy does not move.
    let still = Collider {
        hitbox: Hitbox { pos: Vec2i { x: 0, y: 0 }, size: Vec2i { x: 500, y: 400 } },
        body: ColliderBody::Body(Enemy::new(EnemyKind::Normal)),
        alive: true,
    };
    assert_eq!(advance_collider(still, 100).expect("static").hitbox.pos.y, 0);
    // Below the bottom edge it despawns.
    let low = Collider {
        hitbox: Hitbox { pos: Vec2i { x: 0, y: -CLAMP_Y + 1 }, size: Vec2i { x: 300, y: 400 } },
        body: ColliderBody::Body(Enemy::new(EnemyKind::Drop)),
        alive: true,
    };
    assert!(advance_collider(low, 100).is_none());
}

#[test]
fn enemy_missile_drifts_down_with_the_extra_subunits() {
    let m = Collider {
        hitbox: Hitbox { pos: Vec2i { x: 100, y: 0 }, size: Vec2i { x: 200, y: 200 } },
        body: ColliderBody::Missile(Attack::new(AttackKind::Normal)),
        alive: true,
    };
    let moved = advance_collider(m, 16).expect("still flying");
    // Normal: 150 subunits per frame, plus the fixed drift of 4.
    assert_eq!(moved.hitbox.pos.y, -154);
    assert_eq!(moved.hitbox.pos.x, 100);
}

#[test]
fn spawner_makes_the_fixed_batch_inside_the_regions() {
    let mut out: Vec<Collider> = Vec::new();
    create_enemies(&mut out);
    assert_eq!(out.len(), ENEMY_CREATE_NUMBER);
    for c in &out {
        assert!(c.alive);
        let e = match c.body {
            ColliderBody::Body(e) => e,
            _ => panic!("spawner made a missile"),
        };
        assert_eq!(e.hp, e.kind.initial_hp());
        assert!((-3500..3500).contains(&c.hitbox.pos.x));
        match e.kind {
            EnemyKind::Normal => assert!((0..5250).contains(&c.hitbox.pos.y)),
            EnemyKind::Drop => assert!((2620..10500).contains(&c.hitbox.pos.y)),
        }
    }
}

#[test]
fn spawn_position_stays_in_the_kind_region() {
    for _ in 0..100 {
        let k = random_enemy_kind();
        let p = spawn_position(k);
        assert!((-3500..3500).contains(&p.x));
        match k {
            EnemyKind::Normal => assert!((0..5250).contains(&p.y)),
            EnemyKind::Drop => assert!((2620..10500).contains(&p.y)),
        }
    }
}

#[test]
fn volley_fires_one_missile_per_live_enemy() {
    let enemy = |x: i64, alive: bool| Collider {
        hitbox: Hitbox { pos: Vec2i { x, y: 1000 }, size: Vec2i { x: 500, y: 400 } },
        body: ColliderBody::Body(Enemy::new(EnemyKind::Normal)),
        alive,
    };
    let cols = vec![enemy(0, true), enemy(700, false), enemy(-700, true)];
    let mut out: Vec<Collider> = Vec::new();
    enemy_volley(&cols, &mut out);
    assert_eq!(out.len(), 2);
    assert_eq!(out[0].hitbox.pos, Vec2i { x: 0, y: 1000 });
    assert_eq!(out[1].hitbox.pos, Vec2i { x: -700, y: 1000 });
    for m in &out {
        match m.body {
            ColliderBody::Missile(a) => {
                assert_eq!(a.kind, AttackKind::Normal);
                assert_eq!(a.remaining_hp, 11);
            },
            _ => panic!("volley made a body"),
        }
    }
}

#[test]
fn cycling_walks_the_list_and_rearms_the_timer() {
    let mut p = Player::default();
    assert_eq!(p.next_attack_index, 1);
    let period = cycle_attack(&mut p);
    assert_eq!(p.active_attack_kind, AttackKind::Shotgun);
    assert_eq!(period, 130);
    let period = cycle_attack(&mut p);
    assert_eq!(p.active_attack_kind, AttackKind::Normal);
    assert_eq!(period, 80);
    let period = cycle_attack(&mut p);
    assert_eq!(p.active_attack_kind, AttackKind::Power);
    assert_eq!(period, 100);
    let period = cycle_attack(&mut p);
    assert_eq!(p.active_attack_kind, AttackKind::Rebound(false));
    assert_eq!(period, 130);
    // Wrapped around: the next press selects the second entry again.
    assert_eq!(p.next_attack_index, 1);
    assert_eq!(attack_list_at(0), AttackKind::Rebound(false));
}

#[test]
fn mode_pacing_matches_the_design() {
    let d = ModeConfig::default();
    assert_eq!((d.player_attack_ms, d.enemy_create_ms, d.enemy_attack_ms), (150, 5000, 2000));
    let s = ModeConfig::single_play();
    assert_eq!((s.player_attack_ms, s.enemy_create_ms, s.enemy_attack_ms), (180, 4000, 700));
    let t = ModeConfig::two_play();
    assert_eq!((t.player_attack_ms, t.enemy_create_ms, t.enemy_attack_ms), (150, 2500, 1000));
    assert_eq!(speed_step(4500, 16), 72);
}

#[test]
fn shared_records_answer_through_the_capability_traits() {
    let sp = single_player_new();
    assert_eq!(sp.hp(), 100);
    assert_eq!(sp.0.active_attack_kind, AttackKind::Rebound(false));
    let (p1, p2) = two_players_new();
    assert_eq!(p1.hp(), 30);
    assert_eq!(p2.hp(), 30);
    assert_eq!(p1.get_kill(), 0);
}

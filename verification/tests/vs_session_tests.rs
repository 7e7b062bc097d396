use invader_core::catalog::AttackKind;
use invader_core::codec::InfoTag;
use invader_core::combat::ColliderBody;
use invader_core::geom::Vec2i;
use invader_core::session::apply_room_field;
use invader_core::session::connect_decide;
use invader_core::session::game_menu_select;
use invader_core::session::game_over_action;
use invader_core::session::menu_action;
use invader_core::session::peer_joined;
use invader_core::session::CadenceMeter;
use invader_core::session::ConnectAction;
use invader_core::session::ConnectOutcome;
use invader_core::session::ConnectState;
use invader_core::session::GameMode;
use invader_core::session::GameOverButton;
use invader_core::session::MainMenuButton;
use invader_core::session::MainState;
use invader_core::session::MenuState;
use invader_core::session::RoomField;
use invader_core::session::RoomRequest;
use invader_core::session::RoomResponse;
use invader_core::session::User;
use invader_core::vs::advance_my_vs_attack;
use invader_core::vs::apply_opponent_position;
use invader_core::vs::spawn_opponent_attack;
use invader_core::vs::vs_fire;
use invader_core::vs::vs_my_hits;
use invader_core::vs::vs_opponent_hits;
use invader_core::vs::VsGame;

#[test]
fn info_channel_round_trip_updates_the_opponent_field() {
    // The sender reports its own 37 hit points tagged 'm'; the receiver
    // files that under "opponent hp" and leaves its own untouched.
    let mut sender = VsGame { my_hp: 38, opp_hp: 50 };
    let msg = sender.my_hit();
    assert_eq!(sender.my_hp, 37);
    assert_eq!(msg, b"37 m".to_vec());

    let mut receiver = VsGame::default();
    let updated = receiver.recv_info(&msg);
    assert!(updated);
    assert_eq!(receiver.opp_hp, 37);
    assert_eq!(receiver.my_hp, 50);
}

#[test]
fn opponent_tagged_value_never_overwrites_own_hp() {
    // A value tagged 'o' is the peer's estimate of this side's hit
    // points; this side is authoritative for them and discards it.
    let mut receiver = VsGame { my_hp: 42, opp_hp: 50 };
    let updated = receiver.recv_info(&b"5 o".to_vec());
    assert!(updated);
    assert_eq!(receiver.my_hp, 42);
    assert_eq!(receiver.opp_hp, 50);
}

#[test]
fn malformed_info_datagram_is_discarded() {
    let mut g = VsGame::default();
    assert!(!g.recv_info(&b"garbage".to_vec()));
    assert!(!g.recv_info(&b"12 x".to_vec()));
    assert_eq!(g, VsGame::default());
}

#[test]
fn a_run_of_hits_reports_each_new_total() {
    let mut game = VsGame::default();
    let mut reports: Vec<Vec<u8>> = Vec::new();
    vs_my_hits(&mut game, 3, &mut reports);
    assert_eq!(game.my_hp, 47);
    assert_eq!(game.opp_hp, 50);
    assert_eq!(reports, vec![b"49 m".to_vec(), b"48 m".to_vec(), b"47 m".to_vec()]);
    vs_opponent_hits(&mut game, 1, &mut reports);
    assert_eq!(game.opp_hp, 49);
    assert_eq!(reports.last().unwrap(), &b"49 o".to_vec());
}

#[test]
fn opponent_hit_reports_the_estimate_tagged_o() {
    let mut g = VsGame::default();
    let msg = g.opponent_hit();
    assert_eq!(g.opp_hp, 49);
    assert_eq!(g.my_hp, 50);
    assert_eq!(msg, b"49 o".to_vec());
}

#[test]
fn position_datagrams_overwrite_in_the_mirrored_frame() {
    let mut pos = Vec2i { x: 0, y: 0 };
    assert!(apply_opponent_position(&mut pos, &b"123 -450".to_vec()));
    assert_eq!(pos, Vec2i { x: -123, y: 450 });
    // Last writer wins: a stale duplicate simply re-applies.
    assert!(apply_opponent_position(&mut pos, &b"123 -450".to_vec()));
    assert_eq!(pos, Vec2i { x: -123, y: 450 });
    // Malformed: discarded, position kept.
    assert!(!apply_opponent_position(&mut pos, &b"12,34".to_vec()));
    assert_eq!(pos, Vec2i { x: -123, y: 450 });
}

#[test]
fn firing_spawns_power_and_tells_the_peer_where() {
    let (c, msg) = vs_fire(Vec2i { x: 70, y: -4500 });
    assert!(c.alive);
    match c.body {
        ColliderBody::Missile(a) => {
            assert_eq!(a.kind, AttackKind::Power);
            assert_eq!(a.remaining_hp, 20);
        },
        _ => panic!("fire made a body"),
    }
    assert_eq!(msg, b"70 -4500".to_vec());

    // The peer decodes the same datagram into a mirrored Normal shot.
    let spawned = spawn_opponent_attack(&msg).expect("well-formed");
    assert_eq!(spawned.hitbox.pos, Vec2i { x: -70, y: 4500 });
    match spawned.body {
        ColliderBody::Missile(a) => assert_eq!(a.kind, AttackKind::Normal),
        _ => panic!("spawn made a body"),
    }
    assert!(spawn_opponent_attack(&b"oops".to_vec()).is_none());
}

#[test]
fn vs_attacks_despawn_past_their_edges() {
    let (c, _) = vs_fire(Vec2i { x: 0, y: 5200 });
    let moved = advance_my_vs_attack(c, 40).expect("still below the edge");
    assert_eq!(moved.hitbox.pos.y, 5240);
    assert!(advance_my_vs_attack(moved, 100).is_none());
}

#[test]
fn menu_buttons_move_the_states() {
    let t = menu_action(MainMenuButton::Play);
    assert_eq!(t.main, Some(MainState::Game));
    assert_eq!(t.menu, Some(MenuState::Disabled));
    assert!(!t.exit);
    let t = menu_action(MainMenuButton::Quit);
    assert!(t.exit);
    let t = game_over_action(GameOverButton::Menu);
    assert_eq!(t.main, Some(MainState::Menu));
    assert_eq!(t.menu, Some(MenuState::Main));
    let t = game_menu_select(GameMode::Two);
    assert_eq!(t.mode, Some(GameMode::Two));
    let t = peer_joined();
    assert_eq!(t.mode, Some(GameMode::Versus));
    assert_eq!(t.connect, Some(ConnectState::Disabled));
}

fn some_user() -> User {
    User { name: b"aoi".to_vec(), ip: [192, 168, 11, 7], cadence_us: 16000 }
}

#[test]
fn room_answers_decide_the_next_screen() {
    let accepted_with = RoomResponse::Accepted { message: b"ok".to_vec(), user: Some(some_user()) };
    let accepted_empty = RoomResponse::Accepted { message: b"ok".to_vec(), user: None };
    let refused = RoomResponse::Refused(b"full".to_vec());

    assert!(matches!(
        connect_decide(ConnectAction::Create, Some(accepted_empty)),
        ConnectOutcome::WaitForPeer
    ));
    match connect_decide(ConnectAction::Enter, Some(accepted_with)) {
        ConnectOutcome::StartVersus(u) => {
            assert_eq!(u.ip, [192, 168, 11, 7]);
            assert_eq!(u.cadence_us, 16000);
        },
        _ => panic!("entering a live room starts versus play"),
    }
    // An acceptance without an opponent is malformed: stay, do not panic.
    let accepted_empty = RoomResponse::Accepted { message: b"ok".to_vec(), user: None };
    assert!(matches!(
        connect_decide(ConnectAction::Enter, Some(accepted_empty)),
        ConnectOutcome::Stay
    ));
    assert!(matches!(connect_decide(ConnectAction::Enter, Some(refused)), ConnectOutcome::Stay));
    assert!(matches!(connect_decide(ConnectAction::Create, None), ConnectOutcome::Stay));
}

#[test]
fn room_fields_take_names_and_digit_ids_only() {
    let mut room = RoomRequest { room_id: 0, user: some_user() };
    assert!(apply_room_field(&mut room, RoomField::Name, b"sora".to_vec()));
    assert_eq!(room.user.name, b"sora".to_vec());
    assert!(apply_room_field(&mut room, RoomField::RoomId, b"12".to_vec()));
    assert_eq!(room.room_id, 12);
    // Not a number: the request keeps its id.
    assert!(!apply_room_field(&mut room, RoomField::RoomId, b"12b".to_vec()));
    assert_eq!(room.room_id, 12);
    assert!(!apply_room_field(&mut room, RoomField::RoomId, b"99999999999".to_vec()));
    assert_eq!(room.room_id, 12);
}

#[test]
fn cadence_meter_averages_tick_lengths() {
    let mut m = CadenceMeter::new();
    assert_eq!(m.average_us(), 0);
    m.sample(10_000);
    m.sample(20_000);
    m.sample(16_000);
    assert_eq!(m.average_us(), (10_000 + 20_000 + 16_000) / 3);
}

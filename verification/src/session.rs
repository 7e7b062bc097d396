//! Match and menu state machines, and the matchmaking records.
//!
//! Screens themselves are presentation; what lives here is every decision
//! they feed: which states a button press moves the game into, what a
//! room-service answer means, how the send cadence is measured, and how
//! the round ends.

use vstd::prelude::*;

use crate::codec::dec_val;
use crate::codec::parse_u64_range;
use crate::codec::valid_digits;

verus! {

/// The top-level screen the game shows.
#[derive(Clone, Copy, Debug, PartialEq, Eq, Structural)]
pub enum MainState {
    Menu,
    Game,
    GameOver,
}

impl Default for MainState {
    fn default() -> (r: MainState)
        ensures
            r == MainState::Menu,
    {
        MainState::Menu
    }
}

/// The play mode that is running, or `Disabled` while the mode menu is
/// shown.
#[derive(Clone, Copy, Debug, PartialEq, Eq, Structural)]
pub enum GameMode {
    Single,
    Two,
    Versus,
    Connect,
    Disabled,
}

impl Default for GameMode {
    fn default() -> (r: GameMode)
        ensures
            r == GameMode::Disabled,
    {
        GameMode::Disabled
    }
}

/// The main-menu screen state.
#[derive(Clone, Copy, Debug, PartialEq, Eq, Structural)]
pub enum MenuState {
    Main,
    Setting,
    Disabled,
}

impl Default for MenuState {
    fn default() -> (r: MenuState)
        ensures
            r == MenuState::Main,
    {
        MenuState::Main
    }
}

/// Whether the matchmaking screen is waiting for a peer.
#[derive(Clone, Copy, Debug, PartialEq, Eq, Structural)]
pub enum ConnectState {
    Wait,
    Disabled,
}

impl Default for ConnectState {
    fn default() -> (r: ConnectState)
        ensures
            r == ConnectState::Disabled,
    {
        ConnectState::Disabled
    }
}

/// The pending state changes one decision produces; `None` leaves a state
/// as it is.
#[derive(Clone, Copy, Debug, PartialEq, Eq, Structural)]
pub struct Transition {
    pub main: Option<MainState>,
    pub menu: Option<MenuState>,
    pub mode: Option<GameMode>,
    pub connect: Option<ConnectState>,
    pub exit: bool,
}

impl Transition {
    /// The transition that changes nothing.
    pub open spec fn none_spec() -> Transition {
        Transition { main: None, menu: None, mode: None, connect: None, exit: false }
    }

    pub fn none() -> (r: Transition)
        ensures
            r == Transition::none_spec(),
    {
        Transition { main: None, menu: None, mode: None, connect: None, exit: false }
    }
}

/// A main-menu button.
#[derive(Clone, Copy, Debug, PartialEq, Eq, Structural)]
pub enum MainMenuButton {
    Play,
    Setting,
    Quit,
}

/// What pressing a main-menu button does: play hides the menu and enters
/// the game, setting opens the settings screen, quit leaves the program.
pub fn menu_action(b: MainMenuButton) -> (r: Transition)
    ensures
        b == MainMenuButton::Play ==> r == (Transition {
            main: Some(MainState::Game),
            menu: Some(MenuState::Disabled),
            ..Transition::none_spec()
        }),
        b == MainMenuButton::Setting ==> r == (Transition {
            menu: Some(MenuState::Setting),
            ..Transition::none_spec()
        }),
        b == MainMenuButton::Quit ==> r == (Transition { exit: true, ..Transition::none_spec() }),
{
    let mut r = Transition::none();
    match b {
        MainMenuButton::Play => {
            r.menu = Some(MenuState::Disabled);
            r.main = Some(MainState::Game);
        },
        MainMenuButton::Setting => {
            r.menu = Some(MenuState::Setting);
        },
        MainMenuButton::Quit => {
            r.exit = true;
        },
    }
    r
}

/// A button on the game-over screen.
#[derive(Clone, Copy, Debug, PartialEq, Eq, Structural)]
pub enum GameOverButton {
    Replay,
    Menu,
    Quit,
}

/// What pressing a game-over button does: replay restarts the game, menu
/// returns to the main menu, quit leaves the program.
pub fn game_over_action(b: GameOverButton) -> (r: Transition)
    ensures
        b == GameOverButton::Replay ==> r == (Transition {
            main: Some(MainState::Game),
            ..Transition::none_spec()
        }),
        b == GameOverButton::Menu ==> r == (Transition {
            main: Some(MainState::Menu),
            menu: Some(MenuState::Main),
            ..Transition::none_spec()
        }),
        b == GameOverButton::Quit ==> r == (Transition { exit: true, ..Transition::none_spec() }),
{
    let mut r = Transition::none();
    match b {
        GameOverButton::Replay => {
            r.main = Some(MainState::Game);
        },
        GameOverButton::Menu => {
            r.main = Some(MainState::Menu);
            r.menu = Some(MenuState::Main);
        },
        GameOverButton::Quit => {
            r.exit = true;
        },
    }
    r
}

/// Choosing a mode on the mode menu starts that mode.
pub fn game_menu_select(m: GameMode) -> (r: Transition)
    ensures
        r == (Transition { mode: Some(m), ..Transition::none_spec() }),
{
    let mut r = Transition::none();
    r.mode = Some(m);
    r
}

/// The round is over: the running mode shuts down and the terminal
/// game-over screen is shown.  This fires on lethal damage and on fatal
/// body contact alike, whatever the remaining hit points.
pub fn round_over() -> (r: Transition)
    ensures
        r == (Transition {
            main: Some(MainState::GameOver),
            mode: Some(GameMode::Disabled),
            ..Transition::none_spec()
        }),
{
    let mut r = Transition::none();
    r.mode = Some(GameMode::Disabled);
    r.main = Some(MainState::GameOver);
    r
}

/// Leaving a mode: its entities are despawned by the caller and the mode
/// menu takes over.
pub fn mode_exit() -> (r: Transition)
    ensures
        r == (Transition { mode: Some(GameMode::Disabled), ..Transition::none_spec() }),
{
    let mut r = Transition::none();
    r.mode = Some(GameMode::Disabled);
    r
}

/// A matchmaking participant: display name, address octets, and the
/// measured average tick time in microseconds (the cadence the peer
/// should send position updates at).
#[derive(Clone, Debug)]
pub struct User {
    pub name: Vec<u8>,
    pub ip: [u8; 4],
    pub cadence_us: u64,
}

/// The request body both room calls send.
#[derive(Clone, Debug)]
pub struct RoomRequest {
    pub room_id: u32,
    pub user: User,
}

/// What the room service answers: success with a message and possibly the
/// opponent, or a refusal with a message.
#[derive(Clone, Debug)]
pub enum RoomResponse {
    Accepted { message: Vec<u8>, user: Option<User> },
    Refused(Vec<u8>),
}

/// Which room call a button press made.
#[derive(Clone, Copy, Debug, PartialEq, Eq, Structural)]
pub enum ConnectAction {
    Create,
    Enter,
}

/// What the matchmaking screen does next.
pub enum ConnectOutcome {
    /// The room was created: wait for the peer's handshake.
    WaitForPeer,
    /// The room was entered: start versus play against this opponent.
    StartVersus(User),
    /// Transport failure, refusal, or an acceptance without an opponent:
    /// stay on the matchmaking screen.
    Stay,
}

/// Decide on a room-service answer.  `None` stands for a transport
/// failure.  Creating a room successfully waits for the peer; entering a
/// room successfully starts versus play against the returned opponent; an
/// acceptance that names no opponent is malformed and is ignored rather
/// than trusted.
pub fn connect_decide(action: ConnectAction, response: Option<RoomResponse>) -> (r: ConnectOutcome)
    ensures
        response is None ==> r is Stay,
        response matches Some(RoomResponse::Refused(_)) ==> r is Stay,
        action == ConnectAction::Create ==> (response matches Some(RoomResponse::Accepted { .. })
            ==> r is WaitForPeer),
        action == ConnectAction::Enter ==> (response matches Some(RoomResponse::Accepted {
            user: Some(u),
            ..
        }) ==> r == ConnectOutcome::StartVersus(u)),
        action == ConnectAction::Enter ==> (response matches Some(RoomResponse::Accepted {
            user: None,
            ..
        }) ==> r is Stay),
{
    match response {
        None => ConnectOutcome::Stay,
        Some(RoomResponse::Refused(_)) => ConnectOutcome::Stay,
        Some(RoomResponse::Accepted { user, .. }) => {
            match action {
                ConnectAction::Create => ConnectOutcome::WaitForPeer,
                ConnectAction::Enter => {
                    match user {
                        Some(u) => ConnectOutcome::StartVersus(u),
                        None => ConnectOutcome::Stay,
                    }
                },
            }
        },
    }
}

/// The handshake worker heard the peer: matchmaking is done and versus
/// play starts.
pub fn peer_joined() -> (r: Transition)
    ensures
        r == (Transition {
            mode: Some(GameMode::Versus),
            connect: Some(ConnectState::Disabled),
            ..Transition::none_spec()
        }),
{
    let mut r = Transition::none();
    r.connect = Some(ConnectState::Disabled);
    r.mode = Some(GameMode::Versus);
    r
}

/// A text field of the matchmaking screen.
#[derive(Clone, Copy, Debug, PartialEq, Eq, Structural)]
pub enum RoomField {
    Name,
    RoomId,
}

/// Apply a submitted text field to the pending room request.  The name is
/// taken as it is; the room id must be a digit string that fits a `u32`,
/// and anything else leaves the request unchanged.
pub fn apply_room_field(room: &mut RoomRequest, field: RoomField, text: Vec<u8>) -> (accepted:
    bool)
    ensures
        field == RoomField::Name ==> accepted && final(room).user.name@ == text@
            && final(room).room_id == old(room).room_id,
        field == RoomField::RoomId ==> {
            &&& accepted == (valid_digits(text@) && dec_val(text@) <= u32::MAX)
            &&& final(room).user.name@ == old(room).user.name@
            &&& (accepted ==> final(room).room_id == dec_val(text@))
            &&& (!accepted ==> final(room).room_id == old(room).room_id)
        },
        final(room).user.ip == old(room).user.ip,
        final(room).user.cadence_us == old(room).user.cadence_us,
{
    match field {
        RoomField::Name => {
            room.user.name = text;
            true
        },
        RoomField::RoomId => {
            let n = text.len();
            proof {
                assert(text@.subrange(0, n as int) =~= text@);
            }
            match parse_u64_range(&text, 0, n) {
                Some(v) => {
                    if v <= u32::MAX as u64 {
                        room.room_id = v as u32;
                        true
                    } else {
                        false
                    }
                },
                None => false,
            }
        },
    }
}

/// The running average of tick lengths, measured before a match to tell
/// the peer how often to send position updates.
#[derive(Clone, Copy, Debug, PartialEq, Eq, Structural)]
pub struct CadenceMeter {
    pub total_us: u64,
    pub count: u64,
}

impl CadenceMeter {
    pub fn new() -> (r: CadenceMeter)
        ensures
            r == (CadenceMeter { total_us: 0u64, count: 0u64 }),
    {
        CadenceMeter { total_us: 0, count: 0 }
    }

    /// Record one tick's length.
    pub fn sample(&mut self, dt_us: u64)
        requires
            old(self).total_us + dt_us <= u64::MAX,
            old(self).count < u64::MAX,
        ensures
            final(self).total_us == old(self).total_us + dt_us,
            final(self).count == old(self).count + 1,
    {
        self.total_us = self.total_us + dt_us;
        self.count = self.count + 1;
    }

    /// The measured average, zero before the first sample.
    pub fn average_us(&self) -> (r: u64)
        ensures
            self.count > 0 ==> r as int == self.total_us as int / self.count as int,
            self.count == 0 ==> r == 0,
    {
        if self.count == 0 {
            0
        } else {
            self.total_us / self.count
        }
    }
}

} // verus!

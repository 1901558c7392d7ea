//! What the lobby answers to whoever creates or enters it.

use crate::entity::PlayerStateView;
use crate::game_state::{GameState, GameStateView};
use crate::geometry::Vec2;
use vstd::prelude::*;
use vstd::string::*;

verus! {

/// Both coordinates of the point at which the founder of a lobby stands.
pub const FOUNDER_POINT: i64 = 100_000_000;

/// The request to create a lobby.
#[derive(Debug, Clone, PartialEq, Eq)]
pub struct CreateLobbyRequest {
    /// The name of the lobby.
    pub name: String,
    /// The name of the player who founds it.
    pub player_name: String,
}

/// The body with which a connection names its lobby.
#[derive(Debug, Clone, PartialEq, Eq)]
pub struct WsBody {
    pub lobby_name: String,
}

/// The request to enter a lobby.
#[derive(Debug, Clone, PartialEq, Eq)]
pub struct EnterLobby {
    /// The name of the lobby.
    pub name: String,
    /// The name of the player who enters.
    pub player_name: String,
}

/// The answer to a request to create or to enter a lobby.
#[derive(Debug, PartialEq, Eq)]
pub struct LobbyResponse {
    /// Where the player's connection is to be opened.
    pub url: String,
    /// The state of the lobby, for its founder.
    pub game_state: Option<GameState>,
}

/// The address at which `player` connects to `lobby`.
pub open spec fn url_of(lobby: Seq<char>, player: Seq<char>) -> Seq<char> {
    "ws://localhost:8000/ws/"@ + lobby + "/"@ + player
}

/// The state of a lobby that `founder` has just founded at the time `now`:
/// the founder alone, at the founder's point.
pub open spec fn founded(founder: Seq<char>, now: i64) -> GameStateView {
    GameStateView {
        players: seq![
            PlayerStateView::fresh(founder, Vec2 { x: FOUNDER_POINT, y: FOUNDER_POINT }),
        ],
        bullets: Seq::empty(),
        last_time: now,
    }
}

/// Builds the address at which `player` connects to `lobby`.
pub fn join_url(lobby: &str, player: &str) -> (r: String)
    ensures
        r@ == url_of(lobby@, player@),
{
    let mut url: String = "ws://localhost:8000/ws/".to_owned();
    url.append(lobby);
    url.append("/");
    url.append(player);
    url
}

/// Founds a lobby at the time `now`: the answer holds the address for the
/// founder's connection and the state in which the lobby starts.
pub fn create_lobby(req: &CreateLobbyRequest, now: i64) -> (r: LobbyResponse)
    ensures
        r.url@ == url_of(req.name@, req.player_name@),
        r.game_state matches Some(state) && state.wf() && state@ == founded(
            req.player_name@,
            now,
        ),
{
    let mut state: GameState = GameState::new(now);
    let joined = state.add_player(
        req.player_name.as_str(),
        Vec2 { x: FOUNDER_POINT, y: FOUNDER_POINT },
    );
    assert(state@ =~= founded(req.player_name@, now));
    LobbyResponse {
        url: join_url(req.name.as_str(), req.player_name.as_str()),
        game_state: Some(state),
    }
}

/// Answers a player who enters a lobby: the answer holds the address for the
/// player's connection, and no state.
pub fn enter_lobby(req: &EnterLobby) -> (r: LobbyResponse)
    ensures
        r.url@ == url_of(req.name@, req.player_name@),
        r.game_state is None,
{
    LobbyResponse { url: join_url(req.name.as_str(), req.player_name.as_str()), game_state: None }
}

} // verus!

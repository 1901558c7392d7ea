//! The rules of a client's connection: what it asks of the lobby's actor when
//! it opens, and what becomes of each text that the client sends.
//!
//! A connection that ends asks for nothing: its player stays in the lobby
//! until a bullet takes the player out.

pub use crate::game_state::GameEvent;
use crate::game_state::GameEventView;
use crate::geometry::Angle;
use crate::session::{SetupMessage, SetupMessageView};
use vstd::prelude::*;

verus! {

/// What a client may ask for.
#[derive(Debug, Clone, Copy, PartialEq, Eq, Structural)]
pub enum Commands {
    /// Move at the velocity `(x, y)`.
    UpdateVelocity { x: i64, y: i64 },
    /// Fire.
    Shoot,
    /// Face along this angle.
    UpdateAngle(Angle),
}

impl Commands {
    /// The event that tells of this command, given by the player `player`.
    pub open spec fn event_for(self, player: Seq<char>) -> GameEventView {
        match self {
            Commands::UpdateVelocity { x, y } => GameEventView::UpdateVelocity {
                x,
                y,
                name: player,
            },
            Commands::Shoot => GameEventView::Shooting(player),
            Commands::UpdateAngle(angle) => GameEventView::UpdateAngle { angle, name: player },
        }
    }

    /// Turns the command of the player `player` into the event that the
    /// lobby's actor folds into the state.
    pub fn into_event(self, player: &str) -> (r: GameEvent)
        ensures
            r@ == self.event_for(player@),
    {
        match self {
            Commands::UpdateVelocity { x, y } => GameEvent::UpdateVelocity {
                x,
                y,
                name: player.to_owned(),
            },
            Commands::Shoot => GameEvent::Shooting(player.to_owned()),
            Commands::UpdateAngle(angle) => GameEvent::UpdateAngle {
                angle,
                name: player.to_owned(),
            },
        }
    }
}

/// Whether a text is the keep-alive of a client: `ping`, with or without a
/// line feed behind it.
pub open spec fn keep_alive(text: Seq<char>) -> bool {
    text == seq!['p', 'i', 'n', 'g'] || text == seq!['p', 'i', 'n', 'g', '\n']
}

/// What the connection submits to the lobby's actor for a text of the
/// client: nothing for a keep-alive, nothing for a text that did not decode
/// to a command, and else the event of the command.
pub open spec fn relayed(
    text: Seq<char>,
    decoded: Option<Commands>,
    player: Seq<char>,
) -> Option<GameEventView> {
    if keep_alive(text) {
        None
    } else {
        match decoded {
            Some(command) => Some(command.event_for(player)),
            None => None,
        }
    }
}

/// Tests whether a text is the keep-alive of a client.
pub fn is_keep_alive(text: &str) -> (r: bool)
    ensures
        r == keep_alive(text@),
{
    let n: usize = text.unicode_len();
    if n != 4 && n != 5 {
        return false;
    }
    let word: bool = text.get_char(0) == 'p' && text.get_char(1) == 'i' && text.get_char(2) == 'n'
        && text.get_char(3) == 'g';
    let r: bool = word && (n == 4 || text.get_char(4) == '\n');
    proof {
        if r {
            if n == 4 {
                assert(text@ =~= seq!['p', 'i', 'n', 'g']);
            } else {
                assert(text@ =~= seq!['p', 'i', 'n', 'g', '\n']);
            }
        }
    }
    r
}

/// Decides what the connection of `player` submits for a text of the client.
/// `decoded` is the command that the text decodes to, if it decodes to one.
pub fn relay_inbound(text: &str, decoded: Option<Commands>, player: &str) -> (r: Option<GameEvent>)
    ensures
        match relayed(text@, decoded, player@) {
            Some(event) => r matches Some(e) && e@ == event,
            None => r is None,
        },
{
    if is_keep_alive(text) {
        return None;
    }
    match decoded {
        Some(command) => Some(command.into_event(player)),
        None => None,
    }
}

/// What a connection asks of the lobby's actor when it opens, in this order:
/// that its player may join, then its channels.
pub fn join_requests(player: &str) -> (r: Vec<SetupMessage>)
    ensures
        r@.len() == 2,
        r@[0]@ == SetupMessageView::AddPlayer(player@),
        r@[1]@ == SetupMessageView::GetChannels,
{
    let mut requests: Vec<SetupMessage> = Vec::new();
    requests.push(SetupMessage::AddPlayer(player.to_owned()));
    requests.push(SetupMessage::GetChannels);
    requests
}

} // verus!

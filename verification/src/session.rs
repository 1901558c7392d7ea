//! The actor that owns the state of one lobby, as a state machine. Whoever
//! runs the actor waits, polls its inboxes and sends what it is told to send;
//! every decision is taken here.

use crate::game_state::{GameError, GameEvent, GameEventView, GameState, GameStateView};
use crate::geometry::Vec2;
use vstd::prelude::*;

verus! {

/// Milliseconds between two ticks of a lobby.
pub const TICK_INTERVAL: u64 = 35;

/// Both coordinates of the point at which a player joins a running lobby.
pub const JOIN_POINT: i64 = 0;

/// An instruction to the actor from a connection that is being set up.
#[derive(Debug, PartialEq, Eq)]
pub enum SetupMessage {
    /// The player of this name wants to join.
    AddPlayer(String),
    /// The connection wants a subscription to the lobby's events and a way
    /// to submit its own.
    GetChannels,
}

/// The mathematical value of a [`SetupMessage`].
pub enum SetupMessageView {
    AddPlayer(Seq<char>),
    GetChannels,
}

impl View for SetupMessage {
    type V = SetupMessageView;

    open spec fn view(&self) -> SetupMessageView {
        match *self {
            SetupMessage::AddPlayer(name) => SetupMessageView::AddPlayer(name@),
            SetupMessage::GetChannels => SetupMessageView::GetChannels,
        }
    }
}

/// Why a lobby has stopped for good.
#[derive(Debug, Clone, Copy, PartialEq, Eq, Structural)]
pub enum SessionError {
    /// The state refused a change that should have been possible.
    Game(GameError),
    /// A connection asked for its channels before any player had joined.
    ChannelsBeforeJoin,
}

/// Where the actor stands in its life.
#[derive(Debug, Clone, Copy, PartialEq, Eq, Structural)]
pub enum Phase {
    /// Waiting for the first player to join. No tick runs.
    AwaitingFirstJoin,
    /// Ticking.
    Running,
    /// Stopped by a fault. Nothing changes any more.
    Failed(SessionError),
}

/// What the actor asks its runner to do.
#[derive(Debug, PartialEq, Eq)]
pub enum Effect {
    /// Send this event to every subscriber.
    Broadcast(GameEvent),
    /// Hand the connection that asked for them a fresh subscription and the
    /// sender on which clients submit events.
    HandChannels,
}

/// The mathematical value of an [`Effect`].
#[verifier::ext_equal]
pub enum EffectView {
    Broadcast(GameEventView),
    HandChannels,
}

impl View for Effect {
    type V = EffectView;

    open spec fn view(&self) -> EffectView {
        match *self {
            Effect::Broadcast(event) => EffectView::Broadcast(event@),
            Effect::HandChannels => EffectView::HandChannels,
        }
    }
}

/// The views of a sequence of effects.
pub open spec fn effect_views(effects: Seq<Effect>) -> Seq<EffectView> {
    effects.map_values(|e: Effect| e@)
}

/// The effect that sends an event.
pub open spec fn broadcast() -> spec_fn(GameEventView) -> EffectView {
    |e: GameEventView| EffectView::Broadcast(e)
}

/// The mathematical value of a [`Session`].
#[verifier::ext_equal]
pub struct SessionView {
    pub phase: Phase,
    pub game: GameStateView,
}

impl SessionView {
    /// The answer to a setup instruction. The first instruction to join
    /// starts the lobby and does no more, whomever it names: the state is not
    /// changed and nothing is sent. The founder is in the state since the
    /// lobby was founded, so the founder is meant to be the first to join; a
    /// later join under a name that is in the state stops the lobby, the
    /// founder's too.
    /// A later player is put at the join point, and all are told of that
    /// player and are sent the whole state. A request for channels is granted,
    /// and the whole state is sent after it, so that the new subscription
    /// sees the state before anything later.
    pub open spec fn on_setup(self, message: SetupMessageView) -> (SessionView, Seq<EffectView>) {
        match self.phase {
            Phase::AwaitingFirstJoin => match message {
                SetupMessageView::AddPlayer(_) => (
                    SessionView { phase: Phase::Running, ..self },
                    Seq::empty(),
                ),
                SetupMessageView::GetChannels => (
                    SessionView {
                        phase: Phase::Failed(SessionError::ChannelsBeforeJoin),
                        ..self
                    },
                    Seq::empty(),
                ),
            },
            Phase::Running => match message {
                SetupMessageView::AddPlayer(name) => match self.game.joined(
                    name,
                    Vec2 { x: JOIN_POINT, y: JOIN_POINT },
                ) {
                    Ok(game) => (
                        SessionView { game, ..self },
                        seq![
                            EffectView::Broadcast(
                                GameEventView::AddPlayer { x: JOIN_POINT, y: JOIN_POINT, name },
                            ),
                            EffectView::Broadcast(GameEventView::GameStateSync(game)),
                        ],
                    ),
                    Err(e) => (
                        SessionView { phase: Phase::Failed(SessionError::Game(e)), ..self },
                        Seq::empty(),
                    ),
                },
                SetupMessageView::GetChannels => (
                    self,
                    seq![
                        EffectView::HandChannels,
                        EffectView::Broadcast(GameEventView::GameStateSync(self.game)),
                    ],
                ),
            },
            Phase::Failed(_) => (self, Seq::empty()),
        }
    }

    /// The answer to the clock: a running lobby ticks and sends what the
    /// tick tells of, in the order of the tick.
    pub open spec fn on_tick(self, now: i64) -> (SessionView, Seq<EffectView>) {
        match self.phase {
            Phase::Running => (
                SessionView { game: self.game.tick(now), ..self },
                self.game.tick_events(now).map_values(broadcast()),
            ),
            _ => (self, Seq::empty()),
        }
    }

    /// The answer to an event that a client submits: a running lobby folds
    /// it into the state and sends it to all as confirmation. An event that
    /// the state refuses stops the lobby.
    pub open spec fn on_event(self, event: GameEventView) -> (SessionView, Seq<EffectView>) {
        match self.phase {
            Phase::Running => match self.game.fold(event) {
                Ok(game) => (SessionView { game, ..self }, seq![EffectView::Broadcast(event)]),
                Err(e) => (
                    SessionView { phase: Phase::Failed(SessionError::Game(e)), ..self },
                    Seq::empty(),
                ),
            },
            _ => (self, Seq::empty()),
        }
    }

    /// One round of the actor: the tick, then at most one event of a client,
    /// then at most one setup instruction. The effects come in that order.
    pub open spec fn round(
        self,
        now: i64,
        event: Option<GameEventView>,
        setup: Option<SetupMessageView>,
    ) -> (SessionView, Seq<EffectView>) {
        let ticked = self.on_tick(now);
        let folded = match event {
            Some(e) => ticked.0.on_event(e),
            None => (ticked.0, Seq::empty()),
        };
        let served = match setup {
            Some(m) => folded.0.on_setup(m),
            None => (folded.0, Seq::empty()),
        };
        (served.0, ticked.1 + folded.1 + served.1)
    }
}

/// The actor of one lobby: the only owner of the lobby's state.
pub struct Session {
    phase: Phase,
    game: GameState,
}

impl View for Session {
    type V = SessionView;

    closed spec fn view(&self) -> SessionView {
        SessionView { phase: self.phase, game: self.game@ }
    }
}

impl Session {
    /// The invariant of the actor: the state of its lobby keeps its own.
    pub open spec fn wf(&self) -> bool {
        self@.game.wf()
    }

    /// The actor of a lobby in the state `game`, waiting for the first player
    /// to join.
    pub fn new(game: GameState) -> (r: Self)
        requires
            game.wf(),
        ensures
            r.wf(),
            r@ == (SessionView { phase: Phase::AwaitingFirstJoin, game: game@ }),
    {
        Session { phase: Phase::AwaitingFirstJoin, game }
    }

    /// Where the actor stands in its life.
    pub fn phase(&self) -> (r: Phase)
        ensures
            r == self@.phase,
    {
        self.phase
    }

    /// The state of the lobby.
    pub fn game(&self) -> (r: &GameState)
        ensures
            r@ == self@.game,
    {
        &self.game
    }

    /// Answers a setup instruction.
    pub fn on_setup(&mut self, message: SetupMessage) -> (effects: Vec<Effect>)
        requires
            old(self).wf(),
        ensures
            final(self).wf(),
            (final(self)@, effect_views(effects@)) == old(self)@.on_setup(message@),
    {
        let mut effects: Vec<Effect> = Vec::new();
        match self.phase {
            Phase::AwaitingFirstJoin => match message {
                SetupMessage::AddPlayer(_) => {
                    self.phase = Phase::Running;
                },
                SetupMessage::GetChannels => {
                    self.phase = Phase::Failed(SessionError::ChannelsBeforeJoin);
                },
            },
            Phase::Running => match message {
                SetupMessage::AddPlayer(name) => {
                    match self.game.add_player(
                        name.as_str(),
                        Vec2 { x: JOIN_POINT, y: JOIN_POINT },
                    ) {
                        Ok(()) => {
                            effects.push(
                                Effect::Broadcast(
                                    GameEvent::AddPlayer { x: JOIN_POINT, y: JOIN_POINT, name },
                                ),
                            );
                            effects.push(Effect::Broadcast(GameEvent::GameStateSync(self.game.clone())));
                        },
                        Err(e) => {
                            self.phase = Phase::Failed(SessionError::Game(e));
                        },
                    }
                },
                SetupMessage::GetChannels => {
                    effects.push(Effect::HandChannels);
                    effects.push(Effect::Broadcast(GameEvent::GameStateSync(self.game.clone())));
                },
            },
            Phase::Failed(_) => {},
        }
        assert(effect_views(effects@) =~= old(self)@.on_setup(message@).1);
        assert(self@ =~= old(self)@.on_setup(message@).0);
        effects
    }

    /// Answers the clock.
    pub fn on_tick(&mut self, now: i64) -> (effects: Vec<Effect>)
        requires
            old(self).wf(),
        ensures
            final(self).wf(),
            (final(self)@, effect_views(effects@)) == old(self)@.on_tick(now),
    {
        let mut effects: Vec<Effect> = Vec::new();
        match self.phase {
            Phase::Running => {
                let events: Vec<GameEvent> = self.game.update(now);
                let ghost told = crate::game_state::event_views(events@);
                let mut i: usize = 0;
                while i < events.len()
                    invariant
                        i <= events.len(),
                        told == crate::game_state::event_views(events@),
                        effect_views(effects@) == told.take(i as int).map_values(broadcast()),
                    decreases events.len() - i,
                {
                    let ghost sent = effects@;
                    let event: GameEvent = events[i].clone();
                    effects.push(Effect::Broadcast(event));
                    assert(effect_views(effects@) =~= effect_views(sent).push(
                        EffectView::Broadcast(told[i as int]),
                    ));
                    assert(told.take(i + 1).map_values(broadcast()) =~= told.take(
                        i as int,
                    ).map_values(broadcast()).push(EffectView::Broadcast(told[i as int])));
                    i += 1;
                }
                assert(told.take(i as int) =~= told);
            },
            _ => {},
        }
        assert(effect_views(effects@) =~= old(self)@.on_tick(now).1);
        assert(self@ =~= old(self)@.on_tick(now).0);
        effects
    }

    /// Answers an event that a client submits.
    pub fn on_event(&mut self, event: GameEvent) -> (effects: Vec<Effect>)
        requires
            old(self).wf(),
        ensures
            final(self).wf(),
            (final(self)@, effect_views(effects@)) == old(self)@.on_event(event@),
    {
        let mut effects: Vec<Effect> = Vec::new();
        match self.phase {
            Phase::Running => {
                let echo: GameEvent = event.clone();
                match self.game.react_to_event(event) {
                    Ok(()) => {
                        effects.push(Effect::Broadcast(echo));
                    },
                    Err(e) => {
                        self.phase = Phase::Failed(SessionError::Game(e));
                    },
                }
            },
            _ => {},
        }
        assert(effect_views(effects@) =~= old(self)@.on_event(event@).1);
        assert(self@ =~= old(self)@.on_event(event@).0);
        effects
    }

    /// Runs one round of the actor: the tick at the time `now`, then the
    /// event of a client that was waiting, if any, then the setup instruction
    /// that was waiting, if any. The effects are to be carried out in the
    /// order returned.
    pub fn round(&mut self, now: i64, event: Option<GameEvent>, setup: Option<SetupMessage>) -> (effects: Vec<Effect>)
        requires
            old(self).wf(),
        ensures
            final(self).wf(),
            (final(self)@, effect_views(effects@)) == old(self)@.round(
                now,
                match event {
                    Some(e) => Some(e@),
                    None => None,
                },
                match setup {
                    Some(m) => Some(m@),
                    None => None,
                },
            ),
    {
        let mut effects: Vec<Effect> = self.on_tick(now);
        let ghost first = effect_views(effects@);
        let ghost mut second = Seq::<EffectView>::empty();
        match event {
            Some(e) => {
                let mut more: Vec<Effect> = self.on_event(e);
                proof {
                    second = effect_views(more@);
                }
                effects.append(&mut more);
            },
            None => {},
        }
        assert(effect_views(effects@) =~= first + second);
        let ghost mut third = Seq::<EffectView>::empty();
        match setup {
            Some(m) => {
                let mut more: Vec<Effect> = self.on_setup(m);
                proof {
                    third = effect_views(more@);
                }
                effects.append(&mut more);
            },
            None => {},
        }
        assert(effect_views(effects@) =~= first + second + third);
        effects
    }
}

} // verus!

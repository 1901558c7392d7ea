//! The authoritative state of one lobby: its players and bullets, the tick
//! that advances them, and the folding of events into the state.

pub use crate::entity::{
    Action, ActionView, BulletState, PlayerState, PlayerStateView, BULLET_LIFETIME,
    BULLET_RADIUS_SIZE, BULLET_VEL, PLAYER_RADIUS_SIZE, SPAWN_DISTANCE, STARTING_HEALTH,
};
use crate::fixed::{elapsed, span};
pub use crate::geometry::{Angle, Vec2};
use vstd::prelude::*;

verus! {

/// Why the state refused a change.
#[derive(Debug, Clone, Copy, PartialEq, Eq, Structural)]
pub enum GameError {
    /// A player of that name is already in the lobby.
    DuplicatePlayer,
    /// No player of that name is in the lobby.
    UnknownPlayer,
    /// No bullet stands at that place of the sequence.
    UnknownBullet,
    /// A snapshot that breaks the state's invariant.
    InvalidSnapshot,
}

/// The state of one lobby.
#[derive(Debug, PartialEq, Eq)]
pub struct GameState {
    /// The players, in the order in which they joined. No name occurs twice.
    pub players: Vec<PlayerState>,
    /// The bullets in flight. Each bullet's `index` is its place here.
    pub bullets: Vec<BulletState>,
    /// The time of the last tick, in milliseconds.
    pub last_time: i64,
}

/// The mathematical value of a [`GameState`].
#[verifier::ext_equal]
pub struct GameStateView {
    pub players: Seq<PlayerStateView>,
    pub bullets: Seq<BulletState>,
    pub last_time: i64,
}

/// The views of a sequence of players.
pub open spec fn player_views(players: Seq<PlayerState>) -> Seq<PlayerStateView> {
    players.map_values(|p: PlayerState| p@)
}

/// The bullets of `bullets`, each with its place in the sequence as its
/// `index`.
pub open spec fn renumbered(bullets: Seq<BulletState>) -> Seq<BulletState> {
    Seq::new(bullets.len(), |i: int| BulletState { index: i as usize, ..bullets[i] })
}

impl View for GameState {
    type V = GameStateView;

    open spec fn view(&self) -> GameStateView {
        GameStateView {
            players: player_views(self.players@),
            bullets: self.bullets@,
            last_time: self.last_time,
        }
    }
}

impl GameStateView {
    /// The invariant of the state: no two players share a name, and every
    /// bullet's `index` is its place in the sequence.
    pub open spec fn wf(self) -> bool {
        &&& forall|i: int, j: int|
            0 <= i < j < self.players.len() ==> self.players[i].name != self.players[j].name
        &&& self.bullets.len() <= usize::MAX
        &&& forall|i: int|
            0 <= i < self.bullets.len() ==> (#[trigger] self.bullets[i]).index == i
    }

    /// Whether a player of that name is in the lobby.
    pub open spec fn has_player(self, name: Seq<char>) -> bool {
        exists|i: int| 0 <= i < self.players.len() && (#[trigger] self.players[i]).name == name
    }

    /// The place of the player of that name.
    pub open spec fn index_of(self, name: Seq<char>) -> int {
        choose|i: int| 0 <= i < self.players.len() && (#[trigger] self.players[i]).name == name
    }

    /// The player of that name.
    pub open spec fn player(self, name: Seq<char>) -> PlayerStateView {
        self.players[self.index_of(name)]
    }

    /// The state with a new player at `position`, at the end of the players.
    pub open spec fn joined(self, name: Seq<char>, position: Vec2) -> Result<
        GameStateView,
        GameError,
    > {
        if self.has_player(name) {
            Err(GameError::DuplicatePlayer)
        } else {
            Ok(
                GameStateView {
                    players: self.players.push(PlayerStateView::fresh(name, position)),
                    ..self
                },
            )
        }
    }

    /// The state without the player of that name.
    pub open spec fn killed(self, name: Seq<char>) -> Result<GameStateView, GameError> {
        if self.has_player(name) {
            Ok(GameStateView { players: self.players.remove(self.index_of(name)), ..self })
        } else {
            Err(GameError::UnknownPlayer)
        }
    }

    /// The state with a new bullet of age zero at the end of the bullets.
    pub open spec fn spawned(self, position: Vec2, velocity: Vec2) -> GameStateView {
        GameStateView {
            bullets: self.bullets.push(
                BulletState {
                    position,
                    velocity,
                    lifetime: BULLET_LIFETIME,
                    time: 0,
                    index: self.bullets.len() as usize,
                },
            ),
            ..self
        }
    }

    /// The state without the bullet at `index`; the bullets behind it move up
    /// by one place.
    pub open spec fn cleared(self, index: usize) -> Result<GameStateView, GameError> {
        if index < self.bullets.len() {
            Ok(GameStateView { bullets: renumbered(self.bullets.remove(index as int)), ..self })
        } else {
            Err(GameError::UnknownBullet)
        }
    }

    /// The state after the player of that name has fired: a bullet appears at
    /// the player's position plus `Vec2::along(angle, SPAWN_DISTANCE)`, with
    /// the velocity `Vec2::along(angle, BULLET_VEL)`, for the player's angle.
    /// Both coordinates of the offset and of the velocity take the cosine of
    /// the angle: at cosine zero the bullet appears on the player, at rest,
    /// and strikes the player at the next tick.
    pub open spec fn shot(self, name: Seq<char>) -> Result<GameStateView, GameError> {
        if self.has_player(name) {
            let shooter = self.player(name);
            Ok(
                self.spawned(
                    shooter.position.plus(Vec2::along(shooter.angle, SPAWN_DISTANCE)),
                    Vec2::along(shooter.angle, BULLET_VEL),
                ),
            )
        } else {
            Err(GameError::UnknownPlayer)
        }
    }

    /// The state in which the player of that name faces along `angle`.
    pub open spec fn turned(self, name: Seq<char>, angle: Angle) -> Result<
        GameStateView,
        GameError,
    > {
        if self.has_player(name) {
            let i = self.index_of(name);
            Ok(
                GameStateView {
                    players: self.players.update(i, PlayerStateView { angle, ..self.players[i] }),
                    ..self
                },
            )
        } else {
            Err(GameError::UnknownPlayer)
        }
    }

    /// The state in which the player of that name moves at `velocity`.
    pub open spec fn steered(self, name: Seq<char>, velocity: Vec2) -> Result<
        GameStateView,
        GameError,
    > {
        if self.has_player(name) {
            let i = self.index_of(name);
            Ok(
                GameStateView {
                    players: self.players.update(
                        i,
                        PlayerStateView { velocity, ..self.players[i] },
                    ),
                    ..self
                },
            )
        } else {
            Err(GameError::UnknownPlayer)
        }
    }
}

impl GameState {
    /// The invariant of the state, see [`GameStateView::wf`].
    pub open spec fn wf(&self) -> bool {
        self@.wf()
    }

    /// A lobby without players or bullets, last ticked at `last_time`.
    pub fn new(last_time: i64) -> (r: Self)
        ensures
            r.wf(),
            r@ == (GameStateView { players: Seq::empty(), bullets: Seq::empty(), last_time }),
    {
        let state = GameState { players: Vec::new(), bullets: Vec::new(), last_time };
        assert(state@ =~= (GameStateView {
            players: Seq::empty(),
            bullets: Seq::empty(),
            last_time,
        }));
        state
    }

    /// Looks a player up by name.
    pub fn find_player(&self, name: &str) -> (r: Option<usize>)
        ensures
            r is Some <==> self@.has_player(name@),
            r matches Some(i) ==> i < self.players.len() && self@.players[i as int].name == name@,
            self.wf() && r is Some ==> r->0 == self@.index_of(name@),
    {
        let key: String = name.to_owned();
        let mut i: usize = 0;
        while i < self.players.len()
            invariant
                i <= self.players.len(),
                key@ == name@,
                forall|k: int| 0 <= k < i ==> (#[trigger] self@.players[k]).name != name@,
            decreases self.players.len() - i,
        {
            if self.players[i].name == key {
                assert(self@.players[i as int].name == name@);
                return Some(i);
            }
            i += 1;
        }
        None
    }

    /// Lets a player join at `pos`: at rest, facing along angle zero, in full
    /// health. Refuses a name that is already in the lobby.
    pub fn add_player(&mut self, name: &str, pos: Vec2) -> (r: Result<(), GameError>)
        requires
            old(self).wf(),
        ensures
            final(self).wf(),
            match old(self)@.joined(name@, pos) {
                Ok(state) => r is Ok && final(self)@ == state,
                Err(e) => r == Err::<(), GameError>(e) && final(self)@ == old(self)@,
            },
    {
        if self.find_player(name).is_some() {
            return Err(GameError::DuplicatePlayer);
        }
        self.players.push(PlayerState::new(name, pos));
        assert(self@.players =~= old(self)@.players.push(PlayerStateView::fresh(name@, pos)));
        Ok(())
    }

    /// Takes the player of that name out of the lobby. Refuses a name that is
    /// not in the lobby.
    pub fn kill_player(&mut self, name: &str) -> (r: Result<(), GameError>)
        requires
            old(self).wf(),
        ensures
            final(self).wf(),
            match old(self)@.killed(name@) {
                Ok(state) => r is Ok && final(self)@ == state,
                Err(e) => r == Err::<(), GameError>(e) && final(self)@ == old(self)@,
            },
    {
        match self.find_player(name) {
            Some(i) => {
                self.players.remove(i);
                assert(self@.players =~= old(self)@.players.remove(i as int));
                Ok(())
            },
            None => Err(GameError::UnknownPlayer),
        }
    }

    /// Puts a bullet of age zero into flight.
    pub fn add_bullet(&mut self, pos: Vec2, vel: Vec2)
        requires
            old(self).wf(),
        ensures
            final(self).wf(),
            final(self)@ == old(self)@.spawned(pos, vel),
    {
        let index: usize = self.bullets.len();
        self.bullets.push(
            BulletState { position: pos, velocity: vel, lifetime: BULLET_LIFETIME, time: 0, index },
        );
        assert(self@.players == old(self)@.players);
        assert(self@.bullets.len() == self.bullets.len());
        assert forall|i: int| 0 <= i < self@.bullets.len() implies (
        #[trigger] self@.bullets[i]).index == i by {
            if i < index {
                assert(self@.bullets[i] == old(self)@.bullets[i]);
            }
        }
    }

    /// Takes the bullet at `index` out of flight and moves the bullets behind
    /// it up by one place. Refuses an index at which no bullet stands.
    pub fn remove_bullet(&mut self, index: usize) -> (r: Result<(), GameError>)
        requires
            old(self).wf(),
        ensures
            final(self).wf(),
            match old(self)@.cleared(index) {
                Ok(state) => r is Ok && final(self)@ == state,
                Err(e) => r == Err::<(), GameError>(e) && final(self)@ == old(self)@,
            },
    {
        if index >= self.bullets.len() {
            return Err(GameError::UnknownBullet);
        }
        self.bullets.remove(index);
        let ghost shifted = self.bullets@;
        let mut k: usize = index;
        while k < self.bullets.len()
            invariant
                index <= k <= self.bullets.len(),
                shifted == old(self).bullets@.remove(index as int),
                self.bullets.len() == shifted.len(),
                self.players == old(self).players,
                self.last_time == old(self).last_time,
                old(self).wf(),
                forall|i: int|
                    0 <= i < self.bullets.len() ==> #[trigger] self.bullets[i] == (BulletState {
                        index: if i < k {
                            i as usize
                        } else {
                            shifted[i].index
                        },
                        ..shifted[i]
                    }),
            decreases self.bullets.len() - k,
        {
            self.bullets[k].index = k;
            k += 1;
        }
        assert(self.bullets@ =~= renumbered(shifted));
        Ok(())
    }
}

/// A change of the lobby that every client is told of.
#[derive(Debug, PartialEq, Eq)]
pub enum GameEvent {
    /// A player has joined at the position `(x, y)`.
    AddPlayer { x: i64, y: i64, name: String },
    /// The player of this name has died.
    Death(String),
    /// The player of this name has fired.
    Shooting(String),
    /// The player of this name now faces along `angle`.
    UpdateAngle { angle: Angle, name: String },
    /// The player of this name now moves at the velocity `(x, y)`.
    UpdateVelocity { x: i64, y: i64, name: String },
    /// The whole state, for a client that has to catch up.
    GameStateSync(GameState),
}

/// The mathematical value of a [`GameEvent`].
#[verifier::ext_equal]
pub enum GameEventView {
    AddPlayer { x: i64, y: i64, name: Seq<char> },
    Death(Seq<char>),
    Shooting(Seq<char>),
    UpdateAngle { angle: Angle, name: Seq<char> },
    UpdateVelocity { x: i64, y: i64, name: Seq<char> },
    GameStateSync(GameStateView),
}

impl View for GameEvent {
    type V = GameEventView;

    open spec fn view(&self) -> GameEventView {
        match *self {
            GameEvent::AddPlayer { x, y, name } => GameEventView::AddPlayer { x, y, name: name@ },
            GameEvent::Death(name) => GameEventView::Death(name@),
            GameEvent::Shooting(name) => GameEventView::Shooting(name@),
            GameEvent::UpdateAngle { angle, name } => GameEventView::UpdateAngle {
                angle,
                name: name@,
            },
            GameEvent::UpdateVelocity { x, y, name } => GameEventView::UpdateVelocity {
                x,
                y,
                name: name@,
            },
            GameEvent::GameStateSync(state) => GameEventView::GameStateSync(state@),
        }
    }
}

impl Clone for GameEvent {
    fn clone(&self) -> (r: Self)
        ensures
            r@ == self@,
    {
        match self {
            GameEvent::AddPlayer { x, y, name } => GameEvent::AddPlayer {
                x: *x,
                y: *y,
                name: name.clone(),
            },
            GameEvent::Death(name) => GameEvent::Death(name.clone()),
            GameEvent::Shooting(name) => GameEvent::Shooting(name.clone()),
            GameEvent::UpdateAngle { angle, name } => GameEvent::UpdateAngle {
                angle: *angle,
                name: name.clone(),
            },
            GameEvent::UpdateVelocity { x, y, name } => GameEvent::UpdateVelocity {
                x: *x,
                y: *y,
                name: name.clone(),
            },
            GameEvent::GameStateSync(state) => GameEvent::GameStateSync(state.clone()),
        }
    }
}

/// The views of a sequence of events.
pub open spec fn event_views(events: Seq<GameEvent>) -> Seq<GameEventView> {
    events.map_values(|e: GameEvent| e@)
}

/// Moves a player by `dt` milliseconds.
pub open spec fn mover(dt: i64) -> spec_fn(PlayerStateView) -> PlayerStateView {
    |p: PlayerStateView| p.moved(dt)
}

/// Holds of the players that no bullet of `bullets` strikes.
pub open spec fn survivor(bullets: Seq<BulletState>) -> spec_fn(PlayerStateView) -> bool {
    |p: PlayerStateView| !p.struck(bullets)
}

/// Holds of the players that some bullet of `bullets` strikes.
pub open spec fn casualty(bullets: Seq<BulletState>) -> spec_fn(PlayerStateView) -> bool {
    |p: PlayerStateView| p.struck(bullets)
}

/// The event that tells of a player's death.
pub open spec fn obituary() -> spec_fn(PlayerStateView) -> GameEventView {
    |p: PlayerStateView| GameEventView::Death(p.name)
}

/// Moves a bullet by `dt` milliseconds.
pub open spec fn flier(dt: i64) -> spec_fn(BulletState) -> BulletState {
    |b: BulletState| b.moved(dt)
}

/// Holds of the bullets that strike none of `players`: no player has the
/// bullet strictly inside the player's radius.
pub open spec fn harmless(players: Seq<PlayerStateView>) -> spec_fn(BulletState) -> bool {
    |b: BulletState|
        forall|i: int|
            0 <= i < players.len() ==> !(#[trigger] players[i]).position.within(
                b.position,
                PLAYER_RADIUS_SIZE,
            )
}

/// Holds of the bullets that have not expired.
pub open spec fn lively() -> spec_fn(BulletState) -> bool {
    |b: BulletState| !b.expired()
}

impl GameStateView {
    /// The state after the tick at the time `now`. With `dt` the time since
    /// the last tick, every player moves by `dt`. A bullet, taken where it
    /// stood before the tick, strikes a player if it lies strictly inside the
    /// radius of the player where the player stands after moving. Every
    /// player whom some bullet strikes leaves, and every bullet that strikes
    /// some player leaves: where several bullets overlap one player all of
    /// them leave with the player, and a bullet that overlaps several players
    /// takes all of them. Every other bullet moves and ages by `dt`, and
    /// leaves if it has then expired. What stays keeps its order.
    pub open spec fn tick(self, now: i64) -> GameStateView {
        let dt = elapsed(self.last_time, now);
        let walked = self.players.map_values(mover(dt));
        GameStateView {
            players: walked.filter(survivor(self.bullets)),
            bullets: renumbered(
                self.bullets.filter(harmless(walked)).map_values(flier(dt)).filter(lively()),
            ),
            last_time: now,
        }
    }

    /// What the tick at the time `now` tells the clients: the death of each
    /// player whom a bullet strikes, in the order of the players.
    pub open spec fn tick_events(self, now: i64) -> Seq<GameEventView> {
        let dt = elapsed(self.last_time, now);
        self.players.map_values(mover(dt)).filter(casualty(self.bullets)).map_values(obituary())
    }
}

/// No two players of `players` share a name.
pub open spec fn distinct_names(players: Seq<PlayerStateView>) -> bool {
    forall|i: int, j: int| 0 <= i < j < players.len() ==> players[i].name != players[j].name
}

/// Filtering a sequence to which one element was added filters the element.
proof fn lemma_filter_push<A>(s: Seq<A>, x: A, pred: spec_fn(A) -> bool)
    ensures
        s.push(x).filter(pred) == if pred(x) {
            s.filter(pred).push(x)
        } else {
            s.filter(pred)
        },
{
    reveal(Seq::filter);
    assert(s.push(x).drop_last() =~= s);
}

/// A filter keeps names distinct, and keeps only players that were there.
pub(crate) proof fn lemma_filter_players(
    players: Seq<PlayerStateView>,
    pred: spec_fn(PlayerStateView) -> bool,
)
    requires
        distinct_names(players),
    ensures
        distinct_names(players.filter(pred)),
        forall|k: int|
            0 <= k < players.filter(pred).len() ==> exists|j: int|
                0 <= j < players.len() && players[j] == #[trigger] players.filter(pred)[k],
    decreases players.len(),
{
    reveal(Seq::filter);
    if players.len() > 0 {
        let front = players.drop_last();
        lemma_filter_players(front, pred);
        let kept = front.filter(pred);
        assert forall|k: int| 0 <= k < kept.len() implies exists|j: int|
            0 <= j < players.len() && players[j] == #[trigger] kept[k] by {
            let j = choose|j: int| 0 <= j < front.len() && front[j] == kept[k];
            assert(players[j] == kept[k]);
        }
        if pred(players.last()) {
            let all = kept.push(players.last());
            assert forall|k: int| 0 <= k < all.len() implies exists|j: int|
                0 <= j < players.len() && players[j] == #[trigger] all[k] by {
                if k < kept.len() {
                    let j = choose|j: int| 0 <= j < players.len() && players[j] == kept[k];
                    assert(players[j] == all[k]);
                } else {
                    assert(players[players.len() - 1] == all[k]);
                }
            }
            assert forall|a: int, b: int| 0 <= a < b < all.len() implies all[a].name
                != all[b].name by {
                if b == kept.len() {
                    let j = choose|j: int| 0 <= j < front.len() && front[j] == kept[a];
                    assert(players[j].name != players[players.len() - 1].name);
                }
            }
        }
    }
}

/// Tests whether a bullet at `at` lies strictly inside the radius of a
/// player at one of the positions `players`.
fn strikes_any(at: &Vec2, players: &Vec<Vec2>) -> (r: bool)
    ensures
        r == exists|k: int|
            0 <= k < players@.len() && (#[trigger] players@[k]).within(*at, PLAYER_RADIUS_SIZE),
{
    let mut k: usize = 0;
    while k < players.len()
        invariant
            k <= players.len(),
            forall|m: int|
                0 <= m < k ==> !(#[trigger] players@[m]).within(*at, PLAYER_RADIUS_SIZE),
        decreases players.len() - k,
    {
        if players[k].is_within(at, PLAYER_RADIUS_SIZE) {
            return true;
        }
        k += 1;
    }
    false
}

impl Clone for GameState {
    /// A snapshot of the state.
    fn clone(&self) -> (r: Self)
        ensures
            r@ == self@,
    {
        let mut players: Vec<PlayerState> = Vec::new();
        let mut i: usize = 0;
        while i < self.players.len()
            invariant
                i <= self.players.len(),
                player_views(players@) == player_views(self.players@).take(i as int),
            decreases self.players.len() - i,
        {
            let ghost copied = players@;
            let player: PlayerState = self.players[i].clone();
            players.push(player);
            assert(player_views(players@) =~= player_views(copied).push(player@));
            assert(player_views(self.players@).take(i + 1) =~= player_views(self.players@).take(
                i as int,
            ).push(player@));
            i += 1;
        }
        let mut bullets: Vec<BulletState> = Vec::new();
        let mut j: usize = 0;
        while j < self.bullets.len()
            invariant
                j <= self.bullets.len(),
                bullets@ == self.bullets@.take(j as int),
            decreases self.bullets.len() - j,
        {
            bullets.push(self.bullets[j]);
            assert(bullets@ =~= self.bullets@.take(j + 1));
            j += 1;
        }
        let state = GameState { players, bullets, last_time: self.last_time };
        assert(state@ =~= self@);
        state
    }
}

impl GameState {
    /// The tick of the lobby at the time `current_time`: advances every
    /// player and bullet by the time since the last tick, takes out the
    /// players that a bullet strikes, the bullets that strike a player and
    /// the bullets that have expired, and returns the deaths to tell the
    /// clients of; that a bullet has left is not told. A bullet is tested
    /// where it stood before the tick, against every player where the player
    /// stands after moving. What an entity asks for during a tick is done
    /// before the
    /// tick returns: nothing waits for the next tick, so nothing that was
    /// taken out is advanced again, and no place of a bullet is used after
    /// the sequence has changed.
    pub fn update(&mut self, current_time: i64) -> (events: Vec<GameEvent>)
        requires
            old(self).wf(),
        ensures
            final(self).wf(),
            final(self)@ == old(self)@.tick(current_time),
            event_views(events@) == old(self)@.tick_events(current_time),
    {
        let delta_time: i64 = span(self.last_time, current_time);
        let ghost before = self@;
        let ghost walked = before.players.map_values(mover(delta_time));

        let mut standing: Vec<PlayerState> = Vec::new();
        let mut reached: Vec<Vec2> = Vec::new();
        let mut events: Vec<GameEvent> = Vec::new();
        let mut i: usize = 0;
        while i < self.players.len()
            invariant
                i <= self.players.len(),
                self@ == before,
                walked == before.players.map_values(mover(delta_time)),
                reached@.len() == i,
                forall|k: int| 0 <= k < i ==> #[trigger] reached@[k] == walked[k].position,
                player_views(standing@) == walked.take(i as int).filter(survivor(before.bullets)),
                event_views(events@) == walked.take(i as int).filter(
                    casualty(before.bullets),
                ).map_values(obituary()),
            decreases self.players.len() - i,
        {
            let mut player: PlayerState = self.players[i].clone();
            let outcome: Option<Action> = player.update(delta_time, &self.bullets);
            reached.push(player.position);
            proof {
                assert(player@ == walked[i as int]);
                assert(walked.take(i + 1) =~= walked.take(i as int).push(walked[i as int]));
                lemma_filter_push(
                    walked.take(i as int),
                    walked[i as int],
                    survivor(before.bullets),
                );
                lemma_filter_push(
                    walked.take(i as int),
                    walked[i as int],
                    casualty(before.bullets),
                );
            }
            match outcome {
                Some(_) => {
                    let ghost told = events@;
                    let ghost fallen = walked.take(i as int).filter(casualty(before.bullets));
                    let event: GameEvent = GameEvent::Death(player.name);
                    assert(event@ == obituary()(walked[i as int]));
                    events.push(event);
                    assert(event_views(events@) =~= event_views(told).push(event@));
                    assert(walked.take(i + 1).filter(casualty(before.bullets)) == fallen.push(
                        walked[i as int],
                    ));
                    assert(fallen.push(walked[i as int]).map_values(obituary())
                        =~= fallen.map_values(obituary()).push(event@));
                },
                None => {
                    let ghost stood = standing@;
                    standing.push(player);
                    assert(player_views(standing@) =~= player_views(stood).push(
                        walked[i as int],
                    ));
                },
            }
            i += 1;
        }
        assert(walked.take(i as int) =~= walked);

        let mut flying: Vec<BulletState> = Vec::new();
        let mut j: usize = 0;
        while j < self.bullets.len()
            invariant
                j <= self.bullets.len(),
                self@ == before,
                reached@.len() == walked.len(),
                forall|k: int| 0 <= k < walked.len() ==> #[trigger] reached@[k] == walked[k].position,
                flying@ == renumbered(
                    before.bullets.take(j as int).filter(harmless(walked)).map_values(
                        flier(delta_time),
                    ).filter(lively()),
                ),
            decreases self.bullets.len() - j,
        {
            let mut bullet: BulletState = self.bullets[j];
            let ghost seen = before.bullets.take(j as int);
            let ghost kept = seen.filter(harmless(walked));
            let ghost flown = kept.map_values(flier(delta_time));
            proof {
                assert(before.bullets.take(j + 1) =~= seen.push(bullet));
                lemma_filter_push(seen, bullet, harmless(walked));
            }
            if !strikes_any(&bullet.position, &reached) {
                assert(harmless(walked)(bullet)) by {
                    assert forall|k: int| 0 <= k < walked.len() implies !(
                    #[trigger] walked[k]).position.within(bullet.position, PLAYER_RADIUS_SIZE) by {
                        assert(reached@[k] == walked[k].position);
                    }
                }
                let outcome: Option<Action> = bullet.update(delta_time);
                proof {
                    assert(kept.push(self.bullets[j as int]).map_values(flier(delta_time))
                        =~= flown.push(bullet));
                    lemma_filter_push(flown, bullet, lively());
                }
                if outcome.is_none() {
                    bullet.index = flying.len();
                    flying.push(bullet);
                    assert(flying@ =~= renumbered(
                        before.bullets.take(j + 1).filter(harmless(walked)).map_values(
                            flier(delta_time),
                        ).filter(lively()),
                    ));
                }
            } else {
                assert(!harmless(walked)(bullet)) by {
                    let k = choose|k: int|
                        0 <= k < reached@.len() && (#[trigger] reached@[k]).within(
                            bullet.position,
                            PLAYER_RADIUS_SIZE,
                        );
                    assert(reached@[k] == walked[k].position);
                }
            }
            j += 1;
        }
        assert(before.bullets.take(j as int) =~= before.bullets);

        self.players = standing;
        self.bullets = flying;
        self.last_time = current_time;
        proof {
            assert(self@ =~= before.tick(current_time));
            assert(distinct_names(walked));
            lemma_filter_players(walked, survivor(before.bullets));
        }
        events
    }
}

impl GameStateView {
    /// The state after `event` has been folded into it, or why the event is
    /// refused. A snapshot replaces the state, if it keeps the invariant.
    pub open spec fn fold(self, event: GameEventView) -> Result<GameStateView, GameError> {
        match event {
            GameEventView::AddPlayer { x, y, name } => self.joined(name, Vec2 { x, y }),
            GameEventView::Death(name) => self.killed(name),
            GameEventView::Shooting(name) => self.shot(name),
            GameEventView::UpdateAngle { angle, name } => self.turned(name, angle),
            GameEventView::UpdateVelocity { x, y, name } => self.steered(name, Vec2 { x, y }),
            GameEventView::GameStateSync(state) => if state.wf() {
                Ok(state)
            } else {
                Err(GameError::InvalidSnapshot)
            },
        }
    }
}

impl GameState {
    /// Tests the invariant of the state.
    pub fn is_wf(&self) -> (r: bool)
        ensures
            r == self.wf(),
    {
        let mut k: usize = 0;
        while k < self.bullets.len()
            invariant
                k <= self.bullets.len(),
                forall|i: int| 0 <= i < k ==> (#[trigger] self@.bullets[i]).index == i,
            decreases self.bullets.len() - k,
        {
            if self.bullets[k].index != k {
                assert(self@.bullets[k as int].index != k);
                return false;
            }
            k += 1;
        }
        let mut i: usize = 0;
        while i < self.players.len()
            invariant
                i <= self.players.len(),
                forall|a: int, b: int|
                    0 <= a < b < self.players.len() && a < i ==> self@.players[a].name
                        != self@.players[b].name,
            decreases self.players.len() - i,
        {
            let mut j: usize = i + 1;
            while j < self.players.len()
                invariant
                    i < j <= self.players.len(),
                    forall|b: int|
                        i < b < j ==> self@.players[i as int].name != (
                        #[trigger] self@.players[b]).name,
                decreases self.players.len() - j,
            {
                if self.players[i].name == self.players[j].name {
                    assert(self@.players[i as int].name == self@.players[j as int].name);
                    return false;
                }
                j += 1;
            }
            i += 1;
        }
        true
    }

    /// Sets the velocity of the player of that name. Refuses a name that is
    /// not in the lobby.
    pub fn steer(&mut self, name: &str, velocity: Vec2) -> (r: Result<(), GameError>)
        requires
            old(self).wf(),
        ensures
            final(self).wf(),
            match old(self)@.steered(name@, velocity) {
                Ok(state) => r is Ok && final(self)@ == state,
                Err(e) => r == Err::<(), GameError>(e) && final(self)@ == old(self)@,
            },
    {
        match self.find_player(name) {
            Some(i) => {
                self.players[i].velocity = velocity;
                assert(self@.players =~= old(self)@.players.update(
                    i as int,
                    PlayerStateView { velocity, ..old(self)@.players[i as int] },
                ));
                Ok(())
            },
            None => Err(GameError::UnknownPlayer),
        }
    }

    /// Sets the angle along which the player of that name faces. Refuses a
    /// name that is not in the lobby.
    pub fn turn(&mut self, name: &str, angle: Angle) -> (r: Result<(), GameError>)
        requires
            old(self).wf(),
        ensures
            final(self).wf(),
            match old(self)@.turned(name@, angle) {
                Ok(state) => r is Ok && final(self)@ == state,
                Err(e) => r == Err::<(), GameError>(e) && final(self)@ == old(self)@,
            },
    {
        match self.find_player(name) {
            Some(i) => {
                self.players[i].angle = angle;
                assert(self@.players =~= old(self)@.players.update(
                    i as int,
                    PlayerStateView { angle, ..old(self)@.players[i as int] },
                ));
                Ok(())
            },
            None => Err(GameError::UnknownPlayer),
        }
    }

    /// Lets the player of that name fire: a bullet appears at the player's
    /// position plus `Vec2::along(angle, SPAWN_DISTANCE)` and has the velocity
    /// `Vec2::along(angle, BULLET_VEL)`, for the player's angle; both
    /// coordinates take the cosine of the angle. Refuses a name that is not
    /// in the lobby.
    pub fn shoot(&mut self, name: &str) -> (r: Result<(), GameError>)
        requires
            old(self).wf(),
        ensures
            final(self).wf(),
            match old(self)@.shot(name@) {
                Ok(state) => r is Ok && final(self)@ == state,
                Err(e) => r == Err::<(), GameError>(e) && final(self)@ == old(self)@,
            },
    {
        match self.find_player(name) {
            Some(i) => {
                let angle: Angle = self.players[i].angle;
                let muzzle: Vec2 = self.players[i].position.sum(
                    &Vec2::with_angle(angle, SPAWN_DISTANCE),
                );
                assert(self@.players[i as int] == self@.player(name@));
                self.add_bullet(muzzle, Vec2::with_angle(angle, BULLET_VEL));
                Ok(())
            },
            None => Err(GameError::UnknownPlayer),
        }
    }

    /// Folds an event into the state. This is the only way by which what a
    /// client wants changes the state; an event that is refused leaves the
    /// state as it was.
    pub fn react_to_event(&mut self, event: GameEvent) -> (r: Result<(), GameError>)
        requires
            old(self).wf(),
        ensures
            final(self).wf(),
            match old(self)@.fold(event@) {
                Ok(state) => r is Ok && final(self)@ == state,
                Err(e) => r == Err::<(), GameError>(e) && final(self)@ == old(self)@,
            },
    {
        match event {
            GameEvent::AddPlayer { x, y, name } => self.add_player(name.as_str(), Vec2 { x, y }),
            GameEvent::Death(name) => self.kill_player(name.as_str()),
            GameEvent::Shooting(name) => self.shoot(name.as_str()),
            GameEvent::UpdateAngle { angle, name } => self.turn(name.as_str(), angle),
            GameEvent::UpdateVelocity { x, y, name } => self.steer(name.as_str(), Vec2 { x, y }),
            GameEvent::GameStateSync(state) => {
                if state.is_wf() {
                    *self = state;
                    Ok(())
                } else {
                    Err(GameError::InvalidSnapshot)
                }
            },
        }
    }
}

} // verus!

//! What holds of the simulation for every state and every input, stated over
//! the mathematical values of the states and proved.

use crate::entity::{BulletState, PlayerStateView, PLAYER_RADIUS_SIZE};
use crate::fixed::elapsed;
use crate::game_state::{
    casualty, flier, harmless, lemma_filter_players, lively, mover, obituary, survivor, GameError,
    GameEventView, GameStateView,
};
use crate::geometry::Vec2;
use vstd::prelude::*;

verus! {

/// Every element of a filtered sequence is an element of the sequence.
proof fn lemma_filter_members<A>(s: Seq<A>, pred: spec_fn(A) -> bool)
    ensures
        forall|k: int|
            0 <= k < s.filter(pred).len() ==> pred(#[trigger] s.filter(pred)[k]) && exists|j: int|
                0 <= j < s.len() && s[j] == s.filter(pred)[k],
    decreases s.len(),
{
    reveal(Seq::filter);
    if s.len() > 0 {
        let front = s.drop_last();
        lemma_filter_members(front, pred);
        let kept = front.filter(pred);
        assert forall|k: int| 0 <= k < s.filter(pred).len() implies pred(
            #[trigger] s.filter(pred)[k],
        ) && exists|j: int| 0 <= j < s.len() && s[j] == s.filter(pred)[k] by {
            if k < kept.len() {
                let j = choose|j: int| 0 <= j < front.len() && front[j] == kept[k];
                assert(s[j] == s.filter(pred)[k]);
            } else {
                assert(s[s.len() - 1] == s.filter(pred)[k]);
            }
        }
    }
}

/// Every element of a sequence of which the predicate holds is an element of
/// the filtered sequence.
proof fn lemma_filter_keeps<A>(s: Seq<A>, pred: spec_fn(A) -> bool, j: int)
    requires
        0 <= j < s.len(),
        pred(s[j]),
    ensures
        exists|k: int| 0 <= k < s.filter(pred).len() && s.filter(pred)[k] == s[j],
    decreases s.len(),
{
    reveal(Seq::filter);
    let front = s.drop_last();
    let kept = front.filter(pred);
    if j < s.len() - 1 {
        lemma_filter_keeps(front, pred, j);
        let k = choose|k: int| 0 <= k < kept.len() && kept[k] == front[j];
        assert(s.filter(pred)[k] == s[j]);
    } else {
        assert(s.filter(pred)[kept.len() as int] == s[j]);
    }
}

/// Linear integration: a player that moves for `dt` milliseconds at the
/// velocity `v` from the position `p` ends at `p + v * dt`, in each
/// coordinate of which that value is in the range of positions; nothing else
/// of the player changes.
pub proof fn law_player_moves_linearly(player: PlayerStateView, dt: i64)
    ensures
        i64::MIN <= player.position.x + player.velocity.x * dt <= i64::MAX ==> player.moved(
            dt,
        ).position.x == player.position.x + player.velocity.x * dt,
        i64::MIN <= player.position.y + player.velocity.y * dt <= i64::MAX ==> player.moved(
            dt,
        ).position.y == player.position.y + player.velocity.y * dt,
        player.moved(dt) == (PlayerStateView { position: player.moved(dt).position, ..player }),
{
}

/// Aging: a bullet that flies for `dt` milliseconds is then of the age
/// `age + dt`, where that value is in the range of ages, and has expired if
/// and only if that age has reached its lifetime. It moves as a player does.
pub proof fn law_bullet_ages_linearly(bullet: BulletState, dt: i64)
    ensures
        i64::MIN <= bullet.time + dt <= i64::MAX ==> {
            &&& bullet.moved(dt).time == bullet.time + dt
            &&& bullet.moved(dt).expired() <==> bullet.time + dt >= bullet.lifetime
        },
        i64::MIN <= bullet.position.x + bullet.velocity.x * dt <= i64::MAX ==> bullet.moved(
            dt,
        ).position.x == bullet.position.x + bullet.velocity.x * dt,
        i64::MIN <= bullet.position.y + bullet.velocity.y * dt <= i64::MAX ==> bullet.moved(
            dt,
        ).position.y == bullet.position.y + bullet.velocity.y * dt,
        bullet.moved(dt).velocity == bullet.velocity,
        bullet.moved(dt).lifetime == bullet.lifetime,
{
}

/// Collision is strict: a bullet strikes a player if and only if the squared
/// distance between them is less than the squared radius of a player. At a
/// squared distance equal to the squared radius the player is not struck.
pub proof fn law_collision_is_strict(player: PlayerStateView, bullet: BulletState)
    ensures
        player.struck(seq![bullet]) <==> (bullet.position.x - player.position.x) * (
        bullet.position.x - player.position.x) + (bullet.position.y - player.position.y) * (
        bullet.position.y - player.position.y) < PLAYER_RADIUS_SIZE * PLAYER_RADIUS_SIZE,
        (bullet.position.x - player.position.x) * (bullet.position.x - player.position.x) + (
        bullet.position.y - player.position.y) * (bullet.position.y - player.position.y)
            == PLAYER_RADIUS_SIZE * PLAYER_RADIUS_SIZE ==> !player.struck(seq![bullet]),
{
    let bullets = seq![bullet];
    assert(bullets[0] == bullet);
    if player.position.within(bullet.position, PLAYER_RADIUS_SIZE) {
        assert(player.position.within(bullets[0].position, PLAYER_RADIUS_SIZE));
    }
}

/// A player is struck by a sequence of bullets if and only if one of them
/// strikes it.
pub proof fn law_struck_by_some_bullet(player: PlayerStateView, bullets: Seq<BulletState>)
    ensures
        player.struck(bullets) <==> exists|i: int|
            0 <= i < bullets.len() && player.struck(seq![#[trigger] bullets[i]]),
{
    if player.struck(bullets) {
        let i = choose|i: int|
            0 <= i < bullets.len() && player.position.within(
                (#[trigger] bullets[i]).position,
                PLAYER_RADIUS_SIZE,
            );
        assert(seq![bullets[i]][0] == bullets[i]);
        assert(player.struck(seq![bullets[i]]));
    }
    if exists|i: int| 0 <= i < bullets.len() && player.struck(seq![#[trigger] bullets[i]]) {
        let i = choose|i: int| 0 <= i < bullets.len() && player.struck(seq![#[trigger] bullets[i]]);
        let one = seq![bullets[i]];
        let k = choose|k: int|
            0 <= k < one.len() && player.position.within(
                (#[trigger] one[k]).position,
                PLAYER_RADIUS_SIZE,
            );
        assert(one[k] == bullets[i]);
    }
}

/// A tick keeps the invariant of the state.
pub proof fn law_tick_keeps_invariant(state: GameStateView, now: i64)
    requires
        state.wf(),
    ensures
        state.tick(now).wf(),
{
    let dt = elapsed(state.last_time, now);
    lemma_filter_players(state.players.map_values(mover(dt)), survivor(state.bullets));
}

/// Who outlives a tick, one way: every player after the tick is a player
/// from before it, moved by the time since the last tick, whom no bullet then
/// strikes.
pub proof fn law_survivor_was_spared(state: GameStateView, now: i64, k: int)
    requires
        0 <= k < state.tick(now).players.len(),
    ensures
        !state.tick(now).players[k].struck(state.bullets),
        exists|j: int|
            0 <= j < state.players.len() && state.tick(now).players[k] == (
            #[trigger] state.players[j]).moved(elapsed(state.last_time, now)),
{
    let dt = elapsed(state.last_time, now);
    let walked = state.players.map_values(mover(dt));
    let lives = survivor(state.bullets);
    lemma_filter_members(walked, lives);
    assert(lives(walked.filter(lives)[k]));
    let j = choose|j: int| 0 <= j < walked.len() && walked[j] == walked.filter(lives)[k];
    assert(state.tick(now).players[k] == state.players[j].moved(dt));
}

/// Who outlives a tick, the other way: every player whom no bullet strikes
/// once the player has moved is in the state after the tick, moved by the
/// time since the last tick.
pub proof fn law_spared_player_stays(state: GameStateView, now: i64, j: int)
    requires
        0 <= j < state.players.len(),
        !state.players[j].moved(elapsed(state.last_time, now)).struck(state.bullets),
    ensures
        exists|k: int|
            0 <= k < state.tick(now).players.len() && #[trigger] state.tick(now).players[k]
                == state.players[j].moved(elapsed(state.last_time, now)),
{
    let dt = elapsed(state.last_time, now);
    let walked = state.players.map_values(mover(dt));
    let lives = survivor(state.bullets);
    assert(lives(walked[j]));
    lemma_filter_keeps(walked, lives, j);
    let k = choose|k: int| 0 <= k < walked.filter(lives).len() && walked.filter(lives)[k]
        == walked[j];
    assert(state.tick(now).players[k] == state.players[j].moved(dt));
}

/// Who dies in a tick, one way: a player whom a bullet strikes once the
/// player has moved is not in the state after the tick, and the tick tells of
/// that death.
pub proof fn law_struck_player_dies(state: GameStateView, now: i64, j: int)
    requires
        state.wf(),
        0 <= j < state.players.len(),
        state.players[j].moved(elapsed(state.last_time, now)).struck(state.bullets),
    ensures
        !state.tick(now).has_player(state.players[j].name),
        exists|k: int|
            0 <= k < state.tick_events(now).len() && #[trigger] state.tick_events(now)[k]
                == GameEventView::Death(state.players[j].name),
{
    let dt = elapsed(state.last_time, now);
    let walked = state.players.map_values(mover(dt));
    let falls = casualty(state.bullets);
    let lives = survivor(state.bullets);
    let fallen = walked.filter(falls);
    assert(falls(walked[j]));
    lemma_filter_keeps(walked, falls, j);
    let k = choose|k: int| 0 <= k < fallen.len() && fallen[k] == walked[j];
    assert(state.tick_events(now)[k] == obituary()(fallen[k]));
    if state.tick(now).has_player(state.players[j].name) {
        let after = state.tick(now).players;
        let m = choose|m: int|
            0 <= m < after.len() && (#[trigger] after[m]).name == state.players[j].name;
        lemma_filter_members(walked, lives);
        assert(lives(walked.filter(lives)[m]));
        let i = choose|i: int| 0 <= i < walked.len() && walked[i] == walked.filter(lives)[m];
        assert(walked[i].name == state.players[i].name);
        assert(i == j);
    }
}

/// Who dies in a tick, the other way: every death that the tick tells of is
/// that of a player whom a bullet strikes once the player has moved.
pub proof fn law_death_was_struck(state: GameStateView, now: i64, k: int)
    requires
        0 <= k < state.tick_events(now).len(),
    ensures
        exists|j: int|
            0 <= j < state.players.len() && (#[trigger] state.players[j]).moved(
                elapsed(state.last_time, now),
            ).struck(state.bullets) && state.tick_events(now)[k] == GameEventView::Death(
                state.players[j].name,
            ),
{
    let dt = elapsed(state.last_time, now);
    let walked = state.players.map_values(mover(dt));
    let falls = casualty(state.bullets);
    let fallen = walked.filter(falls);
    lemma_filter_members(walked, falls);
    assert(falls(fallen[k]));
    let j = choose|j: int| 0 <= j < walked.len() && walked[j] == fallen[k];
    assert(state.players[j].moved(dt) == fallen[k]);
    assert(state.tick_events(now)[k] == obituary()(fallen[k]));
}

/// Which bullets outlive a tick, one way: every bullet after the tick is a
/// bullet from before it that struck no player and, moved and aged by the
/// time since the last tick, has not expired; its `index` is its new place.
pub proof fn law_flying_bullet_was_harmless_and_young(state: GameStateView, now: i64, k: int)
    requires
        state.wf(),
        0 <= k < state.tick(now).bullets.len(),
    ensures
        state.tick(now).bullets[k].index == k,
        exists|j: int|
            0 <= j < state.bullets.len() && harmless(
                state.players.map_values(mover(elapsed(state.last_time, now))),
            )(#[trigger] state.bullets[j]) && !state.bullets[j].moved(
                elapsed(state.last_time, now),
            ).expired() && state.tick(now).bullets[k] == (BulletState {
                index: state.tick(now).bullets[k].index,
                ..state.bullets[j].moved(elapsed(state.last_time, now))
            }),
{
    let dt = elapsed(state.last_time, now);
    let walked = state.players.map_values(mover(dt));
    let spared = state.bullets.filter(harmless(walked));
    let flown = spared.map_values(flier(dt));
    let kept = flown.filter(lively());
    lemma_filter_members(state.bullets, harmless(walked));
    lemma_filter_members(flown, lively());
    state.bullets.lemma_filter_len(harmless(walked));
    flown.lemma_filter_len(lively());
    assert(lively()(kept[k]));
    let m = choose|m: int| 0 <= m < flown.len() && flown[m] == kept[k];
    assert(harmless(walked)(spared[m]));
    let j = choose|j: int| 0 <= j < state.bullets.len() && state.bullets[j] == spared[m];
    assert(state.bullets[j].moved(dt) == kept[k]);
}

/// Which bullets outlive a tick, the other way: every bullet that strikes no
/// player and has not expired once it has aged by the time since the last
/// tick is in the state after the tick, moved and aged by that time.
pub proof fn law_harmless_young_bullet_stays(state: GameStateView, now: i64, j: int)
    requires
        0 <= j < state.bullets.len(),
        harmless(state.players.map_values(mover(elapsed(state.last_time, now))))(state.bullets[j]),
        !state.bullets[j].moved(elapsed(state.last_time, now)).expired(),
    ensures
        exists|k: int|
            0 <= k < state.tick(now).bullets.len() && #[trigger] state.tick(now).bullets[k] == (
            BulletState {
                index: state.tick(now).bullets[k].index,
                ..state.bullets[j].moved(elapsed(state.last_time, now))
            }),
{
    let dt = elapsed(state.last_time, now);
    let walked = state.players.map_values(mover(dt));
    let spared = state.bullets.filter(harmless(walked));
    let flown = spared.map_values(flier(dt));
    let kept = flown.filter(lively());
    lemma_filter_keeps(state.bullets, harmless(walked), j);
    let m = choose|m: int| 0 <= m < spared.len() && spared[m] == state.bullets[j];
    assert(lively()(flown[m]));
    lemma_filter_keeps(flown, lively(), m);
    let k = choose|k: int| 0 <= k < kept.len() && kept[k] == flown[m];
    assert(state.tick(now).bullets[k] == (BulletState {
        index: state.tick(now).bullets[k].index,
        ..state.bullets[j].moved(dt)
    }));
}

/// A bullet that strikes a player leaves with the tick: the bullets after the
/// tick are those that the tick would leave had that bullet not been in
/// flight, and they are fewer than the bullets before the tick. The player
/// it strikes is struck, and so dies in the same tick.
pub proof fn law_striking_bullet_leaves(state: GameStateView, now: i64, j: int, i: int)
    requires
        0 <= j < state.bullets.len(),
        0 <= i < state.players.len(),
        state.players[i].moved(elapsed(state.last_time, now)).position.within(
            state.bullets[j].position,
            PLAYER_RADIUS_SIZE,
        ),
    ensures
        state.tick(now).bullets == (GameStateView {
            bullets: state.bullets.remove(j),
            ..state
        }).tick(now).bullets,
        state.tick(now).bullets.len() < state.bullets.len(),
        state.players[i].moved(elapsed(state.last_time, now)).struck(state.bullets),
{
    let dt = elapsed(state.last_time, now);
    let walked = state.players.map_values(mover(dt));
    let spares = harmless(walked);
    let front = state.bullets.take(j);
    let back = state.bullets.skip(j + 1);
    let one = seq![state.bullets[j]];
    assert(walked[i].position.within(state.bullets[j].position, PLAYER_RADIUS_SIZE));
    assert(!spares(state.bullets[j]));
    assert(one.filter(spares).len() == 0) by {
        lemma_filter_members(one, spares);
        if one.filter(spares).len() > 0 {
            let m = choose|m: int| 0 <= m < one.len() && one[m] == one.filter(spares)[0];
            assert(one[m] == state.bullets[j]);
        }
    }
    assert(state.bullets =~= front + one + back);
    assert(state.bullets.remove(j) =~= front + back);
    Seq::filter_distributes_over_add(front + one, back, spares);
    Seq::filter_distributes_over_add(front, one, spares);
    Seq::filter_distributes_over_add(front, back, spares);
    assert(front.filter(spares) + one.filter(spares) =~= front.filter(spares));
    assert(state.bullets.filter(spares) == state.bullets.remove(j).filter(spares));
    let rest = state.bullets.remove(j);
    rest.lemma_filter_len(spares);
    rest.filter(spares).map_values(flier(dt)).lemma_filter_len(lively());
}

/// Setting a velocity is idempotent: where the state accepts a change of
/// velocity, the player then has that velocity, and folding the same change
/// a second time leaves the state as the first left it.
pub proof fn law_update_velocity_is_idempotent(
    state: GameStateView,
    name: Seq<char>,
    x: i64,
    y: i64,
)
    requires
        state.wf(),
    ensures
        state.fold(GameEventView::UpdateVelocity { x, y, name }) matches Ok(once) ==> {
            &&& once.player(name).velocity == Vec2 { x, y }
            &&& once.fold(GameEventView::UpdateVelocity { x, y, name }) == Ok::<
                GameStateView,
                GameError,
            >(once)
        },
{
    if state.has_player(name) {
        let i = state.index_of(name);
        let velocity = Vec2 { x, y };
        let once = state.steered(name, velocity)->Ok_0;
        assert(once.players[i].name == name);
        assert(once.has_player(name));
        let j = once.index_of(name);
        assert(once.players[j].name == state.players[j].name);
        assert(i == j);
        assert(once.players.update(j, PlayerStateView { velocity, ..once.players[j] })
            =~= once.players);
        assert(once.steered(name, velocity)->Ok_0 =~= once);
    }
}

} // verus!

//! What holds of every match and every state, proved over the transition
//! functions that the operations are specified by.

use vstd::prelude::*;
use crate::game::improved;
use crate::inputs::expected_inputs;
use crate::state::{expiry, Notice, State};
use crate::types::{Address, Error, Game, GameStatus, MAX_TURNS, NO_DISTANCE};

verus! {

/// A ping as a caller submits it at ledger `now`.
pub struct PingCall {
    pub now: u32,
    pub player: Address,
    pub turn: u32,
    pub distance: u32,
    pub ping_x: u32,
    pub ping_y: u32,
    pub public_inputs: Seq<Seq<u8>>,
}

/// The match after the distances of these pings were recorded one after another.
pub open spec fn after_pings(game: Game, calls: Seq<PingCall>) -> Game
    decreases calls.len(),
{
    if calls.len() == 0 {
        game
    } else {
        after_pings(game, calls.drop_last()).after_ping(calls.last().distance, calls.last().now)
    }
}

/// The smallest of the distances at the turns of one parity (0 for player1,
/// 1 for player2), or the unset mark if there is none.
pub open spec fn best_of(calls: Seq<PingCall>, parity: int) -> u32
    decreases calls.len(),
{
    if calls.len() == 0 {
        NO_DISTANCE
    } else {
        let earlier = best_of(calls.drop_last(), parity);
        if (calls.len() - 1) % 2 == parity {
            improved(earlier, calls.last().distance)
        } else {
            earlier
        }
    }
}

/// The state after these pings were submitted for session `id`, one after
/// another, each with a proof that verifies.
pub open spec fn after_calls(state: State, id: u32, calls: Seq<PingCall>) -> State
    decreases calls.len(),
{
    if calls.len() == 0 {
        state
    } else {
        let call = calls.last();
        after_calls(state, id, calls.drop_last()).submit_ping(
            call.now,
            id,
            call.player,
            call.turn,
            call.distance,
            call.ping_x,
            call.ping_y,
            call.public_inputs,
            true,
        ).1
    }
}

/// Whether each of these pings is accepted when its turn comes.
pub open spec fn all_accepted(state: State, id: u32, calls: Seq<PingCall>) -> bool
    decreases calls.len(),
{
    if calls.len() == 0 {
        true
    } else {
        let call = calls.last();
        &&& all_accepted(state, id, calls.drop_last())
        &&& after_calls(state, id, calls.drop_last()).submit_ping(
            call.now,
            id,
            call.player,
            call.turn,
            call.distance,
            call.ping_x,
            call.ping_y,
            call.public_inputs,
            true,
        ).0 is Ok
    }
}

/// Whether `a` and `b` hold the same lobby and the same match under `id`, or
/// none.
pub open spec fn same_session(a: State, b: State, id: u32) -> bool {
    &&& a.games.contains_key(id) == b.games.contains_key(id)
    &&& a.games.contains_key(id) ==> a.games[id] == b.games[id]
    &&& a.lobbies.contains_key(id) == b.lobbies.contains_key(id)
    &&& a.lobbies.contains_key(id) ==> a.lobbies[id] == b.lobbies[id]
}

/// Whether `a` and `b` differ at most in the session `id` and in the outbox.
pub open spec fn same_elsewhere(a: State, b: State, id: u32) -> bool {
    &&& forall|other: u32| other != id ==> same_session(a, b, other)
    &&& a.address == b.address
    &&& a.admin == b.admin
    &&& a.game_hub == b.game_hub
    &&& a.verifier_id == b.verifier_id
    &&& a.randomness_verifier_id == b.randomness_verifier_id
}

/// The notices that `after` holds beyond those of `before`.
pub open spec fn new_notices(before: State, after: State) -> Seq<Notice> {
    after.outbox.skip(before.outbox.len() as int)
}

/// A match that is well formed stays so under every accepted ping.
pub proof fn law_ping_keeps_match_well_formed(
    game: Game,
    session_id: u32,
    player: Address,
    turn: u32,
    distance: u32,
    ping_x: u32,
    ping_y: u32,
    public_inputs: Seq<Seq<u8>>,
    now: u32,
)
    requires
        game.wf(),
        game.ping_check(session_id, player, turn, distance, ping_x, ping_y, public_inputs) is Ok,
    ensures
        game.after_ping(distance, now).wf(),
{
}

/// An accepted ping that does not end the match moves the turn on by one and
/// hands the move to the other player; one that ends it names a winner.
pub proof fn law_ping_advances_turn(
    game: Game,
    session_id: u32,
    player: Address,
    turn: u32,
    distance: u32,
    ping_x: u32,
    ping_y: u32,
    public_inputs: Seq<Seq<u8>>,
    now: u32,
)
    requires
        game.wf(),
        game.ping_check(session_id, player, turn, distance, ping_x, ping_y, public_inputs) is Ok,
    ensures
        ({
            let after = game.after_ping(distance, now);
            &&& after.status == GameStatus::Active ==> {
                &&& after.current_turn == game.current_turn + 1
                &&& after.mover() != game.mover()
                &&& after.mover() != player
                &&& after.winner is None
            }
            &&& after.status != GameStatus::Active ==> {
                &&& after.status == GameStatus::Completed
                &&& after.winner is Some
                &&& distance == 0 || after.current_turn == MAX_TURNS
            }
        }),
{
}

/// A proven distance of 0 ends the match at once in the caller's favour,
/// whatever the turn.
pub proof fn law_distance_zero_wins(
    game: Game,
    session_id: u32,
    player: Address,
    turn: u32,
    ping_x: u32,
    ping_y: u32,
    public_inputs: Seq<Seq<u8>>,
    now: u32,
)
    requires
        game.ping_check(session_id, player, turn, 0, ping_x, ping_y, public_inputs) is Ok,
    ensures
        game.after_ping(0, now).winner == Some(player),
        game.after_ping(0, now).status == GameStatus::Completed,
        game.after_ping(0, now).current_turn == game.current_turn,
{
}

/// While fewer than `MAX_TURNS` distances above 0 were recorded in a fresh
/// match, it is active and at the turn that counts them; the one that
/// reaches `MAX_TURNS` completes it.
pub proof fn law_match_runs_until_cap(game: Game, calls: Seq<PingCall>)
    requires
        game.status == GameStatus::Active,
        game.winner is None,
        game.current_turn == 0,
        game.whose_turn == 1,
        game.player1_best_distance == NO_DISTANCE,
        game.player2_best_distance == NO_DISTANCE,
        calls.len() <= MAX_TURNS,
        forall|i: int| 0 <= i < calls.len() ==> calls[i].distance != 0,
    ensures
        ({
            let now = after_pings(game, calls);
            &&& now.current_turn == calls.len()
            &&& now.whose_turn == (if calls.len() % 2 == 0 {
                1u32
            } else {
                2u32
            })
            &&& now.player1 == game.player1
            &&& now.player2 == game.player2
            &&& now.player1_best_distance == best_of(calls, 0)
            &&& now.player2_best_distance == best_of(calls, 1)
            &&& calls.len() < MAX_TURNS ==> now.status == GameStatus::Active && now.winner is None
            &&& calls.len() == MAX_TURNS ==> now.status == GameStatus::Completed && now.winner
                == Some(now.closest())
        }),
    decreases calls.len(),
{
    if calls.len() > 0 {
        law_match_runs_until_cap(game, calls.drop_last());
    }
}

/// Accepted pings do to the stored match what `after_pings` says.
pub proof fn law_accepted_pings_are_recorded(state: State, id: u32, calls: Seq<PingCall>)
    requires
        state.games.contains_key(id),
        all_accepted(state, id, calls),
    ensures
        after_calls(state, id, calls).games.contains_key(id),
        after_calls(state, id, calls).games[id].value == after_pings(
            state.games[id].value,
            calls,
        ),
    decreases calls.len(),
{
    if calls.len() > 0 {
        law_accepted_pings_are_recorded(state, id, calls.drop_last());
    }
}

/// After exactly `MAX_TURNS` accepted pings in a match, none of them at
/// distance 0, the match is completed and won by the player with the
/// strictly smaller best distance, player1 if they are level.
pub proof fn law_cap_decides_by_distance(
    state: State,
    id: u32,
    player1: Address,
    player2: Address,
    player1_points: i128,
    player2_points: i128,
    drop_commitment: [u8; 32],
    started: u32,
    calls: Seq<PingCall>,
)
    requires
        state.games.contains_key(id),
        state.games[id].value == Game::created(
            player1,
            player2,
            player1_points,
            player2_points,
            drop_commitment,
            started,
        ),
        calls.len() == MAX_TURNS,
        all_accepted(state, id, calls),
        forall|i: int| 0 <= i < calls.len() ==> calls[i].distance != 0,
    ensures
        ({
            let end = after_calls(state, id, calls).games[id].value;
            &&& after_calls(state, id, calls).games.contains_key(id)
            &&& end.status == GameStatus::Completed
            &&& end.player1_best_distance == best_of(calls, 0)
            &&& end.player2_best_distance == best_of(calls, 1)
            &&& end.winner == Some(
                if best_of(calls, 1) < best_of(calls, 0) {
                    player2
                } else {
                    player1
                },
            )
        }),
{
    law_accepted_pings_are_recorded(state, id, calls);
    law_match_runs_until_cap(state.games[id].value, calls);
}

/// The best distance of a parity is no larger than any distance proven at a
/// turn of that parity, and it is one of them unless there is none.
pub proof fn law_best_is_smallest(calls: Seq<PingCall>, parity: int)
    requires
        parity == 0 || parity == 1,
    ensures
        forall|i: int|
            0 <= i < calls.len() && i % 2 == parity ==> best_of(calls, parity)
                <= (#[trigger] calls[i]).distance,
        best_of(calls, parity) == NO_DISTANCE || exists|i: int|
            0 <= i < calls.len() && i % 2 == parity && best_of(calls, parity)
                == (#[trigger] calls[i]).distance,
    decreases calls.len(),
{
    if calls.len() > 0 {
        let earlier = calls.drop_last();
        law_best_is_smallest(earlier, parity);
        assert forall|i: int| 0 <= i < calls.len() && i % 2 == parity implies best_of(
            calls,
            parity,
        ) <= (#[trigger] calls[i]).distance by {
            if i < earlier.len() {
                assert(earlier[i] == calls[i]);
            }
        }
        if best_of(calls, parity) != NO_DISTANCE {
            if (calls.len() - 1) % 2 == parity && best_of(calls, parity) == calls.last().distance {
                assert(calls[calls.len() - 1] == calls.last());
            } else {
                let i = choose|i: int|
                    0 <= i < earlier.len() && i % 2 == parity && best_of(earlier, parity)
                        == (#[trigger] earlier[i]).distance;
                assert(earlier[i] == calls[i]);
            }
        }
    }
}

/// A ping whose submitted vector differs from the expected one, and which is
/// otherwise in order, is refused for its public inputs and changes nothing,
/// whatever the proof verifier would say.
pub proof fn law_wrong_inputs_refused(
    state: State,
    now: u32,
    id: u32,
    player: Address,
    turn: u32,
    distance: u32,
    ping_x: u32,
    ping_y: u32,
    public_inputs: Seq<Seq<u8>>,
    proven: bool,
)
    requires
        state.game(id, now) matches Some(game) && public_inputs != expected_inputs(
            id,
            turn,
            ping_x,
            ping_y,
            game.drop_commitment@,
            distance,
        ) && state.ping_check(
            now,
            id,
            player,
            turn,
            distance,
            ping_x,
            ping_y,
            expected_inputs(id, turn, ping_x, ping_y, game.drop_commitment@, distance),
        ) is Ok,
    ensures
        state.submit_ping(now, id, player, turn, distance, ping_x, ping_y, public_inputs, proven)
            == (Err::<Option<Address>, Error>(Error::InvalidPublicInputs), state),
{
}

/// Whatever is wrong with a ping, it changes nothing.
pub proof fn law_refused_ping_changes_nothing(
    state: State,
    now: u32,
    id: u32,
    player: Address,
    turn: u32,
    distance: u32,
    ping_x: u32,
    ping_y: u32,
    public_inputs: Seq<Seq<u8>>,
    proven: bool,
)
    ensures
        ({
            let (result, next) = state.submit_ping(
                now,
                id,
                player,
                turn,
                distance,
                ping_x,
                ping_y,
                public_inputs,
                proven,
            );
            result is Err ==> next == state
        }),
{
}

/// Before the timeout window has elapsed a claim fails and changes nothing.
pub proof fn law_early_timeout_fails(state: State, now: u32, id: u32, player: Address)
    requires
        state.game(id, now) matches Some(game) ==> !game.timed_out(now),
    ensures
        state.force_timeout(now, id, player).0 is Err,
        state.force_timeout(now, id, player).1 == state,
{
}

/// Once the window has elapsed, a participant's claim on an unfinished match
/// makes the claimant the winner.
pub proof fn law_late_timeout_awards_caller(state: State, now: u32, id: u32, player: Address)
    requires
        state.game(id, now) matches Some(game) && game.timed_out(now) && game.winner is None && (
        player == game.player1 || player == game.player2),
    ensures
        ({
            let (result, next) = state.force_timeout(now, id, player);
            &&& result == Ok::<Address, Error>(player)
            &&& next.game(id, now) matches Some(game) && game.winner == Some(player) && game.status
                == GameStatus::Timeout
        }),
{
}

/// Once a match has a winner, it refuses every ping and every timeout claim:
/// the winner is set once.
pub proof fn law_winner_is_final(
    state: State,
    now: u32,
    id: u32,
    player: Address,
    turn: u32,
    distance: u32,
    ping_x: u32,
    ping_y: u32,
    public_inputs: Seq<Seq<u8>>,
    proven: bool,
)
    requires
        state.game(id, now) matches Some(game) && game.winner is Some,
    ensures
        state.submit_ping(now, id, player, turn, distance, ping_x, ping_y, public_inputs, proven)
            == (Err::<Option<Address>, Error>(Error::GameAlreadyEnded), state),
        state.force_timeout(now, id, player) == (
            Err::<Address, Error>(Error::GameAlreadyEnded),
            state,
        ),
{
}

/// No two pings for the same turn are both accepted: after an accepted
/// ping, the same turn is refused.
pub proof fn law_turn_is_used_once(
    state: State,
    now: u32,
    id: u32,
    player: Address,
    turn: u32,
    distance: u32,
    ping_x: u32,
    ping_y: u32,
    public_inputs: Seq<Seq<u8>>,
    later: u32,
    again_player: Address,
    again_distance: u32,
    again_x: u32,
    again_y: u32,
    again_inputs: Seq<Seq<u8>>,
    again_proven: bool,
)
    requires
        state.submit_ping(now, id, player, turn, distance, ping_x, ping_y, public_inputs, true).0
            is Ok,
    ensures
        state.submit_ping(
            now,
            id,
            player,
            turn,
            distance,
            ping_x,
            ping_y,
            public_inputs,
            true,
        ).1.submit_ping(
            later,
            id,
            again_player,
            turn,
            again_distance,
            again_x,
            again_y,
            again_inputs,
            again_proven,
        ).0 is Err,
{
}

/// The players, their stakes and the drop commitment of a match never change.
pub proof fn law_terms_are_fixed(game: Game, player: Address, distance: u32, now: u32)
    ensures
        ({
            let pinged = game.after_ping(distance, now);
            let claimed = game.after_timeout(player, now);
            &&& pinged.player1 == game.player1 && claimed.player1 == game.player1
            &&& pinged.player2 == game.player2 && claimed.player2 == game.player2
            &&& pinged.player1_points == game.player1_points && claimed.player1_points
                == game.player1_points
            &&& pinged.player2_points == game.player2_points && claimed.player2_points
                == game.player2_points
            &&& pinged.drop_commitment == game.drop_commitment && claimed.drop_commitment
                == game.drop_commitment
        }),
{
}

/// Every operation keeps the state well formed.
pub proof fn law_state_stays_well_formed(
    state: State,
    now: u32,
    id: u32,
    player1: Address,
    player2: Address,
    player1_points: i128,
    player2_points: i128,
    drop_commitment: [u8; 32],
    turn: u32,
    distance: u32,
    ping_x: u32,
    ping_y: u32,
    public_inputs: Seq<Seq<u8>>,
    verdict: bool,
)
    requires
        state.wf(),
    ensures
        state.open_game(now, id, player1, player1_points).1.wf(),
        state.start_game(
            now,
            id,
            player1,
            player2,
            player1_points,
            player2_points,
            drop_commitment,
            verdict,
        ).1.wf(),
        state.join_game(now, id, player2, player2_points, drop_commitment, verdict).1.wf(),
        state.submit_ping(
            now,
            id,
            player1,
            turn,
            distance,
            ping_x,
            ping_y,
            public_inputs,
            verdict,
        ).1.wf(),
        state.force_timeout(now, id, player1).1.wf(),
{
}

/// No operation on one session changes what is held under another.
pub proof fn law_sessions_are_untouched(
    state: State,
    now: u32,
    id: u32,
    player1: Address,
    player2: Address,
    player1_points: i128,
    player2_points: i128,
    drop_commitment: [u8; 32],
    turn: u32,
    distance: u32,
    ping_x: u32,
    ping_y: u32,
    public_inputs: Seq<Seq<u8>>,
    verdict: bool,
)
    ensures
        same_elsewhere(state, state.open_game(now, id, player1, player1_points).1, id),
        same_elsewhere(
            state,
            state.start_game(
                now,
                id,
                player1,
                player2,
                player1_points,
                player2_points,
                drop_commitment,
                verdict,
            ).1,
            id,
        ),
        same_elsewhere(
            state,
            state.join_game(now, id, player2, player2_points, drop_commitment, verdict).1,
            id,
        ),
        same_elsewhere(
            state,
            state.submit_ping(
                now,
                id,
                player1,
                turn,
                distance,
                ping_x,
                ping_y,
                public_inputs,
                verdict,
            ).1,
            id,
        ),
        same_elsewhere(state, state.force_timeout(now, id, player1).1, id),
{
}

/// No operation on one session looks at another: from two states that agree
/// on the session and on the contract's own address, it gives the same
/// result, leaves the session the same, and sends the same notices.
pub proof fn law_sessions_are_unobserved(
    a: State,
    b: State,
    now: u32,
    id: u32,
    player1: Address,
    player2: Address,
    player1_points: i128,
    player2_points: i128,
    drop_commitment: [u8; 32],
    turn: u32,
    distance: u32,
    ping_x: u32,
    ping_y: u32,
    public_inputs: Seq<Seq<u8>>,
    verdict: bool,
)
    requires
        same_session(a, b, id),
        a.address == b.address,
    ensures
        ({
            let (ra, na) = a.open_game(now, id, player1, player1_points);
            let (rb, nb) = b.open_game(now, id, player1, player1_points);
            ra == rb && same_session(na, nb, id) && new_notices(a, na) == new_notices(b, nb)
        }),
        ({
            let (ra, na) = a.start_game(
                now,
                id,
                player1,
                player2,
                player1_points,
                player2_points,
                drop_commitment,
                verdict,
            );
            let (rb, nb) = b.start_game(
                now,
                id,
                player1,
                player2,
                player1_points,
                player2_points,
                drop_commitment,
                verdict,
            );
            ra == rb && same_session(na, nb, id) && new_notices(a, na) == new_notices(b, nb)
        }),
        ({
            let (ra, na) = a.join_game(now, id, player2, player2_points, drop_commitment, verdict);
            let (rb, nb) = b.join_game(now, id, player2, player2_points, drop_commitment, verdict);
            ra == rb && same_session(na, nb, id) && new_notices(a, na) == new_notices(b, nb)
        }),
        ({
            let (ra, na) = a.submit_ping(
                now,
                id,
                player1,
                turn,
                distance,
                ping_x,
                ping_y,
                public_inputs,
                verdict,
            );
            let (rb, nb) = b.submit_ping(
                now,
                id,
                player1,
                turn,
                distance,
                ping_x,
                ping_y,
                public_inputs,
                verdict,
            );
            ra == rb && same_session(na, nb, id) && new_notices(a, na) == new_notices(b, nb)
        }),
        ({
            let (ra, na) = a.force_timeout(now, id, player1);
            let (rb, nb) = b.force_timeout(now, id, player1);
            ra == rb && same_session(na, nb, id) && new_notices(a, na) == new_notices(b, nb)
        }),
{
}

/// Every operation that succeeds leaves what it wrote under the session
/// readable for a full window from the ledger it ran at, and a lobby that
/// was joined is gone.
pub proof fn law_success_refreshes_entry(
    state: State,
    now: u32,
    later: u32,
    id: u32,
    player1: Address,
    player2: Address,
    player1_points: i128,
    player2_points: i128,
    drop_commitment: [u8; 32],
    turn: u32,
    distance: u32,
    ping_x: u32,
    ping_y: u32,
    public_inputs: Seq<Seq<u8>>,
    verdict: bool,
)
    requires
        now <= later <= expiry(now),
    ensures
        ({
            let (result, next) = state.open_game(now, id, player1, player1_points);
            result is Ok ==> next.lobby(id, later) is Some && next.game(id, later) is None
                && next.lobbies[id].live_until == expiry(now)
        }),
        ({
            let (result, next) = state.start_game(
                now,
                id,
                player1,
                player2,
                player1_points,
                player2_points,
                drop_commitment,
                verdict,
            );
            result is Ok ==> next.game(id, later) is Some && next.lobby(id, later) is None
                && next.games[id].live_until == expiry(now)
        }),
        ({
            let (result, next) = state.join_game(
                now,
                id,
                player2,
                player2_points,
                drop_commitment,
                verdict,
            );
            result is Ok ==> next.game(id, later) is Some && next.lobby(id, later) is None
                && next.games[id].live_until == expiry(now)
        }),
        ({
            let (result, next) = state.submit_ping(
                now,
                id,
                player1,
                turn,
                distance,
                ping_x,
                ping_y,
                public_inputs,
                verdict,
            );
            result is Ok ==> next.game(id, later) is Some && next.games[id].live_until == expiry(
                now,
            )
        }),
        ({
            let (result, next) = state.force_timeout(now, id, player1);
            result is Ok ==> next.game(id, later) is Some && next.games[id].live_until == expiry(
                now,
            )
        }),
{
}

/// What each operation tells the outside: a start or a join that succeeds
/// tells the hub of the new match; an accepted ping is announced, and if it
/// ends the match the hub is told who won, after the announcement; a timeout
/// that is granted tells the hub who won; an operation that fails tells
/// nobody. Opening a lobby tells nobody either.
pub proof fn law_what_is_told(
    state: State,
    now: u32,
    id: u32,
    player1: Address,
    player2: Address,
    player1_points: i128,
    player2_points: i128,
    drop_commitment: [u8; 32],
    turn: u32,
    distance: u32,
    ping_x: u32,
    ping_y: u32,
    public_inputs: Seq<Seq<u8>>,
    verdict: bool,
)
    ensures
        new_notices(state, state.open_game(now, id, player1, player1_points).1) == Seq::<
            Notice,
        >::empty(),
        ({
            let (result, next) = state.start_game(
                now,
                id,
                player1,
                player2,
                player1_points,
                player2_points,
                drop_commitment,
                verdict,
            );
            new_notices(state, next) == if result is Ok {
                seq![
                    Notice::GameStarted {
                        game_id: state.address,
                        session_id: id,
                        player1,
                        player2,
                        player1_points,
                        player2_points,
                    },
                ]
            } else {
                Seq::<Notice>::empty()
            }
        }),
        ({
            let (result, next) = state.join_game(
                now,
                id,
                player2,
                player2_points,
                drop_commitment,
                verdict,
            );
            new_notices(state, next) == if result is Ok {
                seq![
                    Notice::GameStarted {
                        game_id: state.address,
                        session_id: id,
                        player1: state.lobbies[id].value.host,
                        player2,
                        player1_points: state.lobbies[id].value.host_points,
                        player2_points,
                    },
                ]
            } else {
                Seq::<Notice>::empty()
            }
        }),
        ({
            let (result, next) = state.submit_ping(
                now,
                id,
                player1,
                turn,
                distance,
                ping_x,
                ping_y,
                public_inputs,
                verdict,
            );
            let ping = Notice::Ping {
                session_id: id,
                player: player1,
                turn,
                distance,
                ping_x,
                ping_y,
            };
            new_notices(state, next) == match result {
                Err(_) => Seq::<Notice>::empty(),
                Ok(None) => seq![ping],
                Ok(Some(winner)) => seq![
                    ping,
                    Notice::GameEnded {
                        session_id: id,
                        player1_won: winner == state.games[id].value.player1,
                    },
                ],
            }
        }),
        ({
            let (result, next) = state.force_timeout(now, id, player1);
            new_notices(state, next) == if result is Ok {
                seq![
                    Notice::GameEnded {
                        session_id: id,
                        player1_won: player1 == state.games[id].value.player1,
                    },
                ]
            } else {
                Seq::<Notice>::empty()
            }
        }),
{
}

} // verus!

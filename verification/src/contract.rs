//! The contract itself: configuration, the session store, and the operations
//! that callers reach.
//!
//! Callers are expected to have authenticated the acting identity before they
//! call in; the ledger sequence is passed as `now`.

use std::collections::HashMap;
use vstd::prelude::*;
use crate::delegates::{
    attested, proof_answer, proven, randomness_answer, verify_proof, verify_randomness, Invocation,
    ProofVerifier, RandomnessVerifier,
};
use crate::inputs::{elements, expected_inputs};
use crate::state::{expiry, Notice, State, Stored};
use crate::types::{Address, DataKey, Error, Game, GameStatus, Lobby, GAME_TTL_LEDGERS};

verus! {

broadcast use vstd::std_specs::hash::group_hash_axioms;

/// The ledger up to which an entry written at `now` stays alive.
pub fn expiry_at(now: u32) -> (until: u32)
    ensures
        until == expiry(now),
{
    if now > u32::MAX - GAME_TTL_LEDGERS {
        u32::MAX
    } else {
        now + GAME_TTL_LEDGERS
    }
}

/// A deployed contract: who administers it, whom it talks to, and every
/// lobby and match it holds.
pub struct DeadDropContract {
    address: Address,
    admin: Address,
    game_hub: Address,
    verifier_id: Address,
    randomness_verifier_id: Address,
    games: HashMap<u32, Stored<Game>>,
    lobbies: HashMap<u32, Stored<Lobby>>,
    outbox: Vec<Notice>,
}

impl View for DeadDropContract {
    type V = State;

    closed spec fn view(&self) -> State {
        State {
            address: self.address,
            admin: self.admin,
            game_hub: self.game_hub,
            verifier_id: self.verifier_id,
            randomness_verifier_id: self.randomness_verifier_id,
            games: self.games@,
            lobbies: self.lobbies@,
            outbox: self.outbox@,
        }
    }
}

impl DeadDropContract {
    /// Whether the contract's state is well formed.
    pub open spec fn wf(&self) -> bool {
        self@.wf()
    }

    /// Sets the contract up with no lobby and no match.
    pub fn new(
        address: Address,
        admin: Address,
        game_hub: Address,
        verifier_id: Address,
        randomness_verifier_id: Address,
    ) -> (contract: DeadDropContract)
        ensures
            contract@ == State::initial(
                address,
                admin,
                game_hub,
                verifier_id,
                randomness_verifier_id,
            ),
            contract.wf(),
    {
        let contract = DeadDropContract {
            address,
            admin,
            game_hub,
            verifier_id,
            randomness_verifier_id,
            games: HashMap::new(),
            lobbies: HashMap::new(),
            outbox: Vec::new(),
        };
        assert(contract@.outbox =~= Seq::empty());
        contract
    }

    fn live_game(&self, session_id: u32, now: u32) -> (found: Option<Game>)
        ensures
            found == self@.game(session_id, now),
    {
        match self.games.get(&session_id) {
            Some(stored) => if now <= stored.live_until {
                Some(stored.value)
            } else {
                None
            },
            None => None,
        }
    }

    fn live_lobby(&self, session_id: u32, now: u32) -> (found: Option<Lobby>)
        ensures
            found == self@.lobby(session_id, now),
    {
        match self.lobbies.get(&session_id) {
            Some(stored) => if now <= stored.live_until {
                Some(stored.value)
            } else {
                None
            },
            None => None,
        }
    }

    /// Files `game` under `session_id`, alive for a full window from `now`,
    /// in place of whatever was there. This is the store itself: it asks no
    /// question about the match.
    pub fn set_game(&mut self, now: u32, session_id: u32, game: Game)
        ensures
            final(self)@ == old(self)@.with_game(session_id, game, now),
            old(self).wf() && game.wf() ==> final(self).wf(),
    {
        self.games.insert(session_id, Stored { value: game, live_until: expiry_at(now) });
        self.lobbies.remove(&session_id);
    }

    /// Files `lobby` under `session_id`, alive for a full window from `now`,
    /// in place of whatever was there.
    pub fn set_lobby(&mut self, now: u32, session_id: u32, lobby: Lobby)
        ensures
            final(self)@ == old(self)@.with_lobby(session_id, lobby, now),
            old(self).wf() && lobby.host_points > 0 ==> final(self).wf(),
    {
        self.lobbies.insert(session_id, Stored { value: lobby, live_until: expiry_at(now) });
        self.games.remove(&session_id);
    }

    fn notify(&mut self, notice: Notice)
        ensures
            final(self)@ == old(self)@.notifying(notice),
    {
        self.outbox.push(notice);
    }

    /// Whether storage holds a readable entry under `key` at ledger `now`.
    /// The configuration entries are always there.
    pub fn has(&self, now: u32, key: &DataKey) -> (present: bool)
        ensures
            present == match *key {
                DataKey::Game(id) => self@.game(id, now) is Some,
                DataKey::Lobby(id) => self@.lobby(id, now) is Some,
                _ => true,
            },
    {
        match *key {
            DataKey::Game(id) => self.live_game(id, now).is_some(),
            DataKey::Lobby(id) => self.live_lobby(id, now).is_some(),
            _ => true,
        }
    }

    /// The match filed under `session_id`.
    pub fn get_game(&self, now: u32, session_id: u32) -> (found: Result<Game, Error>)
        ensures
            found == match self@.game(session_id, now) {
                Some(game) => Ok::<Game, Error>(game),
                None => Err(Error::GameNotFound),
            },
    {
        match self.live_game(session_id, now) {
            Some(game) => Ok(game),
            None => Err(Error::GameNotFound),
        }
    }

    /// The lobby filed under `session_id`.
    pub fn get_lobby(&self, now: u32, session_id: u32) -> (found: Result<Lobby, Error>)
        ensures
            found == match self@.lobby(session_id, now) {
                Some(lobby) => Ok::<Lobby, Error>(lobby),
                None => Err(Error::LobbyNotFound),
            },
    {
        match self.live_lobby(session_id, now) {
            Some(lobby) => Ok(lobby),
            None => Err(Error::LobbyNotFound),
        }
    }

    /// Validates the opening of a lobby, without changing anything.
    pub fn check_open(&self, now: u32, session_id: u32, host_points: i128) -> (checked: Result<
        (),
        Error,
    >)
        ensures
            checked == self@.open_check(now, session_id, host_points),
    {
        if host_points <= 0 {
            return Err(Error::InvalidDistance);
        }
        if self.live_lobby(session_id, now).is_some() {
            return Err(Error::LobbyAlreadyExists);
        }
        if self.live_game(session_id, now).is_some() {
            return Err(Error::LobbyAlreadyExists);
        }
        Ok(())
    }

    /// Opens a lobby under `session_id`, with `host` waiting for an opponent.
    pub fn open_game(
        &mut self,
        now: u32,
        session_id: u32,
        host: Address,
        host_points: i128,
    ) -> (opened: Result<(), Error>)
        ensures
            (opened, final(self)@) == old(self)@.open_game(now, session_id, host, host_points),
            old(self).wf() ==> final(self).wf(),
    {
        match self.check_open(now, session_id, host_points) {
            Err(e) => {
                return Err(e);
            },
            Ok(_) => {},
        }
        self.set_lobby(now, session_id, Lobby { host, host_points, created_ledger: now });
        Ok(())
    }

    /// Validates a direct start, without changing anything.
    pub fn check_start(
        &self,
        now: u32,
        session_id: u32,
        player1: &Address,
        player2: &Address,
        player1_points: i128,
        player2_points: i128,
    ) -> (checked: Result<(), Error>)
        ensures
            checked == self@.start_check(
                now,
                session_id,
                *player1,
                *player2,
                player1_points,
                player2_points,
            ),
    {
        if player1_points <= 0 || player2_points <= 0 {
            return Err(Error::InvalidDistance);
        }
        if *player1 == *player2 {
            return Err(Error::SelfPlay);
        }
        if self.live_game(session_id, now).is_some() {
            return Err(Error::LobbyAlreadyExists);
        }
        if self.live_lobby(session_id, now).is_some() {
            return Err(Error::LobbyAlreadyExists);
        }
        Ok(())
    }

    fn commit_start(
        &mut self,
        now: u32,
        session_id: u32,
        player1: Address,
        player2: Address,
        player1_points: i128,
        player2_points: i128,
        drop_commitment: [u8; 32],
    )
        requires
            old(self)@.start_check(
                now,
                session_id,
                player1,
                player2,
                player1_points,
                player2_points,
            ) is Ok,
        ensures
            (Ok::<(), Error>(()), final(self)@) == old(self)@.start_game(
                now,
                session_id,
                player1,
                player2,
                player1_points,
                player2_points,
                drop_commitment,
                true,
            ),
    {
        let game = Game::new(
            player1,
            player2,
            player1_points,
            player2_points,
            drop_commitment,
            now,
        );
        self.notify(
            Notice::GameStarted {
                game_id: self.address,
                session_id,
                player1,
                player2,
                player1_points,
                player2_points,
            },
        );
        self.set_game(now, session_id, game);
    }

    /// Starts a match between two known players, given the randomness
    /// verifier's answer on the commitment material.
    pub fn start_attested(
        &mut self,
        now: u32,
        session_id: u32,
        player1: Address,
        player2: Address,
        player1_points: i128,
        player2_points: i128,
        drop_commitment: [u8; 32],
        attested: bool,
    ) -> (started: Result<(), Error>)
        ensures
            (started, final(self)@) == old(self)@.start_game(
                now,
                session_id,
                player1,
                player2,
                player1_points,
                player2_points,
                drop_commitment,
                attested,
            ),
            started is Ok ==> (final(self)@.game(session_id, now) matches Some(game)
                && game.current_turn == 0 && game.mover() == player1),
            old(self).wf() ==> final(self).wf(),
    {
        let checked = self.check_start(
            now,
            session_id,
            &player1,
            &player2,
            player1_points,
            player2_points,
        );
        match checked {
            Err(e) => {
                return Err(e);
            },
            Ok(_) => {},
        }
        if !attested {
            return Err(Error::RandomnessVerificationFailed);
        }
        self.commit_start(
            now,
            session_id,
            player1,
            player2,
            player1_points,
            player2_points,
            drop_commitment,
        );
        Ok(())
    }

    /// Starts a match between two known players. The commitment material is
    /// handed to `randomness` only once everything else is in order, and the
    /// match exists only if it was attested.
    pub fn start_game<R: RandomnessVerifier>(
        &mut self,
        randomness: &R,
        now: u32,
        session_id: u32,
        player1: Address,
        player2: Address,
        player1_points: i128,
        player2_points: i128,
        randomness_output: [u8; 32],
        drop_commitment: [u8; 32],
        randomness_signature: [u8; 64],
    ) -> (started: Result<(), Error>)
        ensures
            old(self)@.start_check(
                now,
                session_id,
                player1,
                player2,
                player1_points,
                player2_points,
            ) matches Err(e) ==> started == Err::<(), Error>(e),
            old(self)@.start_check(
                now,
                session_id,
                player1,
                player2,
                player1_points,
                player2_points,
            ) is Ok ==> exists|outcome: Invocation<bool>|
                #[trigger] randomness_answer(
                    randomness,
                    session_id,
                    &randomness_output,
                    &drop_commitment,
                    &randomness_signature,
                    outcome,
                ) && (started, final(self)@) == old(self)@.start_game(
                    now,
                    session_id,
                    player1,
                    player2,
                    player1_points,
                    player2_points,
                    drop_commitment,
                    attested(outcome),
                ),
            started is Err ==> final(self)@ == old(self)@,
            started is Ok ==> (final(self)@.game(session_id, now) matches Some(game)
                && game.current_turn == 0 && game.mover() == player1),
            old(self).wf() ==> final(self).wf(),
    {
        let checked = self.check_start(
            now,
            session_id,
            &player1,
            &player2,
            player1_points,
            player2_points,
        );
        match checked {
            Err(e) => {
                return Err(e);
            },
            Ok(_) => {},
        }
        let verdict = verify_randomness(
            randomness,
            session_id,
            &randomness_output,
            &drop_commitment,
            &randomness_signature,
        );
        let ghost outcome = choose|outcome: Invocation<bool>|
            #[trigger] randomness_answer(
                randomness,
                session_id,
                &randomness_output,
                &drop_commitment,
                &randomness_signature,
                outcome,
            ) && verdict == if attested(outcome) {
                Ok::<(), Error>(())
            } else {
                Err(Error::RandomnessVerificationFailed)
            };
        match verdict {
            Err(e) => {
                return Err(e);
            },
            Ok(_) => {},
        }
        self.commit_start(
            now,
            session_id,
            player1,
            player2,
            player1_points,
            player2_points,
            drop_commitment,
        );
        Ok(())
    }

    /// Validates a join, without changing anything.
    pub fn check_join(
        &self,
        now: u32,
        session_id: u32,
        joiner: &Address,
        joiner_points: i128,
    ) -> (checked: Result<(), Error>)
        ensures
            checked == self@.join_check(now, session_id, *joiner, joiner_points),
    {
        if joiner_points <= 0 {
            return Err(Error::InvalidDistance);
        }
        match self.live_lobby(session_id, now) {
            None => Err(Error::LobbyNotFound),
            Some(lobby) => if *joiner == lobby.host {
                Err(Error::SelfPlay)
            } else {
                Ok(())
            },
        }
    }

    fn commit_join(
        &mut self,
        now: u32,
        session_id: u32,
        lobby: Lobby,
        joiner: Address,
        joiner_points: i128,
        drop_commitment: [u8; 32],
    )
        requires
            old(self)@.lobby(session_id, now) == Some(lobby),
            old(self)@.join_check(now, session_id, joiner, joiner_points) is Ok,
        ensures
            (Ok::<(), Error>(()), final(self)@) == old(self)@.join_game(
                now,
                session_id,
                joiner,
                joiner_points,
                drop_commitment,
                true,
            ),
    {
        let game = Game::new(
            lobby.host,
            joiner,
            lobby.host_points,
            joiner_points,
            drop_commitment,
            now,
        );
        self.notify(
            Notice::GameStarted {
                game_id: self.address,
                session_id,
                player1: lobby.host,
                player2: joiner,
                player1_points: lobby.host_points,
                player2_points: joiner_points,
            },
        );
        self.set_game(now, session_id, game);
    }

    /// Joins the lobby under `session_id`, given the randomness verifier's
    /// answer on the commitment material. The lobby is consumed and the match
    /// starts with the host as player1.
    pub fn join_attested(
        &mut self,
        now: u32,
        session_id: u32,
        joiner: Address,
        joiner_points: i128,
        drop_commitment: [u8; 32],
        attested: bool,
    ) -> (joined: Result<(), Error>)
        ensures
            (joined, final(self)@) == old(self)@.join_game(
                now,
                session_id,
                joiner,
                joiner_points,
                drop_commitment,
                attested,
            ),
            joined is Ok ==> ({
                let lobby = old(self)@.lobby(session_id, now);
                let game = final(self)@.game(session_id, now);
                &&& lobby is Some
                &&& final(self)@.lobby(session_id, now) is None
                &&& game is Some
                &&& game->0.current_turn == 0
                &&& game->0.mover() == lobby->0.host
                &&& game->0.player2 == joiner
            }),
            old(self).wf() ==> final(self).wf(),
    {
        if joiner_points <= 0 {
            return Err(Error::InvalidDistance);
        }
        let lobby = match self.live_lobby(session_id, now) {
            Some(lobby) => lobby,
            None => {
                return Err(Error::LobbyNotFound);
            },
        };
        if joiner == lobby.host {
            return Err(Error::SelfPlay);
        }
        if !attested {
            return Err(Error::RandomnessVerificationFailed);
        }
        self.commit_join(now, session_id, lobby, joiner, joiner_points, drop_commitment);
        Ok(())
    }

    /// Joins the lobby under `session_id`. The commitment material is handed
    /// to `randomness` only once everything else is in order, and the lobby
    /// becomes a match only if it was attested.
    pub fn join_game<R: RandomnessVerifier>(
        &mut self,
        randomness: &R,
        now: u32,
        session_id: u32,
        joiner: Address,
        joiner_points: i128,
        randomness_output: [u8; 32],
        drop_commitment: [u8; 32],
        randomness_signature: [u8; 64],
    ) -> (joined: Result<(), Error>)
        ensures
            old(self)@.join_check(now, session_id, joiner, joiner_points) matches Err(e)
                ==> joined == Err::<(), Error>(e),
            old(self)@.join_check(now, session_id, joiner, joiner_points) is Ok ==> exists|
                outcome: Invocation<bool>,
            |
                #[trigger] randomness_answer(
                    randomness,
                    session_id,
                    &randomness_output,
                    &drop_commitment,
                    &randomness_signature,
                    outcome,
                ) && (joined, final(self)@) == old(self)@.join_game(
                    now,
                    session_id,
                    joiner,
                    joiner_points,
                    drop_commitment,
                    attested(outcome),
                ),
            joined is Err ==> final(self)@ == old(self)@,
            joined is Ok ==> ({
                let lobby = old(self)@.lobby(session_id, now);
                let game = final(self)@.game(session_id, now);
                &&& lobby is Some
                &&& final(self)@.lobby(session_id, now) is None
                &&& game is Some
                &&& game->0.current_turn == 0
                &&& game->0.mover() == lobby->0.host
                &&& game->0.player2 == joiner
            }),
            old(self).wf() ==> final(self).wf(),
    {
        if joiner_points <= 0 {
            return Err(Error::InvalidDistance);
        }
        let lobby = match self.live_lobby(session_id, now) {
            Some(lobby) => lobby,
            None => {
                return Err(Error::LobbyNotFound);
            },
        };
        if joiner == lobby.host {
            return Err(Error::SelfPlay);
        }
        let verdict = verify_randomness(
            randomness,
            session_id,
            &randomness_output,
            &drop_commitment,
            &randomness_signature,
        );
        let ghost outcome = choose|outcome: Invocation<bool>|
            #[trigger] randomness_answer(
                randomness,
                session_id,
                &randomness_output,
                &drop_commitment,
                &randomness_signature,
                outcome,
            ) && verdict == if attested(outcome) {
                Ok::<(), Error>(())
            } else {
                Err(Error::RandomnessVerificationFailed)
            };
        match verdict {
            Err(e) => {
                return Err(e);
            },
            Ok(_) => {},
        }
        self.commit_join(now, session_id, lobby, joiner, joiner_points, drop_commitment);
        Ok(())
    }

    /// Validates a ping against the match under `session_id`, without
    /// changing anything and without looking at the proof.
    pub fn check_ping(
        &self,
        now: u32,
        session_id: u32,
        player: &Address,
        turn: u32,
        distance: u32,
        ping_x: u32,
        ping_y: u32,
        public_inputs: &Vec<[u8; 32]>,
    ) -> (checked: Result<(), Error>)
        ensures
            checked == self@.ping_check(
                now,
                session_id,
                *player,
                turn,
                distance,
                ping_x,
                ping_y,
                elements(public_inputs@),
            ),
            checked is Ok ==> (self@.game(session_id, now) matches Some(game) && elements(
                public_inputs@,
            ) == expected_inputs(
                session_id,
                turn,
                ping_x,
                ping_y,
                game.drop_commitment@,
                distance,
            )),
    {
        match self.live_game(session_id, now) {
            None => Err(Error::GameNotFound),
            Some(game) => game.check_ping(
                session_id,
                player,
                turn,
                distance,
                ping_x,
                ping_y,
                public_inputs,
            ),
        }
    }

    fn commit_ping(
        &mut self,
        now: u32,
        session_id: u32,
        before: Game,
        player: Address,
        turn: u32,
        distance: u32,
        ping_x: u32,
        ping_y: u32,
        Ghost(public_inputs): Ghost<Seq<Seq<u8>>>,
    ) -> (winner: Option<Address>)
        requires
            old(self)@.game(session_id, now) == Some(before),
            before.ping_check(session_id, player, turn, distance, ping_x, ping_y, public_inputs)
                is Ok,
        ensures
            (Ok::<Option<Address>, Error>(winner), final(self)@) == old(self)@.submit_ping(
                now,
                session_id,
                player,
                turn,
                distance,
                ping_x,
                ping_y,
                public_inputs,
                true,
            ),
    {
        let mut game = before;
        self.notify(Notice::Ping { session_id, player, turn, distance, ping_x, ping_y });
        let winner = game.record_ping(distance, now);
        match winner {
            Some(w) => {
                self.notify(Notice::GameEnded { session_id, player1_won: w == before.player1 });
            },
            None => {},
        }
        self.set_game(now, session_id, game);
        winner
    }

    /// Submits a ping, given the proof verifier's answer. An accepted ping is
    /// announced, scored, and either ends the match or hands the turn over; a
    /// refused one changes nothing.
    pub fn settle_ping(
        &mut self,
        now: u32,
        session_id: u32,
        player: Address,
        turn: u32,
        distance: u32,
        ping_x: u32,
        ping_y: u32,
        public_inputs: &Vec<[u8; 32]>,
        proven: bool,
    ) -> (settled: Result<Option<Address>, Error>)
        ensures
            (settled, final(self)@) == old(self)@.submit_ping(
                now,
                session_id,
                player,
                turn,
                distance,
                ping_x,
                ping_y,
                elements(public_inputs@),
                proven,
            ),
            settled is Err ==> final(self)@ == old(self)@,
            settled matches Ok(winner) ==> ({
                let before = old(self)@.game(session_id, now);
                let after = final(self)@.game(session_id, now);
                &&& before is Some
                &&& before->0.mover() == player
                &&& after == Some(before->0.after_ping(distance, now))
                &&& winner == after->0.winner
                &&& distance == 0 ==> winner == Some(player) && after->0.status
                    == GameStatus::Completed
                &&& winner is None ==> after->0.status == GameStatus::Active
                    && after->0.current_turn == before->0.current_turn + 1 && after->0.whose_turn
                    != before->0.whose_turn
            }),
            (old(self)@.game(session_id, now) matches Some(game) && elements(public_inputs@)
                != expected_inputs(
                session_id,
                turn,
                ping_x,
                ping_y,
                game.drop_commitment@,
                distance,
            ) && game.ping_check(
                session_id,
                player,
                turn,
                distance,
                ping_x,
                ping_y,
                expected_inputs(session_id, turn, ping_x, ping_y, game.drop_commitment@, distance),
            ) is Ok) ==> settled == Err::<Option<Address>, Error>(Error::InvalidPublicInputs),
            old(self).wf() ==> final(self).wf(),
    {
        let game = match self.live_game(session_id, now) {
            Some(game) => game,
            None => {
                return Err(Error::GameNotFound);
            },
        };
        match game.check_ping(session_id, &player, turn, distance, ping_x, ping_y, public_inputs) {
            Err(e) => {
                return Err(e);
            },
            Ok(_) => {},
        }
        if !proven {
            return Err(Error::ProofVerificationFailed);
        }
        let winner = self.commit_ping(
            now,
            session_id,
            game,
            player,
            turn,
            distance,
            ping_x,
            ping_y,
            Ghost(elements(public_inputs@)),
        );
        Ok(winner)
    }

    /// Submits a ping. The proof goes to `verifier` only once the ping is
    /// otherwise in order, together with the submitted vector, which by then
    /// is known to be the one rebuilt from the match.
    pub fn submit_ping<V: ProofVerifier>(
        &mut self,
        verifier: &V,
        now: u32,
        session_id: u32,
        player: Address,
        turn: u32,
        distance: u32,
        ping_x: u32,
        ping_y: u32,
        proof: &Vec<u8>,
        public_inputs: &Vec<[u8; 32]>,
    ) -> (settled: Result<Option<Address>, Error>)
        ensures
            old(self)@.ping_check(
                now,
                session_id,
                player,
                turn,
                distance,
                ping_x,
                ping_y,
                elements(public_inputs@),
            ) matches Err(e) ==> settled == Err::<Option<Address>, Error>(e),
            old(self)@.ping_check(
                now,
                session_id,
                player,
                turn,
                distance,
                ping_x,
                ping_y,
                elements(public_inputs@),
            ) is Ok ==> exists|outcome: Invocation<()>|
                #[trigger] proof_answer(verifier, proof, public_inputs, outcome) && (
                    settled,
                    final(self)@,
                ) == old(self)@.submit_ping(
                    now,
                    session_id,
                    player,
                    turn,
                    distance,
                    ping_x,
                    ping_y,
                    elements(public_inputs@),
                    proven(outcome),
                ),
            settled is Err ==> final(self)@ == old(self)@,
            settled matches Ok(winner) ==> ({
                let before = old(self)@.game(session_id, now);
                let after = final(self)@.game(session_id, now);
                &&& before is Some
                &&& before->0.mover() == player
                &&& after == Some(before->0.after_ping(distance, now))
                &&& winner == after->0.winner
                &&& distance == 0 ==> winner == Some(player) && after->0.status
                    == GameStatus::Completed
                &&& winner is None ==> after->0.status == GameStatus::Active
                    && after->0.current_turn == before->0.current_turn + 1 && after->0.whose_turn
                    != before->0.whose_turn
            }),
            (old(self)@.game(session_id, now) matches Some(game) && elements(public_inputs@)
                != expected_inputs(
                session_id,
                turn,
                ping_x,
                ping_y,
                game.drop_commitment@,
                distance,
            ) && game.ping_check(
                session_id,
                player,
                turn,
                distance,
                ping_x,
                ping_y,
                expected_inputs(session_id, turn, ping_x, ping_y, game.drop_commitment@, distance),
            ) is Ok) ==> settled == Err::<Option<Address>, Error>(Error::InvalidPublicInputs),
            old(self).wf() ==> final(self).wf(),
    {
        let game = match self.live_game(session_id, now) {
            Some(game) => game,
            None => {
                return Err(Error::GameNotFound);
            },
        };
        match game.check_ping(session_id, &player, turn, distance, ping_x, ping_y, public_inputs) {
            Err(e) => {
                return Err(e);
            },
            Ok(_) => {},
        }
        let verdict = verify_proof(verifier, proof, public_inputs);
        let ghost outcome = choose|outcome: Invocation<()>|
            #[trigger] proof_answer(verifier, proof, public_inputs, outcome) && verdict
                == if proven(outcome) {
                Ok::<(), Error>(())
            } else {
                Err(Error::ProofVerificationFailed)
            };
        match verdict {
            Err(e) => {
                return Err(e);
            },
            Ok(_) => {},
        }
        let winner = self.commit_ping(
            now,
            session_id,
            game,
            player,
            turn,
            distance,
            ping_x,
            ping_y,
            Ghost(elements(public_inputs@)),
        );
        Ok(winner)
    }

    /// Awards the match under `session_id` to `player`, a participant who
    /// claims that the opponent went silent for the whole timeout window.
    pub fn force_timeout(&mut self, now: u32, session_id: u32, player: Address) -> (claimed:
        Result<Address, Error>)
        ensures
            (claimed, final(self)@) == old(self)@.force_timeout(now, session_id, player),
            claimed is Err ==> final(self)@ == old(self)@,
            (old(self)@.game(session_id, now) matches Some(game) ==> !game.timed_out(now))
                ==> claimed is Err,
            (old(self)@.game(session_id, now) matches Some(game) && game.timed_out(now)
                && game.winner is None && (player == game.player1 || player == game.player2))
                ==> claimed == Ok::<Address, Error>(player) && (final(self)@.game(
                session_id,
                now,
            ) matches Some(after) && after.winner == Some(player) && after.status
                == GameStatus::Timeout),
            old(self).wf() ==> final(self).wf(),
    {
        let mut game = match self.live_game(session_id, now) {
            Some(game) => game,
            None => {
                return Err(Error::GameNotFound);
            },
        };
        match game.check_timeout(&player, now) {
            Err(e) => {
                return Err(e);
            },
            Ok(_) => {},
        }
        let player1_won = player == game.player1;
        game.record_timeout(player, now);
        self.notify(Notice::GameEnded { session_id, player1_won });
        self.set_game(now, session_id, game);
        Ok(player)
    }

    /// Hands out the notices that piled up, oldest first, and empties the outbox.
    pub fn take_notices(&mut self) -> (notices: Vec<Notice>)
        ensures
            notices@ == old(self)@.outbox,
            final(self)@ == (State { outbox: Seq::empty(), ..old(self)@ }),
            old(self).wf() ==> final(self).wf(),
    {
        let mut notices: Vec<Notice> = Vec::new();
        std::mem::swap(&mut notices, &mut self.outbox);
        assert(self@.outbox =~= Seq::empty());
        notices
    }

    /// Who administers the contract.
    pub fn get_admin(&self) -> (admin: Address)
        ensures
            admin == self@.admin,
    {
        self.admin
    }

    /// Hands the administration over. Only the current admin may ask for this.
    pub fn set_admin(&mut self, new_admin: Address)
        ensures
            final(self)@ == (State { admin: new_admin, ..old(self)@ }),
            old(self).wf() ==> final(self).wf(),
    {
        self.admin = new_admin;
    }

    /// The game hub that matches are reported to.
    pub fn get_hub(&self) -> (hub: Address)
        ensures
            hub == self@.game_hub,
    {
        self.game_hub
    }

    /// Points the contract at another game hub. Only the admin may ask for this.
    pub fn set_hub(&mut self, new_hub: Address)
        ensures
            final(self)@ == (State { game_hub: new_hub, ..old(self)@ }),
            old(self).wf() ==> final(self).wf(),
    {
        self.game_hub = new_hub;
    }

    /// The contract that checks distance proofs.
    pub fn get_verifier(&self) -> (verifier: Address)
        ensures
            verifier == self@.verifier_id,
    {
        self.verifier_id
    }

    /// Points the contract at another proof verifier. Only the admin may ask for this.
    pub fn set_verifier(&mut self, new_verifier: Address)
        ensures
            final(self)@ == (State { verifier_id: new_verifier, ..old(self)@ }),
            old(self).wf() ==> final(self).wf(),
    {
        self.verifier_id = new_verifier;
    }

    /// The contract that attests drop commitments.
    pub fn get_randomness_verifier(&self) -> (verifier: Address)
        ensures
            verifier == self@.randomness_verifier_id,
    {
        self.randomness_verifier_id
    }

    /// Points the contract at another randomness verifier. Only the admin may ask for this.
    pub fn set_randomness_verifier(&mut self, new_verifier: Address)
        ensures
            final(self)@ == (State { randomness_verifier_id: new_verifier, ..old(self)@ }),
            old(self).wf() ==> final(self).wf(),
    {
        self.randomness_verifier_id = new_verifier;
    }

    /// The identity under which the contract reports to the game hub.
    pub fn address(&self) -> (address: Address)
        ensures
            address == self@.address,
    {
        self.address
    }
}

} // verus!

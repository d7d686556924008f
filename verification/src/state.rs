//! The contract's state as a mathematical value, and each operation as a
//! function from a state and its arguments to a result and the next state.
//!
//! Answers of the outside verifiers enter as booleans, so every transition
//! here is a total, deterministic function.

use vstd::prelude::*;
use crate::delegates::GameHub;
use crate::types::{Address, Error, Game, Lobby, GAME_TTL_LEDGERS};

verus! {

/// A record together with the last ledger at which it can still be read.
#[derive(Debug, PartialEq, Eq)]
pub struct Stored<T> {
    pub value: T,
    pub live_until: u32,
}

/// Something the contract tells the outside world, in the order it happened.
#[derive(Clone, Copy, Debug, PartialEq, Eq)]
pub enum Notice {
    /// For the game hub: a match has started.
    GameStarted {
        game_id: Address,
        session_id: u32,
        player1: Address,
        player2: Address,
        player1_points: i128,
        player2_points: i128,
    },
    /// For observers: a ping was accepted.
    Ping { session_id: u32, player: Address, turn: u32, distance: u32, ping_x: u32, ping_y: u32 },
    /// For the game hub: a match has ended.
    GameEnded { session_id: u32, player1_won: bool },
}

impl Notice {
    /// Whether the notice is meant for the game hub, not for observers.
    pub open spec fn for_hub(self) -> bool {
        !(self is Ping)
    }

    /// Whether `hub` was told what the notice says: of a start, by one call
    /// of `start_game` with the notice's fields; of an end, by one call of
    /// `end_game` with them. A ping is nothing to tell the hub of.
    pub open spec fn told<H: GameHub>(self, hub: &H) -> bool {
        match self {
            Notice::GameStarted {
                game_id,
                session_id,
                player1,
                player2,
                player1_points,
                player2_points,
            } => call_ensures(
                H::start_game,
                (hub, &game_id, session_id, &player1, &player2, player1_points, player2_points),
                (),
            ),
            Notice::GameEnded { session_id, player1_won } => call_ensures(
                H::end_game,
                (hub, session_id, player1_won),
                (),
            ),
            Notice::Ping { .. } => true,
        }
    }

    /// Passes the notice on to `hub` if it is meant for it, and says whether it was.
    pub fn report<H: GameHub>(&self, hub: &H) -> (reported: bool)
        ensures
            reported == self.for_hub(),
            self.told(hub),
    {
        match self {
            Notice::GameStarted {
                game_id,
                session_id,
                player1,
                player2,
                player1_points,
                player2_points,
            } => {
                hub.start_game(
                    game_id,
                    *session_id,
                    player1,
                    player2,
                    *player1_points,
                    *player2_points,
                );
                true
            },
            Notice::GameEnded { session_id, player1_won } => {
                hub.end_game(*session_id, *player1_won);
                true
            },
            Notice::Ping { .. } => false,
        }
    }
}

/// The ledger up to which an entry written at `now` stays alive.
pub open spec fn expiry(now: u32) -> u32 {
    if now + GAME_TTL_LEDGERS > u32::MAX {
        u32::MAX
    } else {
        (now + GAME_TTL_LEDGERS) as u32
    }
}

/// Everything the contract holds.
pub struct State {
    /// The contract's own identity, under which it reports to the game hub.
    pub address: Address,
    pub admin: Address,
    pub game_hub: Address,
    pub verifier_id: Address,
    pub randomness_verifier_id: Address,
    pub games: Map<u32, Stored<Game>>,
    pub lobbies: Map<u32, Stored<Lobby>>,
    /// Notices not yet handed out.
    pub outbox: Seq<Notice>,
}

impl State {
    /// A session id denotes at most one of lobby and match, every match is
    /// well formed, and every host has staked something.
    pub open spec fn wf(self) -> bool {
        &&& forall|id: u32| !(self.games.contains_key(id) && self.lobbies.contains_key(id))
        &&& forall|id: u32| self.games.contains_key(id) ==> (#[trigger] self.games[id]).value.wf()
        &&& forall|id: u32|
            self.lobbies.contains_key(id) ==> (#[trigger] self.lobbies[id]).value.host_points > 0
    }

    /// The state of a contract that was just set up.
    pub open spec fn initial(
        address: Address,
        admin: Address,
        game_hub: Address,
        verifier_id: Address,
        randomness_verifier_id: Address,
    ) -> State {
        State {
            address,
            admin,
            game_hub,
            verifier_id,
            randomness_verifier_id,
            games: Map::empty(),
            lobbies: Map::empty(),
            outbox: Seq::empty(),
        }
    }

    /// The match filed under `id`, if one can be read at ledger `now`.
    pub open spec fn game(self, id: u32, now: u32) -> Option<Game> {
        if self.games.contains_key(id) && now <= self.games[id].live_until {
            Some(self.games[id].value)
        } else {
            None
        }
    }

    /// The lobby filed under `id`, if one can be read at ledger `now`.
    pub open spec fn lobby(self, id: u32, now: u32) -> Option<Lobby> {
        if self.lobbies.contains_key(id) && now <= self.lobbies[id].live_until {
            Some(self.lobbies[id].value)
        } else {
            None
        }
    }

    /// Whether `id` is taken at ledger `now`, by a match or by a lobby.
    pub open spec fn occupied(self, id: u32, now: u32) -> bool {
        self.game(id, now) is Some || self.lobby(id, now) is Some
    }

    /// The state with `game` filed under `id`, alive for a full window from
    /// `now`, and no lobby left under `id`.
    pub open spec fn with_game(self, id: u32, game: Game, now: u32) -> State {
        State {
            games: self.games.insert(id, Stored { value: game, live_until: expiry(now) }),
            lobbies: self.lobbies.remove(id),
            ..self
        }
    }

    /// The state with `lobby` filed under `id`, alive for a full window from
    /// `now`, and no match left under `id`.
    pub open spec fn with_lobby(self, id: u32, lobby: Lobby, now: u32) -> State {
        State {
            lobbies: self.lobbies.insert(id, Stored { value: lobby, live_until: expiry(now) }),
            games: self.games.remove(id),
            ..self
        }
    }

    /// The state with `notice` appended to the outbox.
    pub open spec fn notifying(self, notice: Notice) -> State {
        State { outbox: self.outbox.push(notice), ..self }
    }

    /// The notice that tells the hub of a new match between these players.
    pub open spec fn start_notice(self, id: u32, game: Game) -> Notice {
        Notice::GameStarted {
            game_id: self.address,
            session_id: id,
            player1: game.player1,
            player2: game.player2,
            player1_points: game.player1_points,
            player2_points: game.player2_points,
        }
    }

    /// The first reason to refuse opening a lobby.
    pub open spec fn open_check(self, now: u32, id: u32, host_points: i128) -> Result<
        (),
        Error,
    > {
        if host_points <= 0 {
            Err(Error::InvalidDistance)
        } else if self.occupied(id, now) {
            Err(Error::LobbyAlreadyExists)
        } else {
            Ok(())
        }
    }

    /// Opening a lobby.
    pub open spec fn open_game(self, now: u32, id: u32, host: Address, host_points: i128) -> (
        Result<(), Error>,
        State,
    ) {
        match self.open_check(now, id, host_points) {
            Err(e) => (Err(e), self),
            Ok(_) => (
                Ok(()),
                self.with_lobby(id, Lobby { host, host_points, created_ledger: now }, now),
            ),
        }
    }

    /// The first reason to refuse a direct start, before the attestation is asked for.
    pub open spec fn start_check(
        self,
        now: u32,
        id: u32,
        player1: Address,
        player2: Address,
        player1_points: i128,
        player2_points: i128,
    ) -> Result<(), Error> {
        if player1_points <= 0 || player2_points <= 0 {
            Err(Error::InvalidDistance)
        } else if player1 == player2 {
            Err(Error::SelfPlay)
        } else if self.occupied(id, now) {
            Err(Error::LobbyAlreadyExists)
        } else {
            Ok(())
        }
    }

    /// Starting a match between two known players; `attested` is the
    /// randomness verifier's answer.
    pub open spec fn start_game(
        self,
        now: u32,
        id: u32,
        player1: Address,
        player2: Address,
        player1_points: i128,
        player2_points: i128,
        drop_commitment: [u8; 32],
        attested: bool,
    ) -> (Result<(), Error>, State) {
        match self.start_check(now, id, player1, player2, player1_points, player2_points) {
            Err(e) => (Err(e), self),
            Ok(_) => if !attested {
                (Err(Error::RandomnessVerificationFailed), self)
            } else {
                let game = Game::created(
                    player1,
                    player2,
                    player1_points,
                    player2_points,
                    drop_commitment,
                    now,
                );
                (Ok(()), self.notifying(self.start_notice(id, game)).with_game(id, game, now))
            },
        }
    }

    /// The first reason to refuse a join, before the attestation is asked for.
    pub open spec fn join_check(self, now: u32, id: u32, joiner: Address, joiner_points: i128)
        -> Result<(), Error> {
        if joiner_points <= 0 {
            Err(Error::InvalidDistance)
        } else {
            match self.lobby(id, now) {
                None => Err(Error::LobbyNotFound),
                Some(lobby) => if joiner == lobby.host {
                    Err(Error::SelfPlay)
                } else {
                    Ok(())
                },
            }
        }
    }

    /// Joining a lobby, which turns it into a match; `attested` is the
    /// randomness verifier's answer.
    pub open spec fn join_game(
        self,
        now: u32,
        id: u32,
        joiner: Address,
        joiner_points: i128,
        drop_commitment: [u8; 32],
        attested: bool,
    ) -> (Result<(), Error>, State) {
        match self.join_check(now, id, joiner, joiner_points) {
            Err(e) => (Err(e), self),
            Ok(_) => if !attested {
                (Err(Error::RandomnessVerificationFailed), self)
            } else {
                let lobby = self.lobbies[id].value;
                let game = Game::created(
                    lobby.host,
                    joiner,
                    lobby.host_points,
                    joiner_points,
                    drop_commitment,
                    now,
                );
                (Ok(()), self.notifying(self.start_notice(id, game)).with_game(id, game, now))
            },
        }
    }

    /// The first reason to refuse a ping, before the proof is looked at.
    pub open spec fn ping_check(
        self,
        now: u32,
        id: u32,
        player: Address,
        turn: u32,
        distance: u32,
        ping_x: u32,
        ping_y: u32,
        public_inputs: Seq<Seq<u8>>,
    ) -> Result<(), Error> {
        match self.game(id, now) {
            None => Err(Error::GameNotFound),
            Some(game) => game.ping_check(
                id,
                player,
                turn,
                distance,
                ping_x,
                ping_y,
                public_inputs,
            ),
        }
    }

    /// Submitting a ping; `proven` is the proof verifier's answer.
    pub open spec fn submit_ping(
        self,
        now: u32,
        id: u32,
        player: Address,
        turn: u32,
        distance: u32,
        ping_x: u32,
        ping_y: u32,
        public_inputs: Seq<Seq<u8>>,
        proven: bool,
    ) -> (Result<Option<Address>, Error>, State) {
        match self.ping_check(now, id, player, turn, distance, ping_x, ping_y, public_inputs) {
            Err(e) => (Err(e), self),
            Ok(_) => if !proven {
                (Err(Error::ProofVerificationFailed), self)
            } else {
                let before = self.games[id].value;
                let after = before.after_ping(distance, now);
                let pinged = self.notifying(
                    Notice::Ping { session_id: id, player, turn, distance, ping_x, ping_y },
                );
                let told = match after.winner {
                    None => pinged,
                    Some(winner) => pinged.notifying(
                        Notice::GameEnded { session_id: id, player1_won: winner == before.player1 },
                    ),
                };
                (Ok(after.winner), told.with_game(id, after, now))
            },
        }
    }

    /// The first reason to refuse a timeout claim.
    pub open spec fn timeout_check(self, now: u32, id: u32, player: Address) -> Result<
        (),
        Error,
    > {
        match self.game(id, now) {
            None => Err(Error::GameNotFound),
            Some(game) => game.timeout_check(player, now),
        }
    }

    /// Claiming a match whose opponent went silent.
    pub open spec fn force_timeout(self, now: u32, id: u32, player: Address) -> (
        Result<Address, Error>,
        State,
    ) {
        match self.timeout_check(now, id, player) {
            Err(e) => (Err(e), self),
            Ok(_) => {
                let before = self.games[id].value;
                let after = before.after_timeout(player, now);
                (
                    Ok(player),
                    self.notifying(
                        Notice::GameEnded { session_id: id, player1_won: player == before.player1 },
                    ).with_game(id, after, now),
                )
            },
        }
    }
}

} // verus!

//! The turn state machine of one match: creation, ping validation, scoring,
//! timeout arbitration and win determination.

use vstd::prelude::*;
use crate::inputs::{build_public_inputs, elements, expected_inputs, public_inputs_match};
use crate::types::{
    Address, Error, Game, GameStatus, GRID_SIZE, MAX_DISTANCE, MAX_TURNS, NO_DISTANCE,
    NUM_PUBLIC_INPUTS, TIMEOUT_LEDGERS,
};

verus! {

/// The smaller of a best distance so far and a newly proven one.
pub open spec fn improved(best: u32, distance: u32) -> u32 {
    if distance < best {
        distance
    } else {
        best
    }
}

/// The flag of the player who pings at `turn`: 1 on even turns, 2 on odd ones.
pub open spec fn mover_flag(turn: u32) -> u32 {
    if turn % 2 == 0 {
        1
    } else {
        2
    }
}

impl Game {
    /// What every stored match satisfies.
    pub open spec fn wf(self) -> bool {
        &&& self.player1 != self.player2
        &&& self.player1_points > 0
        &&& self.player2_points > 0
        &&& self.current_turn <= MAX_TURNS
        &&& self.whose_turn == mover_flag(self.current_turn)
        &&& (self.player1_best_distance <= MAX_DISTANCE || self.player1_best_distance
            == NO_DISTANCE)
        &&& (self.player2_best_distance <= MAX_DISTANCE || self.player2_best_distance
            == NO_DISTANCE)
        &&& match self.status {
            GameStatus::Created => false,
            GameStatus::Active => self.winner is None && self.current_turn < MAX_TURNS,
            GameStatus::Completed | GameStatus::Timeout => self.winner == Some(self.player1)
                || self.winner == Some(self.player2),
        }
    }

    /// The match as it stands right after creation at ledger `now`.
    pub open spec fn created(
        player1: Address,
        player2: Address,
        player1_points: i128,
        player2_points: i128,
        drop_commitment: [u8; 32],
        now: u32,
    ) -> Game {
        Game {
            player1,
            player2,
            player1_points,
            player2_points,
            drop_commitment,
            status: GameStatus::Active,
            current_turn: 0,
            whose_turn: 1,
            player1_best_distance: NO_DISTANCE,
            player2_best_distance: NO_DISTANCE,
            winner: None,
            last_action_ledger: now,
        }
    }

    /// The player whose ping is awaited.
    pub open spec fn mover(self) -> Address {
        if self.whose_turn == 1 {
            self.player1
        } else {
            self.player2
        }
    }

    /// The player with the smaller best distance; player1 on a tie.
    pub open spec fn closest(self) -> Address {
        if self.player1_best_distance <= self.player2_best_distance {
            self.player1
        } else {
            self.player2
        }
    }

    /// The first reason to refuse a ping, checked in this order: the match is
    /// over, it is not active, a coordinate or the distance is off the grid,
    /// the turn is not the current one, the turn cap is reached, the caller is
    /// not the mover, the submitted vector is not the expected one.
    pub open spec fn ping_check(
        self,
        session_id: u32,
        player: Address,
        turn: u32,
        distance: u32,
        ping_x: u32,
        ping_y: u32,
        public_inputs: Seq<Seq<u8>>,
    ) -> Result<(), Error> {
        if self.winner is Some {
            Err(Error::GameAlreadyEnded)
        } else if self.status != GameStatus::Active {
            Err(Error::InvalidGameStatus)
        } else if ping_x >= GRID_SIZE || ping_y >= GRID_SIZE || distance > MAX_DISTANCE {
            Err(Error::InvalidDistance)
        } else if turn != self.current_turn {
            Err(Error::InvalidTurn)
        } else if self.current_turn >= MAX_TURNS {
            Err(Error::MaxTurnsReached)
        } else if player != self.mover() {
            Err(Error::NotYourTurn)
        } else if public_inputs != expected_inputs(
            session_id,
            turn,
            ping_x,
            ping_y,
            self.drop_commitment@,
            distance,
        ) {
            Err(Error::InvalidPublicInputs)
        } else {
            Ok(())
        }
    }

    /// The match after the mover's proven `distance` was recorded at ledger `now`.
    pub open spec fn after_ping(self, distance: u32, now: u32) -> Game {
        let scored = if self.whose_turn == 1 {
            Game { player1_best_distance: improved(self.player1_best_distance, distance), ..self }
        } else {
            Game { player2_best_distance: improved(self.player2_best_distance, distance), ..self }
        };
        if distance == 0 {
            Game {
                winner: Some(self.mover()),
                status: GameStatus::Completed,
                last_action_ledger: now,
                ..scored
            }
        } else {
            let advanced = Game {
                current_turn: (self.current_turn + 1) as u32,
                whose_turn: if self.whose_turn == 1 {
                    2
                } else {
                    1
                },
                last_action_ledger: now,
                ..scored
            };
            if advanced.current_turn >= MAX_TURNS {
                Game {
                    winner: Some(advanced.closest()),
                    status: GameStatus::Completed,
                    ..advanced
                }
            } else {
                advanced
            }
        }
    }

    /// Whether the timeout window after the last action has elapsed at `now`.
    pub open spec fn timed_out(self, now: u32) -> bool {
        now >= self.last_action_ledger + TIMEOUT_LEDGERS
    }

    /// The first reason to refuse a timeout claim: the match is over, the
    /// caller is not a participant, the window has not elapsed.
    pub open spec fn timeout_check(self, player: Address, now: u32) -> Result<(), Error> {
        if self.winner is Some {
            Err(Error::GameAlreadyEnded)
        } else if player != self.player1 && player != self.player2 {
            Err(Error::NotPlayer)
        } else if !self.timed_out(now) {
            Err(Error::TimeoutNotReached)
        } else {
            Ok(())
        }
    }

    /// The match after `player` claimed it by timeout at ledger `now`.
    pub open spec fn after_timeout(self, player: Address, now: u32) -> Game {
        Game {
            winner: Some(player),
            status: GameStatus::Timeout,
            last_action_ledger: now,
            ..self
        }
    }

    /// A fresh match: active, turn 0, player1 to move, no distance proven yet.
    pub fn new(
        player1: Address,
        player2: Address,
        player1_points: i128,
        player2_points: i128,
        drop_commitment: [u8; 32],
        now: u32,
    ) -> (game: Game)
        ensures
            game == Game::created(
                player1,
                player2,
                player1_points,
                player2_points,
                drop_commitment,
                now,
            ),
            game.current_turn == 0,
            game.mover() == player1,
            player1 != player2 && player1_points > 0 && player2_points > 0 ==> game.wf(),
    {
        Game {
            player1,
            player2,
            player1_points,
            player2_points,
            drop_commitment,
            status: GameStatus::Active,
            current_turn: 0,
            whose_turn: 1,
            player1_best_distance: NO_DISTANCE,
            player2_best_distance: NO_DISTANCE,
            winner: None,
            last_action_ledger: now,
        }
    }

    /// Validates a ping against the match, without changing it.
    pub fn check_ping(
        &self,
        session_id: u32,
        player: &Address,
        turn: u32,
        distance: u32,
        ping_x: u32,
        ping_y: u32,
        public_inputs: &Vec<[u8; 32]>,
    ) -> (checked: Result<(), Error>)
        ensures
            checked == self.ping_check(
                session_id,
                *player,
                turn,
                distance,
                ping_x,
                ping_y,
                elements(public_inputs@),
            ),
    {
        if self.winner.is_some() {
            return Err(Error::GameAlreadyEnded);
        }
        if self.status != GameStatus::Active {
            return Err(Error::InvalidGameStatus);
        }
        if ping_x >= GRID_SIZE || ping_y >= GRID_SIZE {
            return Err(Error::InvalidDistance);
        }
        if distance > MAX_DISTANCE {
            return Err(Error::InvalidDistance);
        }
        if turn != self.current_turn {
            return Err(Error::InvalidTurn);
        }
        if self.current_turn >= MAX_TURNS {
            return Err(Error::MaxTurnsReached);
        }
        if self.whose_turn == 1 {
            if *player != self.player1 {
                return Err(Error::NotYourTurn);
            }
        } else {
            if *player != self.player2 {
                return Err(Error::NotYourTurn);
            }
        }
        if public_inputs.len() != NUM_PUBLIC_INPUTS {
            assert(elements(public_inputs@).len() != 6);
            return Err(Error::InvalidPublicInputs);
        }
        let expected = build_public_inputs(
            session_id,
            turn,
            ping_x,
            ping_y,
            &self.drop_commitment,
            distance,
        );
        if !public_inputs_match(public_inputs, &expected) {
            return Err(Error::InvalidPublicInputs);
        }
        Ok(())
    }

    /// The winner when the turn cap is reached: the smaller best distance,
    /// player1 on a tie. A player who never pinged counts as farthest away.
    pub fn determine_winner_by_distance(&self) -> (winner: Address)
        ensures
            winner == self.closest(),
            winner == self.player1 <==> self.player1 == self.player2
                || self.player1_best_distance <= self.player2_best_distance,
    {
        if self.player1_best_distance <= self.player2_best_distance {
            self.player1
        } else {
            self.player2
        }
    }

    /// Records the mover's proven distance: scores it, then either ends the
    /// match (distance 0, or the turn cap reached) or hands the turn over.
    /// Returns the winner if the match ended. Meant for a ping that
    /// `check_ping` let through; all it needs is room to count the turn.
    pub fn record_ping(&mut self, distance: u32, now: u32) -> (winner: Option<Address>)
        requires
            old(self).current_turn < u32::MAX,
        ensures
            *final(self) == old(self).after_ping(distance, now),
            winner == final(self).winner,
            distance == 0 ==> winner == Some(old(self).mover()),
            distance != 0 ==> final(self).current_turn == old(self).current_turn + 1,
    {
        let first = self.whose_turn == 1;
        if first {
            if distance < self.player1_best_distance {
                self.player1_best_distance = distance;
            }
        } else if distance < self.player2_best_distance {
            self.player2_best_distance = distance;
        }
        if distance == 0 {
            let winner = if first {
                self.player1
            } else {
                self.player2
            };
            self.winner = Some(winner);
            self.status = GameStatus::Completed;
            self.last_action_ledger = now;
            return Some(winner);
        }
        self.current_turn = self.current_turn + 1;
        self.whose_turn = if first {
            2
        } else {
            1
        };
        self.last_action_ledger = now;
        if self.current_turn >= MAX_TURNS {
            let winner = self.determine_winner_by_distance();
            self.winner = Some(winner);
            self.status = GameStatus::Completed;
            return Some(winner);
        }
        self.winner
    }

    /// Validates a timeout claim against the match, without changing it.
    pub fn check_timeout(&self, player: &Address, now: u32) -> (checked: Result<(), Error>)
        ensures
            checked == self.timeout_check(*player, now),
    {
        if self.winner.is_some() {
            return Err(Error::GameAlreadyEnded);
        }
        if *player != self.player1 && *player != self.player2 {
            return Err(Error::NotPlayer);
        }
        if (now as u64) < self.last_action_ledger as u64 + TIMEOUT_LEDGERS as u64 {
            return Err(Error::TimeoutNotReached);
        }
        Ok(())
    }

    /// Ends the match in favour of `player`, who claimed the timeout.
    pub fn record_timeout(&mut self, player: Address, now: u32)
        ensures
            *final(self) == old(self).after_timeout(player, now),
    {
        self.winner = Some(player);
        self.status = GameStatus::Timeout;
        self.last_action_ledger = now;
    }
}

} // verus!

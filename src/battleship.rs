//! Battleship on a 5x5 grid: boards are committed as hashes, and each shot's
//! claimed outcome is accepted only with a valid Groth16 proof.
use crate::curve::ScalarBytes;
use crate::groth16::{groth16_outcome, verify_groth16, Groth16Proof, VerificationKey, VerifyError};
use crate::inputs::{check_inputs, inputs_bind};
use crate::ledger::{commit_step, commitment_of, complete, CommitError, CommitLedger, Commitment};
use soroban_sdk::Env;
use vstd::prelude::*;

verus! {

/// Number of cells of the grid; shot indices run below it.
pub const GRID_CELLS: u32 = 25;

#[derive(Clone, Copy, Debug, PartialEq, Eq, Structural)]
pub enum BattleshipError {
    GameAlreadyStarted,
    GameNotStarted,
    InvalidPlayer,
    BoardAlreadyCommitted,
    InvalidShotIndex,
    ProofVerificationFailed,
    GameAlreadyEnded,
    NotAllBoardsCommitted,
    MalformedProof,
    AlreadyInitialized,
    NotInitialized,
}

/// One battleship instance: the verification key and the current session.
pub struct ZkBattleship {
    pub vk: Option<VerificationKey>,
    pub boards: CommitLedger,
    pub hits1: u32,
    pub hits2: u32,
    pub total_shots: u32,
    pub started: bool,
    pub ended: bool,
    pub winner: Option<u64>,
    pub session_id: u32,
}

/// Hits credited to `p`: a player seated twice has one counter; others have none.
pub open spec fn hits_of(s: ZkBattleship, p: u64) -> u32 {
    if p == s.boards.player1 {
        s.hits1
    } else if p == s.boards.player2 {
        s.hits2
    } else {
        0
    }
}

pub open spec fn is_player(s: ZkBattleship, p: u64) -> bool {
    p == s.boards.player1 || p == s.boards.player2
}

pub open spec fn sat_inc(x: u32) -> u32 {
    if x == u32::MAX { x } else { (x + 1) as u32 }
}

/// Before a session starts nothing is recorded; a winner exists exactly when it ended.
pub open spec fn wf(s: ZkBattleship) -> bool {
    &&& !s.started ==> (s.hits1 == 0 && s.hits2 == 0 && s.total_shots == 0 && !s.ended
        && s.boards.hash1 is None && s.boards.hash2 is None)
    &&& (s.winner is Some <==> s.ended)
    &&& s.winner is Some ==> is_player(s, s.winner->0)
}

/// The state after `start_game`: a fresh session, whatever came before.
pub open spec fn start_step(s: ZkBattleship, player1: u64, player2: u64, session_id: u32) -> ZkBattleship {
    ZkBattleship {
        boards: CommitLedger { player1, player2, hash1: None, hash2: None },
        hits1: 0,
        hits2: 0,
        total_shots: 0,
        started: true,
        ended: false,
        winner: None,
        session_id,
        ..s
    }
}

pub open spec fn commit_board_step(s: ZkBattleship, player: u64, hash: Commitment) -> (ZkBattleship, Result<(), BattleshipError>) {
    if !s.started {
        (s, Err(BattleshipError::GameNotStarted))
    } else if s.ended {
        (s, Err(BattleshipError::GameAlreadyEnded))
    } else {
        let (l, r) = commit_step(s.boards, player, hash);
        match r {
            Ok(()) => (ZkBattleship { boards: l, ..s }, Ok(())),
            Err(CommitError::InvalidPlayer) => (s, Err(BattleshipError::InvalidPlayer)),
            Err(CommitError::AlreadyCommitted) => (s, Err(BattleshipError::BoardAlreadyCommitted)),
        }
    }
}

/// The error a shot meets before its proof is looked at, if any.
pub open spec fn shot_precheck(s: ZkBattleship, shooter: u64, shot_index: u32) -> Option<BattleshipError> {
    if !s.started {
        Some(BattleshipError::GameNotStarted)
    } else if s.ended {
        Some(BattleshipError::GameAlreadyEnded)
    } else if shot_index >= GRID_CELLS {
        Some(BattleshipError::InvalidShotIndex)
    } else if !is_player(s, shooter) {
        Some(BattleshipError::InvalidPlayer)
    } else if !complete(s.boards) {
        Some(BattleshipError::NotAllBoardsCommitted)
    } else if s.vk is None {
        Some(BattleshipError::NotInitialized)
    } else {
        None
    }
}

/// The player whose board a shot by `shooter` is fired at.
pub open spec fn opponent(s: ZkBattleship, shooter: u64) -> u64 {
    if shooter == s.boards.player1 { s.boards.player2 } else { s.boards.player1 }
}

/// The public inputs a shot proof must carry: the opponent's board commitment,
/// the shot index and the claimed result.
pub open spec fn shot_inputs_bind(s: ZkBattleship, shooter: u64, shot_index: u32, claimed_result: u32, signals: Seq<ScalarBytes>) -> bool {
    commitment_of(s.boards, opponent(s, shooter)) is Some && inputs_bind(
        signals,
        commitment_of(s.boards, opponent(s, shooter))->0,
        shot_index,
        claimed_result,
    )
}

/// The state and answer after a shot with public inputs `signals` whose proof got `verdict`.
pub open spec fn shot_step(
    s: ZkBattleship,
    shooter: u64,
    shot_index: u32,
    claimed_result: u32,
    signals: Seq<ScalarBytes>,
    verdict: Result<bool, VerifyError>,
) -> (ZkBattleship, Result<u32, BattleshipError>) {
    if shot_precheck(s, shooter, shot_index) is Some {
        (s, Err(shot_precheck(s, shooter, shot_index)->0))
    } else if verdict is Err {
        (s, Err(BattleshipError::MalformedProof))
    } else if verdict == Ok::<bool, VerifyError>(false) || !shot_inputs_bind(s, shooter, shot_index, claimed_result, signals) {
        (s, Err(BattleshipError::ProofVerificationFailed))
    } else {
        let hit = claimed_result == 1;
        let s2 = ZkBattleship {
            hits1: if hit && shooter == s.boards.player1 { sat_inc(s.hits1) } else { s.hits1 },
            hits2: if hit && shooter != s.boards.player1 { sat_inc(s.hits2) } else { s.hits2 },
            total_shots: sat_inc(s.total_shots),
            ..s
        };
        (s2, Ok(hits_of(s2, shooter)))
    }
}

/// Player 1 wins when it has at least as many hits as player 2.
pub open spec fn end_step(s: ZkBattleship) -> (ZkBattleship, Result<u64, BattleshipError>) {
    if !s.started {
        (s, Err(BattleshipError::GameNotStarted))
    } else if s.ended {
        (s, Err(BattleshipError::GameAlreadyEnded))
    } else {
        let w = if hits_of(s, s.boards.player1) >= hits_of(s, s.boards.player2) {
            s.boards.player1
        } else {
            s.boards.player2
        };
        (ZkBattleship { ended: true, winner: Some(w), ..s }, Ok(w))
    }
}

impl ZkBattleship {
    /// An instance with no verification key and no session.
    pub fn new() -> (r: ZkBattleship)
        ensures
            wf(r),
            r.vk is None,
            !r.started,
            r.winner is None,
    {
        ZkBattleship {
            vk: None,
            boards: CommitLedger::new(0, 0),
            hits1: 0,
            hits2: 0,
            total_shots: 0,
            started: false,
            ended: false,
            winner: None,
            session_id: 0,
        }
    }

    /// Sets the key that shot proofs are checked against; a key, once set, is
    /// never replaced.
    pub fn init(&mut self, vk: VerificationKey) -> (r: Result<(), BattleshipError>)
        requires
            wf(*old(self)),
        ensures
            old(self).vk is None ==> r is Ok && *final(self) == (ZkBattleship { vk: Some(vk), ..*old(self) }),
            old(self).vk is Some ==> r == Err::<(), BattleshipError>(BattleshipError::AlreadyInitialized)
                && *final(self) == *old(self),
            wf(*final(self)),
    {
        if self.vk.is_some() {
            return Err(BattleshipError::AlreadyInitialized);
        }
        self.vk = Some(vk);
        Ok(())
    }

    /// Whether the state meets `wf`, for callers that load it from elsewhere.
    pub fn is_consistent(&self) -> (r: bool)
        ensures
            r == wf(*self),
    {
        let recorded_nothing = self.hits1 == 0 && self.hits2 == 0 && self.total_shots == 0 && !self.ended
            && self.boards.hash1.is_none() && self.boards.hash2.is_none();
        let winner_ok = match self.winner {
            Some(w) => self.ended && (w == self.boards.player1 || w == self.boards.player2),
            None => !self.ended,
        };
        (self.started || recorded_nothing) && winner_ok
    }

    /// Starts a session between two players, discarding any previous one whole.
    pub fn start_game(&mut self, player1: u64, player2: u64, session_id: u32) -> (r: Result<u32, BattleshipError>)
        ensures
            *final(self) == start_step(*old(self), player1, player2, session_id),
            wf(*final(self)),
            r == Ok::<u32, BattleshipError>(session_id),
    {
        self.boards = CommitLedger::new(player1, player2);
        self.hits1 = 0;
        self.hits2 = 0;
        self.total_shots = 0;
        self.started = true;
        self.ended = false;
        self.winner = None;
        self.session_id = session_id;
        Ok(session_id)
    }

    /// Records a player's board hash, once per session.
    pub fn commit_board(&mut self, player: u64, board_hash: Commitment) -> (r: Result<(), BattleshipError>)
        requires
            wf(*old(self)),
        ensures
            (*final(self), r) == commit_board_step(*old(self), player, board_hash),
            wf(*final(self)),
    {
        if !self.started {
            return Err(BattleshipError::GameNotStarted);
        }
        if self.ended {
            return Err(BattleshipError::GameAlreadyEnded);
        }
        match self.boards.commit(player, board_hash) {
            Ok(()) => Ok(()),
            Err(CommitError::InvalidPlayer) => Err(BattleshipError::InvalidPlayer),
            Err(CommitError::AlreadyCommitted) => Err(BattleshipError::BoardAlreadyCommitted),
        }
    }

    fn precheck(&self, shooter: u64, shot_index: u32) -> (r: Option<BattleshipError>)
        ensures
            r == shot_precheck(*self, shooter, shot_index),
    {
        if !self.started {
            Some(BattleshipError::GameNotStarted)
        } else if self.ended {
            Some(BattleshipError::GameAlreadyEnded)
        } else if shot_index >= GRID_CELLS {
            Some(BattleshipError::InvalidShotIndex)
        } else if shooter != self.boards.player1 && shooter != self.boards.player2 {
            Some(BattleshipError::InvalidPlayer)
        } else if !self.boards.is_complete() {
            Some(BattleshipError::NotAllBoardsCommitted)
        } else if self.vk.is_none() {
            Some(BattleshipError::NotInitialized)
        } else {
            None
        }
    }

    /// Applies a shot with public inputs `pub_signals` whose proof was judged
    /// `verdict`; returns the shooter's hits.
    pub fn resolve_shot(
        &mut self,
        shooter: u64,
        shot_index: u32,
        claimed_result: u32,
        pub_signals: &Vec<ScalarBytes>,
        verdict: Result<bool, VerifyError>,
    ) -> (r: Result<u32, BattleshipError>)
        requires
            wf(*old(self)),
        ensures
            (*final(self), r) == shot_step(*old(self), shooter, shot_index, claimed_result, pub_signals@, verdict),
            wf(*final(self)),
    {
        if let Some(e) = self.precheck(shooter, shot_index) {
            return Err(e);
        }
        match verdict {
            Err(_) => {
                return Err(BattleshipError::MalformedProof);
            },
            Ok(false) => {
                return Err(BattleshipError::ProofVerificationFailed);
            },
            Ok(true) => {},
        }
        let target = if shooter == self.boards.player1 { self.boards.player2 } else { self.boards.player1 };
        match self.boards.commitment(target) {
            None => {
                return Err(BattleshipError::ProofVerificationFailed);
            },
            Some(board) => {
                if !check_inputs(pub_signals, &board, shot_index, claimed_result) {
                    return Err(BattleshipError::ProofVerificationFailed);
                }
            },
        }
        if claimed_result == 1 {
            if shooter == self.boards.player1 {
                self.hits1 = self.hits1.saturating_add(1);
            } else {
                self.hits2 = self.hits2.saturating_add(1);
            }
        }
        self.total_shots = self.total_shots.saturating_add(1);
        Ok(self.get_hits(shooter))
    }

    /// Fires at `shot_index` claiming `claimed_result` (1 for a hit), with a proof
    /// over `pub_signals` checked against the stored key; the inputs must be the
    /// opponent's board commitment, the shot index and the claimed result.
    pub fn shoot(
        &mut self,
        env: &Env,
        shooter: u64,
        shot_index: u32,
        claimed_result: u32,
        proof: &Groth16Proof,
        pub_signals: &Vec<ScalarBytes>,
    ) -> (r: Result<u32, BattleshipError>)
        requires
            wf(*old(self)),
        ensures
            (*final(self), r) == shot_step(
                *old(self),
                shooter,
                shot_index,
                claimed_result,
                pub_signals@,
                groth16_outcome(old(self).vk->0, *proof, pub_signals@),
            ),
            wf(*final(self)),
    {
        if let Some(e) = self.precheck(shooter, shot_index) {
            return Err(e);
        }
        let verdict = match &self.vk {
            Some(vk) => verify_groth16(env, vk, proof, pub_signals),
            None => Ok(false),
        };
        self.resolve_shot(shooter, shot_index, claimed_result, pub_signals, verdict)
    }

    /// Ends the session; ties go to player 1.
    pub fn end_game(&mut self, caller: u64) -> (r: Result<u64, BattleshipError>)
        requires
            wf(*old(self)),
        ensures
            (*final(self), r) == end_step(*old(self)),
            wf(*final(self)),
    {
        let _ = caller;
        if !self.started {
            return Err(BattleshipError::GameNotStarted);
        }
        if self.ended {
            return Err(BattleshipError::GameAlreadyEnded);
        }
        let first = self.boards.player1;
        let second = self.boards.player2;
        let w = if self.get_hits(first) >= self.get_hits(second) { first } else { second };
        self.ended = true;
        self.winner = Some(w);
        Ok(w)
    }

    pub fn get_hits(&self, player: u64) -> (r: u32)
        ensures
            r == hits_of(*self, player),
    {
        if player == self.boards.player1 {
            self.hits1
        } else if player == self.boards.player2 {
            self.hits2
        } else {
            0
        }
    }

    /// `(started, ended)`.
    pub fn get_game_state(&self) -> (r: (bool, bool))
        ensures
            r == (self.started, self.ended),
    {
        (self.started, self.ended)
    }

    pub fn get_winner(&self) -> (r: Option<u64>)
        ensures
            r == self.winner,
    {
        self.winner
    }

    pub fn get_commitment(&self, player: u64) -> (r: Option<Commitment>)
        ensures
            r == commitment_of(self.boards, player),
    {
        self.boards.commitment(player)
    }
}

} // verus!

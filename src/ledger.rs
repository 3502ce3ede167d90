//! Per-player commitments of hidden state: each player commits once per session.
use vstd::prelude::*;

verus! {

pub type Commitment = [u8; 32];

/// Why a commitment was refused.
#[derive(Clone, Copy, Debug, PartialEq, Eq, Structural)]
pub enum CommitError {
    InvalidPlayer,
    AlreadyCommitted,
}

/// The commitments of the two players of one session.
pub struct CommitLedger {
    pub player1: u64,
    pub player2: u64,
    pub hash1: Option<Commitment>,
    pub hash2: Option<Commitment>,
}

/// The commitment stored for `p`; a player seated twice has one slot.
pub open spec fn commitment_of(l: CommitLedger, p: u64) -> Option<Commitment> {
    if p == l.player1 {
        l.hash1
    } else if p == l.player2 {
        l.hash2
    } else {
        None
    }
}

pub open spec fn complete(l: CommitLedger) -> bool {
    commitment_of(l, l.player1) is Some && commitment_of(l, l.player2) is Some
}

/// The ledger after `p` commits `h`, and the answer.
pub open spec fn commit_step(l: CommitLedger, p: u64, h: Commitment) -> (CommitLedger, Result<(), CommitError>) {
    if p != l.player1 && p != l.player2 {
        (l, Err(CommitError::InvalidPlayer))
    } else if commitment_of(l, p) is Some {
        (l, Err(CommitError::AlreadyCommitted))
    } else if p == l.player1 {
        (CommitLedger { hash1: Some(h), ..l }, Ok(()))
    } else {
        (CommitLedger { hash2: Some(h), ..l }, Ok(()))
    }
}

impl CommitLedger {
    /// A ledger for two players with nothing committed.
    pub fn new(player1: u64, player2: u64) -> (r: CommitLedger)
        ensures
            r == (CommitLedger { player1, player2, hash1: None, hash2: None }),
    {
        CommitLedger { player1, player2, hash1: None, hash2: None }
    }

    /// Records `hash` for `player`, refusing a second commitment.
    pub fn commit(&mut self, player: u64, hash: Commitment) -> (r: Result<(), CommitError>)
        ensures
            (*final(self), r) == commit_step(*old(self), player, hash),
    {
        if player != self.player1 && player != self.player2 {
            return Err(CommitError::InvalidPlayer);
        }
        if player == self.player1 {
            if self.hash1.is_some() {
                return Err(CommitError::AlreadyCommitted);
            }
            self.hash1 = Some(hash);
        } else {
            if self.hash2.is_some() {
                return Err(CommitError::AlreadyCommitted);
            }
            self.hash2 = Some(hash);
        }
        Ok(())
    }

    /// Whether both players have committed.
    pub fn is_complete(&self) -> (r: bool)
        ensures
            r == complete(*self),
    {
        self.commitment(self.player1).is_some() && self.commitment(self.player2).is_some()
    }

    pub fn commitment(&self, player: u64) -> (r: Option<Commitment>)
        ensures
            r == commitment_of(*self, player),
    {
        if player == self.player1 {
            self.hash1
        } else if player == self.player2 {
            self.hash2
        } else {
            None
        }
    }

    /// Clears every commitment, keeping the players.
    pub fn reset_for(&mut self)
        ensures
            *final(self) == (CommitLedger { hash1: None, hash2: None, ..*old(self) }),
    {
        self.hash1 = None;
        self.hash2 = None;
    }
}

} // verus!

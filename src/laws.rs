//! Properties of the game state machines, proved over their transition functions.
use crate::battleship::{
    shot_inputs_bind,
    commit_board_step, end_step, hits_of, shot_step, start_step, BattleshipError, ZkBattleship,
    GRID_CELLS,
};
use crate::curve::ScalarBytes;
use crate::groth16::{groth16_outcome, Groth16Proof, VerificationKey, VerifyError};
use crate::inputs::inputs_bind;
use crate::ledger::{commitment_of, Commitment};
use crate::tcg::{action_error, deck_of, draw_step, draws_of, creature_hit, damage_step, hp_of, Creature, TcgError, ZkTcg, FIREBALL_DAMAGE};
use vstd::prelude::*;

verus! {

/// Public inputs whose count is not one less than the key's generators make the
/// verifier answer `MalformedProof`, never a boolean.
pub proof fn lemma_count_mismatch_is_malformed(
    vk: VerificationKey,
    proof: Groth16Proof,
    signals: Seq<ScalarBytes>,
)
    requires
        signals.len() + 1 != vk.ic@.len(),
    ensures
        groth16_outcome(vk, proof, signals) == Err::<bool, VerifyError>(VerifyError::MalformedProof),
{
}

/// Once a player's board commitment is accepted, a second commitment by the same
/// player is refused with `BoardAlreadyCommitted` and the first one stays.
pub proof fn lemma_board_commitment_is_final(s: ZkBattleship, player: u64, h1: Commitment, h2: Commitment)
    requires
        commit_board_step(s, player, h1).1 is Ok,
    ensures
        ({
            let s1 = commit_board_step(s, player, h1).0;
            let (s2, r2) = commit_board_step(s1, player, h2);
            &&& r2 == Err::<(), BattleshipError>(BattleshipError::BoardAlreadyCommitted)
            &&& commitment_of(s2.boards, player) == Some(h1)
        }),
{
}

/// After a session has ended no board can be committed, and nothing changes.
pub proof fn lemma_no_commit_after_end(s: ZkBattleship, player: u64, h: Commitment)
    requires
        s.started,
        s.ended,
    ensures
        commit_board_step(s, player, h) == (s, Err::<(), BattleshipError>(BattleshipError::GameAlreadyEnded)),
{
}

/// Starting a session leaves every player with zero hits, no winner and no
/// commitments, whatever the previous session held.
pub proof fn lemma_start_resets(s: ZkBattleship, player1: u64, player2: u64, session_id: u32, p: u64)
    ensures
        hits_of(start_step(s, player1, player2, session_id), p) == 0,
        start_step(s, player1, player2, session_id).winner is None,
        commitment_of(start_step(s, player1, player2, session_id).boards, p) is None,
        !start_step(s, player1, player2, session_id).ended,
{
}

/// A shot at an index outside the grid, in a running session, fails with
/// `InvalidShotIndex` whatever its proof, and changes nothing.
pub proof fn lemma_out_of_grid_shot_rejected(
    s: ZkBattleship,
    shooter: u64,
    shot_index: u32,
    claimed_result: u32,
    signals: Seq<ScalarBytes>,
    verdict: Result<bool, VerifyError>,
)
    requires
        s.started,
        !s.ended,
        shot_index >= GRID_CELLS,
    ensures
        shot_step(s, shooter, shot_index, claimed_result, signals, verdict) == (s, Err::<u32, BattleshipError>(
            BattleshipError::InvalidShotIndex,
        )),
{
}

/// A shot is accepted only with a valid proof whose public inputs are the
/// opponent's board commitment, this shot index and this claimed result, so a
/// proof cannot be replayed for another claim or another board.
pub proof fn lemma_accepted_shot_is_bound(
    s: ZkBattleship,
    shooter: u64,
    shot_index: u32,
    claimed_result: u32,
    signals: Seq<ScalarBytes>,
    verdict: Result<bool, VerifyError>,
)
    requires
        shot_step(s, shooter, shot_index, claimed_result, signals, verdict).1 is Ok,
    ensures
        verdict == Ok::<bool, VerifyError>(true),
        shot_inputs_bind(s, shooter, shot_index, claimed_result, signals),
{
    match verdict {
        Ok(b) => {
            if !b {
                assert(verdict == Ok::<bool, VerifyError>(false));
            }
        },
        Err(_) => {},
    }
}

/// A shot that fails, for whatever reason, leaves the state as it was.
pub proof fn lemma_failed_shot_changes_nothing(
    s: ZkBattleship,
    shooter: u64,
    shot_index: u32,
    claimed_result: u32,
    signals: Seq<ScalarBytes>,
    verdict: Result<bool, VerifyError>,
)
    requires
        shot_step(s, shooter, shot_index, claimed_result, signals, verdict).1 is Err,
    ensures
        shot_step(s, shooter, shot_index, claimed_result, signals, verdict).0 == s,
{
}

/// With equal hit counts, ending a running session makes player 1 the winner.
pub proof fn lemma_tie_goes_to_player1(s: ZkBattleship)
    requires
        s.started,
        !s.ended,
        hits_of(s, s.boards.player1) == hits_of(s, s.boards.player2),
    ensures
        end_step(s).1 == Ok::<u64, BattleshipError>(s.boards.player1),
        end_step(s).0.winner == Some(s.boards.player1),
{
}

/// A recorded winner is never replaced: ending again fails and keeps it.
pub proof fn lemma_winner_is_final(s: ZkBattleship)
    requires
        s.ended,
    ensures
        end_step(s).0.winner == s.winner,
        end_step(s).1 is Err,
{
}

/// A fireball against a target with at most two hit points leaves it at zero,
/// never below, and makes the caster the winner.
pub proof fn lemma_fireball_finishes(s: ZkTcg, player: u64, target: u64)
    requires
        hp_of(s, target) <= FIREBALL_DAMAGE,
    ensures
        hp_of(damage_step(s, player, target, FIREBALL_DAMAGE), target) == 0,
        damage_step(s, player, target, FIREBALL_DAMAGE).winner == Some(player),
{
}

/// Damage never takes hit points below zero; the loss is the damage, capped at
/// what was left.
pub proof fn lemma_damage_saturates(s: ZkTcg, player: u64, target: u64, damage: u32)
    ensures
        hp_of(damage_step(s, player, target, damage), target) == if hp_of(s, target) > damage {
            hp_of(s, target) - damage
        } else {
            0
        },
{
}

/// A creature hit for at least its health leaves the board, and the creatures
/// after it move down by one.
pub proof fn lemma_lethal_hit_removes(board: Seq<Creature>, i: int, damage: u32)
    requires
        0 <= i < board.len(),
        board[i].health <= damage,
    ensures
        creature_hit(board, i, damage).len() == board.len() - 1,
        forall|j: int| 0 <= j < i ==> creature_hit(board, i, damage)[j] == board[j],
        forall|j: int| i < j < board.len() ==> creature_hit(board, i, damage)[j - 1] == board[j],
{
}

/// Once a card game has a winner, every action in the session is refused with
/// `GameEnded`, so the winner stays.
pub proof fn lemma_card_winner_is_final(s: ZkTcg, player: u64, target: u64)
    requires
        s.started,
        s.winner is Some,
    ensures
        action_error(s, player, target) == Some(TcgError::GameEnded),
{
}

/// A draw is accepted only with a valid proof whose public inputs are the
/// player's deck commitment, this card value and the current draw index.
pub proof fn lemma_accepted_draw_is_bound(
    s: ZkTcg,
    player: u64,
    card_value: u32,
    signals: Seq<ScalarBytes>,
    verdict: Result<bool, VerifyError>,
)
    requires
        draw_step(s, player, card_value, signals, verdict).1 is Ok,
    ensures
        verdict == Ok::<bool, VerifyError>(true),
        deck_of(s, player) is Some,
        inputs_bind(signals, deck_of(s, player)->0, card_value, draws_of(s, player)),
{
}

} // verus!

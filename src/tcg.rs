//! Trading-card combat between two players: creatures, direct damage, and card
//! draws proved against a committed deck.
use crate::curve::ScalarBytes;
use crate::groth16::{groth16_outcome, verify_groth16, Groth16Proof, VerificationKey, VerifyError};
use crate::inputs::{check_inputs, inputs_bind};
use crate::ledger::Commitment;
use soroban_sdk::Env;
use vstd::prelude::*;

verus! {

pub const STARTING_HP: u32 = 15;

pub const FIREBALL_DAMAGE: u32 = 2;

#[derive(Clone, Copy, Debug, PartialEq, Eq, Structural)]
pub enum TcgError {
    GameAlreadyStarted,
    GameNotStarted,
    InvalidPlayer,
    NotYourTurn,
    InvalidProof,
    GameEnded,
    DeckAlreadyCommitted,
    AlreadyInitialized,
    NotInitialized,
}

#[derive(Clone, Copy, Debug, PartialEq, Eq, Structural)]
pub struct Creature {
    pub attack: u32,
    pub health: u32,
}

/// One card-game instance: the verification key and the current session.
/// Player 1's records are kept in the fields ending in 1, player 2's in those
/// ending in 2; a player seated twice uses player 1's.
pub struct ZkTcg {
    pub vk: Option<VerificationKey>,
    pub seated: bool,
    pub player1: u64,
    pub player2: u64,
    pub hp1: u32,
    pub hp2: u32,
    pub board1: Vec<Creature>,
    pub board2: Vec<Creature>,
    pub deck1: Option<Commitment>,
    pub deck2: Option<Commitment>,
    pub draw1: u32,
    pub draw2: u32,
    pub turn: u64,
    pub started: bool,
    pub winner: Option<u64>,
}

pub open spec fn is_seated(s: ZkTcg, p: u64) -> bool {
    s.seated && (p == s.player1 || p == s.player2)
}

pub open spec fn first_slot(s: ZkTcg, p: u64) -> bool {
    p == s.player1
}

pub open spec fn hp_of(s: ZkTcg, p: u64) -> u32 {
    if first_slot(s, p) { s.hp1 } else { s.hp2 }
}

pub open spec fn board_of(s: ZkTcg, p: u64) -> Seq<Creature> {
    if first_slot(s, p) { s.board1@ } else { s.board2@ }
}

pub open spec fn deck_of(s: ZkTcg, p: u64) -> Option<Commitment> {
    if first_slot(s, p) { s.deck1 } else { s.deck2 }
}

pub open spec fn draws_of(s: ZkTcg, p: u64) -> u32 {
    if first_slot(s, p) { s.draw1 } else { s.draw2 }
}

/// The state's records with `p`'s hit points set to `hp`.
pub open spec fn with_hp(s: ZkTcg, p: u64, hp: u32) -> ZkTcg {
    if first_slot(s, p) { ZkTcg { hp1: hp, ..s } } else { ZkTcg { hp2: hp, ..s } }
}

/// The error that an action by `player` against `target` meets first, if any.
pub open spec fn action_error(s: ZkTcg, player: u64, target: u64) -> Option<TcgError> {
    if !s.started {
        Some(TcgError::GameNotStarted)
    } else if s.winner is Some {
        Some(TcgError::GameEnded)
    } else if !is_seated(s, player) || !is_seated(s, target) {
        Some(TcgError::InvalidPlayer)
    } else {
        None
    }
}

/// The error a creature fight meets first, if any: the two creatures must stand
/// on different boards.
pub open spec fn combat_error(s: ZkTcg, player: u64, target: u64) -> Option<TcgError> {
    if action_error(s, player, target) is Some {
        action_error(s, player, target)
    } else if player == target {
        Some(TcgError::InvalidPlayer)
    } else {
        None
    }
}

/// Hit points after `damage`, stopping at zero.
pub open spec fn damaged(hp: u32, damage: u32) -> u32 {
    if hp > damage { (hp - damage) as u32 } else { 0 }
}

/// `target` takes `damage`; at zero hit points `player` becomes the winner.
pub open spec fn damage_step(s: ZkTcg, player: u64, target: u64, damage: u32) -> ZkTcg {
    let hp = damaged(hp_of(s, target), damage);
    let s2 = with_hp(s, target, hp);
    if hp == 0 { ZkTcg { winner: Some(player), ..s2 } } else { s2 }
}

/// A creature that takes `damage`: removed if its health does not exceed it,
/// else weakened in health and attack alike.
pub open spec fn creature_hit(board: Seq<Creature>, i: int, damage: u32) -> Seq<Creature> {
    if board[i].health > damage {
        board.update(
            i,
            Creature {
                attack: damaged(board[i].attack, damage),
                health: (board[i].health - damage) as u32,
            },
        )
    } else {
        board.remove(i)
    }
}

pub open spec fn with_board(s: ZkTcg, p: u64, b: Seq<Creature>, r: ZkTcg) -> bool {
    if first_slot(s, p) {
        r == ZkTcg { board1: r.board1, ..s } && r.board1@ == b
    } else {
        r == ZkTcg { board2: r.board2, ..s } && r.board2@ == b
    }
}

pub open spec fn draw_step(
    s: ZkTcg,
    player: u64,
    card_value: u32,
    signals: Seq<ScalarBytes>,
    verdict: Result<bool, VerifyError>,
) -> (ZkTcg, Result<(), TcgError>) {
    if action_error(s, player, player) is Some {
        (s, Err(action_error(s, player, player)->0))
    } else if s.vk is None {
        (s, Err(TcgError::NotInitialized))
    } else if deck_of(s, player) is None
        || !inputs_bind(signals, deck_of(s, player)->0, card_value, draws_of(s, player))
        || verdict != Ok::<bool, VerifyError>(true) {
        (s, Err(TcgError::InvalidProof))
    } else {
        let n = draws_of(s, player);
        let next = if n == u32::MAX { n } else { (n + 1) as u32 };
        if first_slot(s, player) {
            (ZkTcg { draw1: next, ..s }, Ok(()))
        } else {
            (ZkTcg { draw2: next, ..s }, Ok(()))
        }
    }
}

fn creature_take_hit(board: &mut Vec<Creature>, i: usize, damage: u32)
    requires
        i < old(board)@.len(),
    ensures
        final(board)@ == creature_hit(old(board)@, i as int, damage),
{
    let c = board[i];
    if c.health > damage {
        let hurt = Creature { attack: c.attack.saturating_sub(damage), health: c.health - damage };
        board.set(i, hurt);
    } else {
        board.remove(i);
    }
}

impl ZkTcg {
    /// An instance with no verification key and no session.
    pub fn new() -> (r: ZkTcg)
        ensures
            r.vk is None,
            !r.seated,
            !r.started,
            r.winner is None,
            r.hp1 == STARTING_HP && r.hp2 == STARTING_HP,
            r.board1@.len() == 0 && r.board2@.len() == 0,
            r.deck1 is None && r.deck2 is None,
            r.draw1 == 0 && r.draw2 == 0,
    {
        ZkTcg {
            vk: None,
            seated: false,
            player1: 0,
            player2: 0,
            hp1: STARTING_HP,
            hp2: STARTING_HP,
            board1: Vec::new(),
            board2: Vec::new(),
            deck1: None,
            deck2: None,
            draw1: 0,
            draw2: 0,
            turn: 0,
            started: false,
            winner: None,
        }
    }

    /// Sets the key that draw proofs are checked against; a key, once set, is
    /// never replaced.
    pub fn init(&mut self, vk: VerificationKey) -> (r: Result<(), TcgError>)
        ensures
            old(self).vk is None ==> r is Ok && *final(self) == (ZkTcg { vk: Some(vk), ..*old(self) }),
            old(self).vk is Some ==> r == Err::<(), TcgError>(TcgError::AlreadyInitialized) && *final(self)
                == *old(self),
    {
        if self.vk.is_some() {
            return Err(TcgError::AlreadyInitialized);
        }
        self.vk = Some(vk);
        Ok(())
    }

    /// Starts a session: full hit points, empty boards and decks, player 1 to move.
    pub fn init_game(&mut self, player1: u64, player2: u64) -> (r: Result<(), TcgError>)
        ensures
            r is Ok,
            final(self).vk == old(self).vk,
            final(self).seated && final(self).started,
            final(self).player1 == player1 && final(self).player2 == player2,
            final(self).hp1 == STARTING_HP && final(self).hp2 == STARTING_HP,
            final(self).board1@.len() == 0 && final(self).board2@.len() == 0,
            final(self).deck1 is None && final(self).deck2 is None,
            final(self).draw1 == 0 && final(self).draw2 == 0,
            final(self).turn == player1,
            final(self).winner is None,
    {
        self.seated = true;
        self.player1 = player1;
        self.player2 = player2;
        self.hp1 = STARTING_HP;
        self.hp2 = STARTING_HP;
        self.board1 = Vec::new();
        self.board2 = Vec::new();
        self.deck1 = None;
        self.deck2 = None;
        self.draw1 = 0;
        self.draw2 = 0;
        self.turn = player1;
        self.started = true;
        self.winner = None;
        Ok(())
    }

    fn action_check(&self, player: u64, target: u64) -> (r: Option<TcgError>)
        ensures
            r == action_error(*self, player, target),
    {
        if !self.started {
            Some(TcgError::GameNotStarted)
        } else if self.winner.is_some() {
            Some(TcgError::GameEnded)
        } else if !self.seated || (player != self.player1 && player != self.player2) || (target
            != self.player1 && target != self.player2) {
            Some(TcgError::InvalidPlayer)
        } else {
            None
        }
    }

    /// Records a player's deck commitment, once per session.
    pub fn commit_deck(&mut self, player: u64, hash: Commitment) -> (r: Result<(), TcgError>)
        ensures
            action_error(*old(self), player, player) is Some ==> *final(self) == *old(self) && r
                == Err::<(), TcgError>(action_error(*old(self), player, player)->0),
            action_error(*old(self), player, player) is None && deck_of(*old(self), player) is Some
                ==> *final(self) == *old(self) && r == Err::<(), TcgError>(TcgError::DeckAlreadyCommitted),
            action_error(*old(self), player, player) is None && deck_of(*old(self), player) is None
                ==> r is Ok && *final(self) == (if first_slot(*old(self), player) {
                ZkTcg { deck1: Some(hash), ..*old(self) }
            } else {
                ZkTcg { deck2: Some(hash), ..*old(self) }
            }),
    {
        if let Some(e) = self.action_check(player, player) {
            return Err(e);
        }
        let existing = if player == self.player1 { self.deck1 } else { self.deck2 };
        if existing.is_some() {
            return Err(TcgError::DeckAlreadyCommitted);
        }
        if player == self.player1 {
            self.deck1 = Some(hash);
        } else {
            self.deck2 = Some(hash);
        }
        Ok(())
    }

    /// Applies a draw whose proof was judged `verdict`.
    pub fn resolve_draw(
        &mut self,
        player: u64,
        card_value: u32,
        pub_signals: &Vec<ScalarBytes>,
        verdict: Result<bool, VerifyError>,
    ) -> (r: Result<(), TcgError>)
        ensures
            (*final(self), r) == draw_step(*old(self), player, card_value, pub_signals@, verdict),
    {
        if let Some(e) = self.action_check(player, player) {
            return Err(e);
        }
        if self.vk.is_none() {
            return Err(TcgError::NotInitialized);
        }
        let deck = if player == self.player1 { self.deck1 } else { self.deck2 };
        let index = if player == self.player1 { self.draw1 } else { self.draw2 };
        match deck {
            None => {
                return Err(TcgError::InvalidProof);
            },
            Some(d) => {
                if !check_inputs(pub_signals, &d, card_value, index) {
                    return Err(TcgError::InvalidProof);
                }
            },
        }
        match verdict {
            Ok(true) => {},
            _ => {
                return Err(TcgError::InvalidProof);
            },
        }
        if player == self.player1 {
            self.draw1 = self.draw1.saturating_add(1);
        } else {
            self.draw2 = self.draw2.saturating_add(1);
        }
        Ok(())
    }

    /// Draws `card_value`, proved to be the next card of the committed deck by a
    /// Groth16 proof over (deck commitment, card value, draw index).
    pub fn draw_card(
        &mut self,
        env: &Env,
        player: u64,
        card_value: u32,
        proof: &Groth16Proof,
        pub_signals: &Vec<ScalarBytes>,
    ) -> (r: Result<(), TcgError>)
        ensures
            (*final(self), r) == draw_step(
                *old(self),
                player,
                card_value,
                pub_signals@,
                groth16_outcome(old(self).vk->0, *proof, pub_signals@),
            ),
    {
        let verdict = match &self.vk {
            Some(vk) => verify_groth16(env, vk, proof, pub_signals),
            None => Ok(false),
        };
        self.resolve_draw(player, card_value, pub_signals, verdict)
    }

    /// Puts a new creature at the end of the player's board.
    pub fn play_creature(&mut self, player: u64, attack: u32, health: u32) -> (r: Result<(), TcgError>)
        ensures
            action_error(*old(self), player, player) is Some ==> *final(self) == *old(self) && r
                == Err::<(), TcgError>(action_error(*old(self), player, player)->0),
            action_error(*old(self), player, player) is None ==> r is Ok && with_board(
                *old(self),
                player,
                board_of(*old(self), player).push(Creature { attack, health }),
                *final(self),
            ),
    {
        if let Some(e) = self.action_check(player, player) {
            return Err(e);
        }
        if player == self.player1 {
            self.board1.push(Creature { attack, health });
        } else {
            self.board2.push(Creature { attack, health });
        }
        Ok(())
    }

    fn deal_damage(&mut self, player: u64, target: u64, damage: u32)
        ensures
            *final(self) == damage_step(*old(self), player, target, damage),
    {
        let hp = if target == self.player1 { self.hp1 } else { self.hp2 };
        let left = if hp > damage { hp - damage } else { 0 };
        if target == self.player1 {
            self.hp1 = left;
        } else {
            self.hp2 = left;
        }
        if left == 0 {
            self.winner = Some(player);
        }
    }

    /// Burns `target` for two hit points; at zero the caller wins.
    pub fn play_fireball(&mut self, player: u64, target: u64) -> (r: Result<(), TcgError>)
        ensures
            action_error(*old(self), player, target) is Some ==> *final(self) == *old(self) && r
                == Err::<(), TcgError>(action_error(*old(self), player, target)->0),
            action_error(*old(self), player, target) is None ==> r is Ok && *final(self)
                == damage_step(*old(self), player, target, FIREBALL_DAMAGE),
    {
        if let Some(e) = self.action_check(player, target) {
            return Err(e);
        }
        self.deal_damage(player, target, FIREBALL_DAMAGE);
        Ok(())
    }

    /// The player's creature `attacker_id` strikes `target` for its attack value;
    /// an index past the board does nothing.
    pub fn attack(&mut self, player: u64, attacker_id: u32, target: u64) -> (r: Result<(), TcgError>)
        ensures
            action_error(*old(self), player, target) is Some ==> *final(self) == *old(self) && r
                == Err::<(), TcgError>(action_error(*old(self), player, target)->0),
            action_error(*old(self), player, target) is None ==> r is Ok && *final(self) == (if attacker_id
                < board_of(*old(self), player).len() {
                damage_step(
                    *old(self),
                    player,
                    target,
                    board_of(*old(self), player)[attacker_id as int].attack,
                )
            } else {
                *old(self)
            }),
    {
        if let Some(e) = self.action_check(player, target) {
            return Err(e);
        }
        let i = attacker_id as usize;
        let damage = if player == self.player1 {
            if i < self.board1.len() { Some(self.board1[i].attack) } else { None }
        } else {
            if i < self.board2.len() { Some(self.board2[i].attack) } else { None }
        };
        if let Some(d) = damage {
            self.deal_damage(player, target, d);
        }
        Ok(())
    }

    /// Two creatures on opposite boards fight: each takes the other's attack,
    /// computed before either is hit. A player cannot attack their own board.
    /// Indices past either board do nothing.
    pub fn attack_creature(
        &mut self,
        player: u64,
        attacker_id: u32,
        target_player: u64,
        target_creature_id: u32,
    ) -> (r: Result<(), TcgError>)
        ensures
            combat_error(*old(self), player, target_player) is Some ==> *final(self) == *old(self)
                && r == Err::<(), TcgError>(combat_error(*old(self), player, target_player)->0),
            combat_error(*old(self), player, target_player) is None ==> r is Ok,
            combat_error(*old(self), player, target_player) is None && !(attacker_id < board_of(
                *old(self),
                player,
            ).len() && target_creature_id < board_of(*old(self), target_player).len())
                ==> *final(self) == *old(self),
            ({
                let s = *old(self);
                let a = board_of(s, player);
                let t = board_of(s, target_player);
                combat_error(s, player, target_player) is None && attacker_id < a.len()
                    && target_creature_id < t.len() ==> {
                    let a2 = creature_hit(a, attacker_id as int, t[target_creature_id as int].attack);
                    let t2 = creature_hit(t, target_creature_id as int, a[attacker_id as int].attack);
                    &&& *final(self) == ZkTcg { board1: final(self).board1, board2: final(self).board2, ..s }
                    &&& if first_slot(s, player) {
                        final(self).board1@ == a2 && final(self).board2@ == t2
                    } else {
                        final(self).board2@ == a2 && final(self).board1@ == t2
                    }
                }
            }),
    {
        if let Some(e) = self.action_check(player, target_player) {
            return Err(e);
        }
        if player == target_player {
            return Err(TcgError::InvalidPlayer);
        }
        let ai = attacker_id as usize;
        let ti = target_creature_id as usize;
        let p_first = player == self.player1;
        let a_len = if p_first { self.board1.len() } else { self.board2.len() };
        let t_len = if p_first { self.board2.len() } else { self.board1.len() };
        if ai >= a_len || ti >= t_len {
            return Ok(());
        }
        if p_first {
            let attacker = self.board1[ai];
            let target = self.board2[ti];
            creature_take_hit(&mut self.board1, ai, target.attack);
            creature_take_hit(&mut self.board2, ti, attacker.attack);
        } else {
            let attacker = self.board2[ai];
            let target = self.board1[ti];
            creature_take_hit(&mut self.board2, ai, target.attack);
            creature_take_hit(&mut self.board1, ti, attacker.attack);
        }
        Ok(())
    }

    /// Ends the session in favour of `winner`, as declared by that player.
    pub fn end_game(&mut self, winner: u64) -> (r: Result<(), TcgError>)
        ensures
            r is Ok,
            *final(self) == (ZkTcg { started: false, winner: Some(winner), ..*old(self) }),
    {
        self.started = false;
        self.winner = Some(winner);
        Ok(())
    }

    /// `(hp1, hp2)`: the hit points of player 1 and player 2.
    pub fn get_state(&self) -> (r: (u32, u32))
        ensures
            r == (hp_of(*self, self.player1), hp_of(*self, self.player2)),
    {
        let hp2 = if self.player2 == self.player1 { self.hp1 } else { self.hp2 };
        (self.hp1, hp2)
    }
}

} // verus!

use vstd::prelude::*;

use crate::error::GameError;
use crate::state::{MatchState, Move, CELL_MISS, CELL_UNCHECKED, TURN_GUEST, TURN_INITIALIZER};

verus! {

/// Lowest grid cell a shot may target (row 1, column 1).
pub const FIRST_CELL: u8 = 11;
/// Highest grid cell a shot may target (row 10, column 10).
pub const LAST_CELL: u8 = 110;

/// The board the side holding the turn shoots at.
pub open spec fn target_board(s: MatchState) -> Seq<u8> {
    if s.whoseturn == TURN_INITIALIZER {
        s.guest_board_state@
    } else {
        s.initializer_board_state@
    }
}

/// The board of the side holding the turn, where the opponent's last shot landed.
pub open spec fn own_board(s: MatchState) -> Seq<u8> {
    if s.whoseturn == TURN_INITIALIZER {
        s.initializer_board_state@
    } else {
        s.guest_board_state@
    }
}

/// Why a shot is refused, if it is: a target off the grid or a hit report
/// other than 0 or 1, no side holding the turn, the turn holder not signing,
/// a cell already shot at, or a counter that would overflow.
pub open spec fn shot_error(s: MatchState, mv: Move, initializer_signed: bool, guest_signed: bool) -> Option<
    GameError,
> {
    let hit = mv.opponents_last_move_is_hit;
    if mv.mymove < FIRST_CELL || mv.mymove > LAST_CELL || hit > 1 {
        Some(GameError::ValidationError)
    } else if s.whoseturn != TURN_INITIALIZER && s.whoseturn != TURN_GUEST {
        Some(GameError::PhaseError)
    } else if (s.whoseturn == TURN_INITIALIZER && !initializer_signed) || (s.whoseturn
        == TURN_GUEST && !guest_signed) {
        Some(GameError::AuthorizationError)
    } else if s.lastmove >= 128 || target_board(s)[mv.mymove as int] != CELL_UNCHECKED {
        Some(GameError::ValidationError)
    } else if s.ishots == 255 || s.gshots == 255 || s.ihits as int + hit > 255 || s.ghits as int
        + hit > 255 || own_board(s)[s.lastmove as int] as int + hit > 255 {
        Some(GameError::ValidationError)
    } else {
        None
    }
}

/// `t` is `s` after the side holding the turn fired `mv` at time `now`: the
/// shooter's shot count grows by one, the opponent's hit count by the
/// reported hit, the target cell is marked a miss until reported otherwise,
/// the cell of the opponent's last shot takes the reported hit, and the turn
/// passes.
pub open spec fn shot_result(s: MatchState, t: MatchState, mv: Move, now: u64) -> bool {
    let hit = mv.opponents_last_move_is_hit;
    &&& t.initialized == s.initialized
    &&& t.gameseed == s.gameseed
    &&& t.lamports == s.lamports
    &&& t.initializer == s.initializer
    &&& t.initializergamehash == s.initializergamehash
    &&& t.guest == s.guest
    &&& t.guestgamehash == s.guestgamehash
    &&& t.lastplaytime == now
    &&& t.lastmove == mv.mymove
    &&& if s.whoseturn == TURN_INITIALIZER {
        &&& t.whoseturn == TURN_GUEST
        &&& t.ishots == s.ishots + 1
        &&& t.gshots == s.gshots
        &&& t.ihits == s.ihits
        &&& t.ghits == s.ghits + hit
        &&& t.guest_board_state@ == s.guest_board_state@.update(mv.mymove as int, CELL_MISS)
        &&& t.initializer_board_state@ == s.initializer_board_state@.update(
            s.lastmove as int,
            (s.initializer_board_state@[s.lastmove as int] + hit) as u8,
        )
    } else {
        &&& t.whoseturn == TURN_INITIALIZER
        &&& t.gshots == s.gshots + 1
        &&& t.ishots == s.ishots
        &&& t.ghits == s.ghits
        &&& t.ihits == s.ihits + hit
        &&& t.initializer_board_state@ == s.initializer_board_state@.update(
            mv.mymove as int,
            CELL_MISS,
        )
        &&& t.guest_board_state@ == s.guest_board_state@.update(
            s.lastmove as int,
            (s.guest_board_state@[s.lastmove as int] + hit) as u8,
        )
    }
}

/// Turns alternate: the initializer moves when both have fired equally
/// often, the guest when the initializer is one shot ahead.
pub open spec fn turns_balanced(s: MatchState) -> bool {
    (s.whoseturn == TURN_INITIALIZER && s.ishots == s.gshots) || (s.whoseturn == TURN_GUEST
        && s.ishots == s.gshots + 1)
}

impl MatchState {
    /// Fires the shot of the side holding the turn; on a refusal nothing changes.
    pub fn apply_shot(&mut self, mv: Move, initializer_signed: bool, guest_signed: bool, now: u64) -> (r:
        Result<(), GameError>)
        ensures
            r == (match shot_error(*old(self), mv, initializer_signed, guest_signed) {
                Some(e) => Err(e),
                None => Ok(()),
            }),
            r is Ok ==> shot_result(*old(self), *final(self), mv, now),
            r is Err ==> *final(self) == *old(self),
    {
        let hit: u8 = mv.opponents_last_move_is_hit;
        if mv.mymove < FIRST_CELL || mv.mymove > LAST_CELL || hit > 1 {
            return Err(GameError::ValidationError);
        }
        if self.whoseturn != TURN_INITIALIZER && self.whoseturn != TURN_GUEST {
            return Err(GameError::PhaseError);
        }
        if (self.whoseturn == TURN_INITIALIZER && !initializer_signed) || (self.whoseturn
            == TURN_GUEST && !guest_signed) {
            return Err(GameError::AuthorizationError);
        }
        let target: usize = mv.mymove as usize;
        let last: usize = self.lastmove as usize;
        if last >= 128 {
            return Err(GameError::ValidationError);
        }
        if self.whoseturn == TURN_INITIALIZER {
            if self.guest_board_state[target] != CELL_UNCHECKED {
                return Err(GameError::ValidationError);
            }
            if self.ishots == 255 || self.gshots == 255 || self.ihits as u16 + hit as u16 > 255
                || self.ghits as u16 + hit as u16 > 255 || self.initializer_board_state[last] as u16
                + hit as u16 > 255 {
                return Err(GameError::ValidationError);
            }
            self.ishots = self.ishots + 1;
            self.ghits = self.ghits + hit;
            self.guest_board_state[target] = CELL_MISS;
            self.initializer_board_state[last] = self.initializer_board_state[last] + hit;
            self.whoseturn = TURN_GUEST;
        } else {
            if self.initializer_board_state[target] != CELL_UNCHECKED {
                return Err(GameError::ValidationError);
            }
            if self.ishots == 255 || self.gshots == 255 || self.ihits as u16 + hit as u16 > 255
                || self.ghits as u16 + hit as u16 > 255 || self.guest_board_state[last] as u16
                + hit as u16 > 255 {
                return Err(GameError::ValidationError);
            }
            self.gshots = self.gshots + 1;
            self.ihits = self.ihits + hit;
            self.initializer_board_state[target] = CELL_MISS;
            self.guest_board_state[last] = self.guest_board_state[last] + hit;
            self.whoseturn = TURN_INITIALIZER;
        }
        self.lastplaytime = now;
        self.lastmove = mv.mymove;
        Ok(())
    }
}

/// A legal shot hands the turn to the other side and keeps the turns
/// balanced, so the two shot counts never differ by more than one.
pub proof fn lemma_turns_alternate(s: MatchState, t: MatchState, mv: Move, now: u64)
    requires
        turns_balanced(s),
        shot_result(s, t, mv, now),
    ensures
        t.whoseturn != s.whoseturn,
        turns_balanced(t),
        -1 <= t.ishots - t.gshots <= 1,
{
}

/// A run of legal shots: `states[i + 1]` is `states[i]` after `moves[i]` at `times[i]`.
pub open spec fn legal_run(states: Seq<MatchState>, moves: Seq<Move>, times: Seq<u64>) -> bool {
    &&& states.len() == moves.len() + 1
    &&& times.len() == moves.len()
    &&& forall|i: int|
        0 <= i < moves.len() ==> #[trigger] shot_result(states[i], states[i + 1], moves[i], times[i])
}

proof fn lemma_run_balanced_at(states: Seq<MatchState>, moves: Seq<Move>, times: Seq<u64>, k: int)
    requires
        legal_run(states, moves, times),
        turns_balanced(states[0]),
        0 <= k < states.len(),
    ensures
        turns_balanced(states[k]),
        k + 1 < states.len() ==> states[k + 1].whoseturn != states[k].whoseturn,
    decreases k,
{
    if k > 0 {
        lemma_run_balanced_at(states, moves, times, k - 1);
        assert(shot_result(states[k - 1], states[k], moves[k - 1], times[k - 1]));
        lemma_turns_alternate(states[k - 1], states[k], moves[k - 1], times[k - 1]);
    }
    if k + 1 < states.len() {
        assert(shot_result(states[k], states[k + 1], moves[k], times[k]));
        lemma_turns_alternate(states[k], states[k + 1], moves[k], times[k]);
    }
}

/// Over any run of legal shots from a balanced state, every shot hands the
/// turn to the other side and the two shot counts never differ by more than one.
pub proof fn lemma_turns_alternate_along(states: Seq<MatchState>, moves: Seq<Move>, times: Seq<u64>)
    requires
        legal_run(states, moves, times),
        turns_balanced(states[0]),
    ensures
        forall|i: int| 0 <= i < states.len() ==> #[trigger] turns_balanced(states[i]),
        forall|i: int|
            0 <= i < states.len() ==> -1 <= #[trigger] states[i].ishots - states[i].gshots <= 1,
        forall|i: int|
            0 <= i < moves.len() ==> #[trigger] states[i + 1].whoseturn != states[i].whoseturn,
{
    assert forall|i: int| 0 <= i < states.len() implies #[trigger] turns_balanced(states[i]) by {
        lemma_run_balanced_at(states, moves, times, i);
    }
    assert forall|i: int| 0 <= i < states.len() implies -1 <= #[trigger] states[i].ishots
        - states[i].gshots <= 1 by {
        lemma_run_balanced_at(states, moves, times, i);
    }
    assert forall|i: int| 0 <= i < moves.len() implies #[trigger] states[i + 1].whoseturn
        != states[i].whoseturn by {
        lemma_run_balanced_at(states, moves, times, i);
    }
}

} // verus!

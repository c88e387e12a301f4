use vstd::prelude::*;
use vstd::utf8::encode_utf8;

use crate::error::GameError;
use crate::kernel::{
    claim_judgement, claimant_board, claimed_commitment, commitment_message, keccak256,
    layout_valid, lemma_fraud_loses, packed_cells, seed_fits, verify_and_score, Verdict,
};
use crate::settlement::lemma_match_pot_conserved;
use crate::settlement::{match_settlement, settle_match, Payout, HOST_FEE_PERCENT};
use crate::shot::shot_error;
use crate::shot::shot_result;
use crate::state::{
    same_bytes, ClaimVictory, GameState, Init, Join, MatchState, Move, PHASE_ABORTED,
    PHASE_AWAITING_GUEST, PHASE_EMPTY, PHASE_IN_PROGRESS, PHASE_SETTLED, TURN_GUEST,
    TURN_INITIALIZER,
};

verus! {

/// Length of a standalone game seed, in bytes.
pub const GAME_SEED_LEN: usize = 5;
/// Inactivity after which a standalone match may be claimed by timeout.
pub const MOVE_TIMEOUT: u64 = 120;

/// The operations of the game. Each takes the records it reads and writes,
/// the identities and signatures of the parties, balances and the current
/// time, checks everything before changing anything, and says which
/// transfers the ledger must make.
pub struct Processor;

/// A party to an operation: its key and whether it signed.
#[derive(Debug, Clone, Copy, PartialEq, Eq)]
pub struct Party {
    pub key: [u8; 32],
    pub is_signer: bool,
}

/// At least `timeout` time units lie between `last` and `now`.
pub open spec fn timed_out(last: u64, now: u64, timeout: u64) -> bool {
    now >= last && now - last >= timeout
}

/// Whether at least `timeout` time units lie between `last` and `now`.
pub fn has_timed_out(last: u64, now: u64, timeout: u64) -> (r: bool)
    ensures
        r == timed_out(last, now, timeout),
{
    now >= last && now - last >= timeout
}

/// `t` is a freshly created match: phase `phase`, the payload's seed and
/// commitment, the given stake, no guest, no shots.
pub open spec fn fresh_match(t: MatchState, init: Init, initializer: [u8; 32], stake: u64, phase: u8) -> bool {
    &&& t.initialized == phase
    &&& t.gameseed == init.gameseed
    &&& t.lamports == stake
    &&& t.initializer == initializer
    &&& t.initializergamehash == init.initializer_game_hash
    &&& t.guest@ == Seq::new(32, |i: int| 0u8)
    &&& t.guestgamehash@ == Seq::new(32, |i: int| 0u8)
    &&& t.whoseturn == 0
    &&& t.lastplaytime == 0
    &&& t.lastmove == 0
    &&& t.ishots == 0 && t.ihits == 0 && t.gshots == 0 && t.ghits == 0
    &&& t.initializer_board_state@ == Seq::new(128, |i: int| 0u8)
    &&& t.guest_board_state@ == Seq::new(128, |i: int| 0u8)
}

/// `t` is `s` with the guest joined at `now`: its key and commitment
/// recorded, the turn with the initializer, phase `phase`.
pub open spec fn joined_match(s: MatchState, t: MatchState, guest: [u8; 32], hash: [u8; 32], now: u64, phase: u8) -> bool {
    t == MatchState {
        guest: guest,
        guestgamehash: hash,
        lastplaytime: now,
        whoseturn: TURN_INITIALIZER,
        initialized: phase,
        ..s
    }
}

/// The standalone verdict of a timeout: the side not holding the turn wins.
pub open spec fn timeout_verdict(whoseturn: u8) -> Option<Verdict> {
    if whoseturn == TURN_INITIALIZER {
        Some(Verdict::GuestWins)
    } else if whoseturn == TURN_GUEST {
        Some(Verdict::InitializerWins)
    } else {
        None
    }
}

/// The three parties named by a standalone operation are the record's own.
pub open spec fn parties_match(s: GameState, initializer: [u8; 32], guest: [u8; 32], host: [u8; 32]) -> bool {
    s.game.initializer == initializer && s.game.guest == guest && s.host == host
}

/// Outcome of a score claim on a standalone match whose record holds `pot`.
pub open spec fn score_claim_outcome(s: GameState, c: ClaimVictory, pot: u64) -> Result<Payout, GameError> {
    if s.game.initialized != PHASE_IN_PROGRESS {
        Err(GameError::PhaseError)
    } else {
        match claim_judgement(s.game, c) {
            Err(e) => Err(e),
            Ok(v) => match_settlement(pot, s.game.lamports, HOST_FEE_PERCENT, v),
        }
    }
}

/// Outcome of a timeout claim on a standalone match whose record holds `pot`.
pub open spec fn timeout_claim_outcome(s: GameState, pot: u64, now: u64) -> Result<Payout, GameError> {
    if s.game.initialized != PHASE_IN_PROGRESS {
        Err(GameError::PhaseError)
    } else if !timed_out(s.game.lastplaytime, now, MOVE_TIMEOUT) {
        Err(GameError::TimeoutNotElapsed)
    } else {
        match timeout_verdict(s.game.whoseturn) {
            None => Err(GameError::PhaseError),
            Some(v) => match_settlement(pot, s.game.lamports, HOST_FEE_PERCENT, v),
        }
    }
}

/// `t` is `s` with its match in phase `phase` and nothing else changed.
pub open spec fn phase_set(s: GameState, t: GameState, phase: u8) -> bool {
    t == GameState { game: MatchState { initialized: phase, ..s.game }, ..s }
}

/// A match record with the payload's seed and commitment and nothing played.
pub fn new_match(init: &Init, initializer: &[u8; 32], stake: u64, phase: u8) -> (r: MatchState)
    ensures
        fresh_match(r, *init, *initializer, stake, phase),
{
    let r = MatchState {
        initialized: phase,
        gameseed: init.gameseed.clone(),
        lamports: stake,
        initializer: *initializer,
        initializergamehash: init.initializer_game_hash,
        guest: [0u8; 32],
        guestgamehash: [0u8; 32],
        whoseturn: 0,
        lastplaytime: 0,
        lastmove: 0,
        ishots: 0,
        ihits: 0,
        gshots: 0,
        ghits: 0,
        initializer_board_state: [0u8; 128],
        guest_board_state: [0u8; 128],
    };
    assert(r.guest@ =~= Seq::new(32, |i: int| 0u8));
    assert(r.guestgamehash@ =~= Seq::new(32, |i: int| 0u8));
    assert(r.initializer_board_state@ =~= Seq::new(128, |i: int| 0u8));
    assert(r.guest_board_state@ =~= Seq::new(128, |i: int| 0u8));
    r
}

/// A timeout claim one time unit before the timeout is too early; at the
/// timeout exactly it is in time.
pub proof fn lemma_timeout_boundary(last: u64, timeout: u64)
    requires
        timeout >= 1,
        last + timeout <= u64::MAX,
    ensures
        !timed_out(last, (last + timeout - 1) as u64, timeout),
        timed_out(last, (last + timeout) as u64, timeout),
{
}

/// A match that a guest joins with no shots fired starts with balanced turns.
pub proof fn lemma_joined_match_balanced(
    s: MatchState,
    t: MatchState,
    guest: [u8; 32],
    hash: [u8; 32],
    now: u64,
    phase: u8,
)
    requires
        s.ishots == s.gshots,
        joined_match(s, t, guest, hash, now, phase),
    ensures
        crate::shot::turns_balanced(t),
{
}

/// A standalone score claim that succeeds pays out the record's pot
/// exactly: host, initializer and guest together receive `pot`.
pub proof fn lemma_score_claim_conserves_pot(s: GameState, c: ClaimVictory, pot: u64)
    ensures
        score_claim_outcome(s, c, pot) matches Ok(p) ==> p.host + p.initializer + p.guest == pot,
{
    if let Ok(v) = claim_judgement(s.game, c) {
        lemma_match_pot_conserved(pot, s.game.lamports, HOST_FEE_PERCENT, v);
    }
}

/// A standalone timeout claim that succeeds pays out the record's pot exactly.
pub proof fn lemma_timeout_claim_conserves_pot(s: GameState, pot: u64, now: u64)
    ensures
        timeout_claim_outcome(s, pot, now) matches Ok(p) ==> p.host + p.initializer + p.guest
            == pot,
{
    if let Some(v) = timeout_verdict(s.game.whoseturn) {
        lemma_match_pot_conserved(pot, s.game.lamports, HOST_FEE_PERCENT, v);
    }
}

/// A standalone score claim whose revealed layout (matching the commitment,
/// with both sides having fired equally often) puts a ship on a cell the
/// opponent recorded as neither unchecked nor hit is settled as a win of
/// the opponent, whatever the hit counts were.
pub proof fn lemma_score_claim_fraud_loses(s: GameState, c: ClaimVictory, pot: u64, i: int)
    requires
        s.game.initialized == PHASE_IN_PROGRESS,
        layout_valid(c),
        keccak256(commitment_message(c.seed@, packed_cells(c))) == claimed_commitment(
            s.game,
            c.claims,
        ),
        s.game.ishots == s.game.gshots,
        0 <= i < packed_cells(c).len(),
        claimant_board(s.game, c.claims)[packed_cells(c)[i] as int] != 0,
        claimant_board(s.game, c.claims)[packed_cells(c)[i] as int] != 2,
    ensures
        score_claim_outcome(s, c, pot) == match_settlement(
            pot,
            s.game.lamports,
            HOST_FEE_PERCENT,
            if c.claims == 1 {
                Verdict::GuestWins
            } else {
                Verdict::InitializerWins
            },
        ),
{
    lemma_fraud_loses(
        s.game,
        c.claims,
        packed_cells(c),
        keccak256(commitment_message(c.seed@, packed_cells(c))),
        i,
    );
}

impl Processor {
    /// Creates a standalone match in an empty record. The record must be
    /// empty, the game seed exactly five bytes, and the record's `balance`
    /// must cover the stake plus the maintenance `deposit`.
    pub fn init_game(
        state: &mut GameState,
        init: &Init,
        initializer: &[u8; 32],
        host: &[u8; 32],
        balance: u64,
        deposit: u64,
    ) -> (r: Result<(), GameError>)
        ensures
            r is Err <==> (old(state).game.initialized != PHASE_EMPTY || encode_utf8(
                init.gameseed@,
            ).len() != GAME_SEED_LEN || balance < init.lamports + deposit),
            r is Err ==> *final(state) == *old(state),
            old(state).game.initialized != PHASE_EMPTY ==> r == Err::<(), GameError>(
                GameError::PhaseError,
            ),
            old(state).game.initialized == PHASE_EMPTY && encode_utf8(init.gameseed@).len()
                != GAME_SEED_LEN ==> r == Err::<(), GameError>(GameError::ValidationError),
            old(state).game.initialized == PHASE_EMPTY && encode_utf8(init.gameseed@).len()
                == GAME_SEED_LEN && balance < init.lamports + deposit ==> r == Err::<(), GameError>(
                GameError::InsufficientFunds,
            ),
            r is Ok ==> final(state).host == *host && final(state).waiting == 1 && fresh_match(
                final(state).game,
                *init,
                *initializer,
                init.lamports,
                PHASE_AWAITING_GUEST,
            ),
    {
        if state.game.initialized != PHASE_EMPTY {
            return Err(GameError::PhaseError);
        }
        if init.gameseed.as_str().as_bytes().len() != GAME_SEED_LEN {
            return Err(GameError::ValidationError);
        }
        if (balance as u128) < (init.lamports as u128) + (deposit as u128) {
            return Err(GameError::InsufficientFunds);
        }
        state.host = *host;
        state.waiting = 1;
        state.game = new_match(init, initializer, init.lamports, PHASE_AWAITING_GUEST);
        Ok(())
    }

    /// A guest joins a match that awaits one. Returns the stake the guest
    /// must move into the match record.
    pub fn join_the_game(
        state: &mut GameState,
        join: &Join,
        guest: &[u8; 32],
        host: &[u8; 32],
        now: u64,
    ) -> (r: Result<u64, GameError>)
        ensures
            old(state).host != *host ==> r == Err::<u64, GameError>(GameError::AuthorizationError),
            old(state).host == *host && old(state).game.initialized != PHASE_AWAITING_GUEST ==> r
                == Err::<u64, GameError>(GameError::PhaseError),
            old(state).host == *host && old(state).game.initialized == PHASE_AWAITING_GUEST ==> r
                == Ok::<u64, GameError>(old(state).game.lamports),
            r is Err ==> *final(state) == *old(state),
            r is Ok ==> final(state).host == old(state).host && final(state).waiting == 2
                && joined_match(
                old(state).game,
                final(state).game,
                *guest,
                join.guest_game_hash,
                now,
                PHASE_IN_PROGRESS,
            ),
    {
        if !same_bytes(&state.host, host) {
            return Err(GameError::AuthorizationError);
        }
        if state.game.initialized != PHASE_AWAITING_GUEST {
            return Err(GameError::PhaseError);
        }
        state.game.guest = *guest;
        state.game.guestgamehash = join.guest_game_hash;
        state.waiting = 2;
        state.game.lastplaytime = now;
        state.game.whoseturn = TURN_INITIALIZER;
        state.game.initialized = PHASE_IN_PROGRESS;
        Ok(state.game.lamports)
    }

    /// The side holding the turn fires a shot.
    pub fn play(
        state: &mut GameState,
        mv: Move,
        initializer: &Party,
        guest: &Party,
        host: &[u8; 32],
        now: u64,
    ) -> (r: Result<(), GameError>)
        ensures
            !parties_match(*old(state), initializer.key, guest.key, *host) ==> r == Err::<
                (),
                GameError,
            >(GameError::AuthorizationError),
            parties_match(*old(state), initializer.key, guest.key, *host)
                && old(state).game.initialized != PHASE_IN_PROGRESS ==> r == Err::<(), GameError>(
                GameError::PhaseError,
            ),
            parties_match(*old(state), initializer.key, guest.key, *host)
                && old(state).game.initialized == PHASE_IN_PROGRESS ==> r == (match shot_error(
                old(state).game,
                mv,
                initializer.is_signer,
                guest.is_signer,
            ) {
                Some(e) => Err(e),
                None => Ok(()),
            }),
            r is Err ==> *final(state) == *old(state),
            r is Ok ==> final(state).host == old(state).host && final(state).waiting
                == old(state).waiting && shot_result(old(state).game, final(state).game, mv, now),
    {
        if !(same_bytes(&state.game.initializer, &initializer.key) && same_bytes(
            &state.game.guest,
            &guest.key,
        ) && same_bytes(&state.host, host)) {
            return Err(GameError::AuthorizationError);
        }
        if state.game.initialized != PHASE_IN_PROGRESS {
            return Err(GameError::PhaseError);
        }
        state.game.apply_shot(mv, initializer.is_signer, guest.is_signer, now)
    }

    /// Claims victory by revealing a layout. On a verdict the record's `pot`
    /// is split and the match is settled; otherwise nothing changes.
    pub fn claim_victory_by_score(
        state: &mut GameState,
        claim: &ClaimVictory,
        initializer: &[u8; 32],
        guest: &[u8; 32],
        host: &[u8; 32],
        pot: u64,
    ) -> (r: Result<Payout, GameError>)
        requires
            seed_fits(claim.seed@),
        ensures
            !parties_match(*old(state), *initializer, *guest, *host) ==> r == Err::<
                Payout,
                GameError,
            >(GameError::AuthorizationError),
            parties_match(*old(state), *initializer, *guest, *host) ==> r == score_claim_outcome(
                *old(state),
                *claim,
                pot,
            ),
            r is Err ==> *final(state) == *old(state),
            r is Ok ==> phase_set(*old(state), *final(state), PHASE_SETTLED),
    {
        if !(same_bytes(&state.game.initializer, initializer) && same_bytes(&state.game.guest, guest)
            && same_bytes(&state.host, host)) {
            return Err(GameError::AuthorizationError);
        }
        if state.game.initialized != PHASE_IN_PROGRESS {
            return Err(GameError::PhaseError);
        }
        let v: Verdict = match verify_and_score(&state.game, claim) {
            Ok(v) => v,
            Err(e) => return Err(e),
        };
        let p: Payout = match settle_match(pot, state.game.lamports, HOST_FEE_PERCENT, v) {
            Ok(p) => p,
            Err(e) => return Err(e),
        };
        state.game.initialized = PHASE_SETTLED;
        Ok(p)
    }

    /// Claims victory because the side holding the turn has not moved for
    /// `MOVE_TIMEOUT`: the other side wins.
    pub fn claim_victory_by_time(
        state: &mut GameState,
        initializer: &[u8; 32],
        guest: &[u8; 32],
        host: &[u8; 32],
        pot: u64,
        now: u64,
    ) -> (r: Result<Payout, GameError>)
        ensures
            !parties_match(*old(state), *initializer, *guest, *host) ==> r == Err::<
                Payout,
                GameError,
            >(GameError::AuthorizationError),
            parties_match(*old(state), *initializer, *guest, *host) ==> r
                == timeout_claim_outcome(*old(state), pot, now),
            r is Err ==> *final(state) == *old(state),
            r is Ok ==> phase_set(*old(state), *final(state), PHASE_SETTLED),
    {
        if !(same_bytes(&state.game.initializer, initializer) && same_bytes(&state.game.guest, guest)
            && same_bytes(&state.host, host)) {
            return Err(GameError::AuthorizationError);
        }
        if state.game.initialized != PHASE_IN_PROGRESS {
            return Err(GameError::PhaseError);
        }
        if !has_timed_out(state.game.lastplaytime, now, MOVE_TIMEOUT) {
            return Err(GameError::TimeoutNotElapsed);
        }
        let v: Verdict = if state.game.whoseturn == TURN_INITIALIZER {
            Verdict::GuestWins
        } else if state.game.whoseturn == TURN_GUEST {
            Verdict::InitializerWins
        } else {
            return Err(GameError::PhaseError);
        };
        let p: Payout = match settle_match(pot, state.game.lamports, HOST_FEE_PERCENT, v) {
            Ok(p) => p,
            Err(e) => return Err(e),
        };
        state.game.initialized = PHASE_SETTLED;
        Ok(p)
    }

    /// Calls off a match no guest has joined. Returns the amount, the whole
    /// `balance` of the record, that goes back to the initializer.
    pub fn abort_game(state: &mut GameState, initializer: &[u8; 32], balance: u64) -> (r: Result<
        u64,
        GameError,
    >)
        ensures
            old(state).game.initializer != *initializer ==> r == Err::<u64, GameError>(
                GameError::AuthorizationError,
            ),
            old(state).game.initializer == *initializer && old(state).game.initialized
                != PHASE_AWAITING_GUEST ==> r == Err::<u64, GameError>(GameError::PhaseError),
            old(state).game.initializer == *initializer && old(state).game.initialized
                == PHASE_AWAITING_GUEST ==> r == Ok::<u64, GameError>(balance),
            r is Err ==> *final(state) == *old(state),
            r is Ok ==> phase_set(*old(state), *final(state), PHASE_ABORTED),
    {
        if !same_bytes(&state.game.initializer, initializer) {
            return Err(GameError::AuthorizationError);
        }
        if state.game.initialized != PHASE_AWAITING_GUEST {
            return Err(GameError::PhaseError);
        }
        state.game.initialized = PHASE_ABORTED;
        Ok(balance)
    }
}

} // verus!

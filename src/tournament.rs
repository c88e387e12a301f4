use vstd::arithmetic::div_mod::lemma_fundamental_div_mod_converse;
use vstd::arithmetic::power2::{
    lemma2_to64, lemma_pow2_pos, lemma_pow2_strictly_increases, lemma_pow2_unfold, pow2,
};
use vstd::prelude::*;
use vstd::string::StringExecFns;

use crate::error::GameError;
use crate::kernel::{
    claim_judgement, claimant_board, claimed_commitment, commitment_message, keccak256,
    layout_valid, lemma_fraud_loses, packed_cells, seed_fits, verify_and_score, Verdict,
};
use crate::processor::{
    fresh_match, has_timed_out, joined_match, new_match, timed_out, timeout_verdict, Party,
    Processor,
};
use crate::settlement::{settle_tournament, tournament_settlement, TournamentPayout};
use crate::shot::{shot_error, shot_result};
use crate::state::{
    same_bytes, ClaimVictory, DiscoveryKey, Init, InitTournamentCounter, Join, MatchKey, MatchState, Move, TGameState,
    Tournament, TournamentAccount, TournamentCounter, PHASE_EMPTY, PHASE_SETTLED,
    PHASE_TOURNAMENT_AWAITING, PHASE_TOURNAMENT_IN_PROGRESS, TURN_GUEST, TURN_INITIALIZER,
};

verus! {

/// Bracket levels that carry a reward tier.
pub const REWARD_LEVELS: u8 = 30;

/// The opponent of player `n` at bracket level `level`: a player is the
/// upper one of its pair when `n` is a multiple of `2^(level+1)`, and its
/// opponent lies `2^level` below it; otherwise the opponent lies `2^level` above.
pub open spec fn pairing(n: int, level: nat) -> int {
    if n % (pow2(level + 1) as int) == 0 {
        n - pow2(level)
    } else {
        n + pow2(level)
    }
}

/// The pairing rule restricted to player numbers.
pub open spec fn opponent_of(n: u32, level: u8) -> Option<u32> {
    if level < 32 && 0 <= pairing(n as int, level as nat) <= u32::MAX {
        Some(pairing(n as int, level as nat) as u32)
    } else {
        None
    }
}

/// The number a winner carries into the next level: the higher of the two.
pub open spec fn inherited_number(a: u32, b: u32) -> u32 {
    if a > b {
        a
    } else {
        b
    }
}

/// `t` is slot `s` after winning a round at time `now` and taking the number `no`.
pub open spec fn advanced(s: TournamentAccount, t: TournamentAccount, no: u32, now: u64) -> bool {
    t == TournamentAccount {
        player_find: DiscoveryKey { player: no, ..s.player_find },
        is_playing: 0,
        waiting_opponent_to_join: 0,
        level: (s.level + 1) as u8,
        playerno_int: no,
        opponent_played_on: now,
        ..s
    }
}

/// `t` is a slot freshly registered in tournament `tour` as player `n` of shard `shard`.
pub open spec fn registered(t: TournamentAccount, tour: Tournament, shard: u16, n: u32, player: [u8; 32]) -> bool {
    &&& t.player_find == DiscoveryKey { shard: shard, player: n, tournament_id: tour.tournament_id }
    &&& t.tournamentid == tour.tournament_id
    &&& t.player == player
    &&& opponent_of(n, 0) == Some(t.opponent)
    &&& t.level == 0
    &&& t.playerno_int == n
    &&& t.opponent_played_on == tour.starts_at
    &&& t.is_playing == 0
    &&& t.waiting_opponent_to_join == 0
}

/// Why a registration is refused, if it is.
pub open spec fn registration_error(t: Tournament, c: TournamentCounter, balance: u64) -> Option<GameError> {
    if balance < t.entrance_fee {
        Some(GameError::InsufficientFunds)
    } else if t.is_init != 1 {
        Some(GameError::PhaseError)
    } else if c.player_participating >= c.capacity {
        Some(GameError::CapacityReached)
    } else if opponent_of((c.player_participating + 1) as u32, 0) is None {
        Some(GameError::ValidationError)
    } else {
        None
    }
}

/// Why creating the match between slot `a` (the creator) and slot `o` is refused, if it is.
pub open spec fn match_initialize_error(
    t: Tournament,
    a: TournamentAccount,
    o: TournamentAccount,
    g: TGameState,
    initializer: Party,
    opponent: [u8; 32],
) -> Option<GameError> {
    if !initializer.is_signer {
        Some(GameError::AuthorizationError)
    } else if t.is_init != 1 {
        Some(GameError::PhaseError)
    } else if t.tournament_id@ != a.tournamentid@ || t.tournament_id@ != o.tournamentid@ {
        Some(GameError::AuthorizationError)
    } else if opponent != o.player || initializer.key != a.player {
        Some(GameError::AuthorizationError)
    } else if a.level != o.level || opponent_of(o.playerno_int, o.level) != Some(a.playerno_int)
        || opponent_of(a.playerno_int, a.level) != Some(o.playerno_int) {
        Some(GameError::ValidationError)
    } else if o.waiting_opponent_to_join != 0 || g.game.initialized != PHASE_EMPTY {
        Some(GameError::PhaseError)
    } else {
        None
    }
}

/// Why accepting the match created by slot `a` is refused, if it is.
pub open spec fn match_accept_error(
    t: Tournament,
    a: TournamentAccount,
    o: TournamentAccount,
    g: TGameState,
    initializer: [u8; 32],
    opponent: Party,
) -> Option<GameError> {
    if !opponent.is_signer {
        Some(GameError::AuthorizationError)
    } else if t.is_init != 1 {
        Some(GameError::PhaseError)
    } else if t.tournament_id@ != a.tournamentid@ || t.tournament_id@ != o.tournamentid@ {
        Some(GameError::AuthorizationError)
    } else if opponent.key != o.player || initializer != a.player || g.game.initializer
        != a.player {
        Some(GameError::AuthorizationError)
    } else if a.level != o.level || a.opponent != o.playerno_int {
        Some(GameError::ValidationError)
    } else if g.game.initialized != PHASE_TOURNAMENT_AWAITING {
        Some(GameError::PhaseError)
    } else {
        None
    }
}

/// How a tournament match ended.
#[derive(Debug, Clone, Copy, PartialEq, Eq, Structural)]
pub enum MatchOutcome {
    /// One side won; the payout comes out of the loser's slot.
    Decided { initializer_won: bool, payout: TournamentPayout },
    /// Neither won; the match record's balance goes back to the initializer.
    Drawn { refund: u64 },
}

/// Why an operation on the active match between slot `a` (its initializer)
/// and slot `o` is refused, if it is.
pub open spec fn active_match_error(
    t: Tournament,
    a: TournamentAccount,
    o: TournamentAccount,
    g: MatchState,
    initializer: [u8; 32],
    opponent: [u8; 32],
) -> Option<GameError> {
    if t.is_init != 1 {
        Some(GameError::PhaseError)
    } else if t.tournament_id@ != a.tournamentid@ || t.tournament_id@ != o.tournamentid@ {
        Some(GameError::AuthorizationError)
    } else if g.initializer != a.player || g.guest != o.player || initializer != a.player
        || opponent != o.player {
        Some(GameError::AuthorizationError)
    } else if a.level != o.level || a.opponent != o.playerno_int || o.opponent != a.playerno_int {
        Some(GameError::ValidationError)
    } else if a.is_playing != 1 || o.is_playing != 1 || g.initialized
        != PHASE_TOURNAMENT_IN_PROGRESS {
        Some(GameError::PhaseError)
    } else {
        None
    }
}

/// Payout of a decided match: the loser pays from its slot by the reward
/// tier of its level.
pub open spec fn decided_outcome(
    t: Tournament,
    a: TournamentAccount,
    o: TournamentAccount,
    initializer_won: bool,
    a_balance: u64,
    o_balance: u64,
    match_balance: u64,
) -> Result<MatchOutcome, GameError> {
    let loser = if initializer_won {
        o
    } else {
        a
    };
    let loser_balance = if initializer_won {
        o_balance
    } else {
        a_balance
    };
    if loser.level >= REWARD_LEVELS {
        Err(GameError::ValidationError)
    } else {
        match tournament_settlement(
            loser_balance,
            match_balance,
            t.entrance_fee,
            t.lvl_get@[loser.level as int],
            t.host_get,
        ) {
            Ok(p) => Ok(MatchOutcome::Decided { initializer_won: initializer_won, payout: p }),
            Err(e) => Err(e),
        }
    }
}

/// Outcome of a score claim in a tournament match.
pub open spec fn tournament_score_outcome(
    t: Tournament,
    a: TournamentAccount,
    o: TournamentAccount,
    g: MatchState,
    c: ClaimVictory,
    initializer: [u8; 32],
    opponent: [u8; 32],
    a_balance: u64,
    o_balance: u64,
    match_balance: u64,
) -> Result<MatchOutcome, GameError> {
    match active_match_error(t, a, o, g, initializer, opponent) {
        Some(e) => Err(e),
        None => match claim_judgement(g, c) {
            Err(e) => Err(e),
            Ok(Verdict::Draw) => Ok(MatchOutcome::Drawn { refund: match_balance }),
            Ok(Verdict::InitializerWins) => decided_outcome(
                t,
                a,
                o,
                true,
                a_balance,
                o_balance,
                match_balance,
            ),
            Ok(Verdict::GuestWins) => decided_outcome(
                t,
                a,
                o,
                false,
                a_balance,
                o_balance,
                match_balance,
            ),
        },
    }
}

/// Outcome of eliminating the side of an active match that holds the turn
/// and has not moved for the tournament's timeout.
pub open spec fn stalled_outcome(
    t: Tournament,
    a: TournamentAccount,
    o: TournamentAccount,
    g: MatchState,
    initializer: [u8; 32],
    opponent: [u8; 32],
    a_balance: u64,
    o_balance: u64,
    match_balance: u64,
    now: u64,
) -> Result<MatchOutcome, GameError> {
    match active_match_error(t, a, o, g, initializer, opponent) {
        Some(e) => Err(e),
        None => if !timed_out(g.lastplaytime, now, t.time_is_up) {
            Err(GameError::TimeoutNotElapsed)
        } else {
            match timeout_verdict(g.whoseturn) {
                Some(Verdict::InitializerWins) => decided_outcome(
                    t,
                    a,
                    o,
                    true,
                    a_balance,
                    o_balance,
                    match_balance,
                ),
                Some(Verdict::GuestWins) => decided_outcome(
                    t,
                    a,
                    o,
                    false,
                    a_balance,
                    o_balance,
                    match_balance,
                ),
                _ => Err(GameError::PhaseError),
            }
        },
    }
}

/// What a finished tournament match does to the two slots and the record.
pub open spec fn match_finished(
    a0: TournamentAccount,
    o0: TournamentAccount,
    g0: MatchState,
    a1: TournamentAccount,
    o1: TournamentAccount,
    g1: MatchState,
    outcome: MatchOutcome,
    now: u64,
) -> bool {
    &&& g1 == (MatchState { initialized: PHASE_SETTLED, ..g0 })
    &&& match outcome {
        MatchOutcome::Decided { initializer_won, payout } => if initializer_won {
            advanced(a0, a1, inherited_number(a0.playerno_int, o0.playerno_int), now) && o1 == o0
        } else {
            advanced(o0, o1, inherited_number(a0.playerno_int, o0.playerno_int), now) && a1 == a0
        },
        MatchOutcome::Drawn { refund } => a1 == (TournamentAccount {
            is_playing: 0,
            waiting_opponent_to_join: 0,
            opponent_played_on: now,
            ..a0
        }) && o1 == (TournamentAccount {
            is_playing: 0,
            waiting_opponent_to_join: 0,
            opponent_played_on: now,
            ..o0
        }),
    }
}

/// Why eliminating slot `el`, which has not created its match against
/// `op` in time, is refused, if it is.
pub open spec fn no_show_error(
    t: Tournament,
    el: TournamentAccount,
    op: TournamentAccount,
    eliminated: [u8; 32],
    opponent: [u8; 32],
    now: u64,
) -> Option<GameError> {
    if t.is_init != 1 {
        Some(GameError::PhaseError)
    } else if t.tournament_id@ != el.tournamentid@ || t.tournament_id@ != op.tournamentid@ {
        Some(GameError::AuthorizationError)
    } else if eliminated != el.player || opponent != op.player {
        Some(GameError::AuthorizationError)
    } else if el.waiting_opponent_to_join != 0 || el.is_playing != 0 {
        Some(GameError::PhaseError)
    } else if el.opponent != op.playerno_int || el.playerno_int != op.opponent || el.level
        != op.level {
        Some(GameError::ValidationError)
    } else if !timed_out(el.opponent_played_on, now, t.time_is_up) {
        Some(GameError::TimeoutNotElapsed)
    } else if el.level >= REWARD_LEVELS {
        Some(GameError::ValidationError)
    } else {
        None
    }
}

/// The opponent of player `n` at bracket level `level`, if it is a player number.
pub fn opponent_number(n: u32, level: u8) -> (r: Option<u32>)
    ensures
        r == opponent_of(n, level),
{
    if level >= 32 {
        return None;
    }
    let mut p: u64 = 1;
    let mut i: u8 = 0;
    proof {
        lemma2_to64();
    }
    while i < level
        invariant
            i <= level < 32,
            p == pow2(i as nat),
            pow2(31) == 0x8000_0000,
        decreases level - i,
    {
        proof {
            lemma_pow2_unfold((i + 1) as nat);
            if i + 1 < 31 {
                lemma_pow2_strictly_increases((i + 1) as nat, 31);
            }
        }
        p = p * 2;
        i = i + 1;
    }
    proof {
        lemma_pow2_unfold((level + 1) as nat);
    }
    let block: u64 = 2 * p;
    let n64: u64 = n as u64;
    if n64 % block == 0 {
        if n64 >= p {
            Some((n64 - p) as u32)
        } else {
            None
        }
    } else if n64 + p <= u32::MAX as u64 {
        Some((n64 + p) as u32)
    } else {
        None
    }
}

/// The canonical key of the match between players `a` and `b`: lower number first.
pub fn match_key(tournament_id: &String, a: u32, b: u32) -> (r: MatchKey)
    ensures
        r.tournament_id == *tournament_id,
        r.low == if a < b { a } else { b },
        r.high == inherited_number(a, b),
{
    if a < b {
        MatchKey { tournament_id: tournament_id.clone(), low: a, high: b }
    } else {
        MatchKey { tournament_id: tournament_id.clone(), low: b, high: a }
    }
}

/// Checks that slots `a` and `o` are the two sides of the active match `g`.
fn check_active_match(
    t: &Tournament,
    a: &TournamentAccount,
    o: &TournamentAccount,
    g: &MatchState,
    initializer: &[u8; 32],
    opponent: &[u8; 32],
) -> (r: Result<(), GameError>)
    ensures
        r == (match active_match_error(*t, *a, *o, *g, *initializer, *opponent) {
            Some(e) => Err(e),
            None => Ok(()),
        }),
{
    if t.is_init != 1 {
        return Err(GameError::PhaseError);
    }
    if !(same_text(&t.tournament_id, &a.tournamentid) && same_text(
        &t.tournament_id,
        &o.tournamentid,
    )) {
        return Err(GameError::AuthorizationError);
    }
    if !(same_bytes(&g.initializer, &a.player) && same_bytes(&g.guest, &o.player) && same_bytes(
        initializer,
        &a.player,
    ) && same_bytes(opponent, &o.player)) {
        return Err(GameError::AuthorizationError);
    }
    if a.level != o.level || a.opponent != o.playerno_int || o.opponent != a.playerno_int {
        return Err(GameError::ValidationError);
    }
    if a.is_playing != 1 || o.is_playing != 1 || g.initialized != PHASE_TOURNAMENT_IN_PROGRESS {
        return Err(GameError::PhaseError);
    }
    Ok(())
}

/// Moves slot `s` up a level with the number `no`.
fn advance(s: &mut TournamentAccount, no: u32, now: u64)
    requires
        old(s).level < 255,
    ensures
        advanced(*old(s), *final(s), no, now),
{
    s.player_find.player = no;
    s.is_playing = 0;
    s.waiting_opponent_to_join = 0;
    s.level = s.level + 1;
    s.playerno_int = no;
    s.opponent_played_on = now;
}

/// The higher of two player numbers.
fn higher_number(a: u32, b: u32) -> (r: u32)
    ensures
        r == inherited_number(a, b),
{
    if a > b {
        a
    } else {
        b
    }
}

/// Settles a decided match: pays out of the loser's slot, advances the
/// winner and closes the match record.
fn settle_decided(
    t: &Tournament,
    a: &mut TournamentAccount,
    o: &mut TournamentAccount,
    g: &mut MatchState,
    initializer_won: bool,
    a_balance: u64,
    o_balance: u64,
    match_balance: u64,
    now: u64,
) -> (r: Result<MatchOutcome, GameError>)
    requires
        old(a).level == old(o).level,
    ensures
        r == decided_outcome(*t, *old(a), *old(o), initializer_won, a_balance, o_balance, match_balance),
        r is Err ==> *final(a) == *old(a) && *final(o) == *old(o) && *final(g) == *old(g),
        r is Ok ==> match_finished(*old(a), *old(o), *old(g), *final(a), *final(o), *final(g), r->Ok_0, now),
{
    let level: u8 = if initializer_won {
        o.level
    } else {
        a.level
    };
    if level >= REWARD_LEVELS {
        return Err(GameError::ValidationError);
    }
    let loser_balance: u64 = if initializer_won {
        o_balance
    } else {
        a_balance
    };
    let tier: u8 = t.lvl_get[level as usize];
    let payout: TournamentPayout = match settle_tournament(
        loser_balance,
        match_balance,
        t.entrance_fee,
        tier,
        t.host_get,
    ) {
        Ok(p) => p,
        Err(e) => return Err(e),
    };
    let no: u32 = higher_number(a.playerno_int, o.playerno_int);
    if initializer_won {
        advance(a, no, now);
    } else {
        advance(o, no, now);
    }
    g.initialized = PHASE_SETTLED;
    Ok(MatchOutcome::Decided { initializer_won, payout })
}

/// `k * 2^level` leaves `(k % 2) * 2^level` when divided by `2^(level+1)`.
proof fn lemma_multiple_mod(k: int, level: nat)
    requires
        k >= 0,
    ensures
        (k * pow2(level)) % (pow2(level + 1) as int) == (k % 2) * pow2(level),
{
    let p = pow2(level) as int;
    lemma_pow2_pos(level);
    lemma_pow2_unfold(level + 1);
    assert(k * p == (k / 2) * (2 * p) + (k % 2) * p) by (nonlinear_arith)
        requires
            k >= 0,
            p > 0,
    ;
    assert(0 <= (k % 2) * p < 2 * p) by (nonlinear_arith)
        requires
            k >= 0,
            p > 0,
    ;
    lemma_fundamental_div_mod_converse(k * p, 2 * p, k / 2, (k % 2) * p);
}

/// The bracket pairs players whose numbers are multiples of `2^level`: the
/// opponent of such a player is such a player again, the opponent's
/// opponent is the player itself, and the higher of the two numbers, which
/// the winner carries on, is a multiple of `2^(level+1)`.
pub proof fn lemma_pairing_consistent(k: int, level: nat)
    requires
        k >= 1,
    ensures
        pairing(k * pow2(level), level) >= pow2(level),
        pairing(k * pow2(level), level) % (pow2(level) as int) == 0,
        pairing(pairing(k * pow2(level), level), level) == k * pow2(level),
        (if k * pow2(level) > pairing(k * pow2(level), level) {
            k * pow2(level)
        } else {
            pairing(k * pow2(level), level)
        }) % (pow2(level + 1) as int) == 0,
{
    let p = pow2(level) as int;
    lemma_pow2_pos(level);
    lemma_pow2_unfold(level + 1);
    lemma_multiple_mod(k, level);
    if k % 2 == 0 {
        assert(k * p - p == (k - 1) * p) by (nonlinear_arith);
        lemma_multiple_mod(k - 1, level);
        assert((k - 1) * p % p == 0) by (nonlinear_arith)
            requires
                p > 0,
                k >= 1,
        ;
        assert((k - 1) * p >= p) by (nonlinear_arith)
            requires
                p > 0,
                k >= 2,
        ;
        assert(k * p % (2 * p) == 0) by (nonlinear_arith)
            requires
                k * p % (2 * p) == (k % 2) * p,
                k % 2 == 0,
        ;
    } else {
        assert(k * p + p == (k + 1) * p) by (nonlinear_arith);
        lemma_multiple_mod(k + 1, level);
        assert((k + 1) * p % p == 0) by (nonlinear_arith)
            requires
                p > 0,
                k >= 1,
        ;
        assert((k + 1) * p >= p) by (nonlinear_arith)
            requires
                p > 0,
                k >= 1,
        ;
        assert(((k + 1) % 2) * p == 0) by (nonlinear_arith)
            requires
                k % 2 == 1,
        ;
    }
}

/// Eliminating a player who stalls mid-match fails with `TimeoutNotElapsed`
/// one time unit before the tournament's timeout and gets past the timeout
/// check at the timeout exactly.
pub proof fn lemma_stalled_timeout_boundary(
    t: Tournament,
    a: TournamentAccount,
    o: TournamentAccount,
    g: MatchState,
    initializer: [u8; 32],
    opponent: [u8; 32],
    a_balance: u64,
    o_balance: u64,
    match_balance: u64,
)
    requires
        active_match_error(t, a, o, g, initializer, opponent) is None,
        t.time_is_up >= 1,
        g.lastplaytime + t.time_is_up <= u64::MAX,
    ensures
        stalled_outcome(t, a, o, g, initializer, opponent, a_balance, o_balance, match_balance, (
        g.lastplaytime + t.time_is_up - 1) as u64) == Err::<MatchOutcome, GameError>(
            GameError::TimeoutNotElapsed,
        ),
        stalled_outcome(t, a, o, g, initializer, opponent, a_balance, o_balance, match_balance, (
        g.lastplaytime + t.time_is_up) as u64) != Err::<MatchOutcome, GameError>(
            GameError::TimeoutNotElapsed,
        ),
{
}

/// Where every other condition holds, eliminating a no-show fails with
/// `TimeoutNotElapsed` one time unit before the tournament's timeout after
/// its previous round, and succeeds at the timeout exactly.
pub proof fn lemma_no_show_timeout_boundary(
    t: Tournament,
    el: TournamentAccount,
    op: TournamentAccount,
    eliminated: [u8; 32],
    opponent: [u8; 32],
)
    requires
        no_show_error(t, el, op, eliminated, opponent, u64::MAX) is None,
        t.time_is_up >= 1,
        el.opponent_played_on + t.time_is_up <= u64::MAX,
    ensures
        no_show_error(t, el, op, eliminated, opponent, (el.opponent_played_on + t.time_is_up
            - 1) as u64) == Some(GameError::TimeoutNotElapsed),
        no_show_error(t, el, op, eliminated, opponent, (el.opponent_played_on
            + t.time_is_up) as u64) is None,
{
}

/// A decided tournament match moves no more and no less than it holds:
/// the host fee, the reward and the sweep to the winner's slot add up to the
/// loser's slot balance, and the match record's balance moves whole (to the
/// initializer's slot on a win, to the initializer on a draw).
pub proof fn lemma_tournament_claim_conserves(
    t: Tournament,
    a: TournamentAccount,
    o: TournamentAccount,
    g: MatchState,
    c: ClaimVictory,
    initializer: [u8; 32],
    opponent: [u8; 32],
    a_balance: u64,
    o_balance: u64,
    match_balance: u64,
)
    ensures
        match tournament_score_outcome(
            t,
            a,
            o,
            g,
            c,
            initializer,
            opponent,
            a_balance,
            o_balance,
            match_balance,
        ) {
            Ok(MatchOutcome::Decided { initializer_won, payout }) => payout.host + payout.winner
                + payout.winner_slot == (if initializer_won {
                o_balance
            } else {
                a_balance
            }) && payout.initializer_slot == match_balance,
            Ok(MatchOutcome::Drawn { refund }) => refund == match_balance,
            Err(_) => true,
        },
{
}

/// A tournament score claim whose revealed layout (matching the commitment,
/// with both sides having fired equally often) puts a ship on a cell the
/// opponent recorded as neither unchecked nor hit is decided for the
/// opponent, whatever the hit counts were.
pub proof fn lemma_tournament_claim_fraud_loses(
    t: Tournament,
    a: TournamentAccount,
    o: TournamentAccount,
    g: MatchState,
    c: ClaimVictory,
    initializer: [u8; 32],
    opponent: [u8; 32],
    a_balance: u64,
    o_balance: u64,
    match_balance: u64,
    i: int,
)
    requires
        active_match_error(t, a, o, g, initializer, opponent) is None,
        layout_valid(c),
        keccak256(commitment_message(c.seed@, packed_cells(c))) == claimed_commitment(g, c.claims),
        g.ishots == g.gshots,
        0 <= i < packed_cells(c).len(),
        claimant_board(g, c.claims)[packed_cells(c)[i] as int] != 0,
        claimant_board(g, c.claims)[packed_cells(c)[i] as int] != 2,
    ensures
        tournament_score_outcome(
            t,
            a,
            o,
            g,
            c,
            initializer,
            opponent,
            a_balance,
            o_balance,
            match_balance,
        ) == decided_outcome(t, a, o, c.claims != 1, a_balance, o_balance, match_balance),
{
    lemma_fraud_loses(
        g,
        c.claims,
        packed_cells(c),
        keccak256(commitment_message(c.seed@, packed_cells(c))),
        i,
    );
}

/// Whether two text fields hold the same characters.
fn same_text(a: &String, b: &String) -> (r: bool)
    ensures
        r == (a@ == b@),
{
    *a == *b
}

impl Processor {
    /// Checks that `caller` is the configured registry authority and signed.
    pub fn authorize_admin(authority: &[u8; 32], caller: &Party) -> (r: Result<(), GameError>)
        ensures
            r == if caller.key == *authority && caller.is_signer {
                Ok::<(), GameError>(())
            } else {
                Err::<(), GameError>(GameError::AuthorizationError)
            },
    {
        if same_bytes(&caller.key, authority) && caller.is_signer {
            Ok(())
        } else {
            Err(GameError::AuthorizationError)
        }
    }

    /// The registry authority creates an empty shard ("E") from its payload.
    pub fn initialize_counter(
        authority: &[u8; 32],
        caller: &Party,
        init: &InitTournamentCounter,
    ) -> (r: Result<TournamentCounter, GameError>)
        ensures
            !(caller.key == *authority && caller.is_signer) ==> r == Err::<
                TournamentCounter,
                GameError,
            >(GameError::AuthorizationError),
            caller.key == *authority && caller.is_signer ==> r is Ok,
            r matches Ok(c) ==> c.empty@ == seq!['E'] && c.counter_no == init.counter_no
                && c.player_participating == 0 && c.capacity == init.capacity && c.tournament_id
                == init.tournament_id,
    {
        match Processor::authorize_admin(authority, caller) {
            Ok(()) => {},
            Err(e) => return Err(e),
        }
        proof {
            reveal_strlit("E");
        }
        Ok(
            TournamentCounter {
                empty: String::from_str("E"),
                counter_no: init.counter_no,
                player_participating: 0,
                capacity: init.capacity,
                tournament_id: init.tournament_id.clone(),
            },
        )
    }

    /// Registers a participant whose slot holds `balance`: it takes the next
    /// player number of the shard `counter`, and its level-0 opponent follows
    /// the pairing rule. A shard that reaches its capacity is marked full ("F").
    pub fn join_tournament(
        t: &Tournament,
        counter: &mut TournamentCounter,
        participant: &[u8; 32],
        balance: u64,
    ) -> (r: Result<TournamentAccount, GameError>)
        ensures
            registration_error(*t, *old(counter), balance) matches Some(e) ==> r == Err::<
                TournamentAccount,
                GameError,
            >(e),
            registration_error(*t, *old(counter), balance) is None ==> r is Ok,
            r is Err ==> *final(counter) == *old(counter),
            r is Ok ==> registered(
                r->Ok_0,
                *t,
                old(counter).counter_no,
                (old(counter).player_participating + 1) as u32,
                *participant,
            ),
            r is Ok ==> final(counter).player_participating == old(counter).player_participating
                + 1 && final(counter).counter_no == old(counter).counter_no
                && final(counter).capacity == old(counter).capacity
                && final(counter).tournament_id == old(counter).tournament_id,
            r is Ok ==> (if final(counter).player_participating == final(counter).capacity {
                final(counter).empty@ == seq!['F']
            } else {
                final(counter).empty == old(counter).empty
            }),
    {
        if balance < t.entrance_fee {
            return Err(GameError::InsufficientFunds);
        }
        if t.is_init != 1 {
            return Err(GameError::PhaseError);
        }
        if counter.player_participating >= counter.capacity {
            return Err(GameError::CapacityReached);
        }
        let n: u32 = counter.player_participating + 1;
        let opp: u32 = match opponent_number(n, 0) {
            Some(o) => o,
            None => return Err(GameError::ValidationError),
        };
        counter.player_participating = n;
        if n == counter.capacity {
            proof {
                reveal_strlit("F");
            }
            counter.empty = String::from_str("F");
        }
        Ok(
            TournamentAccount {
                player_find: DiscoveryKey {
                    shard: counter.counter_no,
                    player: n,
                    tournament_id: t.tournament_id.clone(),
                },
                tournamentid: t.tournament_id.clone(),
                player: *participant,
                opponent: opp,
                level: 0,
                playerno_int: n,
                opponent_played_on: t.starts_at,
                is_playing: 0,
                waiting_opponent_to_join: 0,
            },
        )
    }

    /// Slot `a` creates its match against slot `o` in the empty record `g`:
    /// the two must be at the same level and paired by the pairing rule, and
    /// `o` must not have created a match of its own.
    pub fn tournament_match_initialize(
        t: &Tournament,
        a: &mut TournamentAccount,
        o: &TournamentAccount,
        g: &mut TGameState,
        init: &Init,
        initializer: &Party,
        opponent: &[u8; 32],
    ) -> (r: Result<(), GameError>)
        ensures
            r == (match match_initialize_error(*t, *old(a), *o, *old(g), *initializer, *opponent) {
                Some(e) => Err(e),
                None => Ok(()),
            }),
            r is Err ==> *final(a) == *old(a) && *final(g) == *old(g),
            r is Ok ==> final(g).game_id.tournament_id == t.tournament_id && final(g).game_id.low == (
            if old(a).playerno_int < o.playerno_int {
                old(a).playerno_int
            } else {
                o.playerno_int
            }) && final(g).game_id.high == inherited_number(old(a).playerno_int, o.playerno_int)
                && fresh_match(final(g).game, *init, old(a).player, 0, PHASE_TOURNAMENT_AWAITING),
            r is Ok ==> *final(a) == (TournamentAccount {
                opponent: o.playerno_int,
                waiting_opponent_to_join: 1,
                ..*old(a)
            }),
    {
        if !initializer.is_signer {
            return Err(GameError::AuthorizationError);
        }
        if t.is_init != 1 {
            return Err(GameError::PhaseError);
        }
        if !(same_text(&t.tournament_id, &a.tournamentid) && same_text(
            &t.tournament_id,
            &o.tournamentid,
        )) {
            return Err(GameError::AuthorizationError);
        }
        if !(same_bytes(opponent, &o.player) && same_bytes(&initializer.key, &a.player)) {
            return Err(GameError::AuthorizationError);
        }
        if a.level != o.level {
            return Err(GameError::ValidationError);
        }
        match opponent_number(o.playerno_int, o.level) {
            Some(n) => {
                if n != a.playerno_int {
                    return Err(GameError::ValidationError);
                }
            },
            None => return Err(GameError::ValidationError),
        }
        match opponent_number(a.playerno_int, a.level) {
            Some(n) => {
                if n != o.playerno_int {
                    return Err(GameError::ValidationError);
                }
            },
            None => return Err(GameError::ValidationError),
        }
        if o.waiting_opponent_to_join != 0 || g.game.initialized != PHASE_EMPTY {
            return Err(GameError::PhaseError);
        }
        g.game_id = match_key(&t.tournament_id, a.playerno_int, o.playerno_int);
        g.game = new_match(init, &a.player, 0, PHASE_TOURNAMENT_AWAITING);
        a.opponent = o.playerno_int;
        a.waiting_opponent_to_join = 1;
        Ok(())
    }

    /// The opponent `o` accepts the match slot `a` created, with its own
    /// commitment: the match becomes active with the turn at the initializer.
    pub fn tournament_match_accept(
        t: &Tournament,
        a: &mut TournamentAccount,
        o: &mut TournamentAccount,
        g: &mut TGameState,
        join: &Join,
        initializer: &[u8; 32],
        opponent: &Party,
        now: u64,
    ) -> (r: Result<(), GameError>)
        ensures
            r == (match match_accept_error(*t, *old(a), *old(o), *old(g), *initializer, *opponent) {
                Some(e) => Err(e),
                None => Ok(()),
            }),
            r is Err ==> *final(a) == *old(a) && *final(o) == *old(o) && *final(g) == *old(g),
            r is Ok ==> final(g).game_id == old(g).game_id && joined_match(
                old(g).game,
                final(g).game,
                old(o).player,
                join.guest_game_hash,
                now,
                PHASE_TOURNAMENT_IN_PROGRESS,
            ),
            r is Ok ==> *final(a) == (TournamentAccount {
                opponent_played_on: now,
                is_playing: 1,
                waiting_opponent_to_join: 0,
                ..*old(a)
            }),
            r is Ok ==> *final(o) == (TournamentAccount {
                opponent: old(a).playerno_int,
                is_playing: 1,
                waiting_opponent_to_join: 0,
                ..*old(o)
            }),
    {
        if !opponent.is_signer {
            return Err(GameError::AuthorizationError);
        }
        if t.is_init != 1 {
            return Err(GameError::PhaseError);
        }
        if !(same_text(&t.tournament_id, &a.tournamentid) && same_text(
            &t.tournament_id,
            &o.tournamentid,
        )) {
            return Err(GameError::AuthorizationError);
        }
        if !(same_bytes(&opponent.key, &o.player) && same_bytes(initializer, &a.player)
            && same_bytes(&g.game.initializer, &a.player)) {
            return Err(GameError::AuthorizationError);
        }
        if a.level != o.level || a.opponent != o.playerno_int {
            return Err(GameError::ValidationError);
        }
        if g.game.initialized != PHASE_TOURNAMENT_AWAITING {
            return Err(GameError::PhaseError);
        }
        g.game.guest = o.player;
        g.game.guestgamehash = join.guest_game_hash;
        g.game.lastplaytime = now;
        g.game.whoseturn = TURN_INITIALIZER;
        g.game.initialized = PHASE_TOURNAMENT_IN_PROGRESS;
        a.opponent_played_on = now;
        a.is_playing = 1;
        a.waiting_opponent_to_join = 0;
        o.opponent = a.playerno_int;
        o.is_playing = 1;
        o.waiting_opponent_to_join = 0;
        Ok(())
    }

    /// The side of an active tournament match holding the turn fires a shot.
    pub fn tournament_play(
        t: &Tournament,
        a: &TournamentAccount,
        o: &TournamentAccount,
        g: &mut TGameState,
        mv: Move,
        initializer: &Party,
        opponent: &Party,
        now: u64,
    ) -> (r: Result<(), GameError>)
        ensures
            active_match_error(*t, *a, *o, old(g).game, initializer.key, opponent.key) matches Some(
                e,
            ) ==> r == Err::<(), GameError>(e),
            active_match_error(*t, *a, *o, old(g).game, initializer.key, opponent.key) is None
                ==> r == (match shot_error(
                old(g).game,
                mv,
                initializer.is_signer,
                opponent.is_signer,
            ) {
                Some(e) => Err(e),
                None => Ok(()),
            }),
            r is Err ==> *final(g) == *old(g),
            r is Ok ==> final(g).game_id == old(g).game_id && shot_result(
                old(g).game,
                final(g).game,
                mv,
                now,
            ),
    {
        match check_active_match(t, a, o, &g.game, &initializer.key, &opponent.key) {
            Ok(()) => {},
            Err(e) => return Err(e),
        }
        g.game.apply_shot(mv, initializer.is_signer, opponent.is_signer, now)
    }

    /// Claims a tournament match by revealing a layout. A win pays out of
    /// the loser's slot and advances the winner; a draw releases both slots
    /// and refunds the match record to the initializer.
    pub fn tournament_claim_victory_by_score(
        t: &Tournament,
        a: &mut TournamentAccount,
        o: &mut TournamentAccount,
        g: &mut TGameState,
        claim: &ClaimVictory,
        initializer: &[u8; 32],
        opponent: &[u8; 32],
        a_balance: u64,
        o_balance: u64,
        match_balance: u64,
        now: u64,
    ) -> (r: Result<MatchOutcome, GameError>)
        requires
            seed_fits(claim.seed@),
        ensures
            r == tournament_score_outcome(
                *t,
                *old(a),
                *old(o),
                old(g).game,
                *claim,
                *initializer,
                *opponent,
                a_balance,
                o_balance,
                match_balance,
            ),
            r is Err ==> *final(a) == *old(a) && *final(o) == *old(o) && *final(g) == *old(g),
            r is Ok ==> final(g).game_id == old(g).game_id && match_finished(
                *old(a),
                *old(o),
                old(g).game,
                *final(a),
                *final(o),
                final(g).game,
                r->Ok_0,
                now,
            ),
    {
        match check_active_match(t, a, o, &g.game, initializer, opponent) {
            Ok(()) => {},
            Err(e) => return Err(e),
        }
        let v: Verdict = match verify_and_score(&g.game, claim) {
            Ok(v) => v,
            Err(e) => return Err(e),
        };
        match v {
            Verdict::Draw => {
                a.is_playing = 0;
                a.waiting_opponent_to_join = 0;
                a.opponent_played_on = now;
                o.is_playing = 0;
                o.waiting_opponent_to_join = 0;
                o.opponent_played_on = now;
                g.game.initialized = PHASE_SETTLED;
                Ok(MatchOutcome::Drawn { refund: match_balance })
            },
            Verdict::InitializerWins => settle_decided(
                t,
                a,
                o,
                &mut g.game,
                true,
                a_balance,
                o_balance,
                match_balance,
                now,
            ),
            Verdict::GuestWins => settle_decided(
                t,
                a,
                o,
                &mut g.game,
                false,
                a_balance,
                o_balance,
                match_balance,
                now,
            ),
        }
    }

    /// Eliminates slot `el`, which has not created its match within the
    /// tournament's timeout of its previous round: it pays out of its slot as
    /// a loser, and `op` advances.
    pub fn eliminate_player_who_hasnt_initialized_his_game(
        t: &Tournament,
        el: &TournamentAccount,
        op: &mut TournamentAccount,
        eliminated: &[u8; 32],
        opponent: &[u8; 32],
        el_balance: u64,
        now: u64,
    ) -> (r: Result<TournamentPayout, GameError>)
        ensures
            no_show_error(*t, *el, *old(op), *eliminated, *opponent, now) matches Some(e) ==> r
                == Err::<TournamentPayout, GameError>(e),
            no_show_error(*t, *el, *old(op), *eliminated, *opponent, now) is None ==> r
                == tournament_settlement(
                el_balance,
                0,
                t.entrance_fee,
                t.lvl_get@[el.level as int],
                t.host_get,
            ),
            r is Err ==> *final(op) == *old(op),
            r is Ok ==> advanced(
                *old(op),
                *final(op),
                inherited_number(el.playerno_int, old(op).playerno_int),
                now,
            ),
    {
        if t.is_init != 1 {
            return Err(GameError::PhaseError);
        }
        if !(same_text(&t.tournament_id, &el.tournamentid) && same_text(
            &t.tournament_id,
            &op.tournamentid,
        )) {
            return Err(GameError::AuthorizationError);
        }
        if !(same_bytes(eliminated, &el.player) && same_bytes(opponent, &op.player)) {
            return Err(GameError::AuthorizationError);
        }
        if el.waiting_opponent_to_join != 0 || el.is_playing != 0 {
            return Err(GameError::PhaseError);
        }
        if el.opponent != op.playerno_int || el.playerno_int != op.opponent || el.level
            != op.level {
            return Err(GameError::ValidationError);
        }
        if !has_timed_out(el.opponent_played_on, now, t.time_is_up) {
            return Err(GameError::TimeoutNotElapsed);
        }
        if el.level >= REWARD_LEVELS {
            return Err(GameError::ValidationError);
        }
        let payout: TournamentPayout = match settle_tournament(
            el_balance,
            0,
            t.entrance_fee,
            t.lvl_get[el.level as usize],
            t.host_get,
        ) {
            Ok(p) => p,
            Err(e) => return Err(e),
        };
        let no: u32 = higher_number(el.playerno_int, op.playerno_int);
        advance(op, no, now);
        Ok(payout)
    }

    /// Eliminates the side of an active match that holds the turn and has
    /// not moved for the tournament's timeout: the other side wins by default.
    pub fn eliminate_player_who_hasnt_made_his_move(
        t: &Tournament,
        a: &mut TournamentAccount,
        o: &mut TournamentAccount,
        g: &mut TGameState,
        initializer: &[u8; 32],
        opponent: &[u8; 32],
        a_balance: u64,
        o_balance: u64,
        match_balance: u64,
        now: u64,
    ) -> (r: Result<MatchOutcome, GameError>)
        ensures
            r == stalled_outcome(
                *t,
                *old(a),
                *old(o),
                old(g).game,
                *initializer,
                *opponent,
                a_balance,
                o_balance,
                match_balance,
                now,
            ),
            r is Err ==> *final(a) == *old(a) && *final(o) == *old(o) && *final(g) == *old(g),
            r is Ok ==> final(g).game_id == old(g).game_id && match_finished(
                *old(a),
                *old(o),
                old(g).game,
                *final(a),
                *final(o),
                final(g).game,
                r->Ok_0,
                now,
            ),
    {
        match check_active_match(t, a, o, &g.game, initializer, opponent) {
            Ok(()) => {},
            Err(e) => return Err(e),
        }
        if !has_timed_out(g.game.lastplaytime, now, t.time_is_up) {
            return Err(GameError::TimeoutNotElapsed);
        }
        if g.game.whoseturn == TURN_INITIALIZER {
            settle_decided(t, a, o, &mut g.game, false, a_balance, o_balance, match_balance, now)
        } else if g.game.whoseturn == TURN_GUEST {
            settle_decided(t, a, o, &mut g.game, true, a_balance, o_balance, match_balance, now)
        } else {
            Err(GameError::PhaseError)
        }
    }
}

} // verus!

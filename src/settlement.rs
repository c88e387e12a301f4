use vstd::prelude::*;

use crate::error::GameError;
use crate::kernel::Verdict;

verus! {

/// Host fee rate of a standalone match, in percent of the stake.
pub const HOST_FEE_PERCENT: u8 = 10;

/// Transfers out of a standalone match record.
#[derive(Debug, Clone, Copy, PartialEq, Eq, Structural)]
pub struct Payout {
    pub host: u64,
    pub initializer: u64,
    pub guest: u64,
}

/// Transfers of a decided tournament match. The first three leave the
/// loser's slot; the last empties the match record into the initializer's slot.
#[derive(Debug, Clone, Copy, PartialEq, Eq, Structural)]
pub struct TournamentPayout {
    pub host: u64,
    /// The reward tier of the loser's level times the entrance fee.
    pub winner: u64,
    /// What is left of the loser's slot.
    pub winner_slot: u64,
    pub initializer_slot: u64,
}

/// `stake * rate / 100`, rounded down.
pub open spec fn fee_of(stake: u64, rate: u8) -> int {
    (stake * rate) / 100
}

/// How a standalone pot is split. The fee is charged on a win only; the
/// winning initializer takes what remains, a winning guest takes both stakes
/// less the fee and the initializer keeps the rest (its deposit); on a draw
/// the guest gets one stake back and the initializer the rest.
pub open spec fn match_settlement(pot: u64, stake: u64, rate: u8, v: Verdict) -> Result<
    Payout,
    GameError,
> {
    let fee = fee_of(stake, rate);
    match v {
        Verdict::InitializerWins => if fee <= pot {
            Ok(Payout { host: fee as u64, initializer: (pot - fee) as u64, guest: 0 })
        } else {
            Err(GameError::InsufficientFunds)
        },
        Verdict::GuestWins => if 2 * stake <= pot && fee <= 2 * stake {
            Ok(
                Payout {
                    host: fee as u64,
                    initializer: (pot - 2 * stake) as u64,
                    guest: (2 * stake - fee) as u64,
                },
            )
        } else {
            Err(GameError::InsufficientFunds)
        },
        Verdict::Draw => if stake <= pot {
            Ok(Payout { host: 0, initializer: (pot - stake) as u64, guest: stake })
        } else {
            Err(GameError::InsufficientFunds)
        },
    }
}

/// How a decided tournament match is paid: from the loser's slot the host
/// fee (of the entrance fee) and the reward go out and the rest moves to the
/// winner's slot; the match record's balance goes to the initializer's slot.
pub open spec fn tournament_settlement(
    loser_balance: u64,
    match_balance: u64,
    entrance_fee: u64,
    tier: u8,
    rate: u8,
) -> Result<TournamentPayout, GameError> {
    let fee = fee_of(entrance_fee, rate);
    let reward = tier * entrance_fee;
    if fee + reward <= loser_balance {
        Ok(
            TournamentPayout {
                host: fee as u64,
                winner: reward as u64,
                winner_slot: (loser_balance - fee - reward) as u64,
                initializer_slot: match_balance,
            },
        )
    } else {
        Err(GameError::InsufficientFunds)
    }
}

/// The host fee, `stake * rate / 100` rounded down.
pub fn host_fee(stake: u64, rate: u8) -> (r: u128)
    ensures
        r == fee_of(stake, rate),
{
    proof {
        assert(stake * rate <= 0xffff_ffff_ffff_ffff * 255) by (nonlinear_arith)
            requires
                stake <= 0xffff_ffff_ffff_ffff,
                rate <= 255,
        ;
    }
    (stake as u128) * (rate as u128) / 100
}

/// Splits a standalone match's pot according to the verdict.
pub fn settle_match(pot: u64, stake: u64, rate: u8, v: Verdict) -> (r: Result<Payout, GameError>)
    ensures
        r == match_settlement(pot, stake, rate, v),
{
    let fee: u128 = host_fee(stake, rate);
    let pot_w: u128 = pot as u128;
    let both: u128 = 2 * (stake as u128);
    match v {
        Verdict::InitializerWins => {
            if fee <= pot_w {
                Ok(Payout { host: fee as u64, initializer: (pot_w - fee) as u64, guest: 0 })
            } else {
                Err(GameError::InsufficientFunds)
            }
        },
        Verdict::GuestWins => {
            if both <= pot_w && fee <= both {
                Ok(
                    Payout {
                        host: fee as u64,
                        initializer: (pot_w - both) as u64,
                        guest: (both - fee) as u64,
                    },
                )
            } else {
                Err(GameError::InsufficientFunds)
            }
        },
        Verdict::Draw => {
            if stake <= pot {
                Ok(Payout { host: 0, initializer: pot - stake, guest: stake })
            } else {
                Err(GameError::InsufficientFunds)
            }
        },
    }
}

/// Pays out a decided tournament match.
pub fn settle_tournament(
    loser_balance: u64,
    match_balance: u64,
    entrance_fee: u64,
    tier: u8,
    rate: u8,
) -> (r: Result<TournamentPayout, GameError>)
    ensures
        r == tournament_settlement(loser_balance, match_balance, entrance_fee, tier, rate),
{
    let fee: u128 = host_fee(entrance_fee, rate);
    proof {
        assert(entrance_fee * rate <= 0xffff_ffff_ffff_ffff * 255) by (nonlinear_arith)
            requires
                entrance_fee <= 0xffff_ffff_ffff_ffff,
                rate <= 255,
        ;
        assert(tier * entrance_fee <= 255 * 0xffff_ffff_ffff_ffff) by (nonlinear_arith)
            requires
                entrance_fee <= 0xffff_ffff_ffff_ffff,
                tier <= 255,
        ;
    }
    let reward: u128 = (tier as u128) * (entrance_fee as u128);
    let loser: u128 = loser_balance as u128;
    if fee + reward <= loser {
        Ok(
            TournamentPayout {
                host: fee as u64,
                winner: reward as u64,
                winner_slot: (loser - fee - reward) as u64,
                initializer_slot: match_balance,
            },
        )
    } else {
        Err(GameError::InsufficientFunds)
    }
}

/// No value is created or destroyed by a standalone settlement: the
/// transfers add up to the pot exactly.
pub proof fn lemma_match_pot_conserved(pot: u64, stake: u64, rate: u8, v: Verdict)
    ensures
        match_settlement(pot, stake, rate, v) matches Ok(p) ==> p.host + p.initializer + p.guest
            == pot,
{
}

/// No value is created or destroyed by a tournament settlement: host fee,
/// reward and the sweep to the winner's slot add up to the loser's slot
/// balance, and the match record's balance moves whole.
pub proof fn lemma_tournament_pot_conserved(
    loser_balance: u64,
    match_balance: u64,
    entrance_fee: u64,
    tier: u8,
    rate: u8,
)
    ensures
        tournament_settlement(loser_balance, match_balance, entrance_fee, tier, rate) matches Ok(
            p,
        ) ==> p.host + p.winner + p.winner_slot == loser_balance && p.initializer_slot
            == match_balance,
{
}

} // verus!

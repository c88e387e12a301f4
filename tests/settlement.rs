use sea_battle::error::GameError;
use sea_battle::kernel::Verdict;
use sea_battle::settlement::{host_fee, settle_match, settle_tournament, Payout, TournamentPayout};

#[test]
fn initializer_clean_win_scenario() {
    let p = settle_match(2000, 1000, 10, Verdict::InitializerWins).unwrap();
    assert_eq!(p, Payout { host: 100, initializer: 1900, guest: 0 });
}

#[test]
fn guest_win_pays_both_stakes_less_fee() {
    let p = settle_match(2300, 1000, 10, Verdict::GuestWins).unwrap();
    assert_eq!(p, Payout { host: 100, initializer: 300, guest: 1900 });
}

#[test]
fn draw_returns_one_stake_to_guest_without_fee() {
    let p = settle_match(2300, 1000, 10, Verdict::Draw).unwrap();
    assert_eq!(p, Payout { host: 0, initializer: 1300, guest: 1000 });
}

#[test]
fn settlements_conserve_the_pot() {
    for &(pot, stake) in &[(2000u64, 1000u64), (2345, 1099), (10, 5), (u64::MAX, 1 << 62)] {
        for v in [Verdict::InitializerWins, Verdict::GuestWins, Verdict::Draw] {
            if let Ok(p) = settle_match(pot, stake, 10, v) {
                assert_eq!(p.host as u128 + p.initializer as u128 + p.guest as u128, pot as u128);
            }
        }
    }
    let t = settle_tournament(5_000, 123, 1_000, 3, 10).unwrap();
    assert_eq!(t, TournamentPayout { host: 100, winner: 3_000, winner_slot: 1_900, initializer_slot: 123 });
    assert_eq!(t.host + t.winner + t.winner_slot, 5_000);
}

#[test]
fn fee_rounds_down() {
    assert_eq!(host_fee(1099, 10), 109);
    assert_eq!(host_fee(9, 10), 0);
    assert_eq!(host_fee(u64::MAX, 255), (u64::MAX as u128) * 255 / 100);
}

#[test]
fn settlement_short_of_funds() {
    assert_eq!(settle_match(1500, 1000, 10, Verdict::GuestWins), Err(GameError::InsufficientFunds));
    assert_eq!(settle_match(50, 1000, 10, Verdict::InitializerWins), Err(GameError::InsufficientFunds));
    assert_eq!(settle_match(999, 1000, 10, Verdict::Draw), Err(GameError::InsufficientFunds));
    assert_eq!(settle_tournament(3_099, 0, 1_000, 3, 10), Err(GameError::InsufficientFunds));
}

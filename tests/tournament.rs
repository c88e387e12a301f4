use sea_battle::error::GameError;
use sea_battle::kernel::{build_commitment_message, pack_layout};
use sea_battle::processor::{Party, Processor};
use sea_battle::settlement::TournamentPayout;
use sea_battle::state::{
    ClaimVictory, DiscoveryKey, Init, Join, MatchKey, MatchState, Move, TGameState, Tournament,
    TournamentAccount, TournamentCounter,
};
use sea_battle::tournament::{opponent_number, MatchOutcome};

const A: [u8; 32] = [1; 32];
const B: [u8; 32] = [2; 32];
const AUTH: [u8; 32] = [42; 32];

fn cup() -> Tournament {
    let mut lvl_get = [0u8; 30];
    lvl_get[0] = 1;
    lvl_get[1] = 2;
    Tournament {
        is_init: 1,
        tournament_id: "cup".to_string(),
        entrance_fee: 1000,
        tournament_size: 4,
        rent: 0,
        starts_at: 10_000,
        time_is_up: 3600,
        should_match_in: 0,
        lvl_get,
        winner_get: 0,
        organizer_get: 0,
        host_get: 10,
        number_of_counters: 1,
    }
}

fn counter(capacity: u32) -> TournamentCounter {
    TournamentCounter {
        empty: "E".to_string(),
        counter_no: 7,
        player_participating: 0,
        capacity,
        tournament_id: "cup".to_string(),
    }
}

fn empty_match() -> TGameState {
    TGameState {
        game_id: MatchKey { tournament_id: String::new(), low: 0, high: 0 },
        game: MatchState {
            initialized: 0,
            gameseed: String::new(),
            lamports: 0,
            initializer: [0; 32],
            initializergamehash: [0; 32],
            guest: [0; 32],
            guestgamehash: [0; 32],
            whoseturn: 0,
            lastplaytime: 0,
            lastmove: 0,
            ishots: 0,
            ihits: 0,
            gshots: 0,
            ghits: 0,
            initializer_board_state: [0; 128],
            guest_board_state: [0; 128],
        },
    }
}

fn layout(claims: u8) -> ClaimVictory {
    ClaimVictory {
        claims,
        seed: "pw".to_string(),
        s1ax: 1, s1cox: 1, s1coy: 1,
        s2ax: 1, s2cox: 1, s2coy: 3,
        s3ax: 1, s3cox: 1, s3coy: 5,
        s4ax: 1, s4cox: 1, s4coy: 7,
        s5ax: 1, s5cox: 1, s5coy: 9,
    }
}

fn commitment(c: &ClaimVictory) -> [u8; 32] {
    let cells = pack_layout(c).unwrap();
    solana_program::keccak::hash(&build_commitment_message(&c.seed, &cells)).0
}

fn registered_pair() -> (TournamentAccount, TournamentAccount) {
    let t = cup();
    let mut c = counter(4);
    let a = Processor::join_tournament(&t, &mut c, &A, 1000).unwrap();
    let b = Processor::join_tournament(&t, &mut c, &B, 5000).unwrap();
    (a, b)
}

fn active_match() -> (TournamentAccount, TournamentAccount, TGameState) {
    let t = cup();
    let (mut a, mut b) = registered_pair();
    let mut g = empty_match();
    let init = Init {
        seed: "s".to_string(),
        gameseed: "g".to_string(),
        lamports: 0,
        initializer_game_hash: commitment(&layout(1)),
        bump: 0,
    };
    Processor::tournament_match_initialize(&t, &mut a, &b, &mut g, &init, &Party { key: A, is_signer: true }, &B)
        .unwrap();
    let join = Join { seed: "s".to_string(), guest_game_hash: commitment(&layout(2)) };
    Processor::tournament_match_accept(&t, &mut a, &mut b, &mut g, &join, &A, &Party { key: B, is_signer: true }, 20_000)
        .unwrap();
    (a, b, g)
}

#[test]
fn pairing_at_levels_zero_and_one() {
    assert_eq!(opponent_number(2, 0), Some(1));
    assert_eq!(opponent_number(1, 0), Some(2));
    assert_eq!(opponent_number(3, 0), Some(4));
    assert_eq!(opponent_number(4, 0), Some(3));
    assert_eq!(opponent_number(4, 1), Some(2));
    assert_eq!(opponent_number(2, 1), Some(4));
    assert_eq!(opponent_number(8, 2), Some(4));
    assert_eq!(opponent_number(0, 0), None);
    assert_eq!(opponent_number(u32::MAX, 0), None);
    assert_eq!(opponent_number(2, 32), None);
}

#[test]
fn registration_assigns_sequential_numbers() {
    let t = cup();
    let mut c = counter(2);
    assert_eq!(Processor::join_tournament(&t, &mut c, &A, 999), Err(GameError::InsufficientFunds));
    let a = Processor::join_tournament(&t, &mut c, &A, 1000).unwrap();
    assert_eq!(a.playerno_int, 1);
    assert_eq!(a.opponent, 2);
    assert_eq!(a.level, 0);
    assert_eq!(a.opponent_played_on, 10_000);
    assert_eq!(a.player_find, DiscoveryKey { shard: 7, player: 1, tournament_id: "cup".to_string() });
    assert_eq!(c.empty, "E");
    let b = Processor::join_tournament(&t, &mut c, &B, 1000).unwrap();
    assert_eq!(b.playerno_int, 2);
    assert_eq!(b.opponent, 1);
    assert_eq!(c.empty, "F");
    assert_eq!(Processor::join_tournament(&t, &mut c, &B, 1000), Err(GameError::CapacityReached));
    let mut closed = cup();
    closed.is_init = 0;
    assert_eq!(Processor::join_tournament(&closed, &mut counter(2), &A, 1000), Err(GameError::PhaseError));
}

#[test]
fn match_initialize_checks_pairing() {
    let t = cup();
    let (mut a, b) = registered_pair();
    let mut g = empty_match();
    let init = Init { seed: "s".to_string(), gameseed: "g".to_string(), lamports: 0, initializer_game_hash: [5; 32], bump: 0 };
    let mut stranger = b.clone();
    stranger.playerno_int = 3;
    assert_eq!(
        Processor::tournament_match_initialize(&t, &mut a, &stranger, &mut g, &init, &Party { key: A, is_signer: true }, &B),
        Err(GameError::ValidationError)
    );
    assert_eq!(
        Processor::tournament_match_initialize(&t, &mut a, &b, &mut g, &init, &Party { key: A, is_signer: false }, &B),
        Err(GameError::AuthorizationError)
    );
    assert_eq!(
        Processor::tournament_match_initialize(&t, &mut a, &b, &mut g, &init, &Party { key: A, is_signer: true }, &B),
        Ok(())
    );
    assert_eq!(g.game_id, MatchKey { tournament_id: "cup".to_string(), low: 1, high: 2 });
    assert_eq!(g.game.initialized, 3);
    assert_eq!(g.game.initializer, A);
    assert_eq!(a.waiting_opponent_to_join, 1);
}

#[test]
fn full_match_advances_the_winner() {
    let t = cup();
    let (mut a, mut b, mut g) = active_match();
    assert_eq!(g.game.initialized, 4);
    assert_eq!((a.is_playing, b.is_playing), (1, 1));
    let mv = |c: u8, h: u8| Move { mymove: c, opponents_last_move_is_hit: h };
    let pa = Party { key: A, is_signer: true };
    let pb = Party { key: B, is_signer: true };
    Processor::tournament_play(&t, &a, &b, &mut g, mv(11, 0), &pa, &pb, 20_001).unwrap();
    assert_eq!(
        Processor::tournament_play(&t, &a, &b, &mut g, mv(22, 0), &pa, &Party { key: B, is_signer: false }, 20_002),
        Err(GameError::AuthorizationError)
    );
    Processor::tournament_play(&t, &a, &b, &mut g, mv(22, 1), &pa, &pb, 20_002).unwrap();
    assert_eq!((g.game.ishots, g.game.gshots, g.game.ihits), (1, 1, 1));
    g.game.ihits = 17;
    let out = Processor::tournament_claim_victory_by_score(&t, &mut a, &mut b, &mut g, &layout(1), &A, &B, 0, 5000, 77, 30_000)
        .unwrap();
    assert_eq!(
        out,
        MatchOutcome::Decided {
            initializer_won: true,
            payout: TournamentPayout { host: 100, winner: 1000, winner_slot: 3900, initializer_slot: 77 }
        }
    );
    assert_eq!(a.level, 1);
    assert_eq!(a.playerno_int, 2);
    assert_eq!(a.player_find.player, 2);
    assert_eq!(a.opponent_played_on, 30_000);
    assert_eq!(a.is_playing, 0);
    assert_eq!(b.level, 0);
    assert_eq!(g.game.initialized, 5);
}

#[test]
fn tournament_draw_releases_both_slots() {
    let t = cup();
    let (mut a, mut b, mut g) = active_match();
    g.game.ihits = 17;
    g.game.ghits = 17;
    let out = Processor::tournament_claim_victory_by_score(&t, &mut a, &mut b, &mut g, &layout(2), &A, &B, 0, 0, 55, 31_000)
        .unwrap();
    assert_eq!(out, MatchOutcome::Drawn { refund: 55 });
    assert_eq!((a.is_playing, b.is_playing, a.level, b.level), (0, 0, 0, 0));
    assert_eq!(b.opponent_played_on, 31_000);
}

#[test]
fn stalled_player_is_eliminated_at_the_timeout() {
    let t = cup();
    let (mut a, mut b, mut g) = active_match();
    assert_eq!(
        Processor::eliminate_player_who_hasnt_made_his_move(&t, &mut a, &mut b, &mut g, &A, &B, 5000, 5000, 0, 20_000 + 3599),
        Err(GameError::TimeoutNotElapsed)
    );
    let out = Processor::eliminate_player_who_hasnt_made_his_move(&t, &mut a, &mut b, &mut g, &A, &B, 5000, 5000, 0, 20_000 + 3600)
        .unwrap();
    assert_eq!(
        out,
        MatchOutcome::Decided {
            initializer_won: false,
            payout: TournamentPayout { host: 100, winner: 1000, winner_slot: 3900, initializer_slot: 0 }
        }
    );
    assert_eq!((b.level, b.playerno_int), (1, 2));
}

#[test]
fn no_show_is_eliminated_at_the_timeout() {
    let t = cup();
    let (a, mut b) = registered_pair();
    assert_eq!(
        Processor::eliminate_player_who_hasnt_initialized_his_game(&t, &a, &mut b, &A, &B, 1000, 10_000 + 3599),
        Err(GameError::TimeoutNotElapsed)
    );
    let p = Processor::eliminate_player_who_hasnt_initialized_his_game(&t, &a, &mut b, &A, &B, 1500, 10_000 + 3600)
        .unwrap();
    assert_eq!(p, TournamentPayout { host: 100, winner: 1000, winner_slot: 400, initializer_slot: 0 });
    assert_eq!((b.level, b.playerno_int, b.opponent_played_on), (1, 2, 13_600));
}

#[test]
fn admin_operations_need_the_authority() {
    let caller = Party { key: AUTH, is_signer: true };
    assert_eq!(Processor::authorize_admin(&AUTH, &caller), Ok(()));
    assert_eq!(
        Processor::authorize_admin(&AUTH, &Party { key: AUTH, is_signer: false }),
        Err(GameError::AuthorizationError)
    );
    let init = sea_battle::state::InitTournamentCounter { counter_no: 3, capacity: 64, tournament_id: "cup".to_string(), bump: 1, rent: 0 };
    let c = Processor::initialize_counter(&AUTH, &caller, &init).unwrap();
    assert_eq!(c, TournamentCounter { empty: "E".to_string(), counter_no: 3, player_participating: 0, capacity: 64, tournament_id: "cup".to_string() });
    assert!(Processor::initialize_counter(&AUTH, &Party { key: A, is_signer: true }, &init).is_err());
}

#[test]
fn match_initialize_needs_pairing_both_ways() {
    let t = cup();
    let (mut a, mut b) = registered_pair();
    a.playerno_int = 3;
    a.level = 1;
    b.playerno_int = 1;
    b.level = 1;
    let mut g = empty_match();
    let init = Init { seed: "s".to_string(), gameseed: "g".to_string(), lamports: 0, initializer_game_hash: [5; 32], bump: 0 };
    assert_eq!(opponent_number(1, 1), Some(3));
    assert_eq!(opponent_number(3, 1), Some(5));
    assert_eq!(
        Processor::tournament_match_initialize(&t, &mut a, &b, &mut g, &init, &Party { key: A, is_signer: true }, &B),
        Err(GameError::ValidationError)
    );
    assert_eq!(a.waiting_opponent_to_join, 0);
    assert_eq!(g.game.initialized, 0);
    a.playerno_int = 2;
    b.playerno_int = 4;
    assert_eq!(
        Processor::tournament_match_initialize(&t, &mut a, &b, &mut g, &init, &Party { key: A, is_signer: true }, &B),
        Ok(())
    );
    assert_eq!(g.game_id, MatchKey { tournament_id: "cup".to_string(), low: 2, high: 4 });
}

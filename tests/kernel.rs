use sea_battle::error::GameError;
use sea_battle::kernel::{build_commitment_message, judge_claim, pack_layout, verify_and_score, Verdict};
use sea_battle::state::{ClaimVictory, MatchState, CELL_MISS};

fn claim(claims: u8, seed: &str) -> ClaimVictory {
    ClaimVictory {
        claims,
        seed: seed.to_string(),
        s1ax: 1, s1cox: 1, s1coy: 1,
        s2ax: 1, s2cox: 1, s2coy: 2,
        s3ax: 2, s3cox: 10, s3coy: 4,
        s4ax: 1, s4cox: 6, s4coy: 10,
        s5ax: 2, s5cox: 5, s5coy: 5,
    }
}

fn commitment(c: &ClaimVictory) -> [u8; 32] {
    let cells = pack_layout(c).unwrap();
    let msg = build_commitment_message(&c.seed, &cells);
    solana_program::keccak::hash(&msg).0
}

fn in_progress(init_hash: [u8; 32], guest_hash: [u8; 32]) -> MatchState {
    MatchState {
        initialized: 2,
        gameseed: "abcde".to_string(),
        lamports: 1000,
        initializer: [1; 32],
        initializergamehash: init_hash,
        guest: [2; 32],
        guestgamehash: guest_hash,
        whoseturn: 1,
        lastplaytime: 0,
        lastmove: 0,
        ishots: 40,
        ihits: 17,
        gshots: 40,
        ghits: 12,
        initializer_board_state: [0; 128],
        guest_board_state: [0; 128],
    }
}

#[test]
fn pack_layout_follows_slot_table() {
    let cells = pack_layout(&claim(1, "x")).unwrap();
    assert_eq!(
        cells,
        vec![11, 12, 13, 14, 15, 21, 22, 23, 24, 50, 60, 70, 106, 107, 108, 55, 65]
    );
}

#[test]
fn pack_layout_rejects_out_of_range_anchor() {
    let mut c = claim(1, "x");
    c.s2cox = 7;
    assert_eq!(pack_layout(&c), Err(GameError::ValidationError));
    let mut c = claim(1, "x");
    c.s3coy = 7;
    assert_eq!(pack_layout(&c), Err(GameError::ValidationError));
    let mut c = claim(1, "x");
    c.s4ax = 3;
    assert_eq!(pack_layout(&c), Err(GameError::ValidationError));
    let mut c = claim(1, "x");
    c.s5coy = 0;
    assert_eq!(pack_layout(&c), Err(GameError::ValidationError));
}

#[test]
fn commitment_message_is_seed_cells_seed() {
    let msg = build_commitment_message(&"ab".to_string(), &vec![11, 12]);
    assert_eq!(msg, vec![b'a', b'b', 11, 12, b'a', b'b']);
}

#[test]
fn honest_claim_wins() {
    let c = claim(1, "secret");
    let m = in_progress(commitment(&c), [0; 32]);
    assert_eq!(verify_and_score(&m, &c), Ok(Verdict::InitializerWins));
}

#[test]
fn mutated_seed_or_coordinate_is_rejected() {
    let c = claim(1, "secret");
    let m = in_progress(commitment(&c), [0; 32]);
    let mut other = c.clone();
    other.seed = "secreu".to_string();
    assert_eq!(verify_and_score(&m, &other), Err(GameError::CommitmentMismatch));
    let mut moved = c.clone();
    moved.s5cox = 6;
    assert_eq!(verify_and_score(&m, &moved), Err(GameError::CommitmentMismatch));
}

#[test]
fn guest_claim_checks_guest_commitment() {
    let c = claim(2, "g");
    let mut m = in_progress([0; 32], commitment(&c));
    m.ihits = 3;
    m.ghits = 17;
    assert_eq!(verify_and_score(&m, &c), Ok(Verdict::GuestWins));
    let wrong_side = claim(1, "g");
    assert_eq!(verify_and_score(&m, &wrong_side), Err(GameError::CommitmentMismatch));
}

#[test]
fn fraudulent_layout_loses() {
    let c = claim(1, "secret");
    let mut m = in_progress(commitment(&c), [0; 32]);
    m.initializer_board_state[23] = CELL_MISS;
    assert_eq!(verify_and_score(&m, &c), Ok(Verdict::GuestWins));
}

#[test]
fn hit_marked_cells_are_consistent() {
    let c = claim(1, "secret");
    let mut m = in_progress(commitment(&c), [0; 32]);
    m.initializer_board_state[23] = 2;
    m.initializer_board_state[99] = CELL_MISS;
    assert_eq!(verify_and_score(&m, &c), Ok(Verdict::InitializerWins));
}

#[test]
fn both_complete_is_a_draw() {
    let c = claim(1, "secret");
    let mut m = in_progress(commitment(&c), [0; 32]);
    m.ghits = 17;
    assert_eq!(verify_and_score(&m, &c), Ok(Verdict::Draw));
}

#[test]
fn unequal_shots_or_no_full_fleet_is_refused() {
    let c = claim(1, "secret");
    let mut m = in_progress(commitment(&c), [0; 32]);
    m.ishots = 41;
    assert_eq!(verify_and_score(&m, &c), Err(GameError::PhaseError));
    let mut m = in_progress(commitment(&c), [0; 32]);
    m.ihits = 16;
    assert_eq!(verify_and_score(&m, &c), Err(GameError::ValidationError));
}

#[test]
fn judge_claim_on_given_digest() {
    let m = in_progress([5; 32], [6; 32]);
    let cells = vec![11u8; 17];
    assert_eq!(judge_claim(&m, 1, &cells, &[5; 32]), Ok(Verdict::InitializerWins));
    assert_eq!(judge_claim(&m, 1, &cells, &[6; 32]), Err(GameError::CommitmentMismatch));
    assert_eq!(judge_claim(&m, 2, &cells, &[6; 32]), Ok(Verdict::InitializerWins));
}

use vstd::prelude::*;
use vstd::utf8::{decode_utf8, encode_utf8};

use crate::error::GameError;
use crate::state::{same_bytes, ClaimVictory, MatchState, CELL_HIT, CELL_UNCHECKED};

verus! {

/// Cells a fleet occupies: 5 + 4 + 3 + 3 + 2.
pub const FLEET_CELLS: u8 = 17;

/// Outcome of a victory claim that stands.
#[derive(Debug, Clone, Copy, PartialEq, Eq, Structural)]
pub enum Verdict {
    InitializerWins,
    GuestWins,
    Draw,
}

/// Keccak-256 of a byte string.
pub uninterp spec fn keccak256(data: Seq<u8>) -> Seq<u8>;

/// Relies on solana_program::keccak::hash: the Keccak-256 digest of the bytes,
/// a function of the bytes alone.
#[verifier::external_body]
fn keccak_digest(data: &[u8]) -> (r: [u8; 32])
    ensures
        r@ == keccak256(data@),
{
    solana_program::keccak::hash(data).0
}

/// An anchor keeps the whole ship on the board: along a row (axis 1) the
/// column is 1..=6 and the row 1..=10, along a column (axis 2) the other way round.
pub open spec fn anchor_ok(ax: u8, x: u8, y: u8) -> bool {
    (ax == 1 && 1 <= x <= 6 && 1 <= y <= 10) || (ax == 2 && 1 <= y <= 6 && 1 <= x <= 10)
}

/// Grid index of the `k`-th cell of a ship: `row * 10 + column`.
pub open spec fn ship_cell(ax: u8, x: u8, y: u8, k: int) -> int {
    if ax == 1 {
        x + k + 10 * y
    } else {
        10 * (y + k) + x
    }
}

/// The cells of a ship of length `len`, from its anchor on.
pub open spec fn ship_cells(ax: u8, x: u8, y: u8, len: int) -> Seq<u8> {
    Seq::new(len as nat, |k: int| ship_cell(ax, x, y, k) as u8)
}

/// Every ship of the claim is anchored on the board.
pub open spec fn layout_valid(c: ClaimVictory) -> bool {
    &&& anchor_ok(c.s1ax, c.s1cox, c.s1coy)
    &&& anchor_ok(c.s2ax, c.s2cox, c.s2coy)
    &&& anchor_ok(c.s3ax, c.s3cox, c.s3coy)
    &&& anchor_ok(c.s4ax, c.s4cox, c.s4coy)
    &&& anchor_ok(c.s5ax, c.s5cox, c.s5coy)
}

/// The 17 cells of the fleet, ship after ship (lengths 5, 4, 3, 3, 2).
pub open spec fn packed_cells(c: ClaimVictory) -> Seq<u8> {
    ship_cells(c.s1ax, c.s1cox, c.s1coy, 5) + ship_cells(c.s2ax, c.s2cox, c.s2coy, 4)
        + ship_cells(c.s3ax, c.s3cox, c.s3coy, 3) + ship_cells(c.s4ax, c.s4cox, c.s4coy, 3)
        + ship_cells(c.s5ax, c.s5cox, c.s5coy, 2)
}

/// The bytes a commitment hashes: seed, packed cells, seed.
pub open spec fn commitment_message(seed: Seq<char>, cells: Seq<u8>) -> Seq<u8> {
    encode_utf8(seed) + cells + encode_utf8(seed)
}

/// The commitment message for this seed fits in memory: twice its bytes
/// plus the 17 cells.
pub open spec fn seed_fits(seed: Seq<char>) -> bool {
    encode_utf8(seed).len() * 2 + FLEET_CELLS <= usize::MAX
}

/// Every cell lies on the 10 x 10 grid.
pub open spec fn cells_on_grid(cells: Seq<u8>) -> bool {
    forall|i: int| 0 <= i < cells.len() ==> 11 <= #[trigger] cells[i] <= 110
}

/// No cell of the layout is one the opponent recorded as anything but
/// unchecked or hit.
pub open spec fn cells_consistent(cells: Seq<u8>, board: Seq<u8>) -> bool {
    forall|i: int|
        0 <= i < cells.len() ==> (board[#[trigger] cells[i] as int] == CELL_UNCHECKED
            || board[cells[i] as int] == CELL_HIT)
}

/// The commitment stored for the claiming side.
pub open spec fn claimed_commitment(m: MatchState, claims: u8) -> Seq<u8> {
    if claims == 1 {
        m.initializergamehash@
    } else {
        m.guestgamehash@
    }
}

/// The opponent's shots at the claiming side's fleet.
pub open spec fn claimant_board(m: MatchState, claims: u8) -> Seq<u8> {
    if claims == 1 {
        m.initializer_board_state@
    } else {
        m.guest_board_state@
    }
}

/// Hit counts `(initializer, guest)` after the fraud check: a layout that
/// contradicts recorded shots gives the claimant 0 and the opponent 17.
pub open spec fn scored_hits(m: MatchState, claims: u8, cells: Seq<u8>) -> (u8, u8) {
    if cells_consistent(cells, claimant_board(m, claims)) {
        (m.ihits, m.ghits)
    } else if claims == 1 {
        (0, FLEET_CELLS)
    } else {
        (FLEET_CELLS, 0)
    }
}

/// Who has sunk the whole enemy fleet, if anyone.
pub open spec fn verdict_of(ihits: u8, ghits: u8) -> Option<Verdict> {
    if ihits == FLEET_CELLS && ghits == FLEET_CELLS {
        Some(Verdict::Draw)
    } else if ihits == FLEET_CELLS {
        Some(Verdict::InitializerWins)
    } else if ghits == FLEET_CELLS {
        Some(Verdict::GuestWins)
    } else {
        None
    }
}

/// Judgement of a claim whose layout packs to `cells` and hashes to `digest`.
pub open spec fn judgement(m: MatchState, claims: u8, cells: Seq<u8>, digest: Seq<u8>) -> Result<
    Verdict,
    GameError,
> {
    if digest != claimed_commitment(m, claims) {
        Err(GameError::CommitmentMismatch)
    } else if m.ishots != m.gshots {
        Err(GameError::PhaseError)
    } else {
        match verdict_of(scored_hits(m, claims, cells).0, scored_hits(m, claims, cells).1) {
            Some(v) => Ok(v),
            None => Err(GameError::ValidationError),
        }
    }
}

/// Judgement of a revealed claim against the match record.
pub open spec fn claim_judgement(m: MatchState, c: ClaimVictory) -> Result<Verdict, GameError> {
    if !layout_valid(c) {
        Err(GameError::ValidationError)
    } else {
        judgement(
            m,
            c.claims,
            packed_cells(c),
            keccak256(commitment_message(c.seed@, packed_cells(c))),
        )
    }
}

fn push_ship(cells: &mut Vec<u8>, ax: u8, x: u8, y: u8, len: u8)
    requires
        anchor_ok(ax, x, y),
        1 <= len <= 5,
    ensures
        final(cells)@ == old(cells)@ + ship_cells(ax, x, y, len as int),
{
    let ghost start = cells@;
    let mut k: u8 = 0;
    while k < len
        invariant
            k <= len <= 5,
            anchor_ok(ax, x, y),
            cells@ == start + ship_cells(ax, x, y, k as int),
        decreases len - k,
    {
        let c: u8 = if ax == 1 {
            x + k + 10 * y
        } else {
            10 * (y + k) + x
        };
        cells.push(c);
        k = k + 1;
        assert(cells@ =~= start + ship_cells(ax, x, y, k as int));
    }
}

proof fn lemma_ship_on_grid(ax: u8, x: u8, y: u8, len: int)
    requires
        anchor_ok(ax, x, y),
        1 <= len <= 5,
    ensures
        cells_on_grid(ship_cells(ax, x, y, len)),
{
}

/// Packs a revealed layout into its 17 cells, ship after ship.
pub fn pack_layout(c: &ClaimVictory) -> (r: Result<Vec<u8>, GameError>)
    ensures
        r is Ok <==> layout_valid(*c),
        r is Ok ==> r->Ok_0@ == packed_cells(*c),
        r is Err ==> r->Err_0 == GameError::ValidationError,
{
    if !(is_anchor_ok(c.s1ax, c.s1cox, c.s1coy) && is_anchor_ok(c.s2ax, c.s2cox, c.s2coy)
        && is_anchor_ok(c.s3ax, c.s3cox, c.s3coy) && is_anchor_ok(c.s4ax, c.s4cox, c.s4coy)
        && is_anchor_ok(c.s5ax, c.s5cox, c.s5coy)) {
        return Err(GameError::ValidationError);
    }
    let mut cells: Vec<u8> = Vec::new();
    push_ship(&mut cells, c.s1ax, c.s1cox, c.s1coy, 5);
    push_ship(&mut cells, c.s2ax, c.s2cox, c.s2coy, 4);
    push_ship(&mut cells, c.s3ax, c.s3cox, c.s3coy, 3);
    push_ship(&mut cells, c.s4ax, c.s4cox, c.s4coy, 3);
    push_ship(&mut cells, c.s5ax, c.s5cox, c.s5coy, 2);
    assert(cells@ =~= packed_cells(*c));
    Ok(cells)
}

/// Whether an anchor keeps the ship on the board.
pub fn is_anchor_ok(ax: u8, x: u8, y: u8) -> (r: bool)
    ensures
        r == anchor_ok(ax, x, y),
{
    (ax == 1 && 1 <= x && x <= 6 && 1 <= y && y <= 10) || (ax == 2 && 1 <= y && y <= 6 && 1 <= x
        && x <= 10)
}

/// A valid layout packs to 17 cells, all on the grid.
pub proof fn lemma_packed_on_grid(c: ClaimVictory)
    requires
        layout_valid(c),
    ensures
        packed_cells(c).len() == FLEET_CELLS,
        cells_on_grid(packed_cells(c)),
{
    lemma_ship_on_grid(c.s1ax, c.s1cox, c.s1coy, 5);
    lemma_ship_on_grid(c.s2ax, c.s2cox, c.s2coy, 4);
    lemma_ship_on_grid(c.s3ax, c.s3cox, c.s3coy, 3);
    lemma_ship_on_grid(c.s4ax, c.s4cox, c.s4coy, 3);
    lemma_ship_on_grid(c.s5ax, c.s5cox, c.s5coy, 2);
    let p = packed_cells(c);
    assert forall|i: int| 0 <= i < p.len() implies 11 <= #[trigger] p[i] <= 110 by {
        let a = ship_cells(c.s1ax, c.s1cox, c.s1coy, 5);
        let b = ship_cells(c.s2ax, c.s2cox, c.s2coy, 4);
        let d = ship_cells(c.s3ax, c.s3cox, c.s3coy, 3);
        let e = ship_cells(c.s4ax, c.s4cox, c.s4coy, 3);
        let f = ship_cells(c.s5ax, c.s5cox, c.s5coy, 2);
        if i < 5 {
            assert(p[i] == a[i]);
        } else if i < 9 {
            assert(p[i] == b[i - 5]);
        } else if i < 12 {
            assert(p[i] == d[i - 9]);
        } else if i < 15 {
            assert(p[i] == e[i - 12]);
        } else {
            assert(p[i] == f[i - 15]);
        }
    }
}

/// The bytes to hash for a commitment: seed, cells, seed.
pub fn build_commitment_message(seed: &String, cells: &Vec<u8>) -> (r: Vec<u8>)
    requires
        encode_utf8(seed@).len() * 2 + cells@.len() <= usize::MAX,
    ensures
        r@ == commitment_message(seed@, cells@),
{
    let sb: &[u8] = seed.as_str().as_bytes();
    let mut out: Vec<u8> = Vec::new();
    append_bytes(&mut out, sb);
    append_bytes(&mut out, cells.as_slice());
    append_bytes(&mut out, sb);
    out
}

fn append_bytes(out: &mut Vec<u8>, src: &[u8])
    ensures
        final(out)@ == old(out)@ + src@,
{
    let ghost start = out@;
    let mut i: usize = 0;
    while i < src.len()
        invariant
            i <= src@.len(),
            out@ == start + src@.subrange(0, i as int),
        decreases src@.len() - i,
    {
        out.push(src[i]);
        i = i + 1;
        assert(out@ =~= start + src@.subrange(0, i as int));
    }
    assert(src@.subrange(0, src@.len() as int) =~= src@);
}

/// Whether the layout agrees with every shot the opponent recorded on it.
pub fn layout_consistent(cells: &Vec<u8>, board: &[u8; 128]) -> (r: bool)
    requires
        cells_on_grid(cells@),
    ensures
        r == cells_consistent(cells@, board@),
{
    let mut i: usize = 0;
    while i < cells.len()
        invariant
            i <= cells@.len(),
            cells_on_grid(cells@),
            forall|j: int|
                0 <= j < i ==> (board@[#[trigger] cells@[j] as int] == CELL_UNCHECKED
                    || board@[cells@[j] as int] == CELL_HIT),
        decreases cells@.len() - i,
    {
        let s: usize = cells[i] as usize;
        assert(11 <= cells@[i as int] <= 110);
        if board[s] != CELL_UNCHECKED && board[s] != CELL_HIT {
            return false;
        }
        i = i + 1;
    }
    true
}

/// Judges a claim from its packed cells and the digest of its commitment
/// message: the digest must equal the claimant's stored commitment, both
/// sides must have fired equally often, and then the verdict follows the
/// hit counts after the fraud check.
pub fn judge_claim(m: &MatchState, claims: u8, cells: &Vec<u8>, digest: &[u8; 32]) -> (r: Result<
    Verdict,
    GameError,
>)
    requires
        cells_on_grid(cells@),
    ensures
        r == judgement(*m, claims, cells@, digest@),
{
    let stored: &[u8; 32] = if claims == 1 {
        &m.initializergamehash
    } else {
        &m.guestgamehash
    };
    if !same_bytes(stored, digest) {
        return Err(GameError::CommitmentMismatch);
    }
    if m.ishots != m.gshots {
        return Err(GameError::PhaseError);
    }
    let board: &[u8; 128] = if claims == 1 {
        &m.initializer_board_state
    } else {
        &m.guest_board_state
    };
    let (ih, gh): (u8, u8) = if layout_consistent(cells, board) {
        (m.ihits, m.ghits)
    } else if claims == 1 {
        (0, FLEET_CELLS)
    } else {
        (FLEET_CELLS, 0)
    };
    if ih == FLEET_CELLS && gh == FLEET_CELLS {
        Ok(Verdict::Draw)
    } else if ih == FLEET_CELLS {
        Ok(Verdict::InitializerWins)
    } else if gh == FLEET_CELLS {
        Ok(Verdict::GuestWins)
    } else {
        Err(GameError::ValidationError)
    }
}

/// Verifies a revealed layout against the match record and scores it: the
/// layout must be on the board, the hash of (seed, cells, seed) the
/// claimant's commitment, and then [`judge_claim`] decides.
pub fn verify_and_score(m: &MatchState, c: &ClaimVictory) -> (r: Result<Verdict, GameError>)
    requires
        seed_fits(c.seed@),
    ensures
        r == claim_judgement(*m, *c),
{
    let cells: Vec<u8> = match pack_layout(c) {
        Ok(cells) => cells,
        Err(e) => return Err(e),
    };
    proof {
        lemma_packed_on_grid(*c);
    }
    let msg: Vec<u8> = build_commitment_message(&c.seed, &cells);
    let digest: [u8; 32] = keccak_digest(msg.as_slice());
    judge_claim(m, c.claims, &cells, &digest)
}

/// A claim whose layout is well-formed gets past the commitment check
/// exactly when the digest of (seed, cells, seed) is the claimant's stored
/// commitment.
pub proof fn lemma_commitment_soundness(m: MatchState, c: ClaimVictory)
    requires
        layout_valid(c),
        seed_fits(c.seed@),
    ensures
        (claim_judgement(m, c) != Err::<Verdict, GameError>(GameError::CommitmentMismatch)) <==> (
        keccak256(commitment_message(c.seed@, packed_cells(c))) == claimed_commitment(m, c.claims)),
{
}

/// The five ships of two valid layouts that pack to the same cells are
/// anchored and oriented alike.
proof fn lemma_packing_injective(c1: ClaimVictory, c2: ClaimVictory)
    requires
        layout_valid(c1),
        layout_valid(c2),
        packed_cells(c1) == packed_cells(c2),
    ensures
        c1.s1ax == c2.s1ax && c1.s1cox == c2.s1cox && c1.s1coy == c2.s1coy,
        c1.s2ax == c2.s2ax && c1.s2cox == c2.s2cox && c1.s2coy == c2.s2coy,
        c1.s3ax == c2.s3ax && c1.s3cox == c2.s3cox && c1.s3coy == c2.s3coy,
        c1.s4ax == c2.s4ax && c1.s4cox == c2.s4cox && c1.s4coy == c2.s4coy,
        c1.s5ax == c2.s5ax && c1.s5cox == c2.s5cox && c1.s5coy == c2.s5coy,
{
    let cells_a = packed_cells(c1);
    let cells_b = packed_cells(c2);
    assert(cells_a[0] == cells_b[0] && cells_a[1] == cells_b[1]);
    assert(cells_a[5] == cells_b[5] && cells_a[6] == cells_b[6]);
    assert(cells_a[9] == cells_b[9] && cells_a[10] == cells_b[10]);
    assert(cells_a[12] == cells_b[12] && cells_a[13] == cells_b[13]);
    assert(cells_a[15] == cells_b[15] && cells_a[16] == cells_b[16]);
}

/// Two different valid reveals (another seed, or another ship anchor or
/// orientation) give different commitment messages, so a commitment made
/// for one matches the other only through a Keccak-256 collision.
pub proof fn lemma_reveal_determines_message(c1: ClaimVictory, c2: ClaimVictory)
    requires
        layout_valid(c1),
        layout_valid(c2),
        commitment_message(c1.seed@, packed_cells(c1)) == commitment_message(
            c2.seed@,
            packed_cells(c2),
        ),
    ensures
        c1.seed@ == c2.seed@,
        c1.s1ax == c2.s1ax && c1.s1cox == c2.s1cox && c1.s1coy == c2.s1coy,
        c1.s2ax == c2.s2ax && c1.s2cox == c2.s2cox && c1.s2coy == c2.s2coy,
        c1.s3ax == c2.s3ax && c1.s3cox == c2.s3cox && c1.s3coy == c2.s3coy,
        c1.s4ax == c2.s4ax && c1.s4cox == c2.s4cox && c1.s4coy == c2.s4coy,
        c1.s5ax == c2.s5ax && c1.s5cox == c2.s5cox && c1.s5coy == c2.s5coy,
{
    broadcast use {vstd::utf8::encode_utf8_decode_utf8, vstd::utf8::encode_utf8_valid_utf8};

    let e1 = encode_utf8(c1.seed@);
    let e2 = encode_utf8(c2.seed@);
    let m = commitment_message(c1.seed@, packed_cells(c1));
    lemma_packed_on_grid(c1);
    lemma_packed_on_grid(c2);
    assert(m.len() == 2 * e1.len() + 17);
    assert(commitment_message(c2.seed@, packed_cells(c2)).len() == 2 * e2.len() + 17);
    assert(e1.len() == e2.len());
    assert(m.subrange(0, e1.len() as int) =~= e1);
    assert(commitment_message(c2.seed@, packed_cells(c2)).subrange(0, e2.len() as int) =~= e2);
    assert(m.subrange(e1.len() as int, e1.len() as int + 17) =~= packed_cells(c1));
    assert(commitment_message(c2.seed@, packed_cells(c2)).subrange(e2.len() as int, e2.len() as int + 17)
        =~= packed_cells(c2));
    assert(decode_utf8(e1) == c1.seed@);
    assert(decode_utf8(e2) == c2.seed@);
    lemma_packing_injective(c1, c2);
}

/// A claimant whose revealed layout puts a ship on a cell the opponent
/// recorded as neither unchecked nor hit (a miss) loses, whatever the hit counts were, once the
/// commitment matches and both sides have fired equally often.
pub proof fn lemma_fraud_loses(m: MatchState, claims: u8, cells: Seq<u8>, digest: Seq<u8>, i: int)
    requires
        0 <= i < cells.len(),
        claimant_board(m, claims)[cells[i] as int] != CELL_UNCHECKED,
        claimant_board(m, claims)[cells[i] as int] != CELL_HIT,
        digest == claimed_commitment(m, claims),
        m.ishots == m.gshots,
    ensures
        judgement(m, claims, cells, digest) == if claims == 1 {
            Ok::<Verdict, GameError>(Verdict::GuestWins)
        } else {
            Ok::<Verdict, GameError>(Verdict::InitializerWins)
        },
{
    assert(!cells_consistent(cells, claimant_board(m, claims)));
}

} // verus!

use vstd::prelude::*;
use vstd::utf8::{decode_utf8, valid_utf8};

use crate::error::GameError;
use crate::state::{
    ClaimVictory, CounterFinder, FinderFinder, Init, InitTournamentCounter, Join, Move, Tournament,
};

verus! {

/// One decoded operation: a leading tag byte selects it, and the payload
/// that follows is laid out field after field, integers little-endian,
/// text as a 4-byte length and that many UTF-8 bytes, byte arrays as they are.
#[derive(Debug, PartialEq)]
pub enum GameInstruction {
    InitGame { init: Init },
    JoinGame { join: Join },
    Play { mymove: Move },
    ClaimvictoryScore { claim: ClaimVictory },
    ClaimvictoryTime,
    Abort,
    InitializeTournament { t: Tournament },
    JoinTournament,
    MatchInitialize { init: Init },
    MatchAccept { join: Join },
    PlayTournament { mymove: Move },
    TournamentClaimvictoryScore { claim: ClaimVictory },
    Eliminate,
    EliminatePlay,
    InitCounter { t_counter: InitTournamentCounter },
    UpdateCounterFinder { c_finder: CounterFinder },
    UpdateFinderFinder { f_finder: FinderFinder },
    DeleteAuth,
    Delete,
}

/// Little-endian value of the two bytes at `p`.
pub open spec fn le_u16(b: Seq<u8>, p: int) -> int {
    b[p] + 256 * b[p + 1]
}

/// Little-endian value of the four bytes at `p`.
pub open spec fn le_u32(b: Seq<u8>, p: int) -> int {
    b[p] + 256 * b[p + 1] + 65536 * b[p + 2] + 16777216 * b[p + 3]
}

/// Little-endian value of the eight bytes at `p`.
pub open spec fn le_u64(b: Seq<u8>, p: int) -> int {
    le_u32(b, p) + 4294967296 * le_u32(b, p + 4)
}

/// Where the text starting at `p` ends: its 4-byte length, then its bytes.
pub open spec fn text_end(b: Seq<u8>, p: int) -> int {
    p + 4 + le_u32(b, p)
}

/// A whole text starts at `p`: the length fits and the bytes are UTF-8.
pub open spec fn text_ok(b: Seq<u8>, p: int) -> bool {
    0 <= p && p + 4 <= b.len() && text_end(b, p) <= b.len() && valid_utf8(
        b.subrange(p + 4, text_end(b, p)),
    )
}

/// The characters of the text starting at `p`.
pub open spec fn text_of(b: Seq<u8>, p: int) -> Seq<char> {
    decode_utf8(b.subrange(p + 4, text_end(b, p)))
}

/// Payload of `Init`: seed, game seed, stake, commitment, bump.
pub open spec fn init_ok(b: Seq<u8>) -> bool {
    text_ok(b, 0) && text_ok(b, text_end(b, 0)) && text_end(b, text_end(b, 0)) + 41 == b.len()
}

pub open spec fn init_wire(b: Seq<u8>, v: Init) -> bool {
    let p = text_end(b, text_end(b, 0));
    &&& init_ok(b)
    &&& v.seed@ == text_of(b, 0)
    &&& v.gameseed@ == text_of(b, text_end(b, 0))
    &&& v.lamports == le_u64(b, p)
    &&& v.initializer_game_hash@ == b.subrange(p + 8, p + 40)
    &&& v.bump == b[p + 40]
}

/// Payload of `Join`: seed, commitment.
pub open spec fn join_ok(b: Seq<u8>) -> bool {
    text_ok(b, 0) && text_end(b, 0) + 32 == b.len()
}

pub open spec fn join_wire(b: Seq<u8>, v: Join) -> bool {
    &&& join_ok(b)
    &&& v.seed@ == text_of(b, 0)
    &&& v.guest_game_hash@ == b.subrange(text_end(b, 0), text_end(b, 0) + 32)
}

/// Payload of `Move`: two bytes.
pub open spec fn move_ok(b: Seq<u8>) -> bool {
    b.len() == 2
}

pub open spec fn move_wire(b: Seq<u8>, v: Move) -> bool {
    move_ok(b) && v.mymove == b[0] && v.opponents_last_move_is_hit == b[1]
}

/// Payload of `ClaimVictory`: side, seed, then three bytes per ship.
pub open spec fn claim_ok(b: Seq<u8>) -> bool {
    b.len() >= 1 && text_ok(b, 1) && text_end(b, 1) + 15 == b.len()
}

pub open spec fn claim_wire(b: Seq<u8>, v: ClaimVictory) -> bool {
    let p = text_end(b, 1);
    &&& claim_ok(b)
    &&& v.claims == b[0]
    &&& v.seed@ == text_of(b, 1)
    &&& v.s1ax == b[p] && v.s1cox == b[p + 1] && v.s1coy == b[p + 2]
    &&& v.s2ax == b[p + 3] && v.s2cox == b[p + 4] && v.s2coy == b[p + 5]
    &&& v.s3ax == b[p + 6] && v.s3cox == b[p + 7] && v.s3coy == b[p + 8]
    &&& v.s4ax == b[p + 9] && v.s4cox == b[p + 10] && v.s4coy == b[p + 11]
    &&& v.s5ax == b[p + 12] && v.s5cox == b[p + 13] && v.s5coy == b[p + 14]
}

/// Payload of `Tournament`: flag, id, then 79 bytes of fixed fields.
pub open spec fn tournament_ok(b: Seq<u8>) -> bool {
    b.len() >= 1 && text_ok(b, 1) && text_end(b, 1) + 79 == b.len()
}

pub open spec fn tournament_wire(b: Seq<u8>, v: Tournament) -> bool {
    let p = text_end(b, 1);
    &&& tournament_ok(b)
    &&& v.is_init == b[0]
    &&& v.tournament_id@ == text_of(b, 1)
    &&& v.entrance_fee == le_u64(b, p)
    &&& v.tournament_size == le_u32(b, p + 8)
    &&& v.rent == le_u64(b, p + 12)
    &&& v.starts_at == le_u64(b, p + 20)
    &&& v.time_is_up == le_u64(b, p + 28)
    &&& v.should_match_in == le_u64(b, p + 36)
    &&& v.lvl_get@ == b.subrange(p + 44, p + 74)
    &&& v.winner_get == b[p + 74]
    &&& v.organizer_get == b[p + 75]
    &&& v.host_get == b[p + 76]
    &&& v.number_of_counters == le_u16(b, p + 77)
}

/// Payload of `InitTournamentCounter`: shard, capacity, id, bump, rent.
pub open spec fn counter_ok(b: Seq<u8>) -> bool {
    b.len() >= 6 && text_ok(b, 6) && text_end(b, 6) + 9 == b.len()
}

pub open spec fn counter_wire(b: Seq<u8>, v: InitTournamentCounter) -> bool {
    let p = text_end(b, 6);
    &&& counter_ok(b)
    &&& v.counter_no == le_u16(b, 0)
    &&& v.capacity == le_u32(b, 2)
    &&& v.tournament_id@ == text_of(b, 6)
    &&& v.bump == b[p]
    &&& v.rent == le_u64(b, p + 1)
}

/// Payload of `CounterFinder`: page number, 256 entries, id.
pub open spec fn counter_finder_ok(b: Seq<u8>) -> bool {
    b.len() >= 257 && text_ok(b, 257) && text_end(b, 257) == b.len()
}

pub open spec fn counter_finder_wire(b: Seq<u8>, v: CounterFinder) -> bool {
    &&& counter_finder_ok(b)
    &&& v.finder_no == b[0]
    &&& v.counters@ == b.subrange(1, 257)
    &&& v.tournament_id@ == text_of(b, 257)
}

/// Payload of `FinderFinder`: page number, 32 entries, id.
pub open spec fn finder_finder_ok(b: Seq<u8>) -> bool {
    b.len() >= 33 && text_ok(b, 33) && text_end(b, 33) == b.len()
}

pub open spec fn finder_finder_wire(b: Seq<u8>, v: FinderFinder) -> bool {
    &&& finder_finder_ok(b)
    &&& v.finder_no == b[0]
    &&& v.counters@ == b.subrange(1, 33)
    &&& v.tournament_id@ == text_of(b, 33)
}

/// Whether `rest` is a well-formed payload for the operation tagged `tag`.
pub open spec fn payload_ok(tag: u8, rest: Seq<u8>) -> bool {
    if tag == 0 || tag == 8 {
        init_ok(rest)
    } else if tag == 1 || tag == 9 {
        join_ok(rest)
    } else if tag == 2 || tag == 10 {
        move_ok(rest)
    } else if tag == 3 || tag == 11 {
        claim_ok(rest)
    } else if tag == 6 {
        tournament_ok(rest)
    } else if tag == 14 {
        counter_ok(rest)
    } else if tag == 15 {
        counter_finder_ok(rest)
    } else if tag == 16 {
        finder_finder_ok(rest)
    } else {
        tag <= 18
    }
}

/// `ix` is the operation tagged `tag` with payload `rest`.
pub open spec fn instruction_wire(tag: u8, rest: Seq<u8>, ix: GameInstruction) -> bool {
    match ix {
        GameInstruction::InitGame { init } => tag == 0 && init_wire(rest, init),
        GameInstruction::JoinGame { join } => tag == 1 && join_wire(rest, join),
        GameInstruction::Play { mymove } => tag == 2 && move_wire(rest, mymove),
        GameInstruction::ClaimvictoryScore { claim } => tag == 3 && claim_wire(rest, claim),
        GameInstruction::ClaimvictoryTime => tag == 4,
        GameInstruction::Abort => tag == 5,
        GameInstruction::InitializeTournament { t } => tag == 6 && tournament_wire(rest, t),
        GameInstruction::JoinTournament => tag == 7,
        GameInstruction::MatchInitialize { init } => tag == 8 && init_wire(rest, init),
        GameInstruction::MatchAccept { join } => tag == 9 && join_wire(rest, join),
        GameInstruction::PlayTournament { mymove } => tag == 10 && move_wire(rest, mymove),
        GameInstruction::TournamentClaimvictoryScore { claim } => tag == 11 && claim_wire(
            rest,
            claim,
        ),
        GameInstruction::Eliminate => tag == 12,
        GameInstruction::EliminatePlay => tag == 13,
        GameInstruction::InitCounter { t_counter } => tag == 14 && counter_wire(rest, t_counter),
        GameInstruction::UpdateCounterFinder { c_finder } => tag == 15 && counter_finder_wire(
            rest,
            c_finder,
        ),
        GameInstruction::UpdateFinderFinder { f_finder } => tag == 16 && finder_finder_wire(
            rest,
            f_finder,
        ),
        GameInstruction::DeleteAuth => tag == 17,
        GameInstruction::Delete => tag == 18,
    }
}

/// Relies on String::from_utf8: it succeeds exactly on valid UTF-8 and then
/// holds the decoded characters.
#[verifier::external_body]
fn text_from_utf8(bytes: Vec<u8>) -> (r: Option<String>)
    ensures
        r is Some <==> valid_utf8(bytes@),
        r matches Some(s) ==> s@ == decode_utf8(bytes@),
{
    String::from_utf8(bytes).ok()
}

fn read_u16(b: &[u8], p: usize) -> (r: u16)
    requires
        p + 2 <= b@.len(),
    ensures
        r == le_u16(b@, p as int),
{
    (b[p] as u16) + 256 * (b[p + 1] as u16)
}

fn read_u32(b: &[u8], p: usize) -> (r: u32)
    requires
        p + 4 <= b@.len(),
    ensures
        r == le_u32(b@, p as int),
{
    (b[p] as u32) + 256 * (b[p + 1] as u32) + 65536 * (b[p + 2] as u32) + 16777216 * (b[p
        + 3] as u32)
}

fn read_u64(b: &[u8], p: usize) -> (r: u64)
    requires
        p + 8 <= b@.len(),
    ensures
        r == le_u64(b@, p as int),
{
    let _len: usize = b.len();
    let lo: u64 = read_u32(b, p) as u64;
    let hi: u64 = read_u32(b, p + 4) as u64;
    lo + 4294967296 * hi
}

fn read_array<const N: usize>(b: &[u8], p: usize) -> (r: [u8; N])
    requires
        p + N <= b@.len(),
    ensures
        r@ == b@.subrange(p as int, p + N),
{
    let _len: usize = b.len();
    let mut a: [u8; N] = [0u8; N];
    let mut i: usize = 0;
    while i < N
        invariant
            i <= N,
            p + N <= b@.len() <= usize::MAX,
            a@.len() == N,
            forall|j: int| 0 <= j < i ==> a@[j] == b@[p + j],
        decreases N - i,
    {
        a[i] = b[p + i];
        i = i + 1;
    }
    assert(a@ =~= b@.subrange(p as int, p + N));
    a
}

/// Reads the text starting at `p`; returns it and where it ends.
fn read_text(b: &[u8], p: usize) -> (r: Option<(String, usize)>)
    ensures
        r is Some <==> text_ok(b@, p as int),
        r matches Some((s, e)) ==> s@ == text_of(b@, p as int) && e == text_end(b@, p as int),
{
    if b.len() < 4 || p > b.len() - 4 {
        return None;
    }
    let n: usize = read_u32(b, p) as usize;
    if n > b.len() - (p + 4) {
        return None;
    }
    let end: usize = p + 4 + n;
    let mut bytes: Vec<u8> = Vec::new();
    let mut i: usize = p + 4;
    while i < end
        invariant
            p + 4 <= i <= end <= b@.len(),
            bytes@ == b@.subrange(p + 4, i as int),
        decreases end - i,
    {
        bytes.push(b[i]);
        i = i + 1;
        assert(bytes@ =~= b@.subrange(p + 4, i as int));
    }
    match text_from_utf8(bytes) {
        Some(s) => Some((s, end)),
        None => None,
    }
}

fn decode_init(b: &[u8]) -> (r: Option<Init>)
    ensures
        r is Some <==> init_ok(b@),
        r matches Some(v) ==> init_wire(b@, v),
{
    let (seed, seed_end) = match read_text(b, 0) {
        Some(x) => x,
        None => return None,
    };
    let (gameseed, gameseed_end) = match read_text(b, seed_end) {
        Some(x) => x,
        None => return None,
    };
    if b.len() - gameseed_end != 41 {
        return None;
    }
    Some(
        Init {
            seed,
            gameseed,
            lamports: read_u64(b, gameseed_end),
            initializer_game_hash: read_array::<32>(b, gameseed_end + 8),
            bump: b[gameseed_end + 40],
        },
    )
}

fn decode_join(b: &[u8]) -> (r: Option<Join>)
    ensures
        r is Some <==> join_ok(b@),
        r matches Some(v) ==> join_wire(b@, v),
{
    let (seed, p) = match read_text(b, 0) {
        Some(x) => x,
        None => return None,
    };
    if b.len() - p != 32 {
        return None;
    }
    Some(Join { seed, guest_game_hash: read_array::<32>(b, p) })
}

fn decode_move(b: &[u8]) -> (r: Option<Move>)
    ensures
        r is Some <==> move_ok(b@),
        r matches Some(v) ==> move_wire(b@, v),
{
    if b.len() != 2 {
        return None;
    }
    Some(Move { mymove: b[0], opponents_last_move_is_hit: b[1] })
}

fn decode_claim(b: &[u8]) -> (r: Option<ClaimVictory>)
    ensures
        r is Some <==> claim_ok(b@),
        r matches Some(v) ==> claim_wire(b@, v),
{
    if b.len() < 1 {
        return None;
    }
    let (seed, p) = match read_text(b, 1) {
        Some(x) => x,
        None => return None,
    };
    if b.len() - p != 15 {
        return None;
    }
    Some(
        ClaimVictory {
            claims: b[0],
            seed,
            s1ax: b[p],
            s1cox: b[p + 1],
            s1coy: b[p + 2],
            s2ax: b[p + 3],
            s2cox: b[p + 4],
            s2coy: b[p + 5],
            s3ax: b[p + 6],
            s3cox: b[p + 7],
            s3coy: b[p + 8],
            s4ax: b[p + 9],
            s4cox: b[p + 10],
            s4coy: b[p + 11],
            s5ax: b[p + 12],
            s5cox: b[p + 13],
            s5coy: b[p + 14],
        },
    )
}

fn decode_tournament(b: &[u8]) -> (r: Option<Tournament>)
    ensures
        r is Some <==> tournament_ok(b@),
        r matches Some(v) ==> tournament_wire(b@, v),
{
    if b.len() < 1 {
        return None;
    }
    let (tournament_id, p) = match read_text(b, 1) {
        Some(x) => x,
        None => return None,
    };
    if b.len() - p != 79 {
        return None;
    }
    Some(
        Tournament {
            is_init: b[0],
            tournament_id,
            entrance_fee: read_u64(b, p),
            tournament_size: read_u32(b, p + 8),
            rent: read_u64(b, p + 12),
            starts_at: read_u64(b, p + 20),
            time_is_up: read_u64(b, p + 28),
            should_match_in: read_u64(b, p + 36),
            lvl_get: read_array::<30>(b, p + 44),
            winner_get: b[p + 74],
            organizer_get: b[p + 75],
            host_get: b[p + 76],
            number_of_counters: read_u16(b, p + 77),
        },
    )
}

fn decode_counter(b: &[u8]) -> (r: Option<InitTournamentCounter>)
    ensures
        r is Some <==> counter_ok(b@),
        r matches Some(v) ==> counter_wire(b@, v),
{
    if b.len() < 6 {
        return None;
    }
    let (tournament_id, p) = match read_text(b, 6) {
        Some(x) => x,
        None => return None,
    };
    if b.len() - p != 9 {
        return None;
    }
    Some(
        InitTournamentCounter {
            counter_no: read_u16(b, 0),
            capacity: read_u32(b, 2),
            tournament_id,
            bump: b[p],
            rent: read_u64(b, p + 1),
        },
    )
}

fn decode_counter_finder(b: &[u8]) -> (r: Option<CounterFinder>)
    ensures
        r is Some <==> counter_finder_ok(b@),
        r matches Some(v) ==> counter_finder_wire(b@, v),
{
    if b.len() < 257 {
        return None;
    }
    let (tournament_id, p) = match read_text(b, 257) {
        Some(x) => x,
        None => return None,
    };
    if b.len() != p {
        return None;
    }
    Some(CounterFinder { finder_no: b[0], counters: read_array::<256>(b, 1), tournament_id })
}

fn decode_finder_finder(b: &[u8]) -> (r: Option<FinderFinder>)
    ensures
        r is Some <==> finder_finder_ok(b@),
        r matches Some(v) ==> finder_finder_wire(b@, v),
{
    if b.len() < 33 {
        return None;
    }
    let (tournament_id, p) = match read_text(b, 33) {
        Some(x) => x,
        None => return None,
    };
    if b.len() != p {
        return None;
    }
    Some(FinderFinder { finder_no: b[0], counters: read_array::<32>(b, 1), tournament_id })
}

impl GameInstruction {
    /// Decodes one operation from its tag byte and payload. Operations
    /// without a payload ignore what follows the tag; all others must use
    /// their payload exactly. Anything else is `InvalidInstruction`.
    pub fn unpack(input: &[u8]) -> (r: Result<Self, GameError>)
        ensures
            r is Err ==> r == Err::<Self, GameError>(GameError::InvalidInstruction),
            r is Ok <==> input@.len() >= 1 && payload_ok(
                input@[0],
                input@.subrange(1, input@.len() as int),
            ),
            r matches Ok(ix) ==> instruction_wire(
                input@[0],
                input@.subrange(1, input@.len() as int),
                ix,
            ),
    {
        if input.len() < 1 {
            return Err(GameError::InvalidInstruction);
        }
        let tag: u8 = input[0];
        let rest: &[u8] = slice_tail(input);
        let r: Option<GameInstruction> = match tag {
            0 => match decode_init(rest) {
                Some(init) => Some(GameInstruction::InitGame { init }),
                None => None,
            },
            1 => match decode_join(rest) {
                Some(join) => Some(GameInstruction::JoinGame { join }),
                None => None,
            },
            2 => match decode_move(rest) {
                Some(mymove) => Some(GameInstruction::Play { mymove }),
                None => None,
            },
            3 => match decode_claim(rest) {
                Some(claim) => Some(GameInstruction::ClaimvictoryScore { claim }),
                None => None,
            },
            4 => Some(GameInstruction::ClaimvictoryTime),
            5 => Some(GameInstruction::Abort),
            6 => match decode_tournament(rest) {
                Some(t) => Some(GameInstruction::InitializeTournament { t }),
                None => None,
            },
            7 => Some(GameInstruction::JoinTournament),
            8 => match decode_init(rest) {
                Some(init) => Some(GameInstruction::MatchInitialize { init }),
                None => None,
            },
            9 => match decode_join(rest) {
                Some(join) => Some(GameInstruction::MatchAccept { join }),
                None => None,
            },
            10 => match decode_move(rest) {
                Some(mymove) => Some(GameInstruction::PlayTournament { mymove }),
                None => None,
            },
            11 => match decode_claim(rest) {
                Some(claim) => Some(GameInstruction::TournamentClaimvictoryScore { claim }),
                None => None,
            },
            12 => Some(GameInstruction::Eliminate),
            13 => Some(GameInstruction::EliminatePlay),
            14 => match decode_counter(rest) {
                Some(t_counter) => Some(GameInstruction::InitCounter { t_counter }),
                None => None,
            },
            15 => match decode_counter_finder(rest) {
                Some(c_finder) => Some(GameInstruction::UpdateCounterFinder { c_finder }),
                None => None,
            },
            16 => match decode_finder_finder(rest) {
                Some(f_finder) => Some(GameInstruction::UpdateFinderFinder { f_finder }),
                None => None,
            },
            17 => Some(GameInstruction::DeleteAuth),
            18 => Some(GameInstruction::Delete),
            _ => None,
        };
        match r {
            Some(ix) => Ok(ix),
            None => Err(GameError::InvalidInstruction),
        }
    }
}

/// Everything after the first byte.
fn slice_tail(input: &[u8]) -> (r: &[u8])
    requires
        input@.len() >= 1,
    ensures
        r@ == input@.subrange(1, input@.len() as int),
{
    vstd::slice::slice_subrange(input, 1, input.len())
}

} // verus!

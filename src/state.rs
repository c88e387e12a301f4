use vstd::prelude::*;

verus! {

/// Board cell value: never shot at.
pub const CELL_UNCHECKED: u8 = 0;
/// Board cell value: shot at, reported as a miss so far.
pub const CELL_MISS: u8 = 1;
/// Board cell value: shot at and reported as a hit.
pub const CELL_HIT: u8 = 2;

/// Phase of a match record: nothing stored yet.
pub const PHASE_EMPTY: u8 = 0;
/// Phase of a standalone match: created, waiting for a guest.
pub const PHASE_AWAITING_GUEST: u8 = 1;
/// Phase of a standalone match: both sides joined, shots are being fired.
pub const PHASE_IN_PROGRESS: u8 = 2;
/// Phase of a tournament match: created, waiting for the opponent to accept.
pub const PHASE_TOURNAMENT_AWAITING: u8 = 3;
/// Phase of a tournament match: accepted, shots are being fired.
pub const PHASE_TOURNAMENT_IN_PROGRESS: u8 = 4;
/// Terminal phase: the pot was paid out.
pub const PHASE_SETTLED: u8 = 5;
/// Terminal phase: the match was called off before a guest joined.
pub const PHASE_ABORTED: u8 = 6;

/// Turn marker of the initializing side.
pub const TURN_INITIALIZER: u8 = 1;
/// Turn marker of the guest side.
pub const TURN_GUEST: u8 = 2;

/// The part of a match record that standalone and tournament matches share,
/// in stored field order.
#[derive(Debug, Clone)]
pub struct MatchState {
    pub initialized: u8,
    pub gameseed: String,
    /// The stake each side commits.
    pub lamports: u64,
    pub initializer: [u8; 32],
    pub initializergamehash: [u8; 32],
    pub guest: [u8; 32],
    pub guestgamehash: [u8; 32],
    pub whoseturn: u8,
    pub lastplaytime: u64,
    pub lastmove: u8,
    pub ishots: u8,
    pub ihits: u8,
    pub gshots: u8,
    pub ghits: u8,
    /// Shots the guest fired at the initializer's fleet.
    pub initializer_board_state: [u8; 128],
    /// Shots the initializer fired at the guest's fleet.
    pub guest_board_state: [u8; 128],
}

/// Record of a standalone wagered match.
#[derive(Debug, Clone)]
pub struct GameState {
    pub host: [u8; 32],
    pub waiting: u8,
    pub game: MatchState,
}

/// Canonical identity of a tournament match: the tournament and the two
/// player numbers, lower first.
#[derive(Debug, Clone, PartialEq)]
pub struct MatchKey {
    pub tournament_id: String,
    pub low: u32,
    pub high: u32,
}

/// Record of a tournament match.
#[derive(Debug, Clone)]
pub struct TGameState {
    pub game_id: MatchKey,
    pub game: MatchState,
}

/// Payload that creates a match.
#[derive(Debug, Clone, PartialEq)]
pub struct Init {
    pub seed: String,
    pub gameseed: String,
    pub lamports: u64,
    pub initializer_game_hash: [u8; 32],
    pub bump: u8,
}

/// Payload that joins a match.
#[derive(Debug, Clone, PartialEq)]
pub struct Join {
    pub seed: String,
    pub guest_game_hash: [u8; 32],
}

/// Payload of one shot: the target cell and whether the opponent's previous
/// shot was a hit (1) or not (0).
#[derive(Debug, Clone, Copy, PartialEq, Eq)]
pub struct Move {
    pub mymove: u8,
    pub opponents_last_move_is_hit: u8,
}

/// Payload of a victory claim: the side claiming (1 for the initializer,
/// anything else for the guest), the reveal seed, and for each of the five
/// ships its orientation (1 along a row, 2 along a column) and anchor.
#[derive(Debug, Clone, PartialEq)]
pub struct ClaimVictory {
    pub claims: u8,
    pub seed: String,
    pub s1ax: u8,
    pub s1cox: u8,
    pub s1coy: u8,
    pub s2ax: u8,
    pub s2cox: u8,
    pub s2coy: u8,
    pub s3ax: u8,
    pub s3cox: u8,
    pub s3coy: u8,
    pub s4ax: u8,
    pub s4cox: u8,
    pub s4coy: u8,
    pub s5ax: u8,
    pub s5cox: u8,
    pub s5coy: u8,
}

/// Definition of a tournament.
#[derive(Debug, Clone, PartialEq)]
pub struct Tournament {
    pub is_init: u8,
    pub tournament_id: String,
    pub entrance_fee: u64,
    pub tournament_size: u32,
    pub rent: u64,
    pub starts_at: u64,
    /// The elimination timeout.
    pub time_is_up: u64,
    pub should_match_in: u64,
    /// Reward tier, a multiple of the entrance fee, by bracket level.
    pub lvl_get: [u8; 30],
    pub winner_get: u8,
    pub organizer_get: u8,
    /// Host fee in percent of the entrance fee.
    pub host_get: u8,
    pub number_of_counters: u16,
}

/// Where the registry finds a participant: its shard, its player number and
/// its tournament.
#[derive(Debug, Clone, PartialEq)]
pub struct DiscoveryKey {
    pub shard: u16,
    pub player: u32,
    pub tournament_id: String,
}

/// A participant's slot in a tournament.
#[derive(Debug, Clone, PartialEq)]
pub struct TournamentAccount {
    pub player_find: DiscoveryKey,
    pub tournamentid: String,
    pub player: [u8; 32],
    pub opponent: u32,
    pub level: u8,
    pub playerno_int: u32,
    /// When the participant's previous round ended (or the tournament started).
    pub opponent_played_on: u64,
    pub is_playing: u8,
    pub waiting_opponent_to_join: u8,
}

/// One registry shard: how many participants it holds out of its capacity.
#[derive(Debug, Clone, PartialEq)]
pub struct TournamentCounter {
    pub empty: String,
    pub counter_no: u16,
    pub player_participating: u32,
    pub capacity: u32,
    pub tournament_id: String,
}

/// Registry page listing shards.
#[derive(Debug, Clone, PartialEq)]
pub struct CounterFinder {
    pub finder_no: u8,
    pub counters: [u8; 256],
    pub tournament_id: String,
}

/// Registry page listing counter pages.
#[derive(Debug, Clone, PartialEq)]
pub struct FinderFinder {
    pub finder_no: u8,
    pub counters: [u8; 32],
    pub tournament_id: String,
}

/// Payload that creates a registry shard.
#[derive(Debug, Clone, PartialEq)]
pub struct InitTournamentCounter {
    pub counter_no: u16,
    pub capacity: u32,
    pub tournament_id: String,
    pub bump: u8,
    pub rent: u64,
}

/// Byte-for-byte comparison of two keys or digests.
pub fn same_bytes(a: &[u8; 32], b: &[u8; 32]) -> (r: bool)
    ensures
        r == (a@ == b@),
        r == (*a == *b),
{
    broadcast use vstd::array::group_array_axioms;

    let mut i: usize = 0;
    while i < 32
        invariant
            i <= 32,
            forall|j: int| 0 <= j < i ==> a@[j] == b@[j],
        decreases 32 - i,
    {
        if a[i] != b[i] {
            return false;
        }
        i = i + 1;
    }
    assert(a@ =~= b@);
    assert(*a =~= *b);
    true
}

} // verus!

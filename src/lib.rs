// A two-player "sink the fleet" wagering game with commit-reveal layouts,
// and a single-elimination tournament built on the same match logic.
//
// - `state`: the stored records.
// - `instruction`: decoding of an operation from its bytes.
// - `kernel`: layout packing, commitment verification and scoring of a claim.
// - `settlement`: how a pot is split.
// - `shot`: one shot of a match, shared by both kinds of match.
// - `processor`: the standalone match engine.
// - `tournament`: the bracket engine.

pub mod error;
pub mod instruction;
pub mod kernel;
pub mod processor;
pub mod settlement;
pub mod shot;
pub mod state;
pub mod tournament;

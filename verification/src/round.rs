//! Domain values shared between the orchestrator and its collaborators:
//! the opaque round snapshot, the collaborator error codes, and the
//! outcome of one orchestration attempt.

use vstd::prelude::*;

use crate::cards::DecodeError;

verus! {

/// One game's serialized progress snapshot, owned by the round store.
///
/// The orchestrator never inspects the bytes: it loads a snapshot, hands
/// it to the engine, and persists exactly what the engine returned.
#[derive(Debug, PartialEq, Eq)]
pub struct RoundState {
    pub data: Vec<u8>,
}

impl View for RoundState {
    type V = Seq<u8>;

    open spec fn view(&self) -> Seq<u8> {
        self.data@
    }
}

impl Clone for RoundState {
    /// Cloning a snapshot keeps its bytes exactly.
    fn clone(&self) -> (r: Self)
        ensures
            r@ == self@,
    {
        let d = self.data.clone();
        proof {
            assert(d@ =~= self.data@);
        }
        RoundState { data: d }
    }
}

/// A rule-level rejection from the game engine, with its reason code.
#[derive(Clone, Copy, PartialEq, Eq, Structural, Debug)]
pub struct MoveError {
    pub code: u64,
}

/// A failure to reconstruct a game from its stored snapshot: a
/// data-integrity signal, fatal for the request but never for the process.
#[derive(Clone, Copy, PartialEq, Eq, Structural, Debug)]
pub struct EngineError {
    pub code: u64,
}

/// Why the round store refused an update.
#[derive(Clone, Copy, PartialEq, Eq, Structural, Debug)]
pub enum StorageError {
    /// A concurrent conflicting update won the race: the snapshot this
    /// request loaded is stale. Retryable by re-loading and re-validating.
    Conflict,
}

/// The result of one move-submission attempt.
#[derive(Debug, PartialEq, Eq)]
pub enum MoveOutcome {
    /// The engine accepted the move and the new snapshot was persisted.
    Applied { state: RoundState },
    /// No round is stored under the submitted game id: an expected,
    /// recoverable outcome, not a fault.
    RoundNotFound,
    /// It is not the submitting user's turn; `expected` is the player
    /// whose turn it is. No state was written.
    TurnRejected { expected: u64 },
    /// The engine judged the move illegal. No state was written.
    MoveRejected { reason: MoveError },
    /// The submitted field names did not decode into a hand.
    DecodeFailed { reason: DecodeError },
    /// The round store detected a conflicting concurrent update and
    /// refused the write; this request's move was not persisted.
    StorageConflict,
    /// The stored snapshot failed to reconstruct into a game: an internal
    /// invariant violation, surfaced as a generic failure.
    CorruptRound { reason: EngineError },
}

} // verus!

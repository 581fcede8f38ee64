//! Move orchestrator: drives one atomic load / authorize-turn / apply /
//! persist transition for a submitted move.
//!
//! The round store and the game engine are external collaborators that
//! may block or perform I/O, so the orchestrator is a step machine: each
//! `step` consumes the collaborator's answer to the previous instruction
//! and returns the next instruction. The caller performs the instructions
//! in order; every decision between them is made, and verified, here.
//!
//! The step order is fixed: load, then authorize the turn, then apply,
//! then persist. Nothing is persisted before the engine accepts the move,
//! and what is persisted is byte-for-byte the snapshot the engine
//! returned.

use vstd::prelude::*;
use vstd::pervasive::unreached;

use crate::cards::Card;
use crate::round::EngineError;
use crate::round::MoveError;
use crate::round::MoveOutcome;
use crate::round::RoundState;
use crate::round::StorageError;

verus! {

/// Where one orchestration attempt stands.
#[derive(Debug)]
pub enum Phase {
    /// Waiting for the round store to report the snapshot for the game.
    Loading,
    /// Waiting for the engine to report whose turn it is.
    CheckingTurn,
    /// Waiting for the engine's verdict on the submitted hand.
    Applying,
    /// Waiting for the round store to acknowledge the write of `pending`.
    Persisting { pending: RoundState },
    /// The attempt is over; no further event is accepted.
    Finished { outcome: MoveOutcome },
}

/// A collaborator's answer to the previous instruction.
#[derive(Debug)]
pub enum Event {
    /// The round store's answer to `FetchRound`.
    RoundFetched { round: Option<RoundState> },
    /// The engine's answer to `ReadNextPlayer`: the player whose turn it
    /// is, or a failure to reconstruct the game from its snapshot.
    NextPlayerRead { result: Result<u64, EngineError> },
    /// The engine's answer to `ApplyMove`: the new snapshot, or a
    /// rule-level rejection.
    MoveApplied { result: Result<RoundState, MoveError> },
    /// The round store's answer to `PushUpdate`.
    UpdatePushed { result: Result<(), StorageError> },
}

/// The next instruction for the caller.
#[derive(Debug)]
pub enum Action {
    /// Ask the round store for the snapshot of this game.
    FetchRound { game_id: u64 },
    /// Ask the engine, on the loaded snapshot, whose turn it is.
    ReadNextPlayer,
    /// Ask the engine to validate and apply this user's hand.
    ApplyMove { user_id: u64, hand: Vec<Card> },
    /// Ask the round store to persist `state` for this game.
    PushUpdate { game_id: u64, state: RoundState },
    /// The attempt is over; report `Phase::Finished`'s outcome.
    Done,
}

/// One move-submission attempt: the request being decided and its phase.
#[derive(Debug)]
pub struct Orchestrator {
    pub user_id: u64,
    pub game_id: u64,
    pub hand: Vec<Card>,
    pub phase: Phase,
}

/// Whether `ev` is an answer to the instruction that the machine in
/// phase `ph` last issued. A finished machine accepts no event.
pub open spec fn event_fits(ph: Phase, ev: Event) -> bool {
    match (ph, ev) {
        (Phase::Loading, Event::RoundFetched { .. }) => true,
        (Phase::CheckingTurn, Event::NextPlayerRead { .. }) => true,
        (Phase::Applying, Event::MoveApplied { .. }) => true,
        (Phase::Persisting { .. }, Event::UpdatePushed { .. }) => true,
        _ => false,
    }
}

/// The whole transition relation of the machine: what `step` does to a
/// fitting event, case by case. Snapshots are compared by their bytes.
pub open spec fn step_relation(pre: Orchestrator, ev: Event, post: Orchestrator, act: Action) -> bool {
    &&& post.user_id == pre.user_id
    &&& post.game_id == pre.game_id
    &&& post.hand@ == pre.hand@
    &&& match (pre.phase, ev) {
        (Phase::Loading, Event::RoundFetched { round: None }) => {
            &&& post.phase == (Phase::Finished { outcome: MoveOutcome::RoundNotFound })
            &&& act is Done
        },
        (Phase::Loading, Event::RoundFetched { round: Some(_) }) => {
            &&& post.phase is CheckingTurn
            &&& act is ReadNextPlayer
        },
        (Phase::CheckingTurn, Event::NextPlayerRead { result: Err(e) }) => {
            &&& post.phase == (Phase::Finished {
                outcome: MoveOutcome::CorruptRound { reason: e },
            })
            &&& act is Done
        },
        (Phase::CheckingTurn, Event::NextPlayerRead { result: Ok(next) }) => {
            if next == pre.user_id {
                &&& post.phase is Applying
                &&& act matches Action::ApplyMove { user_id, hand }
                &&& user_id == pre.user_id
                &&& hand@ == pre.hand@
            } else {
                &&& post.phase == (Phase::Finished {
                    outcome: MoveOutcome::TurnRejected { expected: next },
                })
                &&& act is Done
            }
        },
        (Phase::Applying, Event::MoveApplied { result: Err(e) }) => {
            &&& post.phase == (Phase::Finished {
                outcome: MoveOutcome::MoveRejected { reason: e },
            })
            &&& act is Done
        },
        (Phase::Applying, Event::MoveApplied { result: Ok(ns) }) => {
            &&& post.phase matches Phase::Persisting { pending }
            &&& pending@ == ns@
            &&& act matches Action::PushUpdate { game_id, state }
            &&& game_id == pre.game_id
            &&& state@ == ns@
        },
        (Phase::Persisting { pending }, Event::UpdatePushed { result: Ok(_) }) => {
            &&& post.phase matches Phase::Finished { outcome }
            &&& outcome matches MoveOutcome::Applied { state }
            &&& state@ == pending@
            &&& act is Done
        },
        (Phase::Persisting { .. }, Event::UpdatePushed { result: Err(e) }) => {
            &&& e is Conflict
            &&& post.phase == (Phase::Finished { outcome: MoveOutcome::StorageConflict })
            &&& act is Done
        },
        _ => false,
    }
}

impl Orchestrator {
    /// Begins one attempt for an authenticated user, a routed game id and
    /// an already-decoded hand.
    pub fn new(user_id: u64, game_id: u64, hand: Vec<Card>) -> (o: Orchestrator)
        ensures
            o.user_id == user_id,
            o.game_id == game_id,
            o.hand == hand,
            o.phase is Loading,
    {
        Orchestrator { user_id, game_id, hand, phase: Phase::Loading }
    }

    /// The first instruction of every attempt: load the round snapshot.
    pub fn start(&self) -> (a: Action)
        requires
            self.phase is Loading,
        ensures
            a == (Action::FetchRound { game_id: self.game_id }),
    {
        Action::FetchRound { game_id: self.game_id }
    }

    /// Consumes the collaborator's answer to the previous instruction and
    /// returns the machine in its next phase together with the next
    /// instruction, as `step_relation` states.
    pub fn step(self, event: Event) -> (r: (Orchestrator, Action))
        requires
            event_fits(self.phase, event),
        ensures
            step_relation(self, event, r.0, r.1),
    {
        let Orchestrator { user_id, game_id, hand, phase } = self;
        match (phase, event) {
            (Phase::Loading, Event::RoundFetched { round }) => {
                match round {
                    None => (
                        Orchestrator {
                            user_id,
                            game_id,
                            hand,
                            phase: Phase::Finished { outcome: MoveOutcome::RoundNotFound },
                        },
                        Action::Done,
                    ),
                    Some(_) => (
                        Orchestrator { user_id, game_id, hand, phase: Phase::CheckingTurn },
                        Action::ReadNextPlayer,
                    ),
                }
            },
            (Phase::CheckingTurn, Event::NextPlayerRead { result }) => {
                match result {
                    Err(e) => (
                        Orchestrator {
                            user_id,
                            game_id,
                            hand,
                            phase: Phase::Finished {
                                outcome: MoveOutcome::CorruptRound { reason: e },
                            },
                        },
                        Action::Done,
                    ),
                    Ok(next) => {
                        if next == user_id {
                            let submitted = clone_hand(&hand);
                            (
                                Orchestrator { user_id, game_id, hand, phase: Phase::Applying },
                                Action::ApplyMove { user_id, hand: submitted },
                            )
                        } else {
                            (
                                Orchestrator {
                                    user_id,
                                    game_id,
                                    hand,
                                    phase: Phase::Finished {
                                        outcome: MoveOutcome::TurnRejected { expected: next },
                                    },
                                },
                                Action::Done,
                            )
                        }
                    },
                }
            },
            (Phase::Applying, Event::MoveApplied { result }) => {
                match result {
                    Err(e) => (
                        Orchestrator {
                            user_id,
                            game_id,
                            hand,
                            phase: Phase::Finished {
                                outcome: MoveOutcome::MoveRejected { reason: e },
                            },
                        },
                        Action::Done,
                    ),
                    Ok(ns) => {
                        let pending = ns.clone();
                        (
                            Orchestrator {
                                user_id,
                                game_id,
                                hand,
                                phase: Phase::Persisting { pending },
                            },
                            Action::PushUpdate { game_id, state: ns },
                        )
                    },
                }
            },
            (Phase::Persisting { pending }, Event::UpdatePushed { result }) => {
                match result {
                    Ok(_) => (
                        Orchestrator {
                            user_id,
                            game_id,
                            hand,
                            phase: Phase::Finished {
                                outcome: MoveOutcome::Applied { state: pending },
                            },
                        },
                        Action::Done,
                    ),
                    Err(StorageError::Conflict) => (
                        Orchestrator {
                            user_id,
                            game_id,
                            hand,
                            phase: Phase::Finished { outcome: MoveOutcome::StorageConflict },
                        },
                        Action::Done,
                    ),
                }
            },
            _ => unreached(),
        }
    }
}

/// An element-exact copy of a hand (cards are plain values).
fn clone_hand(hand: &Vec<Card>) -> (r: Vec<Card>)
    ensures
        r@ == hand@,
{
    let mut r: Vec<Card> = Vec::new();
    let mut i: usize = 0;
    while i < hand.len()
        invariant
            i <= hand@.len(),
            r@ == hand@.subrange(0, i as int),
        decreases hand@.len() - i,
    {
        r.push(hand[i]);
        proof {
            assert(r@ =~= hand@.subrange(0, i + 1));
        }
        i += 1;
    }
    proof {
        assert(r@ =~= hand@);
    }
    r
}

/// A missing round ends the attempt at once: the outcome is
/// `RoundNotFound`, the instruction is `Done`, and — the machine being
/// finished — no update instruction can ever follow.
pub proof fn lemma_missing_round_never_persists(
    pre: Orchestrator,
    ev: Event,
    post: Orchestrator,
    act: Action,
)
    requires
        pre.phase is Loading,
        ev == (Event::RoundFetched { round: Option::<RoundState>::None }),
        step_relation(pre, ev, post, act),
    ensures
        post.phase == (Phase::Finished { outcome: MoveOutcome::RoundNotFound }),
        act is Done,
{
}

/// A turn violation ends the attempt at once: when the reported next
/// player is not the submitting user, the outcome is `TurnRejected` with
/// that player, the instruction is `Done`, and no state is ever written.
pub proof fn lemma_turn_rejected_never_persists(
    pre: Orchestrator,
    ev: Event,
    post: Orchestrator,
    act: Action,
    next: u64,
)
    requires
        pre.phase is CheckingTurn,
        ev == (Event::NextPlayerRead { result: Ok::<u64, EngineError>(next) }),
        next != pre.user_id,
        step_relation(pre, ev, post, act),
    ensures
        post.phase == (Phase::Finished { outcome: MoveOutcome::TurnRejected { expected: next } }),
        act is Done,
{
}

/// The machine asks for an update only right after the engine accepted
/// the move, and the snapshot it asks to persist is byte-for-byte the
/// snapshot the engine returned, keyed by the submitted game id.
pub proof fn lemma_update_only_after_acceptance(
    pre: Orchestrator,
    ev: Event,
    post: Orchestrator,
    act: Action,
)
    requires
        step_relation(pre, ev, post, act),
        act is PushUpdate,
    ensures
        pre.phase is Applying,
        ev matches Event::MoveApplied { result: Ok(ns) } && act matches Action::PushUpdate {
            game_id,
            state,
        } && state@ == ns@ && game_id == pre.game_id,
{
}

/// A finished machine accepts no further event: once an attempt has an
/// outcome, no instruction — in particular no update — can follow.
pub proof fn lemma_finished_is_terminal(ph: Phase, ev: Event)
    requires
        ph is Finished,
    ensures
        !event_fits(ph, ev),
{
}

/// How far along the load / check / apply / persist order a phase stands.
pub open spec fn phase_rank(ph: Phase) -> nat {
    match ph {
        Phase::Loading => 0,
        Phase::CheckingTurn => 1,
        Phase::Applying => 2,
        Phase::Persisting { .. } => 3,
        Phase::Finished { .. } => 4,
    }
}

/// Every step advances the attempt strictly along the fixed order, so no
/// phase is ever revisited: one attempt loads, checks the turn, applies
/// and persists each at most once, and never out of order.
pub proof fn lemma_step_advances(pre: Orchestrator, ev: Event, post: Orchestrator, act: Action)
    requires
        step_relation(pre, ev, post, act),
    ensures
        phase_rank(post.phase) > phase_rank(pre.phase),
{
}

/// A run of the machine: `states[0]` is where the attempt begins, and
/// each event takes `states[k]` to `states[k + 1]` issuing `acts[k]`.
pub open spec fn is_run(states: Seq<Orchestrator>, events: Seq<Event>, acts: Seq<Action>) -> bool {
    &&& states.len() == events.len() + 1
    &&& acts.len() == events.len()
    &&& forall|k: int|
        0 <= k < events.len() ==> step_relation(states[k], events[k], states[k + 1], acts[k])
}

/// Along a run the phase rank grows strictly with every step.
proof fn lemma_rank_monotone(states: Seq<Orchestrator>, events: Seq<Event>, acts: Seq<Action>, i: int, j: int)
    requires
        is_run(states, events, acts),
        0 <= i < j < states.len(),
    ensures
        phase_rank(states[i].phase) < phase_rank(states[j].phase),
    decreases j - i,
{
    lemma_step_advances(states[i], events[i], states[i + 1], acts[i]);
    if i + 1 < j {
        lemma_rank_monotone(states, events, acts, i + 1, j);
    }
}

/// Once an attempt is finished it stays so for good: a finished state can
/// only be the last of a run, since nothing has rank above it.
pub proof fn lemma_finished_ends_the_run(
    states: Seq<Orchestrator>,
    events: Seq<Event>,
    acts: Seq<Action>,
    k: int,
)
    requires
        is_run(states, events, acts),
        0 <= k < states.len(),
        states[k].phase is Finished,
    ensures
        k == states.len() - 1,
{
    if k < states.len() - 1 {
        lemma_rank_monotone(states, events, acts, k, states.len() - 1);
    }
}

/// In a whole run, a write is requested only at the step on which the
/// engine accepted the move — so a run that ends in `RoundNotFound`,
/// `TurnRejected`, `MoveRejected` or `CorruptRound` never wrote — and no
/// run requests more than one write.
pub proof fn lemma_run_writes_at_most_once(
    states: Seq<Orchestrator>,
    events: Seq<Event>,
    acts: Seq<Action>,
)
    requires
        is_run(states, events, acts),
    ensures
        forall|j: int|
            0 <= j < acts.len() && acts[j] is PushUpdate ==> states[j].phase is Applying
                && (events[j] matches Event::MoveApplied { result: Ok(_) }),
        forall|j1: int, j2: int|
            0 <= j1 < j2 < acts.len() ==> !(acts[j1] is PushUpdate && acts[j2] is PushUpdate),
{
    assert forall|j: int|
        0 <= j < acts.len() && acts[j] is PushUpdate implies states[j].phase is Applying
        && (events[j] matches Event::MoveApplied { result: Ok(_) }) by {
        lemma_update_only_after_acceptance(states[j], events[j], states[j + 1], acts[j]);
    }
    assert forall|j1: int, j2: int|
        0 <= j1 < j2 < acts.len() implies !(acts[j1] is PushUpdate && acts[j2] is PushUpdate) by {
        if acts[j1] is PushUpdate && acts[j2] is PushUpdate {
            lemma_update_only_after_acceptance(states[j1], events[j1], states[j1 + 1], acts[j1]);
            lemma_update_only_after_acceptance(states[j2], events[j2], states[j2 + 1], acts[j2]);
            lemma_rank_monotone(states, events, acts, j1, j2);
        }
    }
}

/// `Applied` is reported only after the round store acknowledged the
/// write: a refused (conflicting) write never yields `Applied`, it yields
/// `StorageConflict`, so of two racing submissions the store lets at most
/// one end `Applied`.
pub proof fn lemma_applied_needs_acknowledged_write(
    pre: Orchestrator,
    ev: Event,
    post: Orchestrator,
    act: Action,
)
    requires
        step_relation(pre, ev, post, act),
    ensures
        (post.phase matches Phase::Finished { outcome } && outcome is Applied) ==> ({
            &&& pre.phase is Persisting
            &&& ev matches Event::UpdatePushed { result }
            &&& result is Ok
        }),
        (pre.phase is Persisting && (ev matches Event::UpdatePushed { result: Err(e) })) ==> post.phase
            == (Phase::Finished { outcome: MoveOutcome::StorageConflict }),
{
}

} // verus!

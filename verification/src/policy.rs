//! Response policy: every outcome of a submission resolves to one of a
//! small set of navigational targets — never an unstructured failure.
//!
//! Also the request screen: a submission with no authenticated user or no
//! routed game id goes straight back to the home page and the
//! orchestrator is never started.

use vstd::prelude::*;

use crate::round::MoveOutcome;

verus! {

/// Where the caller's transport layer should send the player next.
#[derive(Clone, Copy, PartialEq, Eq, Structural, Debug)]
pub enum NavTarget {
    /// The base / home page.
    Home,
    /// The list of games.
    GamesList,
    /// The play page of the submitted game.
    Play { game_id: u64 },
}

/// The navigational target for each outcome.
///
/// A missing round goes back to the games list, as does a corrupt
/// snapshot (a safe default view). Everything else — success as well as
/// every rejection, which stays available in the outcome for the caller
/// to report — goes to the game's play page, where the player sees the
/// new state or can retry.
pub open spec fn spec_redirect(outcome: MoveOutcome, game_id: u64) -> NavTarget {
    match outcome {
        MoveOutcome::RoundNotFound => NavTarget::GamesList,
        MoveOutcome::CorruptRound { .. } => NavTarget::GamesList,
        MoveOutcome::Applied { .. } => NavTarget::Play { game_id },
        MoveOutcome::TurnRejected { .. } => NavTarget::Play { game_id },
        MoveOutcome::MoveRejected { .. } => NavTarget::Play { game_id },
        MoveOutcome::DecodeFailed { .. } => NavTarget::Play { game_id },
        MoveOutcome::StorageConflict => NavTarget::Play { game_id },
    }
}

/// Maps one orchestration outcome to its navigational target.
pub fn redirect_target(outcome: &MoveOutcome, game_id: u64) -> (t: NavTarget)
    ensures
        t == spec_redirect(*outcome, game_id),
{
    match outcome {
        MoveOutcome::RoundNotFound => NavTarget::GamesList,
        MoveOutcome::CorruptRound { .. } => NavTarget::GamesList,
        _ => NavTarget::Play { game_id },
    }
}

/// Whether a submission may proceed to orchestration at all.
#[derive(Clone, Copy, PartialEq, Eq, Structural, Debug)]
pub enum RequestScreen {
    /// No authenticated user: back to the home page, nothing is decoded
    /// or orchestrated.
    NotAuthenticated,
    /// No game id in the routed path: back to the home page.
    NoGameSelected,
    /// An authenticated user submitting against a routed game.
    Proceed { user_id: u64, game_id: u64 },
}

/// What the screen decides for each combination of credentials.
pub open spec fn spec_screen(user: Option<u64>, game: Option<u64>) -> RequestScreen {
    match user {
        None => RequestScreen::NotAuthenticated,
        Some(user_id) => match game {
            None => RequestScreen::NoGameSelected,
            Some(game_id) => RequestScreen::Proceed { user_id, game_id },
        },
    }
}

/// Screens a submission: only a request that carries both an
/// authenticated user and a routed game id proceeds; anything else is
/// turned away before the orchestrator is ever started.
pub fn screen_request(user: Option<u64>, game: Option<u64>) -> (d: RequestScreen)
    ensures
        d == spec_screen(user, game),
{
    match user {
        None => RequestScreen::NotAuthenticated,
        Some(user_id) => match game {
            None => RequestScreen::NoGameSelected,
            Some(game_id) => RequestScreen::Proceed { user_id, game_id },
        },
    }
}

/// A turned-away submission always lands on the home page.
pub fn screen_target(d: &RequestScreen) -> (t: NavTarget)
    requires
        !(d is Proceed),
    ensures
        t == NavTarget::Home,
{
    NavTarget::Home
}

} // verus!

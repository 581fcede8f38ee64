use card_moves::cards::{Card, DecodeError, Rank, Suit};
use card_moves::hand::decode_hand;
use card_moves::orchestrator::{Action, Event, Orchestrator, Phase};
use card_moves::policy::{redirect_target, screen_request, screen_target, NavTarget, RequestScreen};
use card_moves::round::{EngineError, MoveError, MoveOutcome, RoundState, StorageError};

fn snapshot(bytes: &[u8]) -> RoundState {
    RoundState { data: bytes.to_vec() }
}

fn finished_outcome(phase: &Phase) -> &MoveOutcome {
    match phase {
        Phase::Finished { outcome } => outcome,
        other => panic!("machine not finished: {:?}", other),
    }
}

#[test]
fn applied_move_end_to_end() {
    // An authenticated user whose turn it is plays one club; the engine
    // accepts and the store acknowledges the write.
    let fields = vec![String::from("Clubs 2")];
    let hand = decode_hand(&fields).unwrap();
    let screen = screen_request(Some(7), Some(42));
    assert_eq!(screen, RequestScreen::Proceed { user_id: 7, game_id: 42 });

    let m = Orchestrator::new(7, 42, hand);
    match m.start() {
        Action::FetchRound { game_id } => assert_eq!(game_id, 42),
        other => panic!("unexpected action: {:?}", other),
    }

    let loaded = snapshot(b"round-before");
    let (m, a) = m.step(Event::RoundFetched { round: Some(loaded) });
    assert!(matches!(a, Action::ReadNextPlayer));

    let (m, a) = m.step(Event::NextPlayerRead { result: Ok(7) });
    match a {
        Action::ApplyMove { user_id, hand } => {
            assert_eq!(user_id, 7);
            assert_eq!(hand, vec![Card { suit: Suit::Clubs, rank: Rank::Two }]);
        },
        other => panic!("unexpected action: {:?}", other),
    }

    let accepted = snapshot(b"round-after");
    let (m, a) = m.step(Event::MoveApplied { result: Ok(accepted) });
    match &a {
        Action::PushUpdate { game_id, state } => {
            assert_eq!(*game_id, 42);
            // exactly what the engine returned, no transformation between
            assert_eq!(state, &snapshot(b"round-after"));
        },
        other => panic!("unexpected action: {:?}", other),
    }

    let (m, a) = m.step(Event::UpdatePushed { result: Ok(()) });
    assert!(matches!(a, Action::Done));
    let outcome = finished_outcome(&m.phase);
    assert_eq!(outcome, &MoveOutcome::Applied { state: snapshot(b"round-after") });
    assert_eq!(redirect_target(outcome, 42), NavTarget::Play { game_id: 42 });
}

#[test]
fn missing_round_redirects_to_games_list() {
    let m = Orchestrator::new(7, 99, Vec::new());
    let (m, a) = m.step(Event::RoundFetched { round: None });
    assert!(matches!(a, Action::Done));
    let outcome = finished_outcome(&m.phase);
    assert_eq!(outcome, &MoveOutcome::RoundNotFound);
    assert_eq!(redirect_target(outcome, 99), NavTarget::GamesList);
}

#[test]
fn wrong_turn_is_rejected_without_update() {
    let m = Orchestrator::new(7, 42, Vec::new());
    let (m, a) = m.step(Event::RoundFetched { round: Some(snapshot(b"r")) });
    assert!(matches!(a, Action::ReadNextPlayer));
    let (m, a) = m.step(Event::NextPlayerRead { result: Ok(8) });
    assert!(matches!(a, Action::Done));
    assert_eq!(
        finished_outcome(&m.phase),
        &MoveOutcome::TurnRejected { expected: 8 }
    );
    assert_eq!(redirect_target(finished_outcome(&m.phase), 42), NavTarget::Play { game_id: 42 });
}

#[test]
fn engine_rejection_is_reported_without_update() {
    let m = Orchestrator::new(7, 42, Vec::new());
    let (m, _) = m.step(Event::RoundFetched { round: Some(snapshot(b"r")) });
    let (m, _) = m.step(Event::NextPlayerRead { result: Ok(7) });
    let (m, a) = m.step(Event::MoveApplied { result: Err(MoveError { code: 3 }) });
    assert!(matches!(a, Action::Done));
    assert_eq!(
        finished_outcome(&m.phase),
        &MoveOutcome::MoveRejected { reason: MoveError { code: 3 } }
    );
}

#[test]
fn unloadable_snapshot_is_a_corrupt_round() {
    let m = Orchestrator::new(7, 42, Vec::new());
    let (m, _) = m.step(Event::RoundFetched { round: Some(snapshot(b"r")) });
    let (m, a) = m.step(Event::NextPlayerRead { result: Err(EngineError { code: 1 }) });
    assert!(matches!(a, Action::Done));
    let outcome = finished_outcome(&m.phase);
    assert_eq!(outcome, &MoveOutcome::CorruptRound { reason: EngineError { code: 1 } });
    assert_eq!(redirect_target(outcome, 42), NavTarget::GamesList);
}

#[test]
fn racing_submissions_cannot_both_apply() {
    // Two submissions race on one game: both load the same snapshot and
    // both pass validation, but the store's conflict check lets only the
    // first write through; the loser must see StorageConflict.
    let shared = snapshot(b"round-v1");

    let first = Orchestrator::new(7, 42, Vec::new());
    let (first, _) = first.step(Event::RoundFetched { round: Some(shared.clone()) });
    let (first, _) = first.step(Event::NextPlayerRead { result: Ok(7) });
    let (first, _) = first.step(Event::MoveApplied { result: Ok(snapshot(b"round-v2a")) });

    let second = Orchestrator::new(7, 42, Vec::new());
    let (second, _) = second.step(Event::RoundFetched { round: Some(shared) });
    let (second, _) = second.step(Event::NextPlayerRead { result: Ok(7) });
    let (second, _) = second.step(Event::MoveApplied { result: Ok(snapshot(b"round-v2b")) });

    // the store acknowledges the first write and refuses the stale second
    let (first, _) = first.step(Event::UpdatePushed { result: Ok(()) });
    let (second, _) = second.step(Event::UpdatePushed { result: Err(StorageError::Conflict) });

    let first_outcome = finished_outcome(&first.phase);
    let second_outcome = finished_outcome(&second.phase);
    assert_eq!(first_outcome, &MoveOutcome::Applied { state: snapshot(b"round-v2a") });
    assert_eq!(second_outcome, &MoveOutcome::StorageConflict);
    let both_applied = matches!(first_outcome, MoveOutcome::Applied { .. })
        && matches!(second_outcome, MoveOutcome::Applied { .. });
    assert!(!both_applied);
}

#[test]
fn undecodable_submission_never_reaches_the_machine() {
    let fields = vec![String::from("Clubs 11")];
    let err = decode_hand(&fields).unwrap_err();
    assert_eq!(err, DecodeError::UnknownRank);
    let outcome = MoveOutcome::DecodeFailed { reason: err };
    assert_eq!(redirect_target(&outcome, 42), NavTarget::Play { game_id: 42 });
}

#[test]
fn unauthenticated_user_goes_home() {
    let screen = screen_request(None, Some(42));
    assert_eq!(screen, RequestScreen::NotAuthenticated);
    assert_eq!(screen_target(&screen), NavTarget::Home);
}

#[test]
fn missing_game_id_goes_home() {
    let screen = screen_request(Some(7), None);
    assert_eq!(screen, RequestScreen::NoGameSelected);
    assert_eq!(screen_target(&screen), NavTarget::Home);
}

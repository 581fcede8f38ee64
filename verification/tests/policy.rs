use card_moves::cards::DecodeError;
use card_moves::policy::{redirect_target, NavTarget};
use card_moves::round::{EngineError, MoveError, MoveOutcome, RoundState};

#[test]
fn every_outcome_has_a_navigational_target() {
    let play = NavTarget::Play { game_id: 5 };
    assert_eq!(
        redirect_target(&MoveOutcome::Applied { state: RoundState { data: vec![1, 2] } }, 5),
        play
    );
    assert_eq!(redirect_target(&MoveOutcome::RoundNotFound, 5), NavTarget::GamesList);
    assert_eq!(redirect_target(&MoveOutcome::TurnRejected { expected: 9 }, 5), play);
    assert_eq!(
        redirect_target(&MoveOutcome::MoveRejected { reason: MoveError { code: 2 } }, 5),
        play
    );
    assert_eq!(
        redirect_target(
            &MoveOutcome::DecodeFailed { reason: DecodeError::MalformedToken },
            5
        ),
        play
    );
    assert_eq!(redirect_target(&MoveOutcome::StorageConflict, 5), play);
    assert_eq!(
        redirect_target(&MoveOutcome::CorruptRound { reason: EngineError { code: 8 } }, 5),
        NavTarget::GamesList
    );
}

#[test]
fn play_target_carries_the_submitted_game_id() {
    assert_eq!(
        redirect_target(&MoveOutcome::StorageConflict, 123),
        NavTarget::Play { game_id: 123 }
    );
    assert_ne!(
        redirect_target(&MoveOutcome::StorageConflict, 124),
        NavTarget::Play { game_id: 123 }
    );
}

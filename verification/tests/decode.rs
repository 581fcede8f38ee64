use card_moves::cards::{decode_card, Card, DecodeError, Rank, Suit};
use card_moves::hand::decode_hand;

fn card(suit: Suit, rank: Rank) -> Card {
    Card { suit, rank }
}

#[test]
fn decodes_every_valid_token() {
    let suits = [
        ("Clubs", Suit::Clubs),
        ("Hearts", Suit::Hearts),
        ("Diamonds", Suit::Diamonds),
        ("Spades", Suit::Spades),
    ];
    let ranks = [
        ("2", Rank::Two),
        ("3", Rank::Three),
        ("4", Rank::Four),
        ("5", Rank::Five),
        ("6", Rank::Six),
        ("7", Rank::Seven),
        ("8", Rank::Eight),
        ("9", Rank::Nine),
        ("10", Rank::Ten),
        ("J", Rank::Jack),
        ("Q", Rank::Queen),
        ("K", Rank::King),
        ("A", Rank::Ace),
    ];
    for (sname, suit) in suits {
        for (rname, rank) in ranks {
            let token = format!("{} {}", sname, rname);
            assert_eq!(decode_card(&token), Ok(card(suit, rank)));
        }
    }
}

#[test]
fn decodes_single_tokens_exactly() {
    assert_eq!(
        decode_card("Clubs 2"),
        Ok(card(Suit::Clubs, Rank::Two))
    );
    assert_eq!(
        decode_card("Hearts K"),
        Ok(card(Suit::Hearts, Rank::King))
    );
    assert_eq!(
        decode_card("Diamonds 10"),
        Ok(card(Suit::Diamonds, Rank::Ten))
    );
    assert_eq!(
        decode_card("Spades A"),
        Ok(card(Suit::Spades, Rank::Ace))
    );
}

#[test]
fn rejects_invalid_rank() {
    assert_eq!(decode_card("Clubs 11"), Err(DecodeError::UnknownRank));
    assert_eq!(decode_card("Clubs 1"), Err(DecodeError::UnknownRank));
    assert_eq!(decode_card("Clubs j"), Err(DecodeError::UnknownRank));
    assert_eq!(decode_card("Clubs "), Err(DecodeError::UnknownRank));
}

#[test]
fn rejects_invalid_suit() {
    assert_eq!(decode_card("clubs 2"), Err(DecodeError::UnknownSuit));
    assert_eq!(decode_card("Club 2"), Err(DecodeError::UnknownSuit));
    assert_eq!(decode_card(" 2"), Err(DecodeError::UnknownSuit));
}

#[test]
fn rank_error_takes_precedence_over_suit_error() {
    assert_eq!(decode_card("clubs 11"), Err(DecodeError::UnknownRank));
}

#[test]
fn rejects_malformed_tokens() {
    assert_eq!(decode_card(""), Err(DecodeError::MalformedToken));
    assert_eq!(decode_card("Clubs2"), Err(DecodeError::MalformedToken));
    assert_eq!(decode_card("Clubs  2"), Err(DecodeError::MalformedToken));
    assert_eq!(
        decode_card("Clubs 2 extra"),
        Err(DecodeError::MalformedToken)
    );
}

#[test]
fn lone_space_has_two_empty_fields() {
    assert_eq!(decode_card(" "), Err(DecodeError::UnknownRank));
}

#[test]
fn non_ascii_suit_is_rejected_not_fatal() {
    assert_eq!(decode_card("Cl\u{fc}bs 2"), Err(DecodeError::UnknownSuit));
}

#[test]
fn empty_field_set_is_a_pass_move() {
    let fields: Vec<String> = Vec::new();
    assert_eq!(decode_hand(&fields), Ok(Vec::new()));
}

#[test]
fn hand_order_follows_field_order() {
    let fields = vec![
        String::from("Clubs 2"),
        String::from("Hearts K"),
        String::from("Spades A"),
    ];
    assert_eq!(
        decode_hand(&fields),
        Ok(vec![
            card(Suit::Clubs, Rank::Two),
            card(Suit::Hearts, Rank::King),
            card(Suit::Spades, Rank::Ace),
        ])
    );
    let reversed = vec![
        String::from("Spades A"),
        String::from("Hearts K"),
        String::from("Clubs 2"),
    ];
    assert_eq!(
        decode_hand(&reversed),
        Ok(vec![
            card(Suit::Spades, Rank::Ace),
            card(Suit::Hearts, Rank::King),
            card(Suit::Clubs, Rank::Two),
        ])
    );
}

#[test]
fn first_decode_error_wins() {
    let fields = vec![
        String::from("Clubs 2"),
        String::from("bogus"),
        String::from("Hearts 11"),
    ];
    assert_eq!(decode_hand(&fields), Err(DecodeError::MalformedToken));
    let fields = vec![String::from("Clubs 11"), String::from("bogus")];
    assert_eq!(decode_hand(&fields), Err(DecodeError::UnknownRank));
}

#[test]
fn duplicates_pass_through_unmodified() {
    let fields = vec![String::from("Clubs 2"), String::from("Clubs 2")];
    assert_eq!(
        decode_hand(&fields),
        Ok(vec![card(Suit::Clubs, Rank::Two), card(Suit::Clubs, Rank::Two)])
    );
}

//! Hand decoder: turns the ordered collection of submitted form-field
//! names into a hand of cards, one card per field name, short-circuiting
//! on the first bad token.
//!
//! The card identity is carried in the field *name* (checkbox-style
//! submission); field values are ignored by the caller and never reach
//! this module. An empty collection is a pass move, not an error. Where
//! the transport iterates fields in no fixed order, the output order is
//! exactly as indeterminate: the decoder itself preserves the order it is
//! given.

use vstd::prelude::*;

use crate::cards::Card;
use crate::cards::DecodeError;
use crate::cards::decode_card;
use crate::cards::decoded_card;

verus! {

/// What decoding the fields from position `k` onward yields: the cards of
/// the remaining fields in order, or the first error among them.
pub open spec fn decoded_hand_from(fields: Seq<Seq<char>>, k: int) -> Result<
    Seq<Card>,
    DecodeError,
>
    decreases fields.len() - k,
{
    if k < 0 || k >= fields.len() {
        Ok(Seq::empty())
    } else {
        match decoded_card(fields[k]) {
            Err(e) => Err(e),
            Ok(c) => match decoded_hand_from(fields, k + 1) {
                Err(e) => Err(e),
                Ok(rest) => Ok(seq![c] + rest),
            },
        }
    }
}

/// What decoding a whole field list yields.
pub open spec fn decoded_hand(fields: Seq<Seq<char>>) -> Result<Seq<Card>, DecodeError> {
    decoded_hand_from(fields, 0)
}

/// An empty field set decodes to the empty hand: a pass move, never an
/// error, whoever the caller is.
pub proof fn lemma_empty_hand_is_pass(fields: Seq<Seq<char>>)
    requires
        fields.len() == 0,
    ensures
        decoded_hand(fields) == Ok::<Seq<Card>, DecodeError>(Seq::empty()),
{
}

proof fn lemma_hand_order_preserved_from(fields: Seq<Seq<char>>, k: int, cards: Seq<Card>)
    requires
        0 <= k <= fields.len(),
        decoded_hand_from(fields, k) == Ok::<Seq<Card>, DecodeError>(cards),
    ensures
        cards.len() == fields.len() - k,
        forall|i: int|
            k <= i < fields.len() ==> decoded_card(fields[i]) == Ok::<Card, DecodeError>(
                cards[i - k],
            ),
    decreases fields.len() - k,
{
    if k < fields.len() {
        let rest = choose|rest: Seq<Card>|
            decoded_hand_from(fields, k + 1) == Ok::<Seq<Card>, DecodeError>(rest);
        lemma_hand_order_preserved_from(fields, k + 1, rest);
    }
}

/// Decoding is order-preserving: a successfully decoded hand has exactly
/// one card per field, and the card at each position is the decoding of
/// the field supplied at that position.
pub proof fn lemma_hand_order_preserved(fields: Seq<Seq<char>>, cards: Seq<Card>)
    requires
        decoded_hand(fields) == Ok::<Seq<Card>, DecodeError>(cards),
    ensures
        cards.len() == fields.len(),
        forall|i: int|
            0 <= i < fields.len() ==> decoded_card(fields[i]) == Ok::<Card, DecodeError>(cards[i]),
{
    lemma_hand_order_preserved_from(fields, 0, cards);
}

/// Decodes the submitted field names, in the order given, into a hand.
///
/// Returns the cards in field order, or the first `DecodeError`
/// encountered; no partial hand is ever returned. An empty field list
/// yields the empty hand (a pass move).
pub fn decode_hand(fields: &Vec<String>) -> (r: Result<Vec<Card>, DecodeError>)
    ensures
        (match r {
            Ok(cards) => decoded_hand(fields.deep_view()) == Ok::<Seq<Card>, DecodeError>(cards@),
            Err(e) => decoded_hand(fields.deep_view()) == Err::<Seq<Card>, DecodeError>(e),
        }),
{
    let ghost view: Seq<Seq<char>> = fields.deep_view();
    let n = fields.len();
    let mut cards: Vec<Card> = Vec::new();
    let mut idx: usize = 0;
    while idx < n
        invariant
            idx <= n,
            n == fields@.len(),
            n == view.len(),
            view == fields.deep_view(),
            cards@.len() == idx,
            forall|rest: Seq<Card>|
                decoded_hand_from(view, idx as int) == Ok::<Seq<Card>, DecodeError>(rest)
                    ==> decoded_hand(view) == Ok::<Seq<Card>, DecodeError>(cards@ + rest),
            forall|e: DecodeError|
                decoded_hand_from(view, idx as int) == Err::<Seq<Card>, DecodeError>(e)
                    ==> decoded_hand(view) == Err::<Seq<Card>, DecodeError>(e),
        decreases n - idx,
    {
        let ghost prev: Seq<Card> = cards@;
        proof {
            assert(view[idx as int] == fields@[idx as int]@);
        }
        match decode_card(fields[idx].as_str()) {
            Err(e) => {
                proof {
                    assert(decoded_hand_from(view, idx as int) == Err::<Seq<Card>, DecodeError>(
                        e,
                    ));
                }
                return Err(e);
            },
            Ok(c) => {
                cards.push(c);
                proof {
                    assert(decoded_card(view[idx as int]) == Ok::<Card, DecodeError>(c));
                    assert forall|rest: Seq<Card>|
                        decoded_hand_from(view, idx + 1) == Ok::<Seq<Card>, DecodeError>(rest)
                        implies decoded_hand(view) == Ok::<Seq<Card>, DecodeError>(
                        cards@ + rest,
                    ) by {
                        assert(decoded_hand_from(view, idx as int) == Ok::<
                            Seq<Card>,
                            DecodeError,
                        >(seq![c] + rest));
                        assert(decoded_hand(view) == Ok::<Seq<Card>, DecodeError>(
                            prev + (seq![c] + rest),
                        ));
                        assert(prev + (seq![c] + rest) =~= cards@ + rest);
                    };
                    assert forall|e: DecodeError|
                        decoded_hand_from(view, idx + 1) == Err::<Seq<Card>, DecodeError>(e)
                        implies decoded_hand(view) == Err::<Seq<Card>, DecodeError>(e) by {
                        assert(decoded_hand_from(view, idx as int) == Err::<
                            Seq<Card>,
                            DecodeError,
                        >(e));
                    };
                }
            },
        }
        idx += 1;
    }
    proof {
        assert(decoded_hand_from(view, idx as int) == Ok::<Seq<Card>, DecodeError>(
            Seq::empty(),
        ));
        assert(cards@ + Seq::<Card>::empty() =~= cards@);
    }
    Ok(cards)
}

} // verus!

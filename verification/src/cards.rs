//! Card codec: turns one wire-format token `"<suit> <rank>"` into a typed
//! `Card`, rejecting malformed input with a descriptive error instead of
//! aborting.

use vstd::prelude::*;

verus! {

/// One of the four French suits, written on the wire as its capitalized
/// English name.
#[derive(Clone, Copy, PartialEq, Eq, Structural, Debug)]
pub enum Suit {
    Clubs,
    Hearts,
    Diamonds,
    Spades,
}

/// A card rank, written on the wire as `"2"`..`"10"`, `"J"`, `"Q"`, `"K"`
/// or `"A"`.
#[derive(Clone, Copy, PartialEq, Eq, Structural, Debug)]
pub enum Rank {
    Two,
    Three,
    Four,
    Five,
    Six,
    Seven,
    Eight,
    Nine,
    Ten,
    Jack,
    Queen,
    King,
    Ace,
}

/// A playing card: a (suit, rank) pair with value equality.
#[derive(Clone, Copy, PartialEq, Eq, Structural, Debug)]
pub struct Card {
    pub suit: Suit,
    pub rank: Rank,
}

/// Why a wire token was rejected by the codec.
#[derive(Clone, Copy, PartialEq, Eq, Structural, Debug)]
pub enum DecodeError {
    /// The token does not split into exactly two space-separated fields.
    MalformedToken,
    /// The rank field is not one of the recognized rank symbols.
    UnknownRank,
    /// The suit field is not one of the four recognized suit names.
    UnknownSuit,
}

/// The exact wire spelling of a suit.
pub open spec fn suit_token(s: Suit) -> Seq<char> {
    match s {
        Suit::Clubs => "Clubs"@,
        Suit::Hearts => "Hearts"@,
        Suit::Diamonds => "Diamonds"@,
        Suit::Spades => "Spades"@,
    }
}

/// The exact wire spelling of a rank.
pub open spec fn rank_token(r: Rank) -> Seq<char> {
    match r {
        Rank::Two => "2"@,
        Rank::Three => "3"@,
        Rank::Four => "4"@,
        Rank::Five => "5"@,
        Rank::Six => "6"@,
        Rank::Seven => "7"@,
        Rank::Eight => "8"@,
        Rank::Nine => "9"@,
        Rank::Ten => "10"@,
        Rank::Jack => "J"@,
        Rank::Queen => "Q"@,
        Rank::King => "K"@,
        Rank::Ace => "A"@,
    }
}

/// The suit whose wire spelling is exactly `t`, if any (case-sensitive).
pub open spec fn suit_of_token(t: Seq<char>) -> Option<Suit> {
    if t == suit_token(Suit::Clubs) {
        Some(Suit::Clubs)
    } else if t == suit_token(Suit::Hearts) {
        Some(Suit::Hearts)
    } else if t == suit_token(Suit::Diamonds) {
        Some(Suit::Diamonds)
    } else if t == suit_token(Suit::Spades) {
        Some(Suit::Spades)
    } else {
        None
    }
}

/// The rank whose wire spelling is exactly `t`, if any.
pub open spec fn rank_of_token(t: Seq<char>) -> Option<Rank> {
    if t == rank_token(Rank::Two) {
        Some(Rank::Two)
    } else if t == rank_token(Rank::Three) {
        Some(Rank::Three)
    } else if t == rank_token(Rank::Four) {
        Some(Rank::Four)
    } else if t == rank_token(Rank::Five) {
        Some(Rank::Five)
    } else if t == rank_token(Rank::Six) {
        Some(Rank::Six)
    } else if t == rank_token(Rank::Seven) {
        Some(Rank::Seven)
    } else if t == rank_token(Rank::Eight) {
        Some(Rank::Eight)
    } else if t == rank_token(Rank::Nine) {
        Some(Rank::Nine)
    } else if t == rank_token(Rank::Ten) {
        Some(Rank::Ten)
    } else if t == rank_token(Rank::Jack) {
        Some(Rank::Jack)
    } else if t == rank_token(Rank::Queen) {
        Some(Rank::Queen)
    } else if t == rank_token(Rank::King) {
        Some(Rank::King)
    } else if t == rank_token(Rank::Ace) {
        Some(Rank::Ace)
    } else {
        None
    }
}

/// Position `i` is the unique space of `s`: the token splits into exactly
/// two fields there.
pub open spec fn is_separator_at(s: Seq<char>, i: int) -> bool {
    &&& 0 <= i < s.len()
    &&& s[i] == ' '
    &&& forall|j: int| 0 <= j < s.len() && j != i ==> s[j] != ' '
}

/// The token splits into exactly two space-separated fields.
pub open spec fn two_fields(s: Seq<char>) -> bool {
    exists|i: int| is_separator_at(s, i)
}

/// The index of the unique separating space of a two-field token.
pub open spec fn separator_index(s: Seq<char>) -> int {
    choose|i: int| is_separator_at(s, i)
}

/// What the codec returns for any token: `MalformedToken` unless the token
/// has exactly two space-separated fields, then the rank field is matched
/// (first, as submitted rank errors take precedence), then the suit field.
pub open spec fn decoded_card(s: Seq<char>) -> Result<Card, DecodeError> {
    if !two_fields(s) {
        Err(DecodeError::MalformedToken)
    } else {
        let i = separator_index(s);
        let suit_field = s.subrange(0, i);
        let rank_field = s.subrange(i + 1, s.len() as int);
        match rank_of_token(rank_field) {
            None => Err(DecodeError::UnknownRank),
            Some(rank) => match suit_of_token(suit_field) {
                None => Err(DecodeError::UnknownSuit),
                Some(suit) => Ok(Card { suit, rank }),
            },
        }
    }
}

/// The full wire spelling of a card: suit name, one space, rank symbol.
pub open spec fn card_token(c: Card) -> Seq<char> {
    suit_token(c.suit) + seq![' '] + rank_token(c.rank)
}

proof fn lemma_suit_token_shape(su: Suit)
    ensures
        suit_of_token(suit_token(su)) == Some(su),
        suit_token(su).len() >= 1,
        forall|j: int| 0 <= j < suit_token(su).len() ==> suit_token(su)[j] != ' ',
{
    reveal_strlit("Clubs");
    reveal_strlit("Hearts");
    reveal_strlit("Diamonds");
    reveal_strlit("Spades");
    assert("Clubs"@.len() == 5);
    assert("Hearts"@.len() == 6);
    assert("Diamonds"@.len() == 8);
    assert("Spades"@.len() == 6);
    assert("Hearts"@[0] == 'H' && "Spades"@[0] == 'S');
    match su {
        Suit::Clubs => assert(suit_of_token(suit_token(su)) == Some(su)),
        Suit::Hearts => assert(suit_of_token(suit_token(su)) == Some(su)),
        Suit::Diamonds => assert(suit_of_token(suit_token(su)) == Some(su)),
        Suit::Spades => assert(suit_of_token(suit_token(su)) == Some(su)),
    }
    let t = suit_token(su);
    assert forall|j: int| 0 <= j < t.len() implies t[j] != ' ' by {
        if j == 0 {
        } else if j == 1 {
        } else if j == 2 {
        } else if j == 3 {
        } else if j == 4 {
        } else if j == 5 {
        } else if j == 6 {
        } else {
            assert(j == 7);
        }
    }
}

proof fn lemma_rank_token_shape(r: Rank)
    ensures
        rank_of_token(rank_token(r)) == Some(r),
        rank_token(r).len() >= 1,
        forall|j: int| 0 <= j < rank_token(r).len() ==> rank_token(r)[j] != ' ',
{
    reveal_strlit("2");
    reveal_strlit("3");
    reveal_strlit("4");
    reveal_strlit("5");
    reveal_strlit("6");
    reveal_strlit("7");
    reveal_strlit("8");
    reveal_strlit("9");
    reveal_strlit("10");
    reveal_strlit("J");
    reveal_strlit("Q");
    reveal_strlit("K");
    reveal_strlit("A");
    assert("2"@.len() == 1 && "2"@[0] == '2');
    assert("3"@.len() == 1 && "3"@[0] == '3');
    assert("4"@.len() == 1 && "4"@[0] == '4');
    assert("5"@.len() == 1 && "5"@[0] == '5');
    assert("6"@.len() == 1 && "6"@[0] == '6');
    assert("7"@.len() == 1 && "7"@[0] == '7');
    assert("8"@.len() == 1 && "8"@[0] == '8');
    assert("9"@.len() == 1 && "9"@[0] == '9');
    assert("10"@.len() == 2 && "10"@[0] == '1');
    assert("J"@.len() == 1 && "J"@[0] == 'J');
    assert("Q"@.len() == 1 && "Q"@[0] == 'Q');
    assert("K"@.len() == 1 && "K"@[0] == 'K');
    assert("A"@.len() == 1 && "A"@[0] == 'A');
    match r {
        Rank::Two => assert(rank_of_token(rank_token(r)) == Some(r)),
        Rank::Three => assert(rank_of_token(rank_token(r)) == Some(r)),
        Rank::Four => assert(rank_of_token(rank_token(r)) == Some(r)),
        Rank::Five => assert(rank_of_token(rank_token(r)) == Some(r)),
        Rank::Six => assert(rank_of_token(rank_token(r)) == Some(r)),
        Rank::Seven => assert(rank_of_token(rank_token(r)) == Some(r)),
        Rank::Eight => assert(rank_of_token(rank_token(r)) == Some(r)),
        Rank::Nine => assert(rank_of_token(rank_token(r)) == Some(r)),
        Rank::Ten => assert(rank_of_token(rank_token(r)) == Some(r)),
        Rank::Jack => assert(rank_of_token(rank_token(r)) == Some(r)),
        Rank::Queen => assert(rank_of_token(rank_token(r)) == Some(r)),
        Rank::King => assert(rank_of_token(rank_token(r)) == Some(r)),
        Rank::Ace => assert(rank_of_token(rank_token(r)) == Some(r)),
    }
    let t = rank_token(r);
    assert forall|j: int| 0 <= j < t.len() implies t[j] != ' ' by {
        if j == 0 {
        } else {
            assert(j == 1);
        }
    }
}

/// Round trip: the wire spelling of any card decodes back to exactly that
/// card — every valid `(suit, rank)` token pair yields its `Card`.
pub proof fn lemma_card_token_round_trip(c: Card)
    ensures
        decoded_card(card_token(c)) == Ok::<Card, DecodeError>(c),
{
    lemma_suit_token_shape(c.suit);
    lemma_rank_token_shape(c.rank);
    let s = card_token(c);
    let i = suit_token(c.suit).len() as int;
    assert(s[i] == ' ');
    assert forall|j: int| 0 <= j < s.len() && j != i implies s[j] != ' ' by {
        if j < i {
            assert(s[j] == suit_token(c.suit)[j]);
        } else {
            assert(s[j] == rank_token(c.rank)[j - i - 1]);
        }
    }
    assert(is_separator_at(s, i));
    lemma_separator_unique(s, separator_index(s), i);
    assert(s.subrange(0, i) =~= suit_token(c.suit));
    assert(s.subrange(i + 1, s.len() as int) =~= rank_token(c.rank));
}

/// Completeness of the spelling: a token that decodes to a card is
/// exactly that card's wire spelling — nothing else is ever accepted.
pub proof fn lemma_decoded_card_complete(s: Seq<char>, c: Card)
    requires
        decoded_card(s) == Ok::<Card, DecodeError>(c),
    ensures
        s == card_token(c),
{
    let i = separator_index(s);
    assert(is_separator_at(s, i));
    assert(s.subrange(0, i) == suit_token(c.suit));
    assert(s.subrange(i + 1, s.len() as int) == rank_token(c.rank));
    assert(s =~= s.subrange(0, i) + seq![s[i]] + s.subrange(i + 1, s.len() as int));
}

/// A two-field token has only one separator index.
proof fn lemma_separator_unique(s: Seq<char>, i: int, j: int)
    requires
        is_separator_at(s, i),
        is_separator_at(s, j),
    ensures
        i == j,
{
    if i != j {
        assert(s[j] != ' ');
    }
}

/// Whether the characters of `s` from `lo` (inclusive) to `hi` (exclusive)
/// spell exactly `lit`.
fn field_equals(s: &str, lo: usize, hi: usize, lit: &str) -> (b: bool)
    requires
        lo <= hi <= s@.len(),
    ensures
        b <==> s@.subrange(lo as int, hi as int) == lit@,
{
    let m = lit.unicode_len();
    if hi - lo != m {
        proof {
            assert(s@.subrange(lo as int, hi as int).len() == hi - lo);
        }
        return false;
    }
    let mut k: usize = 0;
    while k < m
        invariant
            lo <= hi <= s@.len(),
            m == lit@.len(),
            hi - lo == m,
            k <= m,
            forall|j: int| 0 <= j < k ==> s@[lo + j] == lit@[j],
        decreases m - k,
    {
        if s.get_char(lo + k) != lit.get_char(k) {
            proof {
                assert(s@.subrange(lo as int, hi as int)[k as int] == s@[lo + k]);
            }
            return false;
        }
        k += 1;
    }
    proof {
        assert(s@.subrange(lo as int, hi as int) =~= lit@);
    }
    true
}

/// Matches the rank field `s[lo..hi]` against the recognized rank symbols.
fn match_rank(s: &str, lo: usize, hi: usize) -> (r: Option<Rank>)
    requires
        lo <= hi <= s@.len(),
    ensures
        r == rank_of_token(s@.subrange(lo as int, hi as int)),
{
    if field_equals(s, lo, hi, "2") {
        Some(Rank::Two)
    } else if field_equals(s, lo, hi, "3") {
        Some(Rank::Three)
    } else if field_equals(s, lo, hi, "4") {
        Some(Rank::Four)
    } else if field_equals(s, lo, hi, "5") {
        Some(Rank::Five)
    } else if field_equals(s, lo, hi, "6") {
        Some(Rank::Six)
    } else if field_equals(s, lo, hi, "7") {
        Some(Rank::Seven)
    } else if field_equals(s, lo, hi, "8") {
        Some(Rank::Eight)
    } else if field_equals(s, lo, hi, "9") {
        Some(Rank::Nine)
    } else if field_equals(s, lo, hi, "10") {
        Some(Rank::Ten)
    } else if field_equals(s, lo, hi, "J") {
        Some(Rank::Jack)
    } else if field_equals(s, lo, hi, "Q") {
        Some(Rank::Queen)
    } else if field_equals(s, lo, hi, "K") {
        Some(Rank::King)
    } else if field_equals(s, lo, hi, "A") {
        Some(Rank::Ace)
    } else {
        None
    }
}

/// Matches the suit field `s[0..hi]` against the four recognized suit names.
fn match_suit(s: &str, hi: usize) -> (r: Option<Suit>)
    requires
        hi <= s@.len(),
    ensures
        r == suit_of_token(s@.subrange(0, hi as int)),
{
    if field_equals(s, 0, hi, "Clubs") {
        Some(Suit::Clubs)
    } else if field_equals(s, 0, hi, "Hearts") {
        Some(Suit::Hearts)
    } else if field_equals(s, 0, hi, "Diamonds") {
        Some(Suit::Diamonds)
    } else if field_equals(s, 0, hi, "Spades") {
        Some(Suit::Spades)
    } else {
        None
    }
}

/// Decodes one wire token `"<suit> <rank>"` into a `Card`.
///
/// Never panics: every input string yields either the exact corresponding
/// card or a typed `DecodeError`.
pub fn decode_card(token: &str) -> (r: Result<Card, DecodeError>)
    ensures
        r == decoded_card(token@),
{
    let n = token.unicode_len();
    let mut sep: Option<usize> = None;
    let mut multiple: bool = false;
    let mut idx: usize = 0;
    while idx < n
        invariant
            idx <= n,
            n == token@.len(),
            !multiple && sep is None ==> forall|j: int| 0 <= j < idx ==> token@[j] != ' ',
            !multiple ==> (sep matches Some(i) ==> i < idx && token@[i as int] == ' '
                && forall|j: int| 0 <= j < idx && j != i ==> token@[j] != ' '),
            multiple ==> exists|i: int, j: int|
                0 <= i < j < idx && token@[i] == ' ' && token@[j] == ' ',
        decreases n - idx,
    {
        if token.get_char(idx) == ' ' {
            match sep {
                None => { sep = Some(idx); },
                Some(_) => { multiple = true; },
            }
        }
        idx += 1;
    }
    if multiple {
        proof {
            if two_fields(token@) {
                let k = separator_index(token@);
                assert(is_separator_at(token@, k));
                let (i, j): (int, int) = choose|i: int, j: int|
                    0 <= i < j < n && token@[i] == ' ' && token@[j] == ' ';
                assert(i != k || j != k);
            }
        }
        return Err(DecodeError::MalformedToken);
    }
    match sep {
        None => {
            proof {
                if two_fields(token@) {
                    let k = separator_index(token@);
                    assert(is_separator_at(token@, k));
                }
            }
            Err(DecodeError::MalformedToken)
        },
        Some(i) => {
            proof {
                assert(is_separator_at(token@, i as int));
                lemma_separator_unique(token@, separator_index(token@), i as int);
            }
            match match_rank(token, i + 1, n) {
                None => Err(DecodeError::UnknownRank),
                Some(rank) => match match_suit(token, i) {
                    None => Err(DecodeError::UnknownSuit),
                    Some(suit) => Ok(Card { suit, rank }),
                },
            }
        },
    }
}

} // verus!


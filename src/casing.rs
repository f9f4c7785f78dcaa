use convert_case::Casing;
use vstd::prelude::*;

verus! {

/// What `convert_case` makes of a text when asked for snake case.
pub uninterp spec fn snake_of(s: Seq<char>) -> Seq<char>;

/// A text that is already in plain snake case: words of the letters `a` to
/// `z`, each word non-empty, joined by single underscores (or no word at all).
pub open spec fn is_plain_snake(s: Seq<char>) -> bool {
    &&& forall|i: int| 0 <= i < s.len() ==> ('a' <= #[trigger] s[i] <= 'z' || s[i] == '_')
    &&& s.len() > 0 ==> s[0] != '_' && s[s.len() - 1] != '_'
    &&& forall|i: int| 0 <= i < s.len() - 1 ==> !(#[trigger] s[i] == '_' && s[i + 1] == '_')
}

/// Relies on `convert_case::Casing::to_case` with `Case::Snake`: the result
/// depends on the text alone; it splits only at `_`, `-`, spaces, case changes
/// and digits, drops empty words, lowercases each word and joins them with `_`,
/// so a text already in plain snake case comes back as it was.
#[verifier::external_body]
pub(crate) fn to_snake_case(s: &String) -> (r: String)
    ensures
        r@ == snake_of(s@),
        is_plain_snake(s@) ==> r@ == s@,
{
    s.to_case(convert_case::Case::Snake)
}

pub open spec fn digit_char(d: nat) -> char {
    if d == 0 { '0' } else if d == 1 { '1' } else if d == 2 { '2' } else if d == 3 { '3' }
    else if d == 4 { '4' } else if d == 5 { '5' } else if d == 6 { '6' } else if d == 7 { '7' }
    else if d == 8 { '8' } else { '9' }
}

/// The decimal digits of a natural number, without leading zeros.
pub open spec fn digits(n: nat) -> Seq<char>
    decreases n,
{
    if n < 10 {
        seq![digit_char(n)]
    } else {
        digits(n / 10).push(digit_char(n % 10))
    }
}

/// The decimal text of an integer: a minus sign when it is negative, then
/// its digits.
pub open spec fn decimal_text(n: i32) -> Seq<char> {
    if n < 0 {
        seq!['-'] + digits((-(n as int)) as nat)
    } else {
        digits(n as nat)
    }
}

/// Relies on `ToString::to_string` for `i32`, which writes the number in
/// decimal through its `Display`.
#[verifier::external_body]
pub(crate) fn int_to_text(n: i32) -> (r: String)
    ensures
        r@ == decimal_text(n),
{
    n.to_string()
}

} // verus!

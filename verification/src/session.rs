//! Reading the numbers that requests and the session store carry as text.

use vstd::prelude::*;

verus! {

/// The account id that stands for "no account": no session, or a value that
/// is no number.
pub const NO_ACCOUNT: i32 = -1;

/// What `str::parse::<i32>` makes of a text: the number, where the text is
/// one that it accepts.
pub uninterp spec fn parsed_i32(text: Seq<char>) -> Option<i32>;

/// Calls `str::parse::<i32>` of the standard library. The contract claims no
/// more than that the outcome depends on the characters of the text alone;
/// a text that the call rejects gives `None`.
#[verifier::external_body]
pub(crate) fn parse_i32(text: &str) -> (r: Option<i32>)
    ensures
        r == parsed_i32(text@),
{
    text.parse::<i32>().ok()
}

/// The number that `parsed` holds, or [`NO_ACCOUNT`] where it holds none.
pub open spec fn number_or_none(parsed: Option<i32>) -> i32 {
    match parsed {
        Some(number) => number,
        None => NO_ACCOUNT,
    }
}

/// The account that the outcome of reading a session value names.
pub fn account_of_parsed(parsed: Option<i32>) -> (r: i32)
    ensures
        r == number_or_none(parsed),
{
    match parsed {
        Some(number) => number,
        None => NO_ACCOUNT,
    }
}

/// The account that the session store's value for a session names:
/// [`NO_ACCOUNT`] where the value is no number.
pub fn is_valid_session(value: &str) -> (r: i32)
    ensures
        r == number_or_none(parsed_i32(value@)),
{
    account_of_parsed(parse_i32(value))
}

/// The numbers that a list of texts writes, [`NO_ACCOUNT`] standing for a
/// text that is no number.
pub open spec fn numbers_of(texts: Seq<String>) -> Seq<i32> {
    texts.map_values(|text: String| number_or_none(parsed_i32(text@)))
}

/// Reads each text of a list as a number, with [`NO_ACCOUNT`] for a text
/// that is none.
pub fn vector_string_to_vector_i32(texts: &Vec<String>) -> (r: Vec<i32>)
    ensures
        r@ == numbers_of(texts@),
{
    let mut numbers: Vec<i32> = Vec::new();
    let mut i: usize = 0;
    while i < texts.len()
        invariant
            i <= texts@.len(),
            numbers@ == numbers_of(texts@.take(i as int)),
        decreases texts@.len() - i,
    {
        let number = account_of_parsed(parse_i32(texts[i].as_str()));
        numbers.push(number);
        assert(numbers_of(texts@.take(i + 1)) =~= numbers_of(texts@.take(i as int)).push(number));
        i += 1;
    }
    assert(texts@.take(i as int) =~= texts@);
    numbers
}

} // verus!

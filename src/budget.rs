//! The byte budget, read from a human-readable size text.
use crate::encoders::{ascii_digit_count, parse_size_text, parsed_size};
use crate::error::CompressError;
use vstd::prelude::*;
use vstd::string::StringSliceAdditionalSpecFns;

verus! {

/// Most digits a size text may hold: a number of at most 19 digits stays
/// below the `u64` limit while the size parser reads it.
pub const MAX_SIZE_DIGITS: usize = 19;

/// The budget for what the size parser made of a text: its byte count, or
/// `InvalidSize` when it rejected the text. A zero budget is passed on as
/// it is; the search then reports it unmet.
pub fn budget_from_parsed(parsed: Option<u64>) -> (r: Result<u64, CompressError>)
    ensures
        parsed matches Some(n) ==> (r matches Ok(b) && b == n),
        parsed is None ==> (r matches Err(e) && e is InvalidSize),
{
    match parsed {
        Some(n) => Ok(n),
        None => Err(CompressError::InvalidSize),
    }
}

/// Number of ASCII digits in a text.
pub fn count_digits(text: &str) -> (r: usize)
    ensures
        r == ascii_digit_count(text.spec_bytes()),
{
    let bytes = text.as_bytes();
    let mut count: usize = 0;
    let mut i: usize = 0;
    while i < bytes.len()
        invariant
            i <= bytes@.len(),
            count == ascii_digit_count(bytes@.subrange(0, i as int)),
            count <= i,
        decreases bytes@.len() - i,
    {
        assert(bytes@.subrange(0, i + 1).drop_last() =~= bytes@.subrange(0, i as int));
        if 48u8 <= bytes[i] && bytes[i] <= 57u8 {
            count = count + 1;
        }
        i = i + 1;
    }
    assert(bytes@.subrange(0, bytes@.len() as int) =~= bytes@);
    count
}

/// Reads a size text such as "500KB" or "1MB" as a byte budget. A text of
/// more than 19 digits is refused as an invalid size.
pub fn parse_budget(text: &str) -> (r: Result<u64, CompressError>)
    ensures
        ascii_digit_count(text.spec_bytes()) > 19 ==> (r matches Err(e) && e is InvalidSize),
        ascii_digit_count(text.spec_bytes()) <= 19 ==> {
            &&& parsed_size(text@) matches Some(n) ==> (r matches Ok(b) && b == n)
            &&& parsed_size(text@) is None ==> (r matches Err(e) && e is InvalidSize)
        },
        text@.len() == 0 ==> r is Err,
{
    if count_digits(text) > MAX_SIZE_DIGITS {
        return Err(CompressError::InvalidSize);
    }
    budget_from_parsed(parse_size_text(text))
}

} // verus!

use vstd::prelude::*;
use rand::distributions::Distribution;

use crate::error::{ErrorHandler, ErrorType};

verus! {

/// Relies on rand's `Uniform::from(min..max)` sampled with `thread_rng`: the
/// value lies in `[min, max)`; `Uniform::new` panics when `min >= max`.
#[verifier::external_body]
pub fn random_num_in_range(min: usize, max: usize) -> (r: usize)
    requires
        min < max,
    ensures
        min <= r < max,
{
    let mut rng = rand::thread_rng();
    rand::distributions::Uniform::from(min..max).sample(&mut rng)
}

/// Code point of `A`.
pub const FIRST_LETTER: u32 = 65;
/// One past the code point of `Z`.
pub const PAST_LAST_LETTER: u32 = 91;

/// Whether `c` is an upper-case English letter.
pub open spec fn is_upper_english(c: char) -> bool {
    FIRST_LETTER <= c as u32 && (c as u32) < PAST_LAST_LETTER
}

/// The upper-case English letter with the given offset from `A`.
pub fn letter_at(offset: usize) -> (c: char)
    requires
        offset < 26,
    ensures
        c as u32 == FIRST_LETTER + offset,
        is_upper_english(c),
{
    let code: u8 = 65u8 + offset as u8;
    code as char
}

/// A letter of the English alphabet drawn uniformly at random.
pub fn random_english_character() -> (r: Result<char, ErrorHandler>)
    ensures
        r is Ok,
        r matches Ok(c) ==> is_upper_english(c),
{
    let offset = random_num_in_range(0, 26);
    Ok(letter_at(offset))
}

} // verus!

//! The stake a player brings to the table.

use vstd::prelude::*;
use crate::scan::{chars_of, number_of, parse_u32, trim, trimmed};

verus! {

/// The balance of a player whose line names none.
pub const DEFAULT_BALANCE: u32 = 100;

/// The balance that a line of input stands for: the number it spells once the
/// white space around it is dropped, or `DEFAULT_BALANCE` if it spells none.
pub open spec fn balance_of(line: Seq<char>) -> u32 {
    match number_of(trimmed(line)) {
        Some(balance) => balance,
        None => DEFAULT_BALANCE,
    }
}

/// Reads the starting balance from the line that the player entered.
///
/// A line that spells no number is not an error: the player then starts with
/// `DEFAULT_BALANCE`.
pub fn read_balance(line: &str) -> (balance: u32)
    ensures
        balance == balance_of(line@),
        number_of(trimmed(line@)) is None ==> balance == DEFAULT_BALANCE,
{
    let chars: Vec<char> = chars_of(line);
    let word: Vec<char> = trim(&chars);
    match parse_u32(&word) {
        Some(balance) => balance,
        None => DEFAULT_BALANCE,
    }
}

} // verus!

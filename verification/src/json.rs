//! What the library has from the JSON codec: values that it carries
//! without looking into them, and the JSON text of a list of integers.

use crate::text::{decimal, join};
use vstd::prelude::*;

verus! {

/// `serde_json::Value`: any JSON value. The library hands such values on
/// as they are; nothing is claimed of what one holds.
#[verifier::external_type_specification]
#[verifier::external_body]
pub struct ExJsonValue(serde_json::Value);

/// The integers in decimal, in order.
pub open spec fn decimals(numbers: Seq<i64>) -> Seq<Seq<char>> {
    numbers.map_values(|n: i64| decimal(n as int))
}

/// The JSON text of a list of integers: the integers in decimal between
/// square brackets, with a comma between neighbours and no white space.
pub open spec fn integer_list(numbers: Seq<i64>) -> Seq<char> {
    seq!['['] + join(decimals(numbers), seq![',']) + seq![']']
}

/// `serde_json::to_string` on a list of integers. It succeeds on every
/// list: the crate writes into a byte vector, and writing a sequence of
/// integers fails only where the writer does. The text is `integer_list`
/// of the integers: the compact form that the crate writes for a sequence
/// of numbers. The error's message is handed on for the sake of the type.
#[verifier::external_body]
pub(crate) fn integers_to_json(numbers: &Vec<i64>) -> (out: Result<String, String>)
    ensures
        out is Ok,
        out matches Ok(text) ==> text@ == integer_list(numbers@),
{
    match serde_json::to_string(numbers) {
        Ok(text) => Ok(text),
        Err(error) => Err(error.to_string()),
    }
}

} // verus!

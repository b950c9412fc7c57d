//! Argument checks of the SQL functions `mvts_start`, `mvts_stop` and `mvts_status`.
use crate::text::{signed_decimal, signed_decimal_string};
use vstd::prelude::*;

verus! {

/// The message that refuses a port argument.
pub open spec fn invalid_port_text(port: i32) -> Seq<char> {
    "Invalid port: "@ + signed_decimal(port as int)
}

/// Checks the port argument of `mvts_start`: it must lie in `1..=65535`.
pub fn validate_port(port_value: i32) -> (r: Result<u16, String>)
    ensures
        r is Ok <==> 1 <= port_value <= 65535,
        match r {
            Ok(p) => p as int == port_value as int,
            Err(m) => m@ == invalid_port_text(port_value),
        },
{
    if port_value <= 0 || port_value > 65535 {
        let mut m = String::from_str("Invalid port: ");
        let digits = signed_decimal_string(port_value);
        m.append(digits.as_str());
        return Err(m);
    }
    Ok(port_value as u16)
}

/// How many rows an argument-less SQL function answers for a chunk of
/// `chunk_len` rows: at least one.
pub fn output_rows(chunk_len: usize) -> (r: usize)
    ensures
        r == if chunk_len == 0 { 1 } else { chunk_len },
{
    if chunk_len == 0 {
        1
    } else {
        chunk_len
    }
}

} // verus!

//! Constants and text framing of the engine's native interface.

use vstd::prelude::*;

verus! {

/// Completion code: the command completed normally.
pub const TCL_OK: i32 = 0;

/// Completion code: the command failed; the interpreter's result is the message.
pub const TCL_ERROR: i32 = 1;

/// Completion code: the command asked the enclosing procedure to return.
pub const TCL_RETURN: i32 = 2;

/// Completion code: the command asked the enclosing loop to stop.
pub const TCL_BREAK: i32 = 3;

/// Completion code: the command asked the enclosing loop to go on with its next round.
pub const TCL_CONTINUE: i32 = 4;

/// The form in which the engine takes a string: its bytes, closed by a zero byte.
pub open spec fn terminated(bytes: Seq<u8>) -> Seq<u8> {
    bytes.push(0u8)
}

/// Frames a string for the engine, which reads it up to the first zero byte.
/// A string that holds a zero byte itself cannot be handed over whole, and
/// gets no framing.
pub fn c_string(bytes: &[u8]) -> (framed: Option<Vec<u8>>)
    ensures
        framed is Some <==> !bytes@.contains(0u8),
        framed matches Some(string) ==> string@ == terminated(bytes@),
{
    let mut string: Vec<u8> = Vec::with_capacity(bytes.len());
    let mut i: usize = 0;
    while i < bytes.len()
        invariant
            i <= bytes.len(),
            string@ == bytes@.take(i as int),
            forall|j: int| 0 <= j < i ==> bytes@[j] != 0u8,
        decreases bytes.len() - i,
    {
        if bytes[i] == 0 {
            return None;
        }
        string.push(bytes[i]);
        i += 1;
    }
    string.push(0);
    Some(string)
}

} // verus!

//! The record kept of one engine interpreter.

use vstd::prelude::*;
use vstd::utf8::{
    decode_utf8, encode_utf8, encode_utf8_decode_utf8, encode_utf8_valid_utf8, valid_utf8,
};
use crate::ll::TCL_ERROR;
use crate::tcl::{outcome_of, Outcome, TclEnvironment, TclResult};

verus! {

/// What `String::from_utf8_lossy` makes of the given bytes.
pub uninterp spec fn utf8_lossy(bytes: Seq<u8>) -> Seq<char>;

/// The text that the engine's result bytes stand for: their decoding where
/// they are valid UTF-8, and the lossy reading of them where they are not.
pub open spec fn decoded(bytes: Seq<u8>) -> Seq<char> {
    if valid_utf8(bytes) {
        decode_utf8(bytes)
    } else {
        utf8_lossy(bytes)
    }
}

/// Bytes that encode a text in UTF-8 stand for that text: where the engine
/// holds well-formed text as its result, `string_result` returns it exactly.
pub proof fn lemma_decoded_encoding(text: Seq<char>)
    ensures
        decoded(encode_utf8(text)) == text,
{
    encode_utf8_valid_utf8(text);
    encode_utf8_decode_utf8(text);
}

/// Calls `String::from_utf8_lossy` and takes the text out of what it returns.
///
/// Trusted: the text is the lossy reading of the bytes, and for bytes that
/// are valid UTF-8 it is the string that they encode, unchanged.
#[verifier::external_body]
fn decode_lossy(bytes: &[u8]) -> (text: String)
    ensures
        text@ == utf8_lossy(bytes@),
        valid_utf8(bytes@) ==> text@ == decode_utf8(bytes@),
{
    String::from_utf8_lossy(bytes).into_owned()
}

/// An interpreter as a mathematical value.
pub struct InterpreterView {
    /// The handle under which the engine knows the interpreter.
    pub handle: usize,
    /// The interpreter's result, in the engine's encoding, as last reported.
    pub result: Seq<u8>,
}

/// One engine interpreter: the handle that the engine gave out for it, and
/// the result that the engine last reported for it.
///
/// The handle is never null. The record cannot be copied, so whoever owns it
/// is the one owner of the engine instance behind the handle.
pub struct Interpreter {
    handle: usize,
    result: Vec<u8>,
}

impl View for Interpreter {
    type V = InterpreterView;

    closed spec fn view(&self) -> InterpreterView {
        InterpreterView { handle: self.handle, result: self.result@ }
    }
}

impl Interpreter {
    #[verifier::type_invariant]
    spec fn handle_is_not_null(&self) -> bool {
        self.handle != 0
    }

    /// The message with which `new` reports that the engine gave out no interpreter.
    pub open spec fn creation_failure() -> Seq<char> {
        "Failed to create interpreter"@
    }

    /// The interpreter's current result as text.
    pub open spec fn spec_string_result(&self) -> Seq<char> {
        decoded(self@.result)
    }

    /// Takes charge of the interpreter that the engine created under `handle`.
    /// A null handle means that the engine could not allocate one. The record
    /// starts with an empty result.
    pub fn new(env: &TclEnvironment, handle: usize) -> (created: Result<Interpreter, &'static str>)
        ensures
            created is Ok <==> handle != 0,
            created matches Ok(interpreter) ==> interpreter@ == (InterpreterView {
                handle,
                result: Seq::empty(),
            }),
            created matches Err(message) ==> message@ == Self::creation_failure(),
    {
        if handle == 0 {
            Err("Failed to create interpreter")
        } else {
            Ok(Interpreter { handle, result: Vec::new() })
        }
    }

    /// The handle under which the engine knows this interpreter.
    pub fn handle(&self) -> (handle: usize)
        ensures
            handle == self@.handle,
            handle != 0,
    {
        proof {
            use_type_invariant(self);
        }
        self.handle
    }

    /// A copy of the interpreter's current result as text. Bytes that are not
    /// valid UTF-8 are read lossily.
    pub fn string_result(&self) -> (text: String)
        ensures
            text@ == self.spec_string_result(),
    {
        decode_lossy(self.result.as_slice())
    }

    /// Records what the engine reported when a call on this interpreter came
    /// back: its completion code, and the interpreter's result at that moment.
    /// The outcome of an error carries exactly that result.
    pub fn complete(&mut self, code: i32, result: Vec<u8>) -> (outcome: TclResult)
        ensures
            final(self)@ == (InterpreterView { handle: old(self)@.handle, result: result@ }),
            outcome@ == outcome_of(code as int, final(self).spec_string_result()),
            code == TCL_ERROR ==> outcome@ == Outcome::Error(final(self).spec_string_result()),
    {
        proof {
            use_type_invariant(&*self);
        }
        self.result = result;
        TclResult::from_ll(code, self)
    }
}

} // verus!

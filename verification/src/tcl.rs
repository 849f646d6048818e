//! The environment token and the classification of completion codes.

use vstd::prelude::*;
use vstd::utf8::encode_utf8;
use crate::interpreter::{Interpreter, InterpreterView};
use crate::ll::{c_string, terminated, TCL_BREAK, TCL_CONTINUE, TCL_ERROR, TCL_OK, TCL_RETURN};
use crate::object::{Object, Value};

verus! {

/// Proof that the engine has been set up for this process. Every interpreter
/// and every value is made through it.
pub struct TclEnvironment {
    token: (),
}

/// Starts the environment. `program` is the first argument of the process,
/// if it has one: the path it was started under. Beside the token, the
/// result holds the name that the engine is to resolve its executable from,
/// framed for the engine, or nothing where the process has no such argument.
///
/// The engine has to be told the name once per process, before the token is
/// put to use.
pub fn init(program: Option<&str>) -> (started: (TclEnvironment, Option<Vec<u8>>))
    requires
        program matches Some(path) ==> !encode_utf8(path@).contains(0u8),
    ensures
        match program {
            Some(path) => started.1 matches Some(name) && name@ == terminated(encode_utf8(path@)),
            None => started.1 is None,
        },
{
    let env = TclEnvironment { token: () };
    match program {
        Some(path) => (env, c_string(path.as_bytes())),
        None => (env, None),
    }
}

impl TclEnvironment {
    /// Takes charge of the interpreter that the engine created under
    /// `handle`; fails where the handle is null.
    pub fn interpreter(&self, handle: usize) -> (created: Result<Interpreter, &'static str>)
        ensures
            created is Ok <==> handle != 0,
            created matches Ok(interpreter) ==> interpreter@ == (InterpreterView {
                handle,
                result: Seq::empty(),
            }),
            created matches Err(message) ==> message@ == Interpreter::creation_failure(),
    {
        Interpreter::new(self, handle)
    }

    /// An untyped value.
    pub fn object(&self) -> (object: Object)
        ensures
            object@ == Value::Untyped,
    {
        Object::new(self)
    }

    /// A boolean value.
    pub fn boolean(&self, val: bool) -> (object: Object)
        ensures
            object@ == Value::Boolean(val),
    {
        Object::new_boolean(self, val)
    }

    /// An integer value.
    pub fn integer(&self, val: i32) -> (object: Object)
        ensures
            object@ == Value::Integer(val),
    {
        Object::new_integer(self, val)
    }

    /// A long integer value.
    pub fn long(&self, val: i64) -> (object: Object)
        ensures
            object@ == Value::Long(val),
    {
        Object::new_long(self, val)
    }

    /// A double-precision value, given by its IEEE 754 bit pattern.
    pub fn double(&self, bits: u64) -> (object: Object)
        ensures
            object@ == Value::Double(bits),
    {
        Object::new_double(self, bits)
    }

    /// A string value holding a copy of `val`.
    pub fn string(&self, val: &str) -> (object: Object)
        ensures
            object@ == Value::String(val@),
    {
        Object::new_string(self, val)
    }

    /// A byte array value holding a copy of `val`.
    pub fn byte_array(&self, val: &[u8]) -> (object: Object)
        ensures
            object@ == Value::ByteArray(val@),
    {
        Object::new_byte_array(self, val)
    }
}

/// The state an interpreter is in after an evaluation, as a mathematical value.
pub enum Outcome {
    Success,
    Error(Seq<char>),
    Return,
    Break,
    Continue,
}

/// The message of an outcome reached through a completion code that the engine does not define.
pub open spec fn unknown_result() -> Seq<char> {
    "Unknown result"@
}

/// The outcome that a completion code stands for, where `message` is the
/// interpreter's string result at the moment the code came back.
pub open spec fn outcome_of(code: int, message: Seq<char>) -> Outcome {
    if code == TCL_OK {
        Outcome::Success
    } else if code == TCL_ERROR {
        Outcome::Error(message)
    } else if code == TCL_RETURN {
        Outcome::Return
    } else if code == TCL_BREAK {
        Outcome::Break
    } else if code == TCL_CONTINUE {
        Outcome::Continue
    } else {
        Outcome::Error(unknown_result())
    }
}

/// The possible states an interpreter can be in after an evaluation.
#[derive(Debug, PartialEq, Eq)]
pub enum TclResult {
    /// The command completed successfully.
    Success,
    /// There was an error; the text is the interpreter's result at that moment.
    Error(String),
    /// The last command was a return from a procedure.
    Return,
    /// The last command was a break from a loop.
    Break,
    /// The last command was a continue from a loop.
    Continue,
}

impl View for TclResult {
    type V = Outcome;

    open spec fn view(&self) -> Outcome {
        match self {
            TclResult::Success => Outcome::Success,
            TclResult::Error(message) => Outcome::Error(message@),
            TclResult::Return => Outcome::Return,
            TclResult::Break => Outcome::Break,
            TclResult::Continue => Outcome::Continue,
        }
    }
}

impl TclResult {
    /// The outcome for a completion code and the string result that the
    /// interpreter held when the code came back.
    pub fn classify(code: i32, message: String) -> (outcome: TclResult)
        ensures
            outcome@ == outcome_of(code as int, message@),
    {
        if code == TCL_OK {
            TclResult::Success
        } else if code == TCL_ERROR {
            TclResult::Error(message)
        } else if code == TCL_RETURN {
            TclResult::Return
        } else if code == TCL_BREAK {
            TclResult::Break
        } else if code == TCL_CONTINUE {
            TclResult::Continue
        } else {
            TclResult::Error(String::from_str("Unknown result"))
        }
    }

    /// The outcome for a completion code that came back from a call on
    /// `interpreter`. The interpreter's string result is read only where the
    /// code is `TCL_ERROR`.
    pub fn from_ll(result: i32, interpreter: &Interpreter) -> (outcome: TclResult)
        ensures
            outcome@ == outcome_of(result as int, interpreter.spec_string_result()),
            result == TCL_ERROR ==> outcome@ == Outcome::Error(interpreter.spec_string_result()),
    {
        if result == TCL_ERROR {
            TclResult::classify(result, interpreter.string_result())
        } else {
            TclResult::classify(result, String::new())
        }
    }

    /// Whether the command completed successfully.
    pub fn is_ok(&self) -> (ok: bool)
        ensures
            ok == (self@ is Success),
    {
        match *self {
            TclResult::Success => true,
            _ => false,
        }
    }
}

} // verus!

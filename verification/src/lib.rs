//! The verified core of a binding to an embedded Tcl engine.
//!
//! The engine itself is reached through its native call surface, which only
//! unverified code can cross. This crate holds everything on this side of that
//! surface: the text that is handed over, the classification of the completion
//! codes that come back, the record kept of each interpreter, and the values
//! that are to be created in the engine.

pub mod interpreter;
pub mod ll;
pub mod object;
pub mod tcl;

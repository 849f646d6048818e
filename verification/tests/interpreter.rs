use rust_tcl::interpreter::Interpreter;
use rust_tcl::ll::{TCL_BREAK, TCL_CONTINUE, TCL_ERROR, TCL_OK, TCL_RETURN};
use rust_tcl::tcl::{init, TclResult};

fn fresh(handle: usize) -> Interpreter {
    let (env, _) = init(None);
    Interpreter::new(&env, handle).unwrap()
}

#[test]
fn new_rejects_the_null_handle() {
    let (env, _) = init(None);
    match Interpreter::new(&env, 0) {
        Ok(_) => panic!("a null handle was accepted"),
        Err(message) => assert_eq!(message, "Failed to create interpreter"),
    }
}

#[test]
fn new_keeps_the_handle() {
    for handle in [1usize, 2, 0x7f00_1000, usize::MAX] {
        let interpreter = fresh(handle);
        assert_eq!(interpreter.handle(), handle);
    }
}

#[test]
fn new_starts_with_an_empty_result() {
    assert_eq!(fresh(0x1000).string_result(), "");
}

#[test]
fn environment_interpreter_agrees_with_new() {
    let (env, _) = init(None);
    assert_eq!(env.interpreter(0).err(), Some("Failed to create interpreter"));
    let interpreter = env.interpreter(0x2000).unwrap();
    assert_eq!(interpreter.handle(), 0x2000);
    assert_eq!(interpreter.string_result(), "");
}

#[test]
fn set_x_5_gives_ok_and_result_5() {
    // The engine's answer to `set x 5`: normal completion, result "5".
    let mut interpreter = fresh(0x1000);
    assert_eq!(interpreter.complete(TCL_OK, b"5".to_vec()), TclResult::Success);
    assert_eq!(interpreter.string_result(), "5");
}

#[test]
fn error_boom_gives_error_boom() {
    // The engine's answer to `error {boom}`: an error, result "boom".
    let mut interpreter = fresh(0x1000);
    assert_eq!(
        interpreter.complete(TCL_ERROR, b"boom".to_vec()),
        TclResult::Error(String::from("boom"))
    );
    assert_eq!(interpreter.string_result(), "boom");
}

#[test]
fn return_in_a_procedure_gives_return() {
    // The engine's answer to `return` inside a procedure body.
    let mut interpreter = fresh(0x1000);
    assert_eq!(interpreter.complete(TCL_RETURN, Vec::new()), TclResult::Return);
    assert_eq!(interpreter.string_result(), "");
}

#[test]
fn missing_file_gives_the_engine_message() {
    // The engine's answer to evaluating a file that does not exist.
    let message = "couldn't read file \"/no/such/script.tcl\": no such file or directory";
    let mut interpreter = fresh(0x1000);
    assert_eq!(
        interpreter.complete(TCL_ERROR, message.as_bytes().to_vec()),
        TclResult::Error(String::from(message))
    );
}

#[test]
fn break_and_continue_come_through() {
    let mut interpreter = fresh(0x1000);
    assert_eq!(interpreter.complete(TCL_BREAK, Vec::new()), TclResult::Break);
    assert_eq!(interpreter.complete(TCL_CONTINUE, Vec::new()), TclResult::Continue);
}

#[test]
fn unknown_code_does_not_carry_the_result() {
    let mut interpreter = fresh(0x1000);
    assert_eq!(
        interpreter.complete(17, b"left over".to_vec()),
        TclResult::Error(String::from("Unknown result"))
    );
    assert_eq!(interpreter.string_result(), "left over");
}

#[test]
fn complete_keeps_the_handle() {
    let mut interpreter = fresh(0xabcd);
    interpreter.complete(TCL_ERROR, b"boom".to_vec());
    interpreter.complete(TCL_OK, b"5".to_vec());
    assert_eq!(interpreter.handle(), 0xabcd);
}

#[test]
fn each_completion_replaces_the_result() {
    let mut interpreter = fresh(0x1000);
    interpreter.complete(TCL_OK, b"first".to_vec());
    assert_eq!(interpreter.string_result(), "first");
    interpreter.complete(TCL_ERROR, b"second".to_vec());
    assert_eq!(interpreter.string_result(), "second");
    interpreter.complete(TCL_OK, Vec::new());
    assert_eq!(interpreter.string_result(), "");
}

#[test]
fn error_message_is_the_string_result_at_that_point() {
    let mut interpreter = fresh(0x1000);
    interpreter.complete(TCL_OK, b"earlier".to_vec());
    let outcome = interpreter.complete(TCL_ERROR, b"invalid command name \"foo\"".to_vec());
    assert_eq!(outcome, TclResult::Error(interpreter.string_result()));
    assert_eq!(outcome, TclResult::Error(String::from("invalid command name \"foo\"")));
}

#[test]
fn string_result_decodes_utf8() {
    let mut interpreter = fresh(0x1000);
    interpreter.complete(TCL_OK, "h\u{e9}llo \u{4e16}\u{754c} \u{1f600}".as_bytes().to_vec());
    assert_eq!(interpreter.string_result(), "h\u{e9}llo \u{4e16}\u{754c} \u{1f600}");
}

#[test]
fn string_result_replaces_invalid_sequences() {
    let mut interpreter = fresh(0x1000);
    interpreter.complete(TCL_OK, vec![b'a', 0xff, b'b']);
    assert_eq!(interpreter.string_result(), "a\u{fffd}b");
    interpreter.complete(TCL_OK, vec![0xe4, 0xb8]);
    assert_eq!(interpreter.string_result(), "\u{fffd}");
    interpreter.complete(TCL_OK, vec![0xc0, 0x80]);
    assert_eq!(interpreter.string_result(), "\u{fffd}\u{fffd}");
}

#[test]
fn string_result_is_a_copy() {
    let mut interpreter = fresh(0x1000);
    interpreter.complete(TCL_OK, b"5".to_vec());
    let mut text = interpreter.string_result();
    text.push('0');
    assert_eq!(text, "50");
    assert_eq!(interpreter.string_result(), "5");
}

//! Failure scenarios: each error kind of the bridge, from the step that
//! produces it.

use pandoc_wasm_wrapper::bridge::{Action, Bridge, Event};
use pandoc_wasm_wrapper::errors::BridgeError;

fn args(v: &[&str]) -> Vec<String> {
    v.iter().map(|s| s.to_string()).collect()
}

#[test]
fn rejected_bytecode_reports_compilation_error() {
    let mut b = Bridge::new();
    assert!(b.begin(args(&["--to=html"]), b"x".to_vec()));
    assert_eq!(b.pending_action(), Some(Action::Compile));
    b.on_event(Event::CompileFailed);
    assert_eq!(b.finish(), Err(BridgeError::Compilation));
    // a failed compilation is not cached: the next conversion tries again
    assert!(b.begin(args(&["--to=html"]), b"x".to_vec()));
    assert_eq!(b.pending_action(), Some(Action::Compile));
}

#[test]
fn unrecognized_flag_reports_execution_error() {
    let mut b = Bridge::new();
    assert!(b.begin(args(&["--not-a-real-flag"]), b"# Hi".to_vec()));
    b.on_event(Event::Compiled);
    b.on_event(Event::InputWritten);
    // the program rejects the flag and fails instead of hanging
    b.on_event(Event::ExecFailed);
    assert_eq!(b.pending_action(), Some(Action::Finish));
    assert_eq!(b.finish(), Err(BridgeError::Execution));
}

#[test]
fn unbuildable_environment_reports_environment_error() {
    let mut b = Bridge::new();
    assert!(b.begin(args(&["--to=html"]), b"x".to_vec()));
    b.on_event(Event::Compiled);
    b.on_event(Event::InputWritten);
    b.on_event(Event::EnvFailed);
    assert_eq!(b.finish(), Err(BridgeError::Environment));
}

#[test]
fn failed_input_write_reports_pipe_error() {
    let mut b = Bridge::new();
    assert!(b.begin(args(&["--to=html"]), b"x".to_vec()));
    b.on_event(Event::Compiled);
    b.on_event(Event::WriteFailed);
    assert_eq!(b.finish(), Err(BridgeError::PipeIo));
}

#[test]
fn failed_output_read_reports_pipe_error() {
    let mut b = Bridge::new();
    assert!(b.begin(args(&["--to=html"]), b"x".to_vec()));
    b.on_event(Event::Compiled);
    b.on_event(Event::InputWritten);
    b.on_event(Event::ExecOk);
    b.on_event(Event::Chunk(b"partial".to_vec()));
    b.on_event(Event::ReadFailed);
    assert_eq!(b.finish(), Err(BridgeError::PipeIo));
}

#[test]
fn invalid_output_bytes_report_decoding_error() {
    let mut b = Bridge::new();
    assert!(b.begin(args(&["--to=html"]), b"x".to_vec()));
    b.on_event(Event::Compiled);
    b.on_event(Event::InputWritten);
    b.on_event(Event::ExecOk);
    // 0xff never occurs in valid UTF-8
    b.on_event(Event::Chunk(vec![0xff, 0xfe, 0xfd]));
    b.on_event(Event::OutputEnd);
    assert_eq!(b.finish(), Err(BridgeError::Decoding));
}

#[test]
fn failure_releases_the_lock() {
    let mut b = Bridge::new();
    assert!(b.begin(args(&["--to=html"]), b"x".to_vec()));
    b.on_event(Event::CompileFailed);
    assert!(!b.begin(args(&["--to=html"]), b"y".to_vec()));
    let _ = b.finish();
    assert!(b.begin(args(&["--to=html"]), b"y".to_vec()));
}

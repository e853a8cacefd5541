//! Scenario tests: whole conversions driven through the bridge, with the
//! host's outside work played by scripted events.

use pandoc_wasm_wrapper::bridge::{Action, Bridge, Event};
use pandoc_wasm_wrapper::errors::BridgeError;

fn args(v: &[&str]) -> Vec<String> {
    v.iter().map(|s| s.to_string()).collect()
}

/// Drive one conversion whose compile and write steps succeed; the events
/// of the execute and drain steps are scripted by the caller.
fn run_conversion(
    b: &mut Bridge,
    a: Vec<String>,
    input: Vec<u8>,
    run_events: Vec<Event>,
) -> Result<String, BridgeError> {
    assert!(b.begin(a, input));
    if b.pending_action() == Some(Action::Compile) {
        b.on_event(Event::Compiled);
    }
    assert_eq!(b.pending_action(), Some(Action::WriteInput));
    b.on_event(Event::InputWritten);
    assert_eq!(b.pending_action(), Some(Action::Execute));
    for ev in run_events {
        b.on_event(ev);
    }
    assert_eq!(b.pending_action(), Some(Action::Finish));
    b.finish()
}

#[test]
fn converts_hello_world_markdown() {
    let mut b = Bridge::new();
    let out = run_conversion(
        &mut b,
        args(&["--from=markdown", "--to=html"]),
        "# Hello, world!".as_bytes().to_vec(),
        vec![
            Event::ExecOk,
            Event::Chunk("<h1 id=\"hello-world\">Hello, world!</h1>\n".as_bytes().to_vec()),
            Event::OutputEnd,
        ],
    );
    assert_eq!(out, Ok("<h1 id=\"hello-world\">Hello, world!</h1>\n".to_string()));
}

#[test]
fn empty_input_settles_without_error() {
    let mut b = Bridge::new();
    let out = run_conversion(
        &mut b,
        args(&["--from=markdown", "--to=plain"]),
        Vec::new(),
        vec![Event::ExecOk, Event::OutputEnd],
    );
    assert_eq!(out, Ok(String::new()));
}

#[test]
fn chunks_accumulate_in_order() {
    let mut b = Bridge::new();
    let out = run_conversion(
        &mut b,
        args(&["--from=markdown", "--to=plain"]),
        b"abc def".to_vec(),
        vec![
            Event::ExecOk,
            Event::Chunk(b"abc".to_vec()),
            Event::Chunk(b" ".to_vec()),
            Event::Chunk(b"def".to_vec()),
            Event::OutputEnd,
        ],
    );
    assert_eq!(out, Ok("abc def".to_string()));
}

#[test]
fn large_output_round_trips_across_many_chunks() {
    // output far larger than one pipe-buffer chunk, drained piecemeal
    let mut b = Bridge::new();
    let chunk: Vec<u8> = (0..251u32).map(|i| b'a' + (i % 26) as u8).collect();
    let mut events = vec![Event::ExecOk];
    let mut expected = String::new();
    for _ in 0..300 {
        events.push(Event::Chunk(chunk.clone()));
        expected.push_str(core::str::from_utf8(&chunk).unwrap());
    }
    events.push(Event::OutputEnd);
    let out = run_conversion(
        &mut b,
        args(&["--from=markdown", "--to=plain"]),
        b"large".to_vec(),
        events,
    );
    assert_eq!(out, Ok(expected));
}

#[test]
fn identical_calls_yield_identical_output() {
    let mut b = Bridge::new();
    let script = || {
        vec![
            Event::ExecOk,
            Event::Chunk(b"<p>same</p>\n".to_vec()),
            Event::OutputEnd,
        ]
    };
    let first = run_conversion(
        &mut b,
        args(&["--from=markdown", "--to=html"]),
        b"same".to_vec(),
        script(),
    );
    let second = run_conversion(
        &mut b,
        args(&["--from=markdown", "--to=html"]),
        b"same".to_vec(),
        script(),
    );
    assert_eq!(first, second);
    assert_eq!(first, Ok("<p>same</p>\n".to_string()));
}

#[test]
fn second_call_skips_compilation() {
    let mut b = Bridge::new();
    assert!(b.begin(args(&["--to=html"]), b"one".to_vec()));
    // first conversion of the process: the module must be compiled
    assert_eq!(b.pending_action(), Some(Action::Compile));
    b.on_event(Event::Compiled);
    b.on_event(Event::InputWritten);
    b.on_event(Event::ExecOk);
    b.on_event(Event::OutputEnd);
    b.finish().unwrap();

    assert!(b.begin(args(&["--to=html"]), b"two".to_vec()));
    // the cached module is reused: no compile step this time
    assert_eq!(b.pending_action(), Some(Action::WriteInput));
}

#[test]
fn concurrent_begin_refused_until_finished() {
    let mut b = Bridge::new();
    assert!(b.begin(args(&["--to=html"]), b"busy".to_vec()));
    b.on_event(Event::Compiled);
    // a second conversion arriving mid-flight is refused and nothing moves
    assert!(!b.begin(args(&["--to=plain"]), b"other".to_vec()));
    assert_eq!(b.pending_action(), Some(Action::WriteInput));
    b.on_event(Event::InputWritten);
    assert!(!b.begin(args(&["--to=plain"]), b"other".to_vec()));
    b.on_event(Event::ExecOk);
    b.on_event(Event::OutputEnd);
    assert_eq!(b.finish(), Ok(String::new()));
    // the lock is free again
    assert!(b.begin(args(&["--to=plain"]), b"other".to_vec()));
}

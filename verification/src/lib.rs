//! A verified bridge around a document-conversion program compiled to
//! sandboxed bytecode.
//!
//! The bridge's whole job is orchestration: compile the embedded module once
//! per process and cache it, serialize invocations so only one conversion is
//! in flight at a time, hand the caller's input to the program as its
//! standard input, drain its standard output, and decode the drained bytes
//! as text.  The decisions of that lifecycle live here, as a verified state
//! machine; the host performs the outside work (compiling, running, pipe
//! I/O) and reports each outcome back as an event.

pub mod bridge;
pub mod decode;
pub mod errors;
pub mod laws;

//! The bridge's error taxonomy.
//!
//! Every failure of a conversion is reported to the caller as one of these
//! kinds; the bridge never retries and never recovers locally.

use vstd::prelude::*;

verus! {

/// Why a conversion failed.
///
/// - `Compilation`: the embedded bytecode failed to parse or validate into a
///   module.
/// - `Environment`: the virtual execution environment could not be built
///   from the argument list and the two virtual stdio channels.
/// - `PipeIo`: writing the input buffer or draining the output buffer
///   failed.
/// - `Execution`: the sandboxed program trapped or otherwise failed while
///   running.
/// - `Decoding`: the captured output bytes are not valid text.
#[derive(Clone, Copy, PartialEq, Eq, Structural, Debug)]
pub enum BridgeError {
    Compilation,
    Environment,
    PipeIo,
    Execution,
    Decoding,
}

} // verus!

//! The conversion lifecycle, as a verified state machine.
//!
//! A `Bridge` holds the two pieces of process-wide state — whether the
//! compiled module is cached, and whether a conversion is in flight — and
//! the state of the in-flight conversion.  The bridge makes every decision
//! of the lifecycle; the host performs the outside work (compiling the
//! bytecode, writing and draining the virtual stdio channels, running the
//! module) and reports what happened back as an [`Event`].  The host's loop
//! is: ask [`Bridge::pending_action`] what to do, do it, report the event
//! with [`Bridge::on_event`], and when the conversion settles take the
//! outcome with [`Bridge::finish`].

use vstd::prelude::*;

use crate::decode::{decode_output, utf8_decode};
use crate::errors::BridgeError;

verus! {

/// Where the bridge stands in the lifecycle of one conversion.
#[derive(Clone, Copy, PartialEq, Eq, Structural, Debug)]
pub enum Phase {
    /// No conversion is in flight; the serialization lock is free.
    Idle,
    /// The lock is held and the module is not cached yet: the embedded
    /// bytecode must be compiled.
    Compiling,
    /// The module is cached: the full input buffer must be written to the
    /// stdin channel, and the channel then closed.
    Writing,
    /// The input is written: the execution environment must be built and
    /// the module run to completion in a fresh store.
    Running,
    /// The run completed: the stdout channel must be drained chunk by
    /// chunk until end-of-stream.
    Draining,
    /// The outcome is ready: the lock must be released and the outcome
    /// handed to the caller.
    Settled,
}

/// The next piece of outside work the host must perform.
#[derive(Clone, Copy, PartialEq, Eq, Structural, Debug)]
pub enum Action {
    /// Compile the embedded bytecode into the process-wide module.
    Compile,
    /// Write the whole input buffer to the stdin channel, then close it so
    /// the program observes end-of-input.
    WriteInput,
    /// Build the environment (program name, arguments, the two channels as
    /// stdio) and run the module to completion.
    Execute,
    /// Read the next chunk from the stdout channel.
    ReadOutput,
    /// Release the lock; the outcome is available through `finish`.
    Finish,
}

/// What the host observed when it performed the pending action.
pub enum Event {
    /// The bytecode compiled; the module is cached from now on.
    Compiled,
    /// The bytecode was rejected by the execution engine.
    CompileFailed,
    /// The full input buffer was written and the stdin sender closed.
    InputWritten,
    /// Writing the input buffer failed.
    WriteFailed,
    /// The execution environment could not be constructed.
    EnvFailed,
    /// The module ran to completion.
    ExecOk,
    /// The module trapped or otherwise failed while running.
    ExecFailed,
    /// The next chunk drained from the stdout channel.
    Chunk(Vec<u8>),
    /// The stdout channel reached end-of-stream.
    OutputEnd,
    /// Draining the stdout channel failed.
    ReadFailed,
}

/// The mathematical state of a bridge.
#[verifier::ext_equal]
pub struct BridgeView {
    /// Whether the compiled module is cached for the rest of the process.
    pub module_ready: bool,
    /// Where the in-flight conversion stands; `Idle` when none is.
    pub phase: Phase,
    /// The in-flight conversion's argument list, passed through verbatim.
    pub args: Seq<Seq<char>>,
    /// The in-flight conversion's input buffer, fed as standard input.
    pub input: Seq<u8>,
    /// The output bytes drained so far.
    pub collected: Seq<u8>,
    /// The settled conversion's outcome, `None` until it settles.
    pub outcome: Option<Result<Seq<char>, BridgeError>>,
}

/// What a `Result` handed to the caller stands for.
pub open spec fn result_view(r: Result<String, BridgeError>) -> Result<Seq<char>, BridgeError> {
    match r {
        Ok(s) => Ok(s@),
        Err(e) => Err(e),
    }
}

/// What a stored outcome stands for.
pub open spec fn outcome_view(o: Option<Result<String, BridgeError>>) -> Option<
    Result<Seq<char>, BridgeError>,
> {
    match o {
        None => None,
        Some(r) => Some(result_view(r)),
    }
}

impl BridgeView {
    /// The bridge's invariant.
    ///
    /// A conversion settles exactly when its outcome is recorded; the
    /// compile step is pending only while the module is not cached; a
    /// conversion past the compile step has the module cached; and output
    /// bytes accumulate only once draining begins.
    pub open spec fn wf(self) -> bool {
        &&& self.phase is Settled <==> self.outcome is Some
        &&& self.phase is Compiling ==> !self.module_ready
        &&& self.phase is Writing || self.phase is Running || self.phase is Draining
            ==> self.module_ready
        &&& self.phase is Compiling || self.phase is Writing || self.phase is Running
            ==> self.collected.len() == 0
    }
}

/// The action the host must perform in a given state: none while idle,
/// otherwise determined by the phase alone.
pub open spec fn spec_action(b: BridgeView) -> Option<Action> {
    match b.phase {
        Phase::Idle => None,
        Phase::Compiling => Some(Action::Compile),
        Phase::Writing => Some(Action::WriteInput),
        Phase::Running => Some(Action::Execute),
        Phase::Draining => Some(Action::ReadOutput),
        Phase::Settled => Some(Action::Finish),
    }
}

/// Whether an event answers the pending action of the given state.
pub open spec fn event_expected(b: BridgeView, ev: Event) -> bool {
    match b.phase {
        Phase::Idle => false,
        Phase::Compiling => ev is Compiled || ev is CompileFailed,
        Phase::Writing => ev is InputWritten || ev is WriteFailed,
        Phase::Running => ev is ExecOk || ev is EnvFailed || ev is ExecFailed,
        Phase::Draining => ev is Chunk || ev is OutputEnd || ev is ReadFailed,
        Phase::Settled => false,
    }
}

/// The state after an admitted conversion of `args` and `input` begins:
/// the lock is taken, the call's own state is reset, and the first pending
/// action is to compile when the module is not cached yet.
pub open spec fn spec_started(b: BridgeView, args: Seq<Seq<char>>, input: Seq<u8>) -> BridgeView {
    BridgeView {
        module_ready: b.module_ready,
        phase: if b.module_ready {
            Phase::Writing
        } else {
            Phase::Compiling
        },
        args: args,
        input: input,
        collected: Seq::empty(),
        outcome: None,
    }
}

/// The state after a caller asks to begin a conversion: admitted only when
/// the bridge is idle; a bridge with a conversion in flight is left
/// untouched.
pub open spec fn spec_begin(b: BridgeView, args: Seq<Seq<char>>, input: Seq<u8>) -> BridgeView {
    if b.phase is Idle {
        spec_started(b, args, input)
    } else {
        b
    }
}

/// The state after the conversion settles on outcome `r`.
pub open spec fn spec_settled(b: BridgeView, r: Result<Seq<char>, BridgeError>) -> BridgeView {
    BridgeView { phase: Phase::Settled, outcome: Some(r), ..b }
}

/// The state after the host reports `ev`.  An event that does not answer
/// the pending action changes nothing.
pub open spec fn spec_on_event(b: BridgeView, ev: Event) -> BridgeView {
    if !event_expected(b, ev) {
        b
    } else {
        match ev {
            Event::Compiled => BridgeView { module_ready: true, phase: Phase::Writing, ..b },
            Event::CompileFailed => spec_settled(b, Err(BridgeError::Compilation)),
            Event::InputWritten => BridgeView { phase: Phase::Running, ..b },
            Event::WriteFailed => spec_settled(b, Err(BridgeError::PipeIo)),
            Event::EnvFailed => spec_settled(b, Err(BridgeError::Environment)),
            Event::ExecOk => BridgeView { phase: Phase::Draining, ..b },
            Event::ExecFailed => spec_settled(b, Err(BridgeError::Execution)),
            Event::Chunk(c) => BridgeView { collected: b.collected + c@, ..b },
            Event::OutputEnd => spec_settled(
                b,
                match utf8_decode(b.collected) {
                    Some(s) => Ok(s),
                    None => Err(BridgeError::Decoding),
                },
            ),
            Event::ReadFailed => spec_settled(b, Err(BridgeError::PipeIo)),
        }
    }
}

/// The state after the settled conversion's outcome is taken: the lock is
/// released and the cached module kept.  A bridge that has not settled is
/// left untouched.
pub open spec fn spec_finished(b: BridgeView) -> BridgeView {
    if b.phase is Settled {
        BridgeView { phase: Phase::Idle, outcome: None, ..b }
    } else {
        b
    }
}

/// The bridge: the process-wide module cache and serialization lock,
/// together with the state of the one conversion they admit at a time.
pub struct Bridge {
    module_ready: bool,
    phase: Phase,
    args: Vec<String>,
    input: Vec<u8>,
    collected: Vec<u8>,
    outcome: Option<Result<String, BridgeError>>,
}

impl View for Bridge {
    type V = BridgeView;

    closed spec fn view(&self) -> BridgeView {
        BridgeView {
            module_ready: self.module_ready,
            phase: self.phase,
            args: self.args.deep_view(),
            input: self.input@,
            collected: self.collected@,
            outcome: outcome_view(self.outcome),
        }
    }
}

impl Bridge {
    /// A bridge for a fresh process: nothing cached, the lock not held.
    pub fn new() -> (b: Bridge)
        ensures
            b@.wf(),
            b@.phase is Idle,
            !b@.module_ready,
    {
        Bridge {
            module_ready: false,
            phase: Phase::Idle,
            args: Vec::new(),
            input: Vec::new(),
            collected: Vec::new(),
            outcome: None,
        }
    }

    /// Ask to begin converting `input` under the argument list `args`.
    ///
    /// The serialization lock: the conversion is admitted only when no
    /// other is in flight; a refused caller waits and asks again, so at
    /// most one conversion — and so at most one execution context — is
    /// ever live.
    pub fn begin(&mut self, args: Vec<String>, input: Vec<u8>) -> (admitted: bool)
        requires
            old(self)@.wf(),
        ensures
            final(self)@.wf(),
            admitted == (old(self)@.phase is Idle),
            final(self)@ == spec_begin(old(self)@, args.deep_view(), input@),
    {
        let ghost a0 = args.deep_view();
        let ghost i0 = input@;
        match self.phase {
            Phase::Idle => {
                self.phase = if self.module_ready {
                    Phase::Writing
                } else {
                    Phase::Compiling
                };
                self.args = args;
                self.input = input;
                self.collected = Vec::new();
                self.outcome = None;
                proof {
                    assert(self@ =~= spec_begin(old(self)@, a0, i0));
                }
                true
            },
            _ => false,
        }
    }

    /// The next piece of outside work the host must perform, or `None`
    /// when the bridge is idle.
    pub fn pending_action(&self) -> (a: Option<Action>)
        ensures
            a == spec_action(self@),
    {
        match self.phase {
            Phase::Idle => None,
            Phase::Compiling => Some(Action::Compile),
            Phase::Writing => Some(Action::WriteInput),
            Phase::Running => Some(Action::Execute),
            Phase::Draining => Some(Action::ReadOutput),
            Phase::Settled => Some(Action::Finish),
        }
    }

    /// The argument list the in-flight conversion passes through verbatim
    /// as the program's argument vector.
    pub fn current_args(&self) -> (a: &Vec<String>)
        ensures
            a.deep_view() == self@.args,
    {
        &self.args
    }

    /// The input buffer the in-flight conversion feeds as the program's
    /// standard input, whole.
    pub fn current_input(&self) -> (i: &Vec<u8>)
        ensures
            i@ == self@.input,
    {
        &self.input
    }

    /// Report what the pending action came to.
    ///
    /// Every decision of the lifecycle is made here: a compiled module is
    /// cached for the rest of the process; drained chunks accumulate in
    /// order and in full; end-of-stream decodes the accumulated bytes and
    /// settles the conversion; every failure settles it on the error of
    /// the step that failed.
    pub fn on_event(&mut self, ev: Event)
        requires
            old(self)@.wf(),
            event_expected(old(self)@, ev),
        ensures
            final(self)@.wf(),
            final(self)@ == spec_on_event(old(self)@, ev),
    {
        let ghost ev0 = ev;
        match ev {
            Event::Compiled => {
                self.module_ready = true;
                self.phase = Phase::Writing;
            },
            Event::CompileFailed => {
                self.phase = Phase::Settled;
                self.outcome = Some(Err(BridgeError::Compilation));
            },
            Event::InputWritten => {
                self.phase = Phase::Running;
            },
            Event::WriteFailed => {
                self.phase = Phase::Settled;
                self.outcome = Some(Err(BridgeError::PipeIo));
            },
            Event::EnvFailed => {
                self.phase = Phase::Settled;
                self.outcome = Some(Err(BridgeError::Environment));
            },
            Event::ExecOk => {
                self.phase = Phase::Draining;
            },
            Event::ExecFailed => {
                self.phase = Phase::Settled;
                self.outcome = Some(Err(BridgeError::Execution));
            },
            Event::Chunk(c) => {
                self.collected.extend_from_slice(c.as_slice());
            },
            Event::OutputEnd => {
                let decoded = decode_output(&self.collected);
                self.outcome = Some(
                    match decoded {
                        Some(s) => Ok(s),
                        None => Err(BridgeError::Decoding),
                    },
                );
                self.phase = Phase::Settled;
            },
            Event::ReadFailed => {
                self.phase = Phase::Settled;
                self.outcome = Some(Err(BridgeError::PipeIo));
            },
        }
        proof {
            assert(self@ =~= spec_on_event(old(self)@, ev0));
        }
    }

    /// Take the settled conversion's outcome and release the lock.  The
    /// cached module survives for the next conversion.
    pub fn finish(&mut self) -> (r: Result<String, BridgeError>)
        requires
            old(self)@.wf(),
            old(self)@.phase is Settled,
        ensures
            final(self)@.wf(),
            final(self)@ == spec_finished(old(self)@),
            Some(result_view(r)) == old(self)@.outcome,
    {
        self.phase = Phase::Idle;
        let out = self.outcome.take();
        proof {
            assert(self@ =~= spec_finished(old(self)@));
        }
        match out {
            Some(r) => r,
            None => {
                proof {
                    assert(false);
                }
                Err(BridgeError::Execution)
            },
        }
    }
}

} // verus!

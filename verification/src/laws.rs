//! The bridge's laws, proved over whole traces of host events.
//!
//! A trace is the sequence of events the host reports while it drives one
//! or more conversions.  The lemmas here state the properties the bridge
//! promises of every trace: the module is compiled at most once per
//! process; a second conversion is never admitted while one is in flight;
//! no state leaks from one conversion into the next; and a successful
//! conversion returns every drained byte, in order, with none lost.

use vstd::prelude::*;

use crate::bridge::{
    event_expected, spec_begin, spec_finished, spec_on_event, BridgeView, Event, Phase,
};
use crate::decode::utf8_decode;

verus! {

/// The state after the host reports the whole trace `evs`, one event at a
/// time.
pub open spec fn run_events(b: BridgeView, evs: Seq<Event>) -> BridgeView
    decreases evs.len(),
{
    if evs.len() == 0 {
        b
    } else {
        run_events(spec_on_event(b, evs[0]), evs.skip(1))
    }
}

/// How many events of the trace complete a compilation: answer a pending
/// compile step with `Compiled`.
pub open spec fn compiles_completed(b: BridgeView, evs: Seq<Event>) -> nat
    decreases evs.len(),
{
    if evs.len() == 0 {
        0nat
    } else {
        (if b.phase is Compiling && evs[0] is Compiled {
            1nat
        } else {
            0nat
        }) + compiles_completed(spec_on_event(b, evs[0]), evs.skip(1))
    }
}

/// The output bytes the trace drains: the concatenation, in order, of
/// every chunk that answers a pending read of the stdout channel.
pub open spec fn drained_bytes(b: BridgeView, evs: Seq<Event>) -> Seq<u8>
    decreases evs.len(),
{
    if evs.len() == 0 {
        Seq::empty()
    } else {
        (match evs[0] {
            Event::Chunk(c) => if b.phase is Draining {
                c@
            } else {
                Seq::empty()
            },
            _ => Seq::empty(),
        }) + drained_bytes(spec_on_event(b, evs[0]), evs.skip(1))
    }
}

/// One event preserves the invariant, never un-caches the module, and
/// never touches the conversion's arguments or input.
pub proof fn lemma_on_event_preserves(b: BridgeView, ev: Event)
    requires
        b.wf(),
    ensures
        spec_on_event(b, ev).wf(),
        b.module_ready ==> spec_on_event(b, ev).module_ready,
        spec_on_event(b, ev).args == b.args,
        spec_on_event(b, ev).input == b.input,
{
}

/// A whole trace preserves the invariant, never un-caches the module, and
/// runs the conversion on the caller's arguments and input unchanged.
pub proof fn lemma_run_preserves(b: BridgeView, evs: Seq<Event>)
    requires
        b.wf(),
    ensures
        run_events(b, evs).wf(),
        b.module_ready ==> run_events(b, evs).module_ready,
        run_events(b, evs).args == b.args,
        run_events(b, evs).input == b.input,
    decreases evs.len(),
{
    if evs.len() > 0 {
        lemma_on_event_preserves(b, evs[0]);
        lemma_run_preserves(spec_on_event(b, evs[0]), evs.skip(1));
    }
}

/// A settled conversion is inert: no further event moves the bridge until
/// its outcome is taken.
pub proof fn lemma_settled_stays(b: BridgeView, evs: Seq<Event>)
    requires
        b.phase is Settled,
    ensures
        run_events(b, evs) == b,
    decreases evs.len(),
{
    if evs.len() > 0 {
        assert(!event_expected(b, evs[0]));
        lemma_settled_stays(b, evs.skip(1));
    }
}

/// A settled conversion drains nothing more.
pub proof fn lemma_settled_drains_nothing(b: BridgeView, evs: Seq<Event>)
    requires
        b.phase is Settled,
    ensures
        drained_bytes(b, evs) == Seq::<u8>::empty(),
    decreases evs.len(),
{
    if evs.len() > 0 {
        lemma_settled_drains_nothing(b, evs.skip(1));
        assert(drained_bytes(b, evs) =~= Seq::<u8>::empty());
    }
}

/// The module cache is a per-process singleton: once the module is cached
/// no trace ever compiles again, and from a cold cache every trace — over
/// however many sequential conversions — completes at most one
/// compilation.
pub proof fn lemma_compile_at_most_once(b: BridgeView, evs: Seq<Event>)
    requires
        b.wf(),
    ensures
        compiles_completed(b, evs) <= if b.module_ready {
            0nat
        } else {
            1nat
        },
    decreases evs.len(),
{
    if evs.len() > 0 {
        lemma_on_event_preserves(b, evs[0]);
        lemma_compile_at_most_once(spec_on_event(b, evs[0]), evs.skip(1));
    }
}

/// The other half of the singleton property: from a cold cache, a trace
/// that ends with the module cached has compiled it exactly once.
pub proof fn lemma_cached_means_compiled_once(b: BridgeView, evs: Seq<Event>)
    requires
        b.wf(),
        !b.module_ready,
    ensures
        run_events(b, evs).module_ready ==> compiles_completed(b, evs) == 1,
    decreases evs.len(),
{
    if evs.len() > 0 {
        let b1 = spec_on_event(b, evs[0]);
        lemma_on_event_preserves(b, evs[0]);
        if b1.module_ready {
            lemma_compile_at_most_once(b1, evs.skip(1));
        } else {
            lemma_cached_means_compiled_once(b1, evs.skip(1));
        }
    }
}

/// The serialization lock: a conversion that arrives while another is in
/// flight is refused and changes nothing.  Only the one admitted
/// conversion ever reaches the execution step, so no two execution
/// contexts are live at once.
pub proof fn lemma_lock_excludes_second(b: BridgeView, args: Seq<Seq<char>>, input: Seq<u8>)
    requires
        !(b.phase is Idle),
    ensures
        spec_begin(b, args, input) == b,
{
}

/// No hidden state leaks between conversions: two idle bridges whose
/// module caches agree give a conversion of the same arguments and input,
/// answered by the same host events, the very same outcome — whatever ran
/// before either of them.
pub proof fn lemma_no_state_leak(
    b1: BridgeView,
    b2: BridgeView,
    args: Seq<Seq<char>>,
    input: Seq<u8>,
    evs: Seq<Event>,
)
    requires
        b1.wf(),
        b2.wf(),
        b1.phase is Idle,
        b2.phase is Idle,
        b1.module_ready == b2.module_ready,
    ensures
        run_events(spec_begin(b1, args, input), evs).outcome == run_events(
            spec_begin(b2, args, input),
            evs,
        ).outcome,
{
    assert(spec_begin(b1, args, input) =~= spec_begin(b2, args, input));
}

/// Idempotence: run a conversion to an outcome, take the outcome, then run
/// the same conversion again with the same arguments, input and host
/// events; the second outcome equals the first.
pub proof fn lemma_idempotent(b: BridgeView, args: Seq<Seq<char>>, input: Seq<u8>, evs: Seq<Event>)
    requires
        b.wf(),
        b.phase is Idle,
        b.module_ready,
    ensures
        ({
            let first = run_events(spec_begin(b, args, input), evs);
            let second = run_events(spec_begin(spec_finished(first), args, input), evs);
            first.phase is Settled ==> second.outcome == first.outcome
        }),
{
    let started = spec_begin(b, args, input);
    lemma_run_preserves(started, evs);
    let first = run_events(started, evs);
    if first.phase is Settled {
        let again = spec_finished(first);
        assert(spec_begin(again, args, input) =~= started);
    }
}

/// Chunked draining loses nothing: a conversion that settles successfully
/// during the trace returns exactly the decoding of what it had drained
/// before the trace plus every byte the trace drains, in order — partial
/// reads never truncate the output.
pub proof fn lemma_output_complete(b: BridgeView, evs: Seq<Event>)
    requires
        b.wf(),
        !(b.phase is Settled),
    ensures
        ({
            let end = run_events(b, evs);
            end.outcome matches Some(Ok(s)) ==> Some(s) == utf8_decode(
                b.collected + drained_bytes(b, evs),
            )
        }),
    decreases evs.len(),
{
    if evs.len() == 0 {
        assert(run_events(b, evs).outcome is None);
    } else {
        let ev = evs[0];
        let b1 = spec_on_event(b, ev);
        lemma_on_event_preserves(b, ev);
        if b1.phase is Settled {
            lemma_settled_stays(b1, evs.skip(1));
            lemma_settled_drains_nothing(b1, evs.skip(1));
            assert(b.collected + drained_bytes(b, evs) =~= b.collected);
        } else {
            lemma_output_complete(b1, evs.skip(1));
            assert(b.collected + drained_bytes(b, evs) =~= b1.collected + drained_bytes(
                b1,
                evs.skip(1),
            ));
        }
    }
}

} // verus!

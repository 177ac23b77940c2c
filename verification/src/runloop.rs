//! The run loop: drives the graph through its lifecycle states while
//! consuming the ordered event stream, and tears the graph down to `Null`
//! on every exit path.

use vstd::prelude::*;
use crate::bytes::copy_bytes;
use crate::graph::Graph;

verus! {

/// The aggregate run state of the graph.
#[derive(Clone, Copy, Debug, PartialEq, Eq, Structural)]
pub enum RunState {
    /// Initial and terminal idle state.
    Null,
    /// The graph is flowing data.
    Playing,
    /// Terminal success: every branch signalled completion.
    Eos,
    /// Terminal failure: an error message was observed.
    Failed,
}

/// A message on the graph's single ordered event stream.
pub enum Message {
    /// Every branch of the graph has signalled completion.
    EndOfStream,
    /// An engine error, with the originating node's path and its detail.
    Error { source_path: Vec<u8>, error: Vec<u8> },
    /// Any other event; ignored.
    Other,
}

/// The failure surfaced to the caller: the originating node's path and the
/// engine's error detail.
pub struct EngineError {
    pub source_path: Vec<u8>,
    pub error: Vec<u8>,
}

/// One step of the run loop: while `Playing` the next message decides the
/// next state; terminal states absorb every message.
pub open spec fn step_spec(s: RunState, m: Message) -> RunState {
    if s is Playing {
        match m {
            Message::EndOfStream => RunState::Eos,
            Message::Error { .. } => RunState::Failed,
            Message::Other => RunState::Playing,
        }
    } else {
        s
    }
}

/// The transitions one execution may take:
/// `Null -> Playing -> {Playing, Eos, Failed, Null} -> Null`.
pub open spec fn allowed_transition(a: RunState, b: RunState) -> bool {
    ||| a is Null && b is Playing
    ||| a is Playing && (b is Playing || b is Eos || b is Failed || b is Null)
    ||| a is Eos && b is Null
    ||| a is Failed && b is Null
}

/// The state in which message consumption stops: the first `EndOfStream`
/// or `Error` decides; a stream of only `Other` messages leaves the loop
/// `Playing`.
pub open spec fn terminal_state(msgs: Seq<Message>) -> RunState
    decreases msgs.len(),
{
    if msgs.len() == 0 {
        RunState::Playing
    } else {
        match msgs[0] {
            Message::EndOfStream => RunState::Eos,
            Message::Error { .. } => RunState::Failed,
            Message::Other => terminal_state(msgs.drop_first()),
        }
    }
}

/// Index of the message that stops consumption, or the length when none
/// does.
pub open spec fn stop_index(msgs: Seq<Message>) -> int
    decreases msgs.len(),
{
    if msgs.len() == 0 {
        0
    } else if !(msgs[0] is Other) {
        0
    } else {
        1 + stop_index(msgs.drop_first())
    }
}

/// Consumption skips a prefix of `Other` messages without changing what it
/// stops on.
proof fn lemma_terminal_prefix(msgs: Seq<Message>, i: int)
    requires
        0 <= i <= msgs.len(),
        forall|k: int| 0 <= k < i ==> msgs[k] is Other,
    ensures
        terminal_state(msgs) == terminal_state(msgs.skip(i)),
        stop_index(msgs) == i + stop_index(msgs.skip(i)),
    decreases i,
{
    if i > 0 {
        lemma_terminal_prefix(msgs.drop_first(), i - 1);
        assert(msgs.skip(i) =~= msgs.drop_first().skip(i - 1));
    } else {
        assert(msgs.skip(0) =~= msgs);
    }
}

/// Advances the run-loop state by one observed message.
pub fn step_run(s: RunState, m: &Message) -> (r: RunState)
    ensures
        r == step_spec(s, *m),
{
    if s == RunState::Playing {
        match m {
            Message::EndOfStream => RunState::Eos,
            Message::Error { .. } => RunState::Failed,
            Message::Other => RunState::Playing,
        }
    } else {
        s
    }
}

/// Starts playback, consumes the event stream until `EndOfStream` or an
/// `Error` message (or the stream is exhausted), then unconditionally tears
/// the graph down to `Null`. Success is surfaced unless an error message
/// stopped the run; the failure carries the originating node's path and the
/// engine's error detail.
pub fn play_pipeline_to_eos(g: &mut Graph, msgs: &Vec<Message>) -> (r: Result<(), EngineError>)
    requires
        old(g).state is Null,
    ensures
        final(g).state is Null,
        final(g).nodes == old(g).nodes,
        final(g).static_links == old(g).static_links,
        final(g).streams == old(g).streams,
        r is Err <==> terminal_state(msgs@) is Failed,
        match r {
            Ok(()) => true,
            Err(e) => {
                &&& 0 <= stop_index(msgs@) < msgs@.len()
                &&& msgs@[stop_index(msgs@)] matches Message::Error { source_path, error }
                    && e.source_path@ == source_path@ && e.error@ == error@
            },
        },
{
    g.state = RunState::Playing;
    let mut i: usize = 0;
    let mut failure: Option<EngineError> = None;
    loop
        invariant_except_break
            i <= msgs.len(),
            failure is None,
            forall|k: int| 0 <= k < i ==> msgs@[k] is Other,
        ensures
            match failure {
                None => terminal_state(msgs@) is Eos || terminal_state(msgs@) is Playing,
                Some(e) => {
                    &&& terminal_state(msgs@) is Failed
                    &&& 0 <= stop_index(msgs@) < msgs@.len()
                    &&& msgs@[stop_index(msgs@)] matches Message::Error { source_path, error }
                        && e.source_path@ == source_path@ && e.error@ == error@
                },
            },
        decreases msgs.len() - i,
    {
        if i >= msgs.len() {
            proof {
                lemma_terminal_prefix(msgs@, i as int);
                assert(msgs@.skip(i as int).len() == 0);
            }
            break;
        }
        proof {
            lemma_terminal_prefix(msgs@, i as int);
            assert(msgs@.skip(i as int)[0] == msgs@[i as int]);
        }
        match &msgs[i] {
            Message::EndOfStream => {
                break;
            },
            Message::Error { source_path, error } => {
                failure = Some(EngineError {
                    source_path: copy_bytes(source_path),
                    error: copy_bytes(error),
                });
                break;
            },
            Message::Other => {
                i += 1;
            },
        }
    }
    g.state = RunState::Null;
    match failure {
        None => Ok(()),
        Some(e) => Err(e),
    }
}

/// The lifecycle is monotonic: each step the loop takes while `Playing` is
/// an allowed transition, and terminal states absorb every later message.
pub proof fn lemma_step_monotone(s: RunState, m: Message)
    ensures
        s is Playing ==> allowed_transition(s, step_spec(s, m)),
        !(s is Playing) ==> step_spec(s, m) == s,
{
}

/// The states one run passes through, in order: idle, playback, whatever
/// the messages decide (intermediate `Other` messages keep it `Playing`),
/// and the unconditional teardown.
pub open spec fn run_trace(msgs: Seq<Message>) -> Seq<RunState> {
    seq![RunState::Null, RunState::Playing, terminal_state(msgs), RunState::Null]
}

/// The lifecycle is monotonic across one execution: every adjacent pair
/// of the run's state trace is an allowed transition, whatever the
/// messages hold.
pub proof fn lemma_run_trace_monotone(msgs: Seq<Message>)
    ensures
        forall|i: int|
            0 <= i < run_trace(msgs).len() - 1 ==> #[trigger] allowed_transition(
                run_trace(msgs)[i],
                run_trace(msgs)[i + 1],
            ),
{
    lemma_terminal_not_null(msgs);
    let t = run_trace(msgs);
    assert(t[0] is Null && t[1] is Playing && t[3] is Null);
    assert(allowed_transition(t[0], t[1]));
    assert(allowed_transition(t[1], t[2]));
    assert(allowed_transition(t[2], t[3]));
}

proof fn lemma_terminal_not_null(msgs: Seq<Message>)
    ensures
        !(terminal_state(msgs) is Null),
    decreases msgs.len(),
{
    if msgs.len() > 0 && msgs[0] is Other {
        lemma_terminal_not_null(msgs.drop_first());
    }
}

/// An `Error` message observed while `Playing` — only `Other` messages
/// before it — stops consumption right there and drives the run to
/// `Failed`; the unconditional teardown then brings the post-run state to
/// `Null` regardless of outcome.
pub proof fn lemma_error_gives_failed(msgs: Seq<Message>, i: int)
    requires
        0 <= i < msgs.len(),
        msgs[i] is Error,
        forall|k: int| 0 <= k < i ==> msgs[k] is Other,
    ensures
        terminal_state(msgs) is Failed,
        stop_index(msgs) == i,
{
    lemma_terminal_prefix(msgs, i);
    assert(msgs.skip(i)[0] == msgs[i]);
}

/// An `EndOfStream` observed while `Playing` — only `Other` messages
/// before it — ends the run in `Eos`.
pub proof fn lemma_eos_gives_success(msgs: Seq<Message>, i: int)
    requires
        0 <= i < msgs.len(),
        msgs[i] is EndOfStream,
        forall|k: int| 0 <= k < i ==> msgs[k] is Other,
    ensures
        terminal_state(msgs) is Eos,
        stop_index(msgs) == i,
{
    lemma_terminal_prefix(msgs, i);
    assert(msgs.skip(i)[0] == msgs[i]);
}

} // verus!

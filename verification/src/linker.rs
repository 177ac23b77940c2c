//! The reactive pad linker: for each source pad the demux exposes, choose
//! a compatible mux pad template, request a sink pad instance from it, and
//! wire the stream through a fresh interposed buffering node whose run
//! state is synchronized with its parent graph.

use vstd::prelude::*;
use crate::caps::{caps_intersect, can_intersect};
use crate::graph::{Graph, GraphNode, StreamLink, ty_queue};
use crate::runloop::{lemma_eos_gives_success, terminal_state, Message, RunState};

verus! {

/// How many concrete pads a template allows.
#[derive(Clone, Copy, Debug, PartialEq, Eq, Structural)]
pub enum Cardinality {
    /// Exactly one pad instance exists.
    Fixed,
    /// New pad instances are created on demand.
    Request,
}

/// A capability plus a cardinality, exposed by a node's type before any
/// concrete pad exists.
pub struct PadTemplate {
    pub caps: Vec<u64>,
    pub cardinality: Cardinality,
}

/// A template can take a stream when it is request-cardinality and its
/// capability intersects the stream's.
pub open spec fn template_matches(t: PadTemplate, src: Seq<u64>) -> bool {
    t.cardinality is Request && caps_intersect(t.caps@, src)
}

/// The first matching template at or after `i`, in declaration order.
pub open spec fn first_match_from(ts: Seq<PadTemplate>, src: Seq<u64>, i: int) -> Option<int>
    decreases ts.len() - i,
{
    if i < 0 || i >= ts.len() {
        None
    } else if template_matches(ts[i], src) {
        Some(i)
    } else {
        first_match_from(ts, src, i + 1)
    }
}

/// The first matching template, in declaration order (the tie-break).
pub open spec fn first_match(ts: Seq<PadTemplate>, src: Seq<u64>) -> Option<int> {
    first_match_from(ts, src, 0)
}

proof fn lemma_first_match_from_props(ts: Seq<PadTemplate>, src: Seq<u64>, i: int)
    requires
        0 <= i <= ts.len(),
    ensures
        match first_match_from(ts, src, i) {
            Some(m) => i <= m < ts.len() && template_matches(ts[m], src) && forall|j: int|
                i <= j < m ==> !#[trigger] template_matches(ts[j], src),
            None => forall|j: int| i <= j < ts.len() ==> !#[trigger] template_matches(ts[j], src),
        },
    decreases ts.len() - i,
{
    if i < ts.len() && !template_matches(ts[i], src) {
        lemma_first_match_from_props(ts, src, i + 1);
    }
}

/// What the selection means: a chosen template matches and every earlier
/// one does not; no choice means none matches.
pub proof fn lemma_first_match_props(ts: Seq<PadTemplate>, src: Seq<u64>)
    ensures
        match first_match(ts, src) {
            Some(m) => 0 <= m < ts.len() && template_matches(ts[m], src) && forall|j: int|
                0 <= j < m ==> !#[trigger] template_matches(ts[j], src),
            None => forall|j: int| 0 <= j < ts.len() ==> !#[trigger] template_matches(ts[j], src),
        },
{
    lemma_first_match_from_props(ts, src, 0);
}

/// A stream with a compatible request-cardinality template is never
/// dropped: when some template matches, selection finds one.
pub proof fn lemma_compatible_stream_links(ts: Seq<PadTemplate>, src: Seq<u64>, j: int)
    requires
        0 <= j < ts.len(),
        template_matches(ts[j], src),
    ensures
        first_match(ts, src) is Some,
{
    lemma_first_match_props(ts, src);
}

/// The outcome of negotiating one newly exposed source pad.
#[derive(Clone, Copy, Debug, PartialEq, Eq, Structural)]
pub enum LinkDecision {
    /// The pad carries no negotiated capability yet: skip, non-fatal.
    NoCaps,
    /// No template matches: the stream is dropped from the output, non-fatal.
    NoMatch,
    /// Link through the template at this index.
    Link { template_index: usize },
}

/// Chooses the mux input for a newly exposed source pad: the first
/// request-cardinality template, in declaration order, whose capability
/// intersects the pad's.
pub fn select_template(src_caps: &Option<Vec<u64>>, templates: &Vec<PadTemplate>) -> (r:
    LinkDecision)
    ensures
        match r {
            LinkDecision::NoCaps => src_caps is None,
            LinkDecision::NoMatch => src_caps matches Some(c) && first_match(templates@, c@)
                is None,
            LinkDecision::Link { template_index } => src_caps matches Some(c) && first_match(
                templates@,
                c@,
            ) == Some(template_index as int),
        },
{
    let c: &Vec<u64> = match src_caps {
        None => {
            return LinkDecision::NoCaps;
        },
        Some(c) => c,
    };
    let mut i: usize = 0;
    while i < templates.len()
        invariant
            i <= templates.len(),
            src_caps matches Some(cc) && cc@ == c@,
            first_match(templates@, c@) == first_match_from(templates@, c@, i as int),
        decreases templates.len() - i,
    {
        let t = &templates[i];
        let is_request: bool = match t.cardinality {
            Cardinality::Request => true,
            Cardinality::Fixed => false,
        };
        if is_request && can_intersect(&t.caps, c) {
            return LinkDecision::Link { template_index: i };
        }
        i += 1;
    }
    LinkDecision::NoMatch
}

/// What one invocation of the pad linker did.
#[derive(Clone, Copy, Debug, PartialEq, Eq, Structural)]
pub enum LinkReport {
    /// The stream was wired: template chosen, buffering node added, mux
    /// sink pad requested.
    Linked { template_index: usize, queue_node: usize, mux_pad: usize },
    /// The pad had no negotiated capability; logged and skipped.
    SkippedNoCaps,
    /// No template matched; a warning is recorded and the stream is
    /// dropped from the output.
    SkippedNoMatch,
    /// The graph is no longer `Playing`: no further linking is attempted.
    Ignored,
}

/// Handles one newly exposed source pad while the graph plays: selects a
/// template by capability intersection, requests a fresh mux sink pad from
/// it, adds a fresh buffering node synchronized to the graph's state, and
/// records the stream link. A pad without capability, or without a
/// matching template, is skipped without touching the graph; once the
/// graph has left `Playing` no linking is attempted at all.
pub fn handle_pad_added(
    g: &mut Graph,
    src_caps: &Option<Vec<u64>>,
    mux_templates: &Vec<PadTemplate>,
) -> (r: LinkReport)
    requires
        old(g).wf(),
    ensures
        final(g).wf(),
        final(g).state == old(g).state,
        final(g).static_links == old(g).static_links,
        !(old(g).state is Playing) ==> r is Ignored && final(g).nodes == old(g).nodes
            && final(g).streams == old(g).streams,
        old(g).state is Playing ==> match r {
            LinkReport::Ignored => false,
            LinkReport::SkippedNoCaps => src_caps is None && final(g).nodes == old(g).nodes
                && final(g).streams == old(g).streams,
            LinkReport::SkippedNoMatch => src_caps matches Some(c) && first_match(
                mux_templates@,
                c@,
            ) is None && final(g).nodes == old(g).nodes && final(g).streams == old(g).streams,
            LinkReport::Linked { template_index, queue_node, mux_pad } => {
                &&& src_caps matches Some(c) && first_match(mux_templates@, c@) == Some(
                    template_index as int,
                )
                &&& queue_node == old(g).nodes@.len()
                &&& mux_pad == old(g).streams@.len()
                &&& final(g).nodes@.len() == old(g).nodes@.len() + 1
                &&& forall|k: int|
                    0 <= k < old(g).nodes@.len() ==> final(g).nodes@[k] == old(g).nodes@[k]
                &&& final(g).nodes@.last().name@.len() == 0
                &&& final(g).nodes@.last().node_type@ == ty_queue()
                &&& final(g).nodes@.last().state == old(g).state
                &&& final(g).streams@ == old(g).streams@.push(
                    (StreamLink { template_index, queue_node, mux_pad }),
                )
            },
        },
{
    let playing: bool = match g.state {
        RunState::Playing => true,
        _ => false,
    };
    if !playing {
        return LinkReport::Ignored;
    }
    match select_template(src_caps, mux_templates) {
        LinkDecision::NoCaps => LinkReport::SkippedNoCaps,
        LinkDecision::NoMatch => LinkReport::SkippedNoMatch,
        LinkDecision::Link { template_index } => {
            let queue_node: usize = g.nodes.len();
            let mux_pad: usize = g.streams.len();
            let parent_state: RunState = g.state;
            let qtype: Vec<u8> = vec![113u8, 117u8, 101u8, 117u8, 101u8];
            g.nodes.push(GraphNode { name: Vec::new(), node_type: qtype, state: parent_state });
            g.streams.push(StreamLink { template_index, queue_node, mux_pad });
            LinkReport::Linked { template_index, queue_node, mux_pad }
        },
    }
}

/// A stream whose negotiated capability matches no mux template is
/// dropped without a link — the graph's streams are untouched — while the
/// run itself is unaffected: with an `EndOfStream` terminating the
/// message stream, the run still reaches `Eos`.
pub proof fn lemma_dropped_stream_still_reaches_eos(
    before: Graph,
    after: Graph,
    report: LinkReport,
    msgs: Seq<Message>,
    i: int,
)
    requires
        report is SkippedNoMatch,
        after.streams == before.streams,
        0 <= i < msgs.len(),
        msgs[i] is EndOfStream,
        forall|k: int| 0 <= k < i ==> msgs[k] is Other,
    ensures
        terminal_state(msgs) is Eos,
        after.streams@.len() == before.streams@.len(),
{
    lemma_eos_gives_success(msgs, i);
}

} // verus!

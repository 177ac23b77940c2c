//! The graph skeleton: a declarative descriptor naming node instances and
//! their static linkages, resolved against the engine's registry of node
//! types into a live graph model.
//!
//! The demux-to-mux segment is deliberately absent from the static
//! linkages: the demux's output pads are only known once the stream is
//! parsed, and are wired at run time (see the linker).

use vstd::prelude::*;
use crate::bytes::{views, bytes_eq, copy_bytes, contains_bytes};
use crate::runloop::RunState;

verus! {

/// One node instance named by a descriptor.
pub struct NodeSpec {
    /// Instance name, unique within the descriptor.
    pub name: Vec<u8>,
    /// Engine node type to resolve against the registry.
    pub node_type: Vec<u8>,
}

/// An immutable declarative template: node instances and the static
/// linkages between them (as index pairs, upstream to downstream).
pub struct GraphDescriptor {
    pub nodes: Vec<NodeSpec>,
    pub links: Vec<(usize, usize)>,
}

/// The instance names a descriptor declares, in order.
pub open spec fn descriptor_names(d: GraphDescriptor) -> Seq<Seq<u8>> {
    d.nodes@.map_values(|n: NodeSpec| n.name@)
}

/// The node types a descriptor references, in order.
pub open spec fn descriptor_types(d: GraphDescriptor) -> Seq<Seq<u8>> {
    d.nodes@.map_values(|n: NodeSpec| n.node_type@)
}

/// A descriptor is well formed when its instance names are unique and its
/// static linkages stay within its nodes.
pub open spec fn wf_descriptor(d: GraphDescriptor) -> bool {
    &&& forall|i: int, j: int|
        #![trigger d.nodes@[i], d.nodes@[j]]
        0 <= i < j < d.nodes@.len() ==> d.nodes@[i].name@ != d.nodes@[j].name@
    &&& forall|k: int|
        0 <= k < d.links@.len() ==> (#[trigger] d.links@[k]).0 < d.nodes@.len()
            && d.links@[k].1 < d.nodes@.len()
}

/// A live node: its name, its resolved type, and its current run state.
pub struct GraphNode {
    pub name: Vec<u8>,
    pub node_type: Vec<u8>,
    pub state: RunState,
}

/// One dynamically linked elementary stream: the mux pad template it was
/// matched with, the interposed buffering node, and the requested mux sink
/// pad instance.
pub struct StreamLink {
    pub template_index: usize,
    pub queue_node: usize,
    pub mux_pad: usize,
}

/// The live graph model: nodes and static linkages from the descriptor,
/// the streams linked so far, and the aggregate run state.
pub struct Graph {
    pub nodes: Vec<GraphNode>,
    pub static_links: Vec<(usize, usize)>,
    pub streams: Vec<StreamLink>,
    pub state: RunState,
}

/// The names of a graph's nodes, in order.
pub open spec fn node_names(g: Graph) -> Seq<Seq<u8>> {
    g.nodes@.map_values(|n: GraphNode| n.name@)
}

/// The types of a graph's nodes, in order.
pub open spec fn node_types(g: Graph) -> Seq<Seq<u8>> {
    g.nodes@.map_values(|n: GraphNode| n.node_type@)
}

impl Graph {
    /// Well-formedness: named nodes have unique names (dynamically added
    /// buffering nodes are anonymous, the engine numbers them itself);
    /// linkages stay within the nodes; every linked stream runs through
    /// its own buffering node and holds its own mux sink pad instance
    /// (pads are numbered in request order, so no two streams share one).
    pub open spec fn wf(self) -> bool {
        &&& forall|i: int, j: int|
            #![trigger self.nodes@[i], self.nodes@[j]]
            0 <= i < j < self.nodes@.len() && self.nodes@[i].name@.len() != 0
                && self.nodes@[j].name@.len() != 0 ==> self.nodes@[i].name@
                != self.nodes@[j].name@
        &&& forall|k: int|
            0 <= k < self.static_links@.len() ==> (#[trigger] self.static_links@[k]).0
                < self.nodes@.len() && self.static_links@[k].1 < self.nodes@.len()
        &&& forall|k: int|
            0 <= k < self.streams@.len() ==> (#[trigger] self.streams@[k]).queue_node
                < self.nodes@.len() && self.streams@[k].mux_pad == k
        &&& forall|i: int, j: int|
            #![trigger self.streams@[i].queue_node, self.streams@[j].queue_node]
            0 <= i < j < self.streams@.len() ==> self.streams@[i].queue_node
                != self.streams@[j].queue_node
    }
}

/// `src` — the file reader's instance name.
pub open spec fn nm_src() -> Seq<u8> {
    seq![115u8, 114u8, 99u8]
}

/// `queueafterfilesrc` — the buffering stage after the reader.
pub open spec fn nm_queue_after_src() -> Seq<u8> {
    seq![
        113u8, 117u8, 101u8, 117u8, 101u8, 97u8, 102u8, 116u8, 101u8, 114u8, 102u8, 105u8, 108u8,
        101u8, 115u8, 114u8, 99u8,
    ]
}

/// `parse` — the parse/demux stage's instance name.
pub open spec fn nm_parse() -> Seq<u8> {
    seq![112u8, 97u8, 114u8, 115u8, 101u8]
}

/// `mux` — the container writer's instance name.
pub open spec fn nm_mux() -> Seq<u8> {
    seq![109u8, 117u8, 120u8]
}

/// `queuebeforefilesink` — the buffering stage before the file writer.
pub open spec fn nm_queue_before_sink() -> Seq<u8> {
    seq![
        113u8, 117u8, 101u8, 117u8, 101u8, 98u8, 101u8, 102u8, 111u8, 114u8, 101u8, 102u8, 105u8,
        108u8, 101u8, 115u8, 105u8, 110u8, 107u8,
    ]
}

/// `sink` — the file writer's instance name.
pub open spec fn nm_sink() -> Seq<u8> {
    seq![115u8, 105u8, 110u8, 107u8]
}

/// `filesrc` — the file-reader node type.
pub open spec fn ty_filesrc() -> Seq<u8> {
    seq![102u8, 105u8, 108u8, 101u8, 115u8, 114u8, 99u8]
}

/// `queue` — the buffering node type.
pub open spec fn ty_queue() -> Seq<u8> {
    seq![113u8, 117u8, 101u8, 117u8, 101u8]
}

/// `parsebin` — the parse/demux node type.
pub open spec fn ty_parsebin() -> Seq<u8> {
    seq![112u8, 97u8, 114u8, 115u8, 101u8, 98u8, 105u8, 110u8]
}

/// `matroskamux` — the Matroska container-writer node type.
pub open spec fn ty_matroskamux() -> Seq<u8> {
    seq![109u8, 97u8, 116u8, 114u8, 111u8, 115u8, 107u8, 97u8, 109u8, 117u8, 120u8]
}

/// `filesink` — the file-writer node type.
pub open spec fn ty_filesink() -> Seq<u8> {
    seq![102u8, 105u8, 108u8, 101u8, 115u8, 105u8, 110u8, 107u8]
}

/// The instance names of the fixed topology, in order: reader, buffering,
/// parse/demux, mux, buffering, writer.
pub open spec fn standard_names() -> Seq<Seq<u8>> {
    seq![
        nm_src(),
        nm_queue_after_src(),
        nm_parse(),
        nm_mux(),
        nm_queue_before_sink(),
        nm_sink(),
    ]
}

/// The node types of the fixed topology, in order.
pub open spec fn standard_types() -> Seq<Seq<u8>> {
    seq![
        ty_filesrc(),
        ty_queue(),
        ty_parsebin(),
        ty_matroskamux(),
        ty_queue(),
        ty_filesink(),
    ]
}

/// The static linkages of the fixed topology: reader into buffering into
/// parse/demux; mux into buffering into writer. The demux-to-mux segment
/// is deliberately left open.
pub open spec fn standard_links() -> Seq<(usize, usize)> {
    seq![(0usize, 1usize), (1usize, 2usize), (3usize, 4usize), (4usize, 5usize)]
}

/// The fixed remux topology as a descriptor.
pub fn standard_descriptor() -> (d: GraphDescriptor)
    ensures
        wf_descriptor(d),
        descriptor_names(d) == standard_names(),
        descriptor_types(d) == standard_types(),
        d.links@ == standard_links(),
{
    let nodes: Vec<NodeSpec> = vec![
        NodeSpec { name: vec![115u8, 114u8, 99u8], node_type: vec![
            102u8, 105u8, 108u8, 101u8, 115u8, 114u8, 99u8,
        ] },
        NodeSpec {
            name: vec![
                113u8, 117u8, 101u8, 117u8, 101u8, 97u8, 102u8, 116u8, 101u8, 114u8, 102u8, 105u8,
                108u8, 101u8, 115u8, 114u8, 99u8,
            ],
            node_type: vec![113u8, 117u8, 101u8, 117u8, 101u8],
        },
        NodeSpec { name: vec![112u8, 97u8, 114u8, 115u8, 101u8], node_type: vec![
            112u8, 97u8, 114u8, 115u8, 101u8, 98u8, 105u8, 110u8,
        ] },
        NodeSpec { name: vec![109u8, 117u8, 120u8], node_type: vec![
            109u8, 97u8, 116u8, 114u8, 111u8, 115u8, 107u8, 97u8, 109u8, 117u8, 120u8,
        ] },
        NodeSpec {
            name: vec![
                113u8, 117u8, 101u8, 117u8, 101u8, 98u8, 101u8, 102u8, 111u8, 114u8, 101u8, 102u8,
                105u8, 108u8, 101u8, 115u8, 105u8, 110u8, 107u8,
            ],
            node_type: vec![113u8, 117u8, 101u8, 117u8, 101u8],
        },
        NodeSpec { name: vec![115u8, 105u8, 110u8, 107u8], node_type: vec![
            102u8, 105u8, 108u8, 101u8, 115u8, 105u8, 110u8, 107u8,
        ] },
    ];
    let links: Vec<(usize, usize)> = vec![(0, 1), (1, 2), (3, 4), (4, 5)];
    let d = GraphDescriptor { nodes, links };
    proof {
        assert(descriptor_names(d) =~~= standard_names());
        assert(descriptor_types(d) =~~= standard_types());
        assert(d.links@ =~= standard_links());
        assert(wf_descriptor(d)) by {
            assert forall|i: int, j: int| 0 <= i < j < d.nodes@.len() implies d.nodes@[i].name@
                != d.nodes@[j].name@ by {
                assert(descriptor_names(d)[i] == d.nodes@[i].name@);
                assert(descriptor_names(d)[j] == d.nodes@[j].name@);
                assert(nm_src()[0] == 115u8 && nm_mux()[0] == 109u8);
                assert(nm_src().len() == 3 && nm_queue_after_src().len() == 17 && nm_parse().len()
                    == 5 && nm_mux().len() == 3 && nm_queue_before_sink().len() == 19
                    && nm_sink().len() == 4);
            }
        }
    }
    d
}

/// Construction fails with the exact list of unavailable node types.
pub struct ConfigError {
    /// The referenced types absent from the registry, in first-encountered
    /// order, each exactly once.
    pub missing: Vec<Vec<u8>>,
}

/// The types of `req` absent from `reg`, in first-encountered order,
/// de-duplicated.
pub open spec fn missing_spec(req: Seq<Seq<u8>>, reg: Seq<Seq<u8>>) -> Seq<Seq<u8>>
    decreases req.len(),
{
    if req.len() == 0 {
        Seq::empty()
    } else {
        let pre = missing_spec(req.drop_last(), reg);
        if reg.contains(req.last()) || pre.contains(req.last()) {
            pre
        } else {
            pre.push(req.last())
        }
    }
}

/// The missing list holds exactly the required names absent from the
/// registry, each exactly once.
pub proof fn lemma_missing_exact(req: Seq<Seq<u8>>, reg: Seq<Seq<u8>>)
    ensures
        forall|x: Seq<u8>|
            #[trigger] missing_spec(req, reg).contains(x) <==> req.contains(x) && !reg.contains(x),
        forall|i: int, j: int|
            #![trigger missing_spec(req, reg)[i], missing_spec(req, reg)[j]]
            0 <= i < j < missing_spec(req, reg).len() ==> missing_spec(req, reg)[i]
                != missing_spec(req, reg)[j],
    decreases req.len(),
{
    if req.len() == 0 {
        assert forall|x: Seq<u8>|
            #[trigger] missing_spec(req, reg).contains(x) <==> req.contains(x) && !reg.contains(x)
        by {
            if req.contains(x) {
                let k = choose|k: int| 0 <= k < req.len() && req[k] == x;
            }
        }
    } else {
        lemma_missing_exact(req.drop_last(), reg);
        let pre = missing_spec(req.drop_last(), reg);
        assert forall|x: Seq<u8>|
            #[trigger] missing_spec(req, reg).contains(x) <==> req.contains(x) && !reg.contains(x)
        by {
            if missing_spec(req, reg).contains(x) {
                if pre.contains(x) {
                    assert(req.drop_last().contains(x));
                    let k = choose|k: int| 0 <= k < req.drop_last().len() && req.drop_last()[k] == x;
                    assert(req[k] == x);
                } else {
                    assert(x == req.last());
                    assert(req[req.len() - 1] == x);
                }
            }
            if req.contains(x) && !reg.contains(x) {
                let k = choose|k: int| 0 <= k < req.len() && req[k] == x;
                if k < req.len() - 1 {
                    assert(req.drop_last()[k] == x);
                    assert(pre.contains(x));
                    if !(reg.contains(req.last()) || pre.contains(req.last())) {
                        let m = choose|m: int| 0 <= m < pre.len() && pre[m] == x;
                        assert(missing_spec(req, reg)[m] == x);
                    }
                } else {
                    if pre.contains(x) {
                    } else {
                        assert(missing_spec(req, reg)[pre.len() as int] == x);
                    }
                }
            }
        }
    }
}

/// The referenced types of `required` that the registry lacks, in
/// first-encountered order, each exactly once.
pub fn missing_types(required: &Vec<Vec<u8>>, registry: &Vec<Vec<u8>>) -> (r: Vec<Vec<u8>>)
    ensures
        views(r@) == missing_spec(views(required@), views(registry@)),
{
    let mut r: Vec<Vec<u8>> = Vec::new();
    let mut i: usize = 0;
    proof {
        assert(views(required@).take(0) =~= Seq::<Seq<u8>>::empty());
    }
    while i < required.len()
        invariant
            i <= required.len(),
            views(r@) == missing_spec(views(required@).take(i as int), views(registry@)),
        decreases required.len() - i,
    {
        let ghost pre_req: Seq<Seq<u8>> = views(required@).take(i as int);
        let absent: bool = !contains_bytes(registry, &required[i]);
        let fresh: bool = !contains_bytes(&r, &required[i]);
        proof {
            assert(views(required@).take(i + 1).drop_last() =~= pre_req);
            assert(views(required@).take(i + 1).last() == required@[i as int]@);
        }
        if absent && fresh {
            let c: Vec<u8> = copy_bytes(&required[i]);
            r.push(c);
            proof {
                assert(views(r@) =~= missing_spec(pre_req, views(registry@)).push(
                    required@[i as int]@,
                ));
            }
        }
        i += 1;
    }
    proof {
        assert(views(required@).take(required@.len() as int) =~= views(required@));
    }
    r
}

/// The first index at or after `i` bearing the name `x`, if any.
pub open spec fn index_of_name_from(names: Seq<Seq<u8>>, x: Seq<u8>, i: int) -> Option<int>
    decreases names.len() - i,
{
    if i < 0 || i >= names.len() {
        None
    } else if names[i] == x {
        Some(i)
    } else {
        index_of_name_from(names, x, i + 1)
    }
}

/// Looks a node up by name: the first node bearing it, if any.
pub fn find_by_name(g: &Graph, name: &Vec<u8>) -> (r: Option<usize>)
    ensures
        match r {
            Some(k) => index_of_name_from(node_names(*g), name@, 0) == Some(k as int) && k
                < g.nodes@.len() && node_names(*g)[k as int] == name@,
            None => index_of_name_from(node_names(*g), name@, 0) is None,
        },
{
    let mut i: usize = 0;
    while i < g.nodes.len()
        invariant
            i <= g.nodes@.len(),
            index_of_name_from(node_names(*g), name@, 0) == index_of_name_from(
                node_names(*g),
                name@,
                i as int,
            ),
        decreases g.nodes@.len() - i,
    {
        if bytes_eq(&g.nodes[i].name, name) {
            proof {
                assert(node_names(*g)[i as int] == name@);
            }
            return Some(i);
        }
        proof {
            assert(node_names(*g)[i as int] == g.nodes@[i as int].name@);
        }
        i += 1;
    }
    None
}

/// Resolves every type the descriptor references against the registry and
/// constructs the graph skeleton with its static linkages connected, every
/// node idle. When one or more types are unavailable nothing is
/// constructed: the error carries exactly the missing type names, in
/// first-encountered order, each once.
pub fn build(descriptor: &GraphDescriptor, registry: &Vec<Vec<u8>>) -> (r: Result<
    Graph,
    ConfigError,
>)
    requires
        wf_descriptor(*descriptor),
    ensures
        match r {
            Ok(g) => {
                &&& missing_spec(descriptor_types(*descriptor), views(registry@)).len() == 0
                &&& g.wf()
                &&& node_names(g) == descriptor_names(*descriptor)
                &&& node_types(g) == descriptor_types(*descriptor)
                &&& g.static_links@ == descriptor.links@
                &&& g.streams@.len() == 0
                &&& g.state is Null
                &&& forall|k: int| 0 <= k < g.nodes@.len() ==> (#[trigger] g.nodes@[k]).state is Null
            },
            Err(e) => {
                &&& views(e.missing@) == missing_spec(
                    descriptor_types(*descriptor),
                    views(registry@),
                )
                &&& views(e.missing@).len() > 0
            },
        },
{
    // Gather the referenced types.
    let mut req: Vec<Vec<u8>> = Vec::new();
    let mut i: usize = 0;
    while i < descriptor.nodes.len()
        invariant
            i <= descriptor.nodes.len(),
            req@.len() == i as int,
            forall|k: int| 0 <= k < i ==> (#[trigger] req@[k])@ == descriptor.nodes@[k].node_type@,
        decreases descriptor.nodes.len() - i,
    {
        let c: Vec<u8> = copy_bytes(&descriptor.nodes[i].node_type);
        req.push(c);
        i += 1;
    }
    proof {
        assert(views(req@) =~= descriptor_types(*descriptor));
    }
    let missing: Vec<Vec<u8>> = missing_types(&req, registry);
    if missing.len() > 0 {
        return Err(ConfigError { missing });
    }

    // Every type resolved: instantiate the skeleton.
    let mut nodes: Vec<GraphNode> = Vec::new();
    let mut j: usize = 0;
    while j < descriptor.nodes.len()
        invariant
            j <= descriptor.nodes.len(),
            nodes@.len() == j as int,
            forall|k: int|
                0 <= k < j ==> (#[trigger] nodes@[k]).name@ == descriptor.nodes@[k].name@
                    && nodes@[k].node_type@ == descriptor.nodes@[k].node_type@
                    && nodes@[k].state is Null,
        decreases descriptor.nodes.len() - j,
    {
        let name: Vec<u8> = copy_bytes(&descriptor.nodes[j].name);
        let node_type: Vec<u8> = copy_bytes(&descriptor.nodes[j].node_type);
        nodes.push(GraphNode { name, node_type, state: RunState::Null });
        j += 1;
    }
    let mut links: Vec<(usize, usize)> = Vec::new();
    let mut k: usize = 0;
    while k < descriptor.links.len()
        invariant
            k <= descriptor.links.len(),
            links@ =~= descriptor.links@.take(k as int),
        decreases descriptor.links.len() - k,
    {
        links.push(descriptor.links[k]);
        proof {
            assert(links@ =~= descriptor.links@.take(k + 1));
        }
        k += 1;
    }
    proof {
        assert(descriptor.links@.take(descriptor.links@.len() as int) =~= descriptor.links@);
    }
    let g = Graph { nodes, static_links: links, streams: Vec::new(), state: RunState::Null };
    proof {
        assert(node_names(g) =~= descriptor_names(*descriptor));
        assert(node_types(g) =~= descriptor_types(*descriptor));
    }
    Ok(g)
}

} // verus!

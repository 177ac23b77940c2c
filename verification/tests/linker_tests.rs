use remux_tag::caps::can_intersect;
use remux_tag::graph::{build, standard_descriptor};
use remux_tag::linker::{
    handle_pad_added, select_template, Cardinality, LinkDecision, LinkReport, PadTemplate,
};
use remux_tag::runloop::RunState;

fn full_registry() -> Vec<Vec<u8>> {
    vec![
        b"filesrc".to_vec(),
        b"queue".to_vec(),
        b"parsebin".to_vec(),
        b"matroskamux".to_vec(),
        b"filesink".to_vec(),
    ]
}

#[test]
fn caps_share_a_format() {
    assert!(can_intersect(&vec![1, 2, 3], &vec![3, 9]));
    assert!(!can_intersect(&vec![1, 2], &vec![3, 4]));
    assert!(!can_intersect(&Vec::new(), &vec![1]));
    assert!(!can_intersect(&vec![1], &Vec::new()));
}

#[test]
fn select_skips_fixed_templates() {
    let templates = vec![
        PadTemplate { caps: vec![7], cardinality: Cardinality::Fixed },
        PadTemplate { caps: vec![7], cardinality: Cardinality::Request },
    ];
    let r = select_template(&Some(vec![7]), &templates);
    assert_eq!(r, LinkDecision::Link { template_index: 1 });
}

#[test]
fn select_takes_first_match_in_declaration_order() {
    let templates = vec![
        PadTemplate { caps: vec![1], cardinality: Cardinality::Request },
        PadTemplate { caps: vec![5, 1], cardinality: Cardinality::Request },
    ];
    let r = select_template(&Some(vec![1]), &templates);
    assert_eq!(r, LinkDecision::Link { template_index: 0 });
}

#[test]
fn select_without_caps_skips() {
    let templates = vec![PadTemplate { caps: vec![1], cardinality: Cardinality::Request }];
    assert_eq!(select_template(&None, &templates), LinkDecision::NoCaps);
}

#[test]
fn select_without_match_drops_stream() {
    let templates = vec![
        PadTemplate { caps: vec![1], cardinality: Cardinality::Request },
        PadTemplate { caps: vec![2], cardinality: Cardinality::Fixed },
    ];
    assert_eq!(select_template(&Some(vec![2, 3]), &templates), LinkDecision::NoMatch);
}

#[test]
fn linked_stream_gets_queue_and_pad() {
    let d = standard_descriptor();
    let mut g = build(&d, &full_registry()).unwrap_or_else(|_| panic!("expected a graph"));
    g.state = RunState::Playing;
    let templates = vec![
        PadTemplate { caps: vec![10], cardinality: Cardinality::Request },
        PadTemplate { caps: vec![20], cardinality: Cardinality::Request },
    ];
    let r = handle_pad_added(&mut g, &Some(vec![20, 30]), &templates);
    assert_eq!(r, LinkReport::Linked { template_index: 1, queue_node: 6, mux_pad: 0 });
    assert_eq!(g.nodes.len(), 7);
    assert_eq!(g.nodes[6].node_type, b"queue".to_vec());
    assert_eq!(g.nodes[6].state, RunState::Playing);
    assert_eq!(g.streams.len(), 1);
    assert_eq!(g.streams[0].template_index, 1);
    assert_eq!(g.streams[0].queue_node, 6);
    assert_eq!(g.streams[0].mux_pad, 0);
}

#[test]
fn each_stream_gets_its_own_pad_and_queue() {
    let d = standard_descriptor();
    let mut g = build(&d, &full_registry()).unwrap_or_else(|_| panic!("expected a graph"));
    g.state = RunState::Playing;
    let templates = vec![PadTemplate { caps: vec![1, 2], cardinality: Cardinality::Request }];
    let r1 = handle_pad_added(&mut g, &Some(vec![1]), &templates);
    let r2 = handle_pad_added(&mut g, &Some(vec![2]), &templates);
    assert_eq!(r1, LinkReport::Linked { template_index: 0, queue_node: 6, mux_pad: 0 });
    assert_eq!(r2, LinkReport::Linked { template_index: 0, queue_node: 7, mux_pad: 1 });
    assert_ne!(g.streams[0].queue_node, g.streams[1].queue_node);
    assert_ne!(g.streams[0].mux_pad, g.streams[1].mux_pad);
}

#[test]
fn unmatched_stream_leaves_graph_untouched() {
    let d = standard_descriptor();
    let mut g = build(&d, &full_registry()).unwrap_or_else(|_| panic!("expected a graph"));
    g.state = RunState::Playing;
    let templates = vec![PadTemplate { caps: vec![1], cardinality: Cardinality::Request }];
    let r = handle_pad_added(&mut g, &Some(vec![9]), &templates);
    assert_eq!(r, LinkReport::SkippedNoMatch);
    assert_eq!(g.nodes.len(), 6);
    assert_eq!(g.streams.len(), 0);
}

#[test]
fn pad_without_caps_is_skipped() {
    let d = standard_descriptor();
    let mut g = build(&d, &full_registry()).unwrap_or_else(|_| panic!("expected a graph"));
    g.state = RunState::Playing;
    let templates = vec![PadTemplate { caps: vec![1], cardinality: Cardinality::Request }];
    let r = handle_pad_added(&mut g, &None, &templates);
    assert_eq!(r, LinkReport::SkippedNoCaps);
    assert_eq!(g.nodes.len(), 6);
    assert_eq!(g.streams.len(), 0);
}

#[test]
fn no_linking_outside_playing() {
    let d = standard_descriptor();
    let mut g = build(&d, &full_registry()).unwrap_or_else(|_| panic!("expected a graph"));
    let templates = vec![PadTemplate { caps: vec![1], cardinality: Cardinality::Request }];
    let r = handle_pad_added(&mut g, &Some(vec![1]), &templates);
    assert_eq!(r, LinkReport::Ignored);
    assert_eq!(g.streams.len(), 0);
    g.state = RunState::Failed;
    let r2 = handle_pad_added(&mut g, &Some(vec![1]), &templates);
    assert_eq!(r2, LinkReport::Ignored);
    assert_eq!(g.streams.len(), 0);
}

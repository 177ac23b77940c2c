use remux_tag::graph::find_by_name;
use remux_tag::orchestrate::{prepare_run, PlanError};
use remux_tag::path_resolve::PathError;
use remux_tag::runloop::{play_pipeline_to_eos, Message, RunState};

fn full_registry() -> Vec<Vec<u8>> {
    vec![
        b"filesrc".to_vec(),
        b"queue".to_vec(),
        b"parsebin".to_vec(),
        b"matroskamux".to_vec(),
        b"filesink".to_vec(),
    ]
}

#[test]
fn prepare_binds_paths_and_tag() {
    let plan = match prepare_run(&b"m/in.mp4".to_vec(), &b"hello".to_vec(), &full_registry()) {
        Ok(p) => p,
        Err(_) => panic!("expected a plan"),
    };
    assert_eq!(plan.input_path, b"m/in.mp4".to_vec());
    assert_eq!(plan.output_path, b"m/in.with_data.mkv".to_vec());
    assert_eq!(plan.graph.nodes.len(), 6);
    assert_eq!(plan.graph.state, RunState::Null);
    assert_eq!(plan.tags.get_value(&b"comment".to_vec()), Some(b"hello".to_vec()));
    assert_eq!(find_by_name(&plan.graph, &b"mux".to_vec()), Some(3));
}

#[test]
fn path_failure_precedes_graph_construction() {
    // An empty registry would also fail, but the path is checked first.
    let r = prepare_run(&b"".to_vec(), &b"tag".to_vec(), &Vec::new());
    match r {
        Err(PlanError::Path(e)) => assert_eq!(e, PathError::NoParent),
        _ => panic!("expected a path error"),
    }
}

#[test]
fn missing_registry_types_fail_preparation() {
    let r = prepare_run(&b"m/in.mp4".to_vec(), &b"tag".to_vec(), &vec![b"queue".to_vec()]);
    match r {
        Err(PlanError::Config(c)) => assert_eq!(
            c.missing,
            vec![
                b"filesrc".to_vec(),
                b"parsebin".to_vec(),
                b"matroskamux".to_vec(),
                b"filesink".to_vec(),
            ]
        ),
        _ => panic!("expected a config error"),
    }
}

#[test]
fn two_runs_same_input_same_tag_payload() {
    let a = match prepare_run(&b"m/in.mp4".to_vec(), &b"same data".to_vec(), &full_registry()) {
        Ok(p) => p,
        Err(_) => panic!("expected a plan"),
    };
    let b = match prepare_run(&b"m/in.mp4".to_vec(), &b"same data".to_vec(), &full_registry()) {
        Ok(p) => p,
        Err(_) => panic!("expected a plan"),
    };
    assert_eq!(
        a.tags.get_value(&b"comment".to_vec()),
        b.tags.get_value(&b"comment".to_vec()),
    );
    assert_eq!(a.output_path, b.output_path);
}

#[test]
fn prepared_plan_plays_to_eos() {
    let mut plan = match prepare_run(&b"m/in.mp4".to_vec(), &b"t".to_vec(), &full_registry()) {
        Ok(p) => p,
        Err(_) => panic!("expected a plan"),
    };
    let msgs = vec![Message::Other, Message::EndOfStream];
    let r = play_pipeline_to_eos(&mut plan.graph, &msgs);
    assert!(r.is_ok());
    assert_eq!(plan.graph.state, RunState::Null);
}

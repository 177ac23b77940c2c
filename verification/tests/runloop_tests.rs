use remux_tag::graph::{build, standard_descriptor};
use remux_tag::runloop::{play_pipeline_to_eos, step_run, Message, RunState};

fn full_registry() -> Vec<Vec<u8>> {
    vec![
        b"filesrc".to_vec(),
        b"queue".to_vec(),
        b"parsebin".to_vec(),
        b"matroskamux".to_vec(),
        b"filesink".to_vec(),
    ]
}

#[test]
fn run_reaches_eos_and_tears_down() {
    let d = standard_descriptor();
    let mut g = build(&d, &full_registry()).unwrap_or_else(|_| panic!("expected a graph"));
    let msgs = vec![Message::Other, Message::Other, Message::EndOfStream];
    let r = play_pipeline_to_eos(&mut g, &msgs);
    assert!(r.is_ok());
    assert_eq!(g.state, RunState::Null);
}

#[test]
fn error_fails_the_run_and_still_tears_down() {
    let d = standard_descriptor();
    let mut g = build(&d, &full_registry()).unwrap_or_else(|_| panic!("expected a graph"));
    let msgs = vec![
        Message::Other,
        Message::Error { source_path: b"/pipeline/src".to_vec(), error: b"read failure".to_vec() },
        Message::EndOfStream,
    ];
    let r = play_pipeline_to_eos(&mut g, &msgs);
    let e = match r {
        Err(e) => e,
        Ok(()) => panic!("expected a failure"),
    };
    assert_eq!(e.source_path, b"/pipeline/src".to_vec());
    assert_eq!(e.error, b"read failure".to_vec());
    assert_eq!(g.state, RunState::Null);
}

#[test]
fn error_stops_consumption_before_later_eos() {
    let d = standard_descriptor();
    let mut g = build(&d, &full_registry()).unwrap_or_else(|_| panic!("expected a graph"));
    let msgs = vec![
        Message::Error { source_path: b"/pipeline/mux".to_vec(), error: b"boom".to_vec() },
        Message::EndOfStream,
    ];
    let r = play_pipeline_to_eos(&mut g, &msgs);
    assert!(r.is_err());
    assert_eq!(g.state, RunState::Null);
}

#[test]
fn exhausted_stream_still_tears_down() {
    let d = standard_descriptor();
    let mut g = build(&d, &full_registry()).unwrap_or_else(|_| panic!("expected a graph"));
    let msgs: Vec<Message> = Vec::new();
    let r = play_pipeline_to_eos(&mut g, &msgs);
    assert!(r.is_ok());
    assert_eq!(g.state, RunState::Null);
}

#[test]
fn step_transitions_while_playing() {
    assert_eq!(step_run(RunState::Playing, &Message::Other), RunState::Playing);
    assert_eq!(step_run(RunState::Playing, &Message::EndOfStream), RunState::Eos);
    assert_eq!(
        step_run(
            RunState::Playing,
            &Message::Error { source_path: b"p".to_vec(), error: b"e".to_vec() },
        ),
        RunState::Failed,
    );
}

#[test]
fn terminal_states_absorb_messages() {
    assert_eq!(step_run(RunState::Eos, &Message::Other), RunState::Eos);
    assert_eq!(step_run(RunState::Failed, &Message::EndOfStream), RunState::Failed);
    assert_eq!(step_run(RunState::Null, &Message::Other), RunState::Null);
}

use journal::Action;
use journal::Answer;
use journal::Exit;
use journal::Fetched;
use journal::Journal;
use journal::LoopInput;
use journal::LoopState;
use journal::TermState;
use journal::TraceStep;

fn session() -> Journal {
    let mut term = TermState::start();
    Journal::new(&mut term, true, true, true).unwrap()
}

#[test]
fn closed_source_returns_after_first_render() {
    let mut j = session();
    let report = j.run(&vec![Answer::Closed], &vec![]);
    assert_eq!(report.trace, vec![TraceStep::Render]);
    assert_eq!(report.exit, Exit::EndOfStream);
    assert_eq!(report.frames, 1);
    assert_eq!(j.frames, 1);
}

#[test]
fn queued_batch_is_drained_in_order_before_next_render() {
    let mut j = session();
    let source = vec![
        Answer::Event { id: 1, update_ok: true },
        Answer::Event { id: 2, update_ok: true },
        Answer::Event { id: 3, update_ok: true },
        Answer::Empty,
        Answer::Closed,
    ];
    let report = j.run(&source, &vec![]);
    assert_eq!(
        report.trace,
        vec![
            TraceStep::Render,
            TraceStep::Update(1),
            TraceStep::Update(2),
            TraceStep::Update(3),
            TraceStep::Render,
        ]
    );
    assert_eq!(report.exit, Exit::EndOfStream);
    assert_eq!(report.frames, 2);
}

#[test]
fn update_error_stops_batch_and_ends_run() {
    let mut j = session();
    let source = vec![
        Answer::Event { id: 1, update_ok: true },
        Answer::Event { id: 2, update_ok: false },
        Answer::Event { id: 3, update_ok: true },
        Answer::Empty,
        Answer::Closed,
    ];
    let report = j.run(&source, &vec![]);
    assert_eq!(
        report.trace,
        vec![TraceStep::Render, TraceStep::Update(1), TraceStep::Update(2)]
    );
    assert_eq!(report.exit, Exit::UpdateFailed);
    assert_eq!(report.frames, 1);
}

#[test]
fn render_failure_ends_run_before_any_event() {
    let mut j = session();
    let report = j.run(&vec![Answer::Closed], &vec![false]);
    assert_eq!(report.trace, vec![]);
    assert_eq!(report.exit, Exit::RenderFailed);
    assert_eq!(report.frames, 0);
    assert_eq!(j.frames, 0);
}

#[test]
fn second_render_failure_ends_run_after_batch() {
    let mut j = session();
    let source = vec![
        Answer::Event { id: 7, update_ok: true },
        Answer::Empty,
        Answer::Closed,
    ];
    let report = j.run(&source, &vec![true, false]);
    assert_eq!(report.trace, vec![TraceStep::Render, TraceStep::Update(7)]);
    assert_eq!(report.exit, Exit::RenderFailed);
    assert_eq!(report.frames, 1);
}

#[test]
fn stream_failure_is_propagated() {
    let mut j = session();
    let report = j.run(&vec![Answer::Failed], &vec![]);
    assert_eq!(report.trace, vec![TraceStep::Render]);
    assert_eq!(report.exit, Exit::StreamFailed);
}

#[test]
fn empty_poll_before_any_event_keeps_waiting() {
    let mut j = session();
    let source = vec![
        Answer::Empty,
        Answer::Event { id: 4, update_ok: true },
        Answer::Empty,
        Answer::Closed,
    ];
    let report = j.run(&source, &vec![]);
    assert_eq!(
        report.trace,
        vec![TraceStep::Render, TraceStep::Update(4), TraceStep::Render]
    );
    assert_eq!(report.exit, Exit::EndOfStream);
    assert_eq!(report.frames, 2);
}

#[test]
fn only_end_of_stream_counts_as_normal_termination() {
    assert!(Exit::EndOfStream.is_end_of_stream());
    assert!(!Exit::Starved.is_end_of_stream());
    assert!(!Exit::RenderFailed.is_end_of_stream());
    assert!(!Exit::StreamFailed.is_end_of_stream());
    assert!(!Exit::UpdateFailed.is_end_of_stream());
}

#[test]
fn exhausted_script_reports_starvation() {
    let mut j = session();
    let report = j.run(&vec![], &vec![]);
    assert_eq!(report.trace, vec![TraceStep::Render]);
    assert_eq!(report.exit, Exit::Starved);
}

#[test]
fn step_machine_walks_one_batch() {
    let st = LoopState::init();
    let (st, act) = st.step(LoopInput::Started);
    assert_eq!(act, Action::DoRender);
    let (st, act) = st.step(LoopInput::RenderDone(true));
    assert_eq!(act, Action::AwaitEvent);
    assert_eq!(st.frames, 1);
    let (st, act) = st.step(LoopInput::Got(Fetched::Ready));
    assert_eq!(act, Action::DoUpdate);
    let (st, act) = st.step(LoopInput::UpdateDone(true));
    assert_eq!(act, Action::PollEvent);
    let (st, act) = st.step(LoopInput::Got(Fetched::Empty));
    assert_eq!(act, Action::DoRender);
    let (st, act) = st.step(LoopInput::RenderDone(true));
    assert_eq!(act, Action::AwaitEvent);
    assert_eq!(st.frames, 2);
    let (_st, act) = st.step(LoopInput::Got(Fetched::Closed));
    assert_eq!(act, Action::Stop(Exit::EndOfStream));
}

#[test]
fn step_machine_stops_on_update_failure() {
    let st = LoopState::init();
    let (st, _) = st.step(LoopInput::Started);
    let (st, _) = st.step(LoopInput::RenderDone(true));
    let (st, _) = st.step(LoopInput::Got(Fetched::Ready));
    let (_st, act) = st.step(LoopInput::UpdateDone(false));
    assert_eq!(act, Action::Stop(Exit::UpdateFailed));
}

#[test]
fn step_machine_stops_on_render_failure() {
    let st = LoopState::init();
    let (st, _) = st.step(LoopInput::Started);
    let (_st, act) = st.step(LoopInput::RenderDone(false));
    assert_eq!(act, Action::Stop(Exit::RenderFailed));
}

//! The render-then-drain-events loop and its scheduling decisions.
//!
//! The loop alternates: paint one frame, then consume every input event
//! currently queued — blocking for the first event after a render, then
//! polling without blocking — and only when the queue is empty paint the
//! next frame.  It has no terminal state of its own: it ends by an error
//! of the rendering surface, of the event source, or of the update
//! callback, or because the event source closed.
//!
//! The input-event source is modelled as the sequence of answers it
//! gives, one [`Answer`] per question the loop asks; the update callback
//! is modelled by the outcome it reports for each event.  [`spec_run`]
//! is the mathematical model of a whole run: the trace of render and
//! update steps, and how the run ends.  [`Journal::run`] executes a run
//! against such a scripted source, and [`LoopState::step`] is the same
//! decision logic one input at a time, for a caller that drives a live
//! event source.

use vstd::prelude::*;

use crate::harness::Journal;

verus! {

/// One answer from the input-event source.
#[derive(Clone, Copy, PartialEq, Eq, Structural, Debug)]
pub enum Answer {
    /// An event was delivered; `update_ok` is the outcome the update
    /// callback reports for it.  The id carries no meaning to the loop:
    /// it only identifies the event in the trace.
    Event { id: u64, update_ok: bool },
    /// No event is immediately available.
    Empty,
    /// The source closed: it will never yield another event.
    Closed,
    /// The source failed.
    Failed,
}

/// One observable step of a run.
#[derive(Clone, Copy, PartialEq, Eq, Structural, Debug)]
pub enum TraceStep {
    /// One frame was painted.
    Render,
    /// The update callback was invoked on the event with this id.
    Update(u64),
}

/// How a run ended.
#[derive(Clone, Copy, PartialEq, Eq, Structural, Debug)]
pub enum Exit {
    /// The event source closed: the loop's normal termination.
    EndOfStream,
    /// The scripted source ran out of answers while the loop was still
    /// waiting: a live source would block here forever.
    Starved,
    /// Painting a frame failed.
    RenderFailed,
    /// The event source failed.
    StreamFailed,
    /// The update callback failed (or asked to stop).
    UpdateFailed,
}

impl Exit {
    /// Whether this exit is the loop's normal termination — the event
    /// source closed — rather than a failure.
    pub fn is_end_of_stream(&self) -> (r: bool)
        ensures
            r == (*self == Exit::EndOfStream),
    {
        matches!(self, Exit::EndOfStream)
    }
}

/// Whether painting the frame with this index succeeds; outcomes beyond
/// the scripted ones are successes.
pub open spec fn spec_render_ok(rr: Seq<bool>, frame: int) -> bool {
    if 0 <= frame < rr.len() {
        rr[frame]
    } else {
        true
    }
}

/// The id of an event answer (0 for the others).
pub open spec fn spec_event_id(a: Answer) -> u64 {
    match a {
        Answer::Event { id, .. } => id,
        _ => 0,
    }
}

/// An event answer whose update succeeds.
pub open spec fn is_ok_event(a: Answer) -> bool {
    match a {
        Answer::Event { update_ok, .. } => update_ok,
        _ => false,
    }
}

/// An event answer whose update fails.
pub open spec fn is_failing_event(a: Answer) -> bool {
    match a {
        Answer::Event { update_ok, .. } => !update_ok,
        _ => false,
    }
}

/// What a whole run does: its trace and how it ends.
pub struct RunModel {
    /// The render and update steps, in order.
    pub trace: Seq<TraceStep>,
    /// How the run ended.
    pub exit: Exit,
}

/// The model of a run from a mid-loop state.
///
/// `need_render` says a frame must be painted before the next question to
/// the source; `drained` says at least one event was consumed since the
/// last render (so an empty poll means: render again, not: keep
/// waiting); `frame` indexes the next render outcome in `rr`; `i`
/// indexes the next answer of the source `src`.
pub open spec fn spec_run(
    need_render: bool,
    drained: bool,
    frame: int,
    src: Seq<Answer>,
    i: int,
    rr: Seq<bool>,
) -> RunModel
    decreases src.len() - i, (if need_render { 1int } else { 0int }),
{
    if need_render {
        if spec_render_ok(rr, frame) {
            let rest = spec_run(false, false, frame + 1, src, i, rr);
            RunModel { trace: seq![TraceStep::Render] + rest.trace, exit: rest.exit }
        } else {
            RunModel { trace: seq![], exit: Exit::RenderFailed }
        }
    } else if i < 0 || i >= src.len() {
        RunModel { trace: seq![], exit: Exit::Starved }
    } else {
        match src[i] {
            Answer::Event { id, update_ok } => {
                if update_ok {
                    let rest = spec_run(false, true, frame, src, i + 1, rr);
                    RunModel { trace: seq![TraceStep::Update(id)] + rest.trace, exit: rest.exit }
                } else {
                    RunModel { trace: seq![TraceStep::Update(id)], exit: Exit::UpdateFailed }
                }
            },
            Answer::Empty => {
                if drained {
                    spec_run(true, false, frame, src, i + 1, rr)
                } else {
                    spec_run(false, false, frame, src, i + 1, rr)
                }
            },
            Answer::Closed => RunModel { trace: seq![], exit: Exit::EndOfStream },
            Answer::Failed => RunModel { trace: seq![], exit: Exit::StreamFailed },
        }
    }
}

/// How many frames a trace paints.
pub open spec fn spec_render_count(tr: Seq<TraceStep>) -> int
    decreases tr.len(),
{
    if tr.len() == 0 {
        0
    } else {
        spec_render_count(tr.drop_last()) + if tr.last() == TraceStep::Render {
            1int
        } else {
            0int
        }
    }
}

/// What one run did: the observable steps, how it ended, and how many
/// frames were painted.
#[derive(PartialEq, Eq, Debug)]
pub struct RunReport {
    /// The render and update steps, in order.
    pub trace: Vec<TraceStep>,
    /// How the run ended.
    pub exit: Exit,
    /// The frames painted: the render steps in `trace`.
    pub frames: u64,
}

fn run_events(source: &Vec<Answer>, render_results: &Vec<bool>) -> (r: RunReport)
    requires
        source@.len() < u64::MAX,
    ensures
        r.trace@ == spec_run(true, false, 0, source@, 0, render_results@).trace,
        r.exit == spec_run(true, false, 0, source@, 0, render_results@).exit,
        r.frames == spec_render_count(r.trace@),
        r.frames <= source@.len() + 1,
{
    let ghost m0 = spec_run(true, false, 0, source@, 0, render_results@);
    let mut trace: Vec<TraceStep> = Vec::new();
    let mut need_render: bool = true;
    let mut drained: bool = false;
    let mut renders: u64 = 0;
    let mut i: usize = 0;
    loop
        invariant
            source@.len() < u64::MAX,
            i <= source@.len(),
            renders <= i + 1,
            need_render ==> renders <= i,
            renders == spec_render_count(trace@),
            m0 == spec_run(true, false, 0, source@, 0, render_results@),
            m0.trace == trace@ + spec_run(
                need_render,
                drained,
                renders as int,
                source@,
                i as int,
                render_results@,
            ).trace,
            m0.exit == spec_run(
                need_render,
                drained,
                renders as int,
                source@,
                i as int,
                render_results@,
            ).exit,
        decreases source@.len() - i, (if need_render {
            1int
        } else {
            0int
        }),
    {
        if need_render {
            let ok: bool = if (renders as usize) < render_results.len() {
                render_results[renders as usize]
            } else {
                true
            };
            if ok {
                proof {
                    assert(trace@ + (seq![TraceStep::Render] + spec_run(
                        false,
                        false,
                        renders as int + 1,
                        source@,
                        i as int,
                        render_results@,
                    ).trace) =~= trace@.push(TraceStep::Render) + spec_run(
                        false,
                        false,
                        renders as int + 1,
                        source@,
                        i as int,
                        render_results@,
                    ).trace);
                    assert(trace@.push(TraceStep::Render).drop_last() =~= trace@);
                }
                trace.push(TraceStep::Render);
                renders = renders + 1;
                need_render = false;
                drained = false;
            } else {
                proof {
                    assert(m0.trace =~= trace@);
                }
                return RunReport { trace, exit: Exit::RenderFailed, frames: renders };
            }
        } else if i >= source.len() {
            proof {
                assert(m0.trace =~= trace@);
            }
            return RunReport { trace, exit: Exit::Starved, frames: renders };
        } else {
            let a: Answer = source[i];
            i = i + 1;
            match a {
                Answer::Event { id, update_ok } => {
                    proof {
                        assert(trace@ + (seq![TraceStep::Update(id)] + spec_run(
                            false,
                            true,
                            renders as int,
                            source@,
                            i as int,
                            render_results@,
                        ).trace) =~= trace@.push(TraceStep::Update(id)) + spec_run(
                            false,
                            true,
                            renders as int,
                            source@,
                            i as int,
                            render_results@,
                        ).trace);
                        assert(trace@ + seq![TraceStep::Update(id)] =~= trace@.push(
                            TraceStep::Update(id),
                        ));
                        assert(trace@.push(TraceStep::Update(id)).drop_last() =~= trace@);
                    }
                    trace.push(TraceStep::Update(id));
                    if !update_ok {
                        return RunReport { trace, exit: Exit::UpdateFailed, frames: renders };
                    }
                    drained = true;
                },
                Answer::Empty => {
                    if drained {
                        need_render = true;
                        drained = false;
                    }
                },
                Answer::Closed => {
                    proof {
                        assert(m0.trace =~= trace@);
                    }
                    return RunReport { trace, exit: Exit::EndOfStream, frames: renders };
                },
                Answer::Failed => {
                    proof {
                        assert(m0.trace =~= trace@);
                    }
                    return RunReport { trace, exit: Exit::StreamFailed, frames: renders };
                },
            }
        }
    }
}

impl Journal {
    /// Run the loop against a scripted event source.
    ///
    /// `source` is the sequence of answers the input-event source gives;
    /// `render_results` the outcome of each frame paint in turn (frames
    /// beyond its end succeed).  The report's trace and exit are exactly
    /// the model's, and the session's frame count grows by the frames
    /// painted.  An [`Exit::EndOfStream`] exit is the loop's normal
    /// termination; every other exit is the failure it names.
    pub fn run(&mut self, source: &Vec<Answer>, render_results: &Vec<bool>) -> (r: RunReport)
        requires
            old(self).frames + source@.len() + 1 <= u64::MAX,
        ensures
            r.trace@ == spec_run(true, false, 0, source@, 0, render_results@).trace,
            r.exit == spec_run(true, false, 0, source@, 0, render_results@).exit,
            r.frames == spec_render_count(r.trace@),
            final(self).frames == old(self).frames + r.frames,
    {
        let report = run_events(source, render_results);
        self.frames = self.frames + report.frames;
        report
    }
}

/// What the event source answered, as the driver of a live loop reports
/// it: like [`Answer`], but before the update callback has run, so an
/// event carries no outcome yet.
#[derive(Clone, Copy, PartialEq, Eq, Structural, Debug)]
pub enum Fetched {
    /// An event was delivered; the loop will ask for the update next.
    Ready,
    /// No event is immediately available.
    Empty,
    /// The source closed.
    Closed,
    /// The source failed.
    Failed,
}

/// What just happened, reported to the loop's decision function.
#[derive(Clone, Copy, PartialEq, Eq, Structural, Debug)]
pub enum LoopInput {
    /// The loop is starting.
    Started,
    /// A frame paint finished with this outcome.
    RenderDone(bool),
    /// The event source answered.
    Got(Fetched),
    /// The update callback finished with this outcome.
    UpdateDone(bool),
}

/// What the loop's driver must do next.
#[derive(Clone, Copy, PartialEq, Eq, Structural, Debug)]
pub enum Action {
    /// Paint one frame, then report [`LoopInput::RenderDone`].
    DoRender,
    /// Block for the next event, then report [`LoopInput::Got`].
    AwaitEvent,
    /// Ask for an event without blocking, then report [`LoopInput::Got`].
    PollEvent,
    /// Invoke the update callback on the event just delivered, then
    /// report [`LoopInput::UpdateDone`].
    DoUpdate,
    /// The run is over; this is how it ended.
    Stop(Exit),
}

/// The loop's state between two decisions.
#[derive(Clone, Copy, PartialEq, Eq, Structural, Debug)]
pub struct LoopState {
    /// A frame must be painted before the next question to the source.
    pub need_render: bool,
    /// At least one event was consumed since the last render.
    pub drained: bool,
    /// Frames painted so far.
    pub frames: u64,
}

/// The loop's decision function: from the state and what just happened
/// to the new state and what to do next.
///
/// It makes the same decisions [`spec_run`] describes: render first;
/// after a render, block for an event; after a handled event, poll
/// without blocking; on an empty poll after at least one event, render
/// again; stop on a failure of any step or when the source closes.
pub open spec fn spec_step(st: LoopState, inp: LoopInput) -> (LoopState, Action) {
    match inp {
        LoopInput::Started => (st, Action::DoRender),
        LoopInput::RenderDone(ok) => if ok {
            (
                LoopState { need_render: false, drained: false, frames: (st.frames + 1) as u64 },
                Action::AwaitEvent,
            )
        } else {
            (st, Action::Stop(Exit::RenderFailed))
        },
        LoopInput::Got(f) => match f {
            Fetched::Ready => (st, Action::DoUpdate),
            Fetched::Empty => if st.drained {
                (
                    LoopState { need_render: true, drained: false, frames: st.frames },
                    Action::DoRender,
                )
            } else {
                (st, Action::AwaitEvent)
            },
            Fetched::Closed => (st, Action::Stop(Exit::EndOfStream)),
            Fetched::Failed => (st, Action::Stop(Exit::StreamFailed)),
        },
        LoopInput::UpdateDone(ok) => if ok {
            (LoopState { need_render: false, drained: true, frames: st.frames }, Action::PollEvent)
        } else {
            (st, Action::Stop(Exit::UpdateFailed))
        },
    }
}

impl LoopState {
    /// The state a run starts in: a first render owed, nothing consumed.
    pub fn init() -> (st: LoopState)
        ensures
            st == (LoopState { need_render: true, drained: false, frames: 0 }),
    {
        LoopState { need_render: true, drained: false, frames: 0 }
    }

    /// Take one decision: consume what just happened, give the next
    /// action.  For a driver of a live event source; a scripted run is
    /// [`Journal::run`].
    pub fn step(self, inp: LoopInput) -> (r: (LoopState, Action))
        requires
            inp == LoopInput::RenderDone(true) ==> self.frames < u64::MAX,
        ensures
            r == spec_step(self, inp),
    {
        match inp {
            LoopInput::Started => (self, Action::DoRender),
            LoopInput::RenderDone(ok) => if ok {
                (
                    LoopState { need_render: false, drained: false, frames: self.frames + 1 },
                    Action::AwaitEvent,
                )
            } else {
                (self, Action::Stop(Exit::RenderFailed))
            },
            LoopInput::Got(f) => match f {
                Fetched::Ready => (self, Action::DoUpdate),
                Fetched::Empty => if self.drained {
                    (
                        LoopState { need_render: true, drained: false, frames: self.frames },
                        Action::DoRender,
                    )
                } else {
                    (self, Action::AwaitEvent)
                },
                Fetched::Closed => (self, Action::Stop(Exit::EndOfStream)),
                Fetched::Failed => (self, Action::Stop(Exit::StreamFailed)),
            },
            LoopInput::UpdateDone(ok) => if ok {
                (
                    LoopState { need_render: false, drained: true, frames: self.frames },
                    Action::PollEvent,
                )
            } else {
                (self, Action::Stop(Exit::UpdateFailed))
            },
        }
    }
}

/// Law: the one-at-a-time decision function and the run model move in
/// lock step.  For each thing that can happen at position `i` of the
/// source, the machine's answer carries exactly the flags with which
/// [`spec_run`] continues, asks for the action the model's next step
/// performs, and stops exactly where the model's run ends.
pub proof fn lemma_step_matches_run(
    st: LoopState,
    src: Seq<Answer>,
    i: int,
    frame: int,
    rr: Seq<bool>,
)
    requires
        0 <= i < src.len(),
        st.frames < u64::MAX,
    ensures
        st.need_render && spec_render_ok(rr, frame) ==> spec_step(
            st,
            LoopInput::RenderDone(true),
        ) == ((
            LoopState { need_render: false, drained: false, frames: (st.frames + 1) as u64 },
            Action::AwaitEvent,
        )) && spec_run(true, st.drained, frame, src, i, rr).trace == seq![TraceStep::Render]
            + spec_run(false, false, frame + 1, src, i, rr).trace && spec_run(
            true,
            st.drained,
            frame,
            src,
            i,
            rr,
        ).exit == spec_run(false, false, frame + 1, src, i, rr).exit,
        st.need_render && !spec_render_ok(rr, frame) ==> spec_step(
            st,
            LoopInput::RenderDone(false),
        ).1 == Action::Stop(Exit::RenderFailed) && spec_run(
            true,
            st.drained,
            frame,
            src,
            i,
            rr,
        ).exit == Exit::RenderFailed,
        !st.need_render && is_ok_event(src[i]) ==> spec_step(st, LoopInput::Got(Fetched::Ready))
            == ((st, Action::DoUpdate)) && spec_step(st, LoopInput::UpdateDone(true)) == ((
            LoopState { need_render: false, drained: true, frames: st.frames },
            Action::PollEvent,
        )) && spec_run(false, st.drained, frame, src, i, rr).trace == seq![
            TraceStep::Update(spec_event_id(src[i])),
        ] + spec_run(false, true, frame, src, i + 1, rr).trace && spec_run(
            false,
            st.drained,
            frame,
            src,
            i,
            rr,
        ).exit == spec_run(false, true, frame, src, i + 1, rr).exit,
        !st.need_render && is_failing_event(src[i]) ==> spec_step(
            st,
            LoopInput::UpdateDone(false),
        ).1 == Action::Stop(Exit::UpdateFailed) && spec_run(false, st.drained, frame, src, i, rr)
            == (RunModel {
            trace: seq![TraceStep::Update(spec_event_id(src[i]))],
            exit: Exit::UpdateFailed,
        }),
        !st.need_render && st.drained && src[i] == Answer::Empty ==> spec_step(
            st,
            LoopInput::Got(Fetched::Empty),
        ) == ((
            LoopState { need_render: true, drained: false, frames: st.frames },
            Action::DoRender,
        )) && spec_run(false, st.drained, frame, src, i, rr) == spec_run(
            true,
            false,
            frame,
            src,
            i + 1,
            rr,
        ),
        !st.need_render && !st.drained && src[i] == Answer::Empty ==> spec_step(
            st,
            LoopInput::Got(Fetched::Empty),
        ) == ((st, Action::AwaitEvent)) && spec_run(false, st.drained, frame, src, i, rr)
            == spec_run(false, false, frame, src, i + 1, rr),
        !st.need_render && src[i] == Answer::Closed ==> spec_step(
            st,
            LoopInput::Got(Fetched::Closed),
        ).1 == Action::Stop(Exit::EndOfStream) && spec_run(
            false,
            st.drained,
            frame,
            src,
            i,
            rr,
        ).exit == Exit::EndOfStream,
        !st.need_render && src[i] == Answer::Failed ==> spec_step(
            st,
            LoopInput::Got(Fetched::Failed),
        ).1 == Action::Stop(Exit::StreamFailed) && spec_run(
            false,
            st.drained,
            frame,
            src,
            i,
            rr,
        ).exit == Exit::StreamFailed,
{
}

/// Law: a queued batch of `n` events answered before an empty poll is
/// handled as exactly `n` update calls, in arrival order, and the run
/// then continues with a render owed before the next question.
pub proof fn lemma_batch_in_order(
    src: Seq<Answer>,
    i: int,
    n: int,
    frame: int,
    drained: bool,
    rr: Seq<bool>,
)
    requires
        0 <= i,
        0 < n,
        i + n < src.len(),
        forall|k: int| i <= k < i + n ==> is_ok_event(#[trigger] src[k]),
        src[i + n] == Answer::Empty,
    ensures
        spec_run(false, drained, frame, src, i, rr).trace == Seq::new(
            n as nat,
            |k: int| TraceStep::Update(spec_event_id(src[i + k])),
        ) + spec_run(true, false, frame, src, i + n + 1, rr).trace,
        spec_run(false, drained, frame, src, i, rr).exit == spec_run(
            true,
            false,
            frame,
            src,
            i + n + 1,
            rr,
        ).exit,
    decreases n,
{
    assert(is_ok_event(src[i]));
    if n == 1 {
        assert(Seq::new(1nat, |k: int| TraceStep::Update(spec_event_id(src[i + k]))) =~= seq![
            TraceStep::Update(spec_event_id(src[i])),
        ]);
    } else {
        lemma_batch_in_order(src, i + 1, n - 1, frame, true, rr);
        assert(Seq::new(n as nat, |k: int| TraceStep::Update(spec_event_id(src[i + k]))) =~= seq![
            TraceStep::Update(spec_event_id(src[i])),
        ] + Seq::new((n - 1) as nat, |k: int| TraceStep::Update(spec_event_id(src[i + 1 + k]))));
        assert(spec_run(false, drained, frame, src, i, rr).trace =~= Seq::new(
            n as nat,
            |k: int| TraceStep::Update(spec_event_id(src[i + k])),
        ) + spec_run(true, false, frame, src, i + n + 1, rr).trace);
    }
}

/// Law: with the next frame's paint succeeding, the continuation after a
/// drained batch begins with that render — no update precedes it.
pub proof fn lemma_render_comes_next(src: Seq<Answer>, i: int, frame: int, rr: Seq<bool>)
    requires
        spec_render_ok(rr, frame),
    ensures
        spec_run(true, false, frame, src, i, rr).trace.len() > 0,
        spec_run(true, false, frame, src, i, rr).trace[0] == TraceStep::Render,
{
}

/// Law: when the update callback fails on the event after `k` handled
/// ones, the run's remaining trace is exactly those `k` updates and the
/// failing one, in arrival order — nothing later in the batch is
/// consumed, no render follows — and the run ends with the update
/// failure.
pub proof fn lemma_update_failure_stops_batch(
    src: Seq<Answer>,
    i: int,
    k: int,
    frame: int,
    drained: bool,
    rr: Seq<bool>,
)
    requires
        0 <= i,
        0 <= k,
        i + k < src.len(),
        forall|j: int| i <= j < i + k ==> is_ok_event(#[trigger] src[j]),
        is_failing_event(src[i + k]),
    ensures
        spec_run(false, drained, frame, src, i, rr).trace == Seq::new(
            (k + 1) as nat,
            |j: int| TraceStep::Update(spec_event_id(src[i + j])),
        ),
        spec_run(false, drained, frame, src, i, rr).exit == Exit::UpdateFailed,
    decreases k,
{
    if k == 0 {
        assert(Seq::new(1nat, |j: int| TraceStep::Update(spec_event_id(src[i + j]))) =~= seq![
            TraceStep::Update(spec_event_id(src[i])),
        ]);
    } else {
        assert(is_ok_event(src[i]));
        lemma_update_failure_stops_batch(src, i + 1, k - 1, frame, true, rr);
        assert(Seq::new((k + 1) as nat, |j: int| TraceStep::Update(spec_event_id(src[i + j])))
            =~= seq![TraceStep::Update(spec_event_id(src[i]))] + Seq::new(
            k as nat,
            |j: int| TraceStep::Update(spec_event_id(src[i + 1 + j])),
        ));
    }
}

/// Law: an already-closed event source ends the run right after the
/// first render — one frame painted, no update invoked, and end of
/// stream as the termination condition.
pub proof fn lemma_closed_source_ends_after_first_render(src: Seq<Answer>, rr: Seq<bool>)
    requires
        src.len() > 0,
        src[0] == Answer::Closed,
        spec_render_ok(rr, 0),
    ensures
        spec_run(true, false, 0, src, 0, rr).trace == seq![TraceStep::Render],
        spec_run(true, false, 0, src, 0, rr).exit == Exit::EndOfStream,
{
    assert(spec_run(false, false, 1, src, 0, rr).exit == Exit::EndOfStream);
    assert(spec_run(false, false, 1, src, 0, rr).trace =~= Seq::<TraceStep>::empty());
    assert(spec_run(true, false, 0, src, 0, rr).trace =~= seq![TraceStep::Render]);
}

} // verus!

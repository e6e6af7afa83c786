//! The frame driver: what each event of the window system leads to, and what
//! one frame consists of once the surface has answered.
//!
//! The driver decides; its caller performs. The caller feeds every event to
//! `App::on_event` and does what the returned `Dispatch` says. For a frame it
//! asks the surface for its next texture, tells `App::on_acquired` how that
//! went, and carries out the returned commands in order.
//!
//! A frame's duration enters the statistics when the surface has answered,
//! and not at all when the surface turns out to be outdated.

pub use crate::timing::calculate_fps;
use crate::timing::frame_rate;
use crate::timing::lemma_total_bounds;
use crate::timing::lemma_total_push;
use crate::timing::slide;
use crate::timing::slide_all;
use crate::timing::total_nanos;
use crate::timing::FrameTimes;
use crate::timing::WINDOW_LEN;
use vstd::prelude::*;
use wgpu::SurfaceError;

verus! {

/// `wgpu::SurfaceError`, the ways in which a surface fails to hand out its
/// next texture, read as it is declared: four variants without fields.
#[verifier::external_type_specification]
pub struct ExSurfaceError(SurfaceError);

/// Whether the loop still processes events.
#[derive(Clone, Copy, Debug, PartialEq, Eq, Structural)]
pub enum LoopState {
    Running,
    /// Terminal: entered when the owned window is asked to close.
    Exiting,
}

/// What the window system reports about one window.
#[derive(Clone, Copy, Debug, PartialEq, Eq, Structural)]
pub enum WindowSignal {
    /// The window was asked to close.
    CloseRequested,
    /// The window wants its contents drawn; `frame_nanos` is the time since
    /// the previous such request.
    RedrawRequested { frame_nanos: u64 },
    /// Any other event of the window.
    Input,
}

/// One event of the window system.
#[derive(Clone, Copy, Debug, PartialEq, Eq, Structural)]
pub enum LoopEvent {
    /// An event of the window with this identity.
    Window { window: u64, signal: WindowSignal },
    /// An event that belongs to no window.
    Other,
}

/// What the caller does with the event it just reported.
#[derive(Clone, Copy, Debug, PartialEq, Eq, Structural)]
pub enum Dispatch {
    /// Stop the event loop.
    Exit,
    /// Run one frame: acquire the surface's next texture and report the
    /// outcome to `App::on_acquired`.
    Frame,
    /// Hand the event to the overlay's input handling.
    ForwardInput,
    /// Nothing.
    Ignore,
}

/// How the attempt to acquire the surface's next texture went.
#[derive(Clone, Copy, Debug, PartialEq, Eq, Structural)]
pub enum Acquisition {
    /// A texture to draw into.
    Ready,
    /// No texture within the time allowed.
    Timeout,
    /// The surface has changed underneath, as when the window is minimized.
    Outdated,
    /// The swap chain is lost.
    Lost,
    /// No memory for a new frame.
    OutOfMemory,
}

/// The acquisition outcome that a surface error stands for.
pub open spec fn failure_of(error: SurfaceError) -> Acquisition {
    match error {
        SurfaceError::Timeout => Acquisition::Timeout,
        SurfaceError::Outdated => Acquisition::Outdated,
        SurfaceError::Lost => Acquisition::Lost,
        SurfaceError::OutOfMemory => Acquisition::OutOfMemory,
    }
}

impl Acquisition {
    /// The outcome of an acquisition that failed with `error`.
    pub fn from_error(error: &SurfaceError) -> (outcome: Acquisition)
        ensures
            outcome == failure_of(*error),
            outcome != Acquisition::Ready,
    {
        match error {
            SurfaceError::Timeout => Acquisition::Timeout,
            SurfaceError::Outdated => Acquisition::Outdated,
            SurfaceError::Lost => Acquisition::Lost,
            SurfaceError::OutOfMemory => Acquisition::OutOfMemory,
        }
    }
}

/// One step of a frame, performed by the caller.
#[derive(Clone, Copy, Debug, PartialEq, Eq)]
pub enum FrameCommand {
    /// Clear the acquired target and draw the scene; `elapsed_nanos` is the
    /// time accumulated over all frames so far.
    RenderScene { elapsed_nanos: u64 },
    /// Draw the overlay over what the target holds; `fps` is the rate to
    /// show, in hundredths of a frame per second.
    RenderOverlay { fps: Option<u64> },
    /// Present the acquired texture.
    Present,
    /// Ask the window for another redraw.
    RequestRedraw,
    /// Report on the diagnostic stream that the frame was dropped.
    ReportDropped,
}

/// The driver's state as a mathematical value.
pub struct AppView {
    /// Identity of the owned window.
    pub window: u64,
    pub state: LoopState,
    /// Duration of the frame that a redraw request began and whose
    /// acquisition has not been reported yet.
    pub pending: Option<u64>,
    /// Time accumulated over all frames, in nanoseconds.
    pub elapsed: u64,
    /// The rolling window of frame durations, oldest first.
    pub samples: Seq<u64>,
}

/// One thing reported to the driver: an event of the window system, or the
/// outcome of an acquisition.
pub enum Step {
    Event(LoopEvent),
    Acquired(Acquisition),
}

/// One whole frame: the duration its redraw request carried and how its
/// acquisition went.
pub struct Frame {
    pub frame_nanos: u64,
    pub acquisition: Acquisition,
}

/// Sum of two durations that stops at the largest representable one.
pub open spec fn saturating_sum(a: u64, b: u64) -> u64 {
    if a + b > u64::MAX {
        u64::MAX
    } else {
        (a + b) as u64
    }
}

/// Whether an event asks the window `window` to close.
pub open spec fn closes(event: LoopEvent, window: u64) -> bool {
    event == (LoopEvent::Window { window, signal: WindowSignal::CloseRequested })
}

/// The redraw request of the window `window` after `frame_nanos`.
pub open spec fn redraw_request(window: u64, frame_nanos: u64) -> LoopEvent {
    LoopEvent::Window { window, signal: WindowSignal::RedrawRequested { frame_nanos } }
}

/// What an event is answered with in a given state.
pub open spec fn dispatch_of(app: AppView, event: LoopEvent) -> Dispatch {
    match app.state {
        LoopState::Exiting => Dispatch::Ignore,
        LoopState::Running => match event {
            LoopEvent::Other => Dispatch::Ignore,
            LoopEvent::Window { window, signal } => match signal {
                WindowSignal::CloseRequested => if window == app.window {
                    Dispatch::Exit
                } else {
                    Dispatch::ForwardInput
                },
                WindowSignal::RedrawRequested { .. } => Dispatch::Frame,
                WindowSignal::Input => Dispatch::ForwardInput,
            },
        },
    }
}

/// The state an event leaves behind. A close request for the owned window
/// ends the loop; a redraw request begins a frame of its duration; nothing
/// else changes anything, and nothing changes once the loop is exiting.
pub open spec fn next_state(app: AppView, event: LoopEvent) -> AppView {
    match dispatch_of(app, event) {
        Dispatch::Exit => AppView { state: LoopState::Exiting, ..app },
        Dispatch::Frame => match event {
            LoopEvent::Window { signal: WindowSignal::RedrawRequested { frame_nanos }, .. } => AppView {
                pending: Some(frame_nanos),
                ..app
            },
            _ => app,
        },
        _ => app,
    }
}

/// Whether the outcome of an acquisition is being waited for: the loop runs
/// and a redraw request has begun a frame.
pub open spec fn frame_begun(app: AppView) -> bool {
    app.state == LoopState::Running && app.pending is Some
}

/// The state that the outcome of an acquisition leaves behind. It ends the
/// frame that was begun. Unless the surface is outdated, the frame's duration
/// is added to the elapsed time and pushed into the rolling window. Without
/// a frame begun nothing changes.
pub open spec fn after_acquired(app: AppView, acquisition: Acquisition) -> AppView {
    if !frame_begun(app) {
        app
    } else if acquisition == Acquisition::Outdated {
        AppView { pending: None, ..app }
    } else {
        AppView {
            pending: None,
            elapsed: saturating_sum(app.elapsed, app.pending->0),
            samples: slide(app.samples, app.pending->0),
            ..app
        }
    }
}

/// The commands of one frame, given how acquisition went. A ready texture is
/// drawn into by the scene, then by the overlay, then presented, and the next
/// redraw is requested; the scene gets the elapsed time and the overlay the
/// frame rate with this frame counted. An outdated surface is passed over in
/// silence. Any other failure is reported. Without a frame begun there is
/// nothing to do.
pub open spec fn frame_plan(app: AppView, acquisition: Acquisition) -> Seq<FrameCommand> {
    if !frame_begun(app) {
        Seq::empty()
    } else {
        match acquisition {
            Acquisition::Ready => seq![
                FrameCommand::RenderScene {
                    elapsed_nanos: after_acquired(app, acquisition).elapsed,
                },
                FrameCommand::RenderOverlay {
                    fps: frame_rate(after_acquired(app, acquisition).samples),
                },
                FrameCommand::Present,
                FrameCommand::RequestRedraw,
            ],
            Acquisition::Outdated => Seq::empty(),
            _ => seq![FrameCommand::ReportDropped],
        }
    }
}

/// The state after one report.
pub open spec fn advance(app: AppView, step: Step) -> AppView {
    match step {
        Step::Event(event) => next_state(app, event),
        Step::Acquired(acquisition) => after_acquired(app, acquisition),
    }
}

/// The state after a run of reports, first to last.
pub open spec fn run(app: AppView, steps: Seq<Step>) -> AppView
    decreases steps.len(),
{
    if steps.len() == 0 {
        app
    } else {
        advance(run(app, steps.drop_last()), steps.last())
    }
}

/// Whether a report is answered with nothing at all: an event ignored, or an
/// acquisition with an empty plan.
pub open spec fn is_idle(app: AppView, step: Step) -> bool {
    match step {
        Step::Event(event) => dispatch_of(app, event) == Dispatch::Ignore,
        Step::Acquired(acquisition) => frame_plan(app, acquisition).len() == 0,
    }
}

/// The state after one whole frame for the window `window`.
pub open spec fn after_frame(app: AppView, window: u64, frame: Frame) -> AppView {
    after_acquired(
        next_state(app, redraw_request(window, frame.frame_nanos)),
        frame.acquisition,
    )
}

/// The state after a run of whole frames for the owned window.
pub open spec fn run_frames(app: AppView, frames: Seq<Frame>) -> AppView
    decreases frames.len(),
{
    if frames.len() == 0 {
        app
    } else {
        after_frame(run_frames(app, frames.drop_last()), app.window, frames.last())
    }
}

/// The durations of those frames of a run that count: all but the ones whose
/// surface was outdated.
pub open spec fn counted(frames: Seq<Frame>) -> Seq<u64>
    decreases frames.len(),
{
    if frames.len() == 0 {
        Seq::empty()
    } else if frames.last().acquisition == Acquisition::Outdated {
        counted(frames.drop_last())
    } else {
        counted(frames.drop_last()).push(frames.last().frame_nanos)
    }
}

/// Whether a command draws into the target.
pub open spec fn is_draw(command: FrameCommand) -> bool {
    command is RenderScene || command is RenderOverlay
}

/// Number of commands in a plan that draw into the target.
pub open spec fn draw_count(plan: Seq<FrameCommand>) -> nat
    decreases plan.len(),
{
    if plan.len() == 0 {
        0
    } else if is_draw(plan.last()) {
        draw_count(plan.drop_last()) + 1
    } else {
        draw_count(plan.drop_last())
    }
}

/// Number of presentations in a plan.
pub open spec fn present_count(plan: Seq<FrameCommand>) -> nat
    decreases plan.len(),
{
    if plan.len() == 0 {
        0
    } else if plan.last() is Present {
        present_count(plan.drop_last()) + 1
    } else {
        present_count(plan.drop_last())
    }
}

/// No run of reports changes which window is owned.
pub proof fn lemma_run_keeps_window(app: AppView, steps: Seq<Step>)
    ensures
        run(app, steps).window == app.window,
    decreases steps.len(),
{
    if steps.len() > 0 {
        lemma_run_keeps_window(app, steps.drop_last());
    }
}

/// The state after the first `i + 1` reports of a run comes from the state
/// after the first `i` by the `i`-th report.
pub proof fn lemma_run_step(app: AppView, steps: Seq<Step>, i: int)
    requires
        0 <= i < steps.len(),
    ensures
        run(app, steps.take(i + 1)) == advance(run(app, steps.take(i)), steps[i]),
{
    assert(steps.take(i + 1).drop_last() =~= steps.take(i));
}

/// Whatever is reported to the driver, in whatever order, the rolling window
/// holds exactly `WINDOW_LEN` durations after every report.
pub proof fn window_length_is_invariant(app: AppView, steps: Seq<Step>)
    requires
        app.samples.len() == WINDOW_LEN,
    ensures
        run(app, steps).samples.len() == WINDOW_LEN,
    decreases steps.len(),
{
    if steps.len() > 0 {
        window_length_is_invariant(app, steps.drop_last());
    }
}

/// An outdated surface costs the frame and nothing else. The plan holds no
/// command at all, so nothing is drawn and nothing presented; and the frame
/// leaves no trace in the statistics: after the redraw request and the
/// outdated acquisition, the rolling window and the elapsed time are what
/// they were before the request.
pub proof fn outdated_frame_is_skipped(app: AppView, window: u64, frame_nanos: u64)
    ensures
        frame_plan(app, Acquisition::Outdated) == Seq::<FrameCommand>::empty(),
        draw_count(frame_plan(app, Acquisition::Outdated)) == 0,
        present_count(frame_plan(app, Acquisition::Outdated)) == 0,
        after_acquired(app, Acquisition::Outdated).samples == app.samples,
        after_acquired(app, Acquisition::Outdated).elapsed == app.elapsed,
        after_frame(
            app,
            window,
            Frame { frame_nanos, acquisition: Acquisition::Outdated },
        ).samples == app.samples,
        after_frame(
            app,
            window,
            Frame { frame_nanos, acquisition: Acquisition::Outdated },
        ).elapsed == app.elapsed,
        draw_count(
            frame_plan(
                next_state(app, redraw_request(window, frame_nanos)),
                Acquisition::Outdated,
            ),
        ) == 0,
        present_count(
            frame_plan(
                next_state(app, redraw_request(window, frame_nanos)),
                Acquisition::Outdated,
            ),
        ) == 0,
{
    assert(frame_plan(app, Acquisition::Outdated) =~= Seq::<FrameCommand>::empty());
    assert(frame_plan(next_state(app, redraw_request(window, frame_nanos)), Acquisition::Outdated)
        =~= Seq::<FrameCommand>::empty());
}

/// No acquisition failure leads to a draw or a presentation.
pub proof fn failed_acquisition_draws_nothing(app: AppView, acquisition: Acquisition)
    requires
        acquisition != Acquisition::Ready,
    ensures
        draw_count(frame_plan(app, acquisition)) == 0,
        present_count(frame_plan(app, acquisition)) == 0,
{
    let plan = frame_plan(app, acquisition);
    if plan.len() > 0 {
        assert(plan =~= seq![FrameCommand::ReportDropped]);
        assert(plan.last() is ReportDropped);
        assert(draw_count(plan.drop_last()) == 0);
        assert(present_count(plan.drop_last()) == 0);
    }
}

/// A frame whose texture was acquired draws twice, the scene and the
/// overlay, and presents once.
pub proof fn ready_frame_draws_and_presents_once(app: AppView)
    requires
        frame_begun(app),
    ensures
        draw_count(frame_plan(app, Acquisition::Ready)) == 2,
        present_count(frame_plan(app, Acquisition::Ready)) == 1,
{
    let plan = frame_plan(app, Acquisition::Ready);
    let three = plan.drop_last();
    let two = three.drop_last();
    let one = two.drop_last();
    assert(draw_count(one.drop_last()) == 0);
    assert(present_count(one.drop_last()) == 0);
    assert(one.last() is RenderScene);
    assert(two.last() is RenderOverlay);
    assert(three.last() is Present);
    assert(plan.last() is RequestRedraw);
    assert(draw_count(one) == 1);
    assert(draw_count(two) == 2);
    assert(draw_count(three) == 2);
    assert(present_count(one) == 0);
    assert(present_count(two) == 0);
    assert(present_count(three) == 1);
}

/// In every plan the overlay is drawn directly after the scene, into what
/// the scene left, and the presentation follows both; a plan that draws or
/// presents at all is the full frame.
pub proof fn overlay_is_drawn_over_scene(app: AppView, acquisition: Acquisition, i: int)
    requires
        0 <= i < frame_plan(app, acquisition).len(),
        is_draw(frame_plan(app, acquisition)[i]) || frame_plan(app, acquisition)[i] is Present,
    ensures
        frame_plan(app, acquisition).len() == 4,
        frame_plan(app, acquisition)[0] is RenderScene,
        frame_plan(app, acquisition)[1] is RenderOverlay,
        frame_plan(app, acquisition)[2] is Present,
        frame_plan(app, acquisition)[3] is RequestRedraw,
{
}

/// A frame that is not skipped counts once: its duration goes to the back of
/// the rolling window and onto the elapsed time.
pub proof fn presentable_frame_is_counted(app: AppView, window: u64, frame: Frame)
    requires
        app.state == LoopState::Running,
        frame.acquisition != Acquisition::Outdated,
    ensures
        after_frame(app, window, frame).samples == slide(app.samples, frame.frame_nanos),
        after_frame(app, window, frame).elapsed == saturating_sum(app.elapsed, frame.frame_nanos),
{
}

/// Over any run of whole frames a running loop keeps running, and its
/// statistics are those of the frames that count: the rolling window is what
/// pushing their durations in order makes of it, and the elapsed time is
/// their sum on top of what had elapsed, up to the largest representable
/// time.
pub proof fn running_loop_records_counted_frames(app: AppView, frames: Seq<Frame>)
    requires
        app.state == LoopState::Running,
    ensures
        run_frames(app, frames).state == LoopState::Running,
        run_frames(app, frames).window == app.window,
        run_frames(app, frames).samples == slide_all(app.samples, counted(frames)),
        run_frames(app, frames).elapsed == if app.elapsed + total_nanos(counted(frames))
            > u64::MAX {
            u64::MAX as int
        } else {
            app.elapsed + total_nanos(counted(frames))
        },
    decreases frames.len(),
{
    if frames.len() > 0 {
        let front = frames.drop_last();
        running_loop_records_counted_frames(app, front);
        lemma_total_bounds(counted(front));
        if frames.last().acquisition != Acquisition::Outdated {
            lemma_total_push(counted(front), frames.last().frame_nanos);
            assert(counted(frames).drop_last() =~= counted(front));
        }
    }
}

/// A close request for the owned window puts the loop into its terminal
/// state, whatever state it was in.
pub proof fn close_request_exits(app: AppView, event: LoopEvent)
    requires
        closes(event, app.window),
    ensures
        next_state(app, event).state == LoopState::Exiting,
        app.state == LoopState::Running ==> dispatch_of(app, event) == Dispatch::Exit,
{
}

/// An exiting loop stays as it is: whatever is reported to it is answered
/// with nothing and changes nothing.
pub proof fn exiting_is_terminal(app: AppView, step: Step)
    requires
        app.state == LoopState::Exiting,
    ensures
        is_idle(app, step),
        advance(app, step) == app,
{
}

/// Once the owned window has been asked to close, every later report of the
/// run is answered with nothing, be it a redraw request or the acquisition
/// of a frame that had already begun, and the state stays what the close
/// request left: no frame runs and the statistics are not touched.
pub proof fn close_ends_all_frames(app: AppView, steps: Seq<Step>, k: int, i: int)
    requires
        0 <= k < i < steps.len(),
        steps[k] is Event,
        closes(steps[k]->Event_0, app.window),
    ensures
        run(app, steps.take(k + 1)).state == LoopState::Exiting,
        run(app, steps.take(i)) == run(app, steps.take(k + 1)),
        is_idle(run(app, steps.take(i)), steps[i]),
        run(app, steps.take(i + 1)) == run(app, steps.take(k + 1)),
    decreases i - k,
{
    lemma_run_step(app, steps, i);
    if i == k + 1 {
        lemma_run_step(app, steps, k);
        lemma_run_keeps_window(app, steps.take(k));
        close_request_exits(run(app, steps.take(k)), steps[k]->Event_0);
    } else {
        close_ends_all_frames(app, steps, k, i - 1);
        assert(steps.take(i - 1 + 1) == steps.take(i));
    }
    exiting_is_terminal(run(app, steps.take(i)), steps[i]);
}

/// The frame driver's state.
pub struct App {
    window: u64,
    state: LoopState,
    pending_frame: Option<u64>,
    elapsed_time: u64,
    rolling_frame_time: FrameTimes,
}

impl View for App {
    type V = AppView;

    closed spec fn view(&self) -> AppView {
        AppView {
            window: self.window,
            state: self.state,
            pending: self.pending_frame,
            elapsed: self.elapsed_time,
            samples: self.rolling_frame_time@,
        }
    }
}

impl App {
    /// The rolling window always holds exactly `WINDOW_LEN` durations.
    pub open spec fn wf(&self) -> bool {
        self@.samples.len() == WINDOW_LEN
    }

    /// A running driver for the window `window`, with no frame begun, no time
    /// elapsed and a rolling window of zero durations.
    pub fn new(window: u64) -> (app: Self)
        ensures
            app.wf(),
            app@.window == window,
            app@.state == LoopState::Running,
            app@.pending is None,
            app@.elapsed == 0,
            forall|i: int| 0 <= i < WINDOW_LEN ==> app@.samples[i] == 0,
    {
        App {
            window,
            state: LoopState::Running,
            pending_frame: None,
            elapsed_time: 0,
            rolling_frame_time: FrameTimes::new(),
        }
    }

    /// Takes one event of the window system and says what to do about it.
    pub fn on_event(&mut self, event: LoopEvent) -> (dispatch: Dispatch)
        ensures
            dispatch == dispatch_of(old(self)@, event),
            final(self)@ == next_state(old(self)@, event),
            final(self).wf() == old(self).wf(),
    {
        match self.state {
            LoopState::Exiting => Dispatch::Ignore,
            LoopState::Running => match event {
                LoopEvent::Other => Dispatch::Ignore,
                LoopEvent::Window { window, signal } => match signal {
                    WindowSignal::CloseRequested => {
                        if window == self.window {
                            self.state = LoopState::Exiting;
                            Dispatch::Exit
                        } else {
                            Dispatch::ForwardInput
                        }
                    },
                    WindowSignal::RedrawRequested { frame_nanos } => {
                        self.pending_frame = Some(frame_nanos);
                        Dispatch::Frame
                    },
                    WindowSignal::Input => Dispatch::ForwardInput,
                },
            },
        }
    }

    /// Takes the outcome of acquiring the surface's next texture, settles the
    /// statistics of the frame that was begun, and gives the commands that
    /// make up the frame, in the order to perform them.
    pub fn on_acquired(&mut self, acquisition: Acquisition) -> (plan: Vec<FrameCommand>)
        requires
            old(self).wf(),
        ensures
            final(self).wf(),
            final(self)@ == after_acquired(old(self)@, acquisition),
            plan@ == frame_plan(old(self)@, acquisition),
    {
        let mut plan: Vec<FrameCommand> = Vec::new();
        match self.state {
            LoopState::Exiting => {},
            LoopState::Running => match self.pending_frame {
                None => {},
                Some(frame_nanos) => {
                    self.pending_frame = None;
                    match acquisition {
                        Acquisition::Outdated => {},
                        _ => {
                            self.elapsed_time = self.elapsed_time.saturating_add(frame_nanos);
                            self.rolling_frame_time.push(frame_nanos);
                            match acquisition {
                                Acquisition::Ready => {
                                    plan.push(
                                        FrameCommand::RenderScene {
                                            elapsed_nanos: self.elapsed_time,
                                        },
                                    );
                                    plan.push(
                                        FrameCommand::RenderOverlay {
                                            fps: self.rolling_frame_time.fps(),
                                        },
                                    );
                                    plan.push(FrameCommand::Present);
                                    plan.push(FrameCommand::RequestRedraw);
                                },
                                _ => {
                                    plan.push(FrameCommand::ReportDropped);
                                },
                            }
                        },
                    }
                },
            },
        }
        assert(plan@ =~= frame_plan(old(self)@, acquisition));
        plan
    }

    /// Whether the loop is still running or has been told to exit.
    pub fn state(&self) -> (state: LoopState)
        ensures
            state == self@.state,
    {
        self.state
    }

    /// Identity of the owned window.
    pub fn window(&self) -> (window: u64)
        ensures
            window == self@.window,
    {
        self.window
    }

    /// Duration of the frame that has begun and whose acquisition has not
    /// been reported yet.
    pub fn pending_frame(&self) -> (pending: Option<u64>)
        ensures
            pending == self@.pending,
    {
        self.pending_frame
    }

    /// Time accumulated over all counted frames so far, in nanoseconds.
    pub fn elapsed_time(&self) -> (elapsed: u64)
        ensures
            elapsed == self@.elapsed,
    {
        self.elapsed_time
    }

    /// The rolling window of frame durations.
    pub fn rolling_frame_time(&self) -> (times: &FrameTimes)
        ensures
            times@ == self@.samples,
    {
        &self.rolling_frame_time
    }

    /// The frame rate over the rolling window, in hundredths of a frame per
    /// second.
    pub fn fps(&self) -> (fps: Option<u64>)
        ensures
            fps == frame_rate(self@.samples),
    {
        self.rolling_frame_time.fps()
    }
}

} // verus!

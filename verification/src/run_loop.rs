use vstd::prelude::*;
use crate::host::App;
use crate::types::{AppError, AppState, Event, MouseInput};

verus! {

/// Where a run stands: what the run loop waits for.
#[derive(Clone, Copy, Debug, PartialEq, Eq, Structural)]
pub enum Phase {
    /// Draining the queue of window events.
    Polling,
    /// Waiting for the window's inner size.
    Sizing,
    /// Waiting for the viewport to be set and the buffers cleared.
    FrameSetup,
    /// Waiting for the per-frame hook.
    Hook,
    /// Waiting for the render pass.
    Rendering,
    /// Waiting for the buffer swap.
    Presenting,
    /// The run is over.
    Done,
}

/// What the driver reports to the run loop.
#[derive(Debug, PartialEq, Eq)]
pub enum Input<RE> {
    /// The next queued window event.
    Window(Event),
    /// The queue of window events is empty.
    Drained,
    /// The window's inner size, or `None` where the window is gone.
    InnerSize(Option<(u32, u32)>),
    /// The viewport is set and the buffers are cleared.
    FrameSet,
    /// What the per-frame hook returned.
    Hook(AppState),
    /// What the render pass returned; a tree without a drawable counts as
    /// success.
    Rendered(Result<(), RE>),
    /// What the buffer swap returned; a failure holds its description.
    Presented(Result<(), String>),
}

/// What the run loop asks of the driver next.
#[derive(Clone, Copy, Debug, PartialEq, Eq, Structural)]
pub enum Action {
    /// Report the next queued window event, or that the queue is empty.
    Poll,
    /// Resize the drawing surface to this width and height now, then go on
    /// polling.
    Resize(u32, u32),
    /// Dispatch a press to the component under this position, then go on
    /// polling.
    Click(u64, u64),
    /// Query the window's inner size.
    QuerySize,
    /// Set the viewport to this width and height and clear the buffers.
    SetupFrame(u32, u32),
    /// Call the per-frame hook.
    CallHook,
    /// Tell the component tree that the frame changed, then render its
    /// drawable.
    Render,
    /// Swap the buffers.
    Present,
    /// Nothing more: finish the run.
    Finish,
}

impl Action {
    /// Whether the action submits work to the GPU: frame setup, rendering or
    /// the buffer swap.
    pub open spec fn is_gpu_work(self) -> bool {
        self is SetupFrame || self is Render || self is Present
    }
}

/// The state of a run, as plain values.
pub ghost struct LoopState<RE> {
    pub phase: Phase,
    /// `false` once a poll has seen a reason to exit.
    pub running: bool,
    /// Whether the run has a per-frame hook.
    pub hooked: bool,
    /// The last known pointer position.
    pub pointer: (u64, u64),
    /// The window's size as last queried in this run.
    pub frame: (u32, u32),
    /// The error that ended the run, if one did.
    pub failure: Option<AppError<RE>>,
}

impl<RE> LoopState<RE> {
    /// A run at its start: polling, pointer at the origin.
    pub open spec fn start(hooked: bool) -> Self {
        LoopState {
            phase: Phase::Polling,
            running: true,
            hooked,
            pointer: (0u64, 0u64),
            frame: (0u32, 0u32),
            failure: None,
        }
    }

    /// The action that the run waits on in its phase.
    pub open spec fn pending(self) -> Action {
        match self.phase {
            Phase::Polling => Action::Poll,
            Phase::Sizing => Action::QuerySize,
            Phase::FrameSetup => Action::SetupFrame(self.frame.0, self.frame.1),
            Phase::Hook => Action::CallHook,
            Phase::Rendering => Action::Render,
            Phase::Presenting => Action::Present,
            Phase::Done => Action::Finish,
        }
    }

    /// This run in another phase.
    pub open spec fn at(self, phase: Phase) -> Self {
        LoopState { phase, ..self }
    }

    /// This run, ended by `error`.
    pub open spec fn failed(self, error: AppError<RE>) -> Self {
        LoopState { phase: Phase::Done, failure: Some(error), ..self }
    }

    /// Whether `event` is a reason to exit under the given Escape policy.
    pub open spec fn asks_exit(exit_by_escape: bool, event: Event) -> bool {
        event == Event::Closed || (event == Event::EscapePressed && exit_by_escape)
    }

    /// One window event during polling: the new state and the reaction.
    pub open spec fn on_event(self, exit_by_escape: bool, event: Event) -> (Self, Action) {
        match event {
            Event::Closed => (LoopState { running: false, ..self }, Action::Poll),
            Event::EscapePressed => (
                LoopState { running: self.running && !exit_by_escape, ..self },
                Action::Poll,
            ),
            Event::Resized(w, h) => (self, Action::Resize(w, h)),
            Event::CursorMoved(x, y) => (LoopState { pointer: (x, y), ..self }, Action::Poll),
            Event::LeftPressed => (self, Action::Click(self.pointer.0, self.pointer.1)),
            Event::Other => (self, Action::Poll),
        }
    }

    /// Whether the run, in its phase, waits for a report of `input`'s kind.
    pub open spec fn accepts(self, input: Input<RE>) -> bool {
        match self.phase {
            Phase::Polling => input is Window || input is Drained,
            Phase::Sizing => input is InnerSize,
            Phase::FrameSetup => input is FrameSet,
            Phase::Hook => input is Hook,
            Phase::Rendering => input is Rendered,
            Phase::Presenting => input is Presented,
            Phase::Done => false,
        }
    }

    /// The transition function of the run loop: the state after `input` and
    /// the action asked for next. A report that the phase does not wait for
    /// changes nothing and repeats the pending action.
    pub open spec fn next(self, exit_by_escape: bool, input: Input<RE>) -> (Self, Action) {
        if !self.accepts(input) {
            (self, self.pending())
        } else {
            match input {
                Input::Window(event) => self.on_event(exit_by_escape, event),
                Input::Drained => if self.running {
                    (self.at(Phase::Sizing), Action::QuerySize)
                } else {
                    (self.at(Phase::Done), Action::Finish)
                },
                Input::InnerSize(Some(d)) => (
                    LoopState { phase: Phase::FrameSetup, frame: d, ..self },
                    Action::SetupFrame(d.0, d.1),
                ),
                Input::InnerSize(None) => (
                    self.failed(AppError::WindowNoLongerExists),
                    Action::Finish,
                ),
                Input::FrameSet => if self.hooked {
                    (self.at(Phase::Hook), Action::CallHook)
                } else {
                    (self.at(Phase::Rendering), Action::Render)
                },
                Input::Hook(AppState::Exit) => (self.at(Phase::Done), Action::Finish),
                Input::Hook(AppState::Continue) => (self.at(Phase::Rendering), Action::Render),
                Input::Rendered(Ok(_)) => (self.at(Phase::Presenting), Action::Present),
                Input::Rendered(Err(cause)) => (
                    self.failed(AppError::RendererError(cause)),
                    Action::Finish,
                ),
                Input::Presented(Ok(_)) => (self.at(Phase::Polling), Action::Poll),
                Input::Presented(Err(cause)) => (
                    self.failed(AppError::ContextError(cause)),
                    Action::Finish,
                ),
            }
        }
    }

    /// The size that the host stores on `input`: the answer of a size query
    /// that the run waited for, and nothing else.
    pub open spec fn stored_size(self, input: Input<RE>) -> Option<(u32, u32)> {
        if self.phase == Phase::Sizing && input is InnerSize {
            input->InnerSize_0
        } else {
            None
        }
    }

    /// The state after each of `inputs`, in order, was reported.
    pub open spec fn run_all(self, exit_by_escape: bool, inputs: Seq<Input<RE>>) -> Self
        decreases inputs.len(),
    {
        if inputs.len() == 0 {
            self
        } else {
            self.next(exit_by_escape, inputs[0]).0.run_all(exit_by_escape, inputs.skip(1))
        }
    }

    /// The actions asked for in answer to each of `inputs`, in order.
    pub open spec fn actions_of(self, exit_by_escape: bool, inputs: Seq<Input<RE>>) -> Seq<Action>
        decreases inputs.len(),
    {
        if inputs.len() == 0 {
            Seq::empty()
        } else {
            let (after, action) = self.next(exit_by_escape, inputs[0]);
            seq![action] + after.actions_of(exit_by_escape, inputs.skip(1))
        }
    }

    /// The state after each of `events`, in order, was reported during
    /// polling.
    pub open spec fn poll_all(self, exit_by_escape: bool, events: Seq<Event>) -> Self
        decreases events.len(),
    {
        if events.len() == 0 {
            self
        } else {
            self.next(exit_by_escape, Input::Window(events[0])).0.poll_all(
                exit_by_escape,
                events.skip(1),
            )
        }
    }

    /// The reactions to each of `events`, in order, reported during polling.
    pub open spec fn poll_actions(self, exit_by_escape: bool, events: Seq<Event>) -> Seq<Action>
        decreases events.len(),
    {
        if events.len() == 0 {
            Seq::empty()
        } else {
            let (after, reaction) = self.next(exit_by_escape, Input::Window(events[0]));
            seq![reaction] + after.poll_actions(exit_by_escape, events.skip(1))
        }
    }

    /// Whether one of `events` is a reason to exit.
    pub open spec fn any_asks_exit(exit_by_escape: bool, events: Seq<Event>) -> bool {
        exists|i: int| 0 <= i < events.len() && Self::asks_exit(exit_by_escape, #[trigger] events[i])
    }

    /// The host's dimensions after `input`, where they were `dimensions`
    /// before it.
    pub open spec fn dimensions_after(self, dimensions: (u32, u32), input: Input<RE>) -> (u32, u32) {
        match self.stored_size(input) {
            Some(d) => d,
            None => dimensions,
        }
    }

    /// A run carries an error exactly when the error ended it.
    pub open spec fn wf(self) -> bool {
        self.failure is Some ==> self.phase == Phase::Done
    }

    /// What the run returns when it is finished.
    pub open spec fn outcome(self) -> Result<(), AppError<RE>> {
        match self.failure {
            Some(error) => Err(error),
            None => Ok(()),
        }
    }
}

/// One run of the loop: its phase, the exit flag, the pointer tracker and the
/// error that ended it.
///
/// Each iteration polls first, so that a frame is never set up, rendered or
/// presented for a window that is already known to close: poll, exit check,
/// size query, frame setup, hook, render, present.
#[derive(Debug)]
pub struct RunLoop<RE> {
    phase: Phase,
    running: bool,
    hooked: bool,
    mouse: MouseInput,
    width: u32,
    height: u32,
    failure: Option<AppError<RE>>,
}

impl<RE> View for RunLoop<RE> {
    type V = LoopState<RE>;

    closed spec fn view(&self) -> LoopState<RE> {
        LoopState {
            phase: self.phase,
            running: self.running,
            hooked: self.hooked,
            pointer: self.mouse@,
            frame: (self.width, self.height),
            failure: self.failure,
        }
    }
}

impl<RE> RunLoop<RE> {
    fn begin(hooked: bool) -> (run: Self)
        ensures
            run@ == LoopState::<RE>::start(hooked),
            run@.wf(),
    {
        RunLoop {
            phase: Phase::Polling,
            running: true,
            hooked,
            mouse: MouseInput::new(),
            width: 0,
            height: 0,
            failure: None,
        }
    }

    /// The phase of the run.
    pub fn phase(&self) -> (phase: Phase)
        ensures
            phase == self@.phase,
    {
        self.phase
    }

    /// Whether the run is over.
    pub fn is_done(&self) -> (done: bool)
        ensures
            done == (self@.phase == Phase::Done),
    {
        self.phase == Phase::Done
    }

    /// The last known pointer position.
    pub fn pointer(&self) -> (pos: (u64, u64))
        ensures
            pos == self@.pointer,
    {
        self.mouse.position()
    }

    fn fail(&mut self, error: AppError<RE>)
        ensures
            final(self)@ == old(self)@.failed(error),
    {
        self.phase = Phase::Done;
        self.failure = Some(error);
    }

    fn handle_event(&mut self, exit_by_escape: bool, event: Event) -> (action: Action)
        ensures
            (final(self)@, action) == old(self)@.on_event(exit_by_escape, event),
    {
        match event {
            Event::Closed => {
                self.running = false;
                Action::Poll
            },
            Event::EscapePressed => {
                if exit_by_escape {
                    self.running = false;
                }
                Action::Poll
            },
            Event::Resized(w, h) => Action::Resize(w, h),
            Event::CursorMoved(x, y) => {
                self.mouse.update_pos(x, y);
                Action::Poll
            },
            Event::LeftPressed => {
                let (x, y): (u64, u64) = self.mouse.position();
                Action::Click(x, y)
            },
            Event::Other => Action::Poll,
        }
    }

    /// The action that the run waits on.
    pub fn pending(&self) -> (action: Action)
        ensures
            action == self@.pending(),
    {
        match self.phase {
            Phase::Polling => Action::Poll,
            Phase::Sizing => Action::QuerySize,
            Phase::FrameSetup => Action::SetupFrame(self.width, self.height),
            Phase::Hook => Action::CallHook,
            Phase::Rendering => Action::Render,
            Phase::Presenting => Action::Present,
            Phase::Done => Action::Finish,
        }
    }

    /// Advances the run by one report of the driver and says what to do next.
    ///
    /// The run and the action follow the transition function `next`. The host
    /// changes only on the answer of a size query, which it stores as its
    /// dimensions.
    pub fn step<E, W, R>(&mut self, app: &mut App<E, W, R>, input: Input<RE>) -> (action: Action)
        ensures
            (final(self)@, action) == old(self)@.next(old(app)@.exit_by_escape, input),
            old(self)@.wf() ==> final(self)@.wf(),
            final(app)@.dimensions == old(self)@.dimensions_after(old(app)@.dimensions, input),
            final(app)@ == match old(self)@.stored_size(input) {
                Some(d) => old(app)@.resized(d),
                None => old(app)@,
            },
    {
        match self.phase {
            Phase::Polling => match input {
                Input::Window(event) => {
                    let exit: bool = app.exit_by_escape();
                    self.handle_event(exit, event)
                },
                Input::Drained => {
                    if self.running {
                        self.phase = Phase::Sizing;
                        Action::QuerySize
                    } else {
                        self.phase = Phase::Done;
                        Action::Finish
                    }
                },
                _ => Action::Poll,
            },
            Phase::Sizing => match input {
                Input::InnerSize(Some((width, height))) => {
                    app.store_dimensions(width, height);
                    self.width = width;
                    self.height = height;
                    self.phase = Phase::FrameSetup;
                    Action::SetupFrame(width, height)
                },
                Input::InnerSize(None) => {
                    self.fail(AppError::WindowNoLongerExists);
                    Action::Finish
                },
                _ => Action::QuerySize,
            },
            Phase::FrameSetup => match input {
                Input::FrameSet => {
                    if self.hooked {
                        self.phase = Phase::Hook;
                        Action::CallHook
                    } else {
                        self.phase = Phase::Rendering;
                        Action::Render
                    }
                },
                _ => Action::SetupFrame(self.width, self.height),
            },
            Phase::Hook => match input {
                Input::Hook(AppState::Exit) => {
                    self.phase = Phase::Done;
                    Action::Finish
                },
                Input::Hook(AppState::Continue) => {
                    self.phase = Phase::Rendering;
                    Action::Render
                },
                _ => Action::CallHook,
            },
            Phase::Rendering => match input {
                Input::Rendered(Ok(_)) => {
                    self.phase = Phase::Presenting;
                    Action::Present
                },
                Input::Rendered(Err(cause)) => {
                    self.fail(AppError::RendererError(cause));
                    Action::Finish
                },
                _ => Action::Render,
            },
            Phase::Presenting => match input {
                Input::Presented(Ok(_)) => {
                    self.phase = Phase::Polling;
                    Action::Poll
                },
                Input::Presented(Err(cause)) => {
                    self.fail(AppError::ContextError(cause));
                    Action::Finish
                },
                _ => Action::Present,
            },
            Phase::Done => Action::Finish,
        }
    }

    /// Ends the run: hands the event source back to the host, whatever the
    /// phase, and returns the run's outcome, which is the error that ended it
    /// or success.
    pub fn finish<E, W, R>(self, app: &mut App<E, W, R>, events_loop: E) -> (outcome: Result<
        (),
        AppError<RE>,
    >)
        ensures
            final(app)@ == old(app)@.released(events_loop),
            outcome == self@.outcome(),
    {
        app.release(events_loop);
        match self.failure {
            Some(error) => Err(error),
            None => Ok(()),
        }
    }
}

impl<E, W, R> App<E, W, R> {
    /// Starts a run without a per-frame hook: every frame is rendered and
    /// presented until a window event ends the run.
    ///
    /// Succeeds exactly where the host holds its event source, which passes to
    /// the caller together with a run at its start. While another run holds
    /// the source, fails with `EventsLoopIsNone` and changes nothing.
    pub fn run<RE>(&mut self) -> (started: Result<(E, RunLoop<RE>), AppError<RE>>)
        ensures
            match old(self)@.events_loop {
                Some(e) => started is Ok && started->Ok_0.0 == e && started->Ok_0.1@
                    == LoopState::<RE>::start(false) && final(self)@ == old(self)@.acquired(),
                None => started is Err && started->Err_0 == AppError::<RE>::EventsLoopIsNone
                    && final(self)@ == old(self)@,
            },
            (
                final(self)@,
                match started {
                    Ok(pair) => Some(pair.0),
                    Err(_) => None,
                },
            ) == old(self)@.start_run(),
    {
        match self.acquire() {
            Ok(events_loop) => Ok((events_loop, RunLoop::begin(false))),
            Err(error) => Err(error),
        }
    }

    /// Starts a run with a per-frame hook, which is asked once per frame,
    /// after the frame is set up and before it is rendered.
    ///
    /// Succeeds exactly where the host holds its event source, which passes to
    /// the caller together with a run at its start. While another run holds
    /// the source, fails with `EventsLoopIsNone` and changes nothing.
    pub fn run_proc<RE>(&mut self) -> (started: Result<(E, RunLoop<RE>), AppError<RE>>)
        ensures
            match old(self)@.events_loop {
                Some(e) => started is Ok && started->Ok_0.0 == e && started->Ok_0.1@
                    == LoopState::<RE>::start(true) && final(self)@ == old(self)@.acquired(),
                None => started is Err && started->Err_0 == AppError::<RE>::EventsLoopIsNone
                    && final(self)@ == old(self)@,
            },
            (
                final(self)@,
                match started {
                    Ok(pair) => Some(pair.0),
                    Err(_) => None,
                },
            ) == old(self)@.start_run(),
    {
        match self.acquire() {
            Ok(events_loop) => Ok((events_loop, RunLoop::begin(true))),
            Err(error) => Err(error),
        }
    }
}

} // verus!

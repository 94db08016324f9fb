//! Laws of the run loop, stated over its transition function.

use vstd::prelude::*;
use crate::host::HostView;
use crate::run_loop::{Action, Input, LoopState, Phase};
use crate::types::{AppError, AppState, Event};

verus! {

/// Polling keeps the run polling, asks for no GPU work, and leaves hook,
/// frame and failure as they were; the run stays marked as running exactly
/// where it was running and no event was a reason to exit.
pub proof fn law_polling<RE>(s: LoopState<RE>, exit_by_escape: bool, events: Seq<Event>)
    requires
        s.phase == Phase::Polling,
    ensures
        s.poll_all(exit_by_escape, events) == (LoopState {
            running: s.running && !LoopState::<RE>::any_asks_exit(exit_by_escape, events),
            pointer: s.poll_all(exit_by_escape, events).pointer,
            ..s
        }),
    decreases events.len(),
{
    if events.len() > 0 {
        let first = events[0];
        let rest = events.skip(1);
        let t = s.next(exit_by_escape, Input::Window(first)).0;
        law_polling(t, exit_by_escape, rest);
        assert(t.running == (s.running && !LoopState::<RE>::asks_exit(exit_by_escape, first)));
        if LoopState::<RE>::any_asks_exit(exit_by_escape, events) {
            let i = choose|i: int|
                0 <= i < events.len() && LoopState::<RE>::asks_exit(
                    exit_by_escape,
                    #[trigger] events[i],
                );
            if i > 0 {
                assert(rest[i - 1] == events[i]);
                assert(LoopState::<RE>::any_asks_exit(exit_by_escape, rest));
            }
        } else {
            if LoopState::<RE>::any_asks_exit(exit_by_escape, rest) {
                let j = choose|j: int|
                    0 <= j < rest.len() && LoopState::<RE>::asks_exit(
                        exit_by_escape,
                        #[trigger] rest[j],
                    );
                assert(events[j + 1] == rest[j]);
            }
        }
    }
}

/// A poll answers every event with one reaction, and none of them is GPU
/// work: the run only asks to go on polling, to resize the surface or to
/// dispatch a press.
pub proof fn law_poll_asks_no_gpu_work<RE>(s: LoopState<RE>, exit_by_escape: bool, events: Seq<Event>)
    requires
        s.phase == Phase::Polling,
    ensures
        s.poll_actions(exit_by_escape, events).len() == events.len(),
        forall|i: int|
            0 <= i < events.len() ==> !(#[trigger] s.poll_actions(
                exit_by_escape,
                events,
            )[i]).is_gpu_work(),
    decreases events.len(),
{
    if events.len() > 0 {
        let (after, reaction) = s.next(exit_by_escape, Input::Window(events[0]));
        let rest = events.skip(1);
        law_poll_asks_no_gpu_work(after, exit_by_escape, rest);
        let all = s.poll_actions(exit_by_escape, events);
        let tail = after.poll_actions(exit_by_escape, rest);
        assert(all == seq![reaction] + tail);
        assert forall|i: int| 0 <= i < events.len() implies !(#[trigger] all[i]).is_gpu_work() by {
            if i > 0 {
                assert(all[i] == tail[i - 1]);
            }
        }
    }
}

/// A poll that saw a close request ends the run when the queue is drained:
/// no reaction of that poll is GPU work, the action after it is `Finish`,
/// with no frame set up, rendered or presented, and a run without an error
/// returns success.
pub proof fn law_close_ends_run<RE>(s: LoopState<RE>, exit_by_escape: bool, events: Seq<Event>)
    requires
        s.phase == Phase::Polling,
        events.contains(Event::Closed),
    ensures
        ({
            let polled = s.poll_all(exit_by_escape, events);
            &&& polled.next(exit_by_escape, Input::Drained) == (
                polled.at(Phase::Done),
                Action::Finish,
            )
            &&& polled.at(Phase::Done).outcome() == s.outcome()
            &&& forall|i: int|
                0 <= i < events.len() ==> !(#[trigger] s.poll_actions(
                    exit_by_escape,
                    events,
                )[i]).is_gpu_work()
        }),
{
    law_polling(s, exit_by_escape, events);
    law_poll_asks_no_gpu_work(s, exit_by_escape, events);
    let i = choose|i: int| 0 <= i < events.len() && events[i] == Event::Closed;
    assert(LoopState::<RE>::asks_exit(exit_by_escape, events[i]));
}

/// Where Escape exits, a press of Escape acts as a close request does, also
/// within a whole poll; where it does not, the press is ignored like any
/// other event.
pub proof fn law_escape<RE>(s: LoopState<RE>, events: Seq<Event>)
    requires
        s.phase == Phase::Polling,
    ensures
        s.next(true, Input::Window(Event::EscapePressed)) == s.next(
            true,
            Input::Window(Event::Closed),
        ),
        s.next(false, Input::Window(Event::EscapePressed)) == (s, Action::Poll),
        s.next(false, Input::Window(Event::EscapePressed)) == s.next(
            false,
            Input::Window(Event::Other),
        ),
        events.contains(Event::EscapePressed) ==> ({
            let polled = s.poll_all(true, events);
            polled.next(true, Input::Drained) == (polled.at(Phase::Done), Action::Finish)
        }),
        s.running && (forall|i: int| 0 <= i < events.len() ==> events[i] != Event::Closed) ==> ({
            let polled = s.poll_all(false, events);
            polled.next(false, Input::Drained) == (polled.at(Phase::Sizing), Action::QuerySize)
        }),
{
    law_polling(s, true, events);
    law_polling(s, false, events);
    if events.contains(Event::EscapePressed) {
        let i = choose|i: int| 0 <= i < events.len() && events[i] == Event::EscapePressed;
        assert(LoopState::<RE>::asks_exit(true, events[i]));
    }
}

/// After an iteration that polled any events without a reason to exit and
/// then queried the window's size, the host's dimensions are the answer of
/// that query, whatever they were before and whatever resizes were polled.
pub proof fn law_dimensions_are_last_query<RE>(
    s: LoopState<RE>,
    exit_by_escape: bool,
    events: Seq<Event>,
    before: (u32, u32),
    size: (u32, u32),
)
    requires
        s.phase == Phase::Polling,
        s.running,
        !LoopState::<RE>::any_asks_exit(exit_by_escape, events),
    ensures
        ({
            let polled = s.poll_all(exit_by_escape, events);
            let sizing = polled.next(exit_by_escape, Input::Drained).0;
            let answer = Input::<RE>::InnerSize(Some(size));
            &&& sizing.phase == Phase::Sizing
            &&& sizing.dimensions_after(before, answer) == size
            &&& sizing.next(exit_by_escape, answer).1 == Action::SetupFrame(size.0, size.1)
        }),
{
    law_polling(s, exit_by_escape, events);
}

/// Only the answer of a size query changes the host's dimensions: no window
/// event does, a resize included.
pub proof fn law_events_keep_dimensions<RE>(s: LoopState<RE>, before: (u32, u32), event: Event)
    ensures
        s.dimensions_after(before, Input::Window(event)) == before,
{
}

/// A press before any pointer move is dispatched at the origin; after a
/// move, at the position of that move.
pub proof fn law_click_position<RE>(hooked: bool, exit_by_escape: bool, x: u64, y: u64)
    ensures
        ({
            let fresh = LoopState::<RE>::start(hooked);
            let moved = fresh.next(exit_by_escape, Input::Window(Event::CursorMoved(x, y))).0;
            &&& fresh.next(exit_by_escape, Input::Window(Event::LeftPressed)) == (
                fresh,
                Action::Click(0, 0),
            )
            &&& moved.next(exit_by_escape, Input::Window(Event::LeftPressed)) == (
                moved,
                Action::Click(x, y),
            )
        }),
{
}

/// A run starts where the host holds its event source. While that run is
/// active, another attempt fails and leaves the host as it is; once the run
/// has handed the source back, the host is as before the run, and a new run
/// starts as the first did.
pub proof fn law_reentrancy<E, W, R>(h: HostView<E, W, R>, source: E)
    requires
        h.events_loop == Some(source),
    ensures
        h.start_run() == (h.acquired(), Some(source)),
        h.acquired().start_run() == (h.acquired(), None::<E>),
        h.acquired().released(source) == h,
        h.acquired().released(source).start_run() == h.start_run(),
{
}

/// When the hook asks to exit, the run is over at once: the action is
/// `Finish`, every later action is `Finish` too, so nothing is rendered or
/// presented, and the run returns success.
pub proof fn law_hook_exit<RE>(s: LoopState<RE>, exit_by_escape: bool, later: Seq<Input<RE>>)
    requires
        s.wf(),
        s.phase == Phase::Hook,
    ensures
        ({
            let (ended, action) = s.next(exit_by_escape, Input::Hook(AppState::Exit));
            &&& action == Action::Finish
            &&& ended.phase == Phase::Done
            &&& ended.outcome() is Ok
            &&& ended.run_all(exit_by_escape, later) == ended
            &&& forall|i: int|
                0 <= i < later.len() ==> (#[trigger] ended.actions_of(exit_by_escape, later)[i])
                    == Action::Finish
        }),
{
    law_done_is_final(s.at(Phase::Done), exit_by_escape, later);
}

/// A finished run stays finished: whatever is reported from then on, the
/// state stays and every action is `Finish`, so no further iteration begins.
pub proof fn law_done_is_final<RE>(s: LoopState<RE>, exit_by_escape: bool, inputs: Seq<Input<RE>>)
    requires
        s.phase == Phase::Done,
    ensures
        s.run_all(exit_by_escape, inputs) == s,
        s.actions_of(exit_by_escape, inputs).len() == inputs.len(),
        forall|i: int|
            0 <= i < inputs.len() ==> (#[trigger] s.actions_of(exit_by_escape, inputs)[i])
                == Action::Finish,
    decreases inputs.len(),
{
    if inputs.len() > 0 {
        let rest = inputs.skip(1);
        assert(s.next(exit_by_escape, inputs[0]) == (s, Action::Finish));
        law_done_is_final(s, exit_by_escape, rest);
        let all = s.actions_of(exit_by_escape, inputs);
        let tail = s.actions_of(exit_by_escape, rest);
        assert(all == seq![Action::Finish] + tail);
        assert forall|i: int| 0 <= i < inputs.len() implies (#[trigger] all[i])
            == Action::Finish by {
            if i > 0 {
                assert(all[i] == tail[i - 1]);
            }
        }
    }
}

/// A failed render pass ends the run at once with the backend's error:
/// every later action is `Finish`, so nothing is presented and no further
/// iteration begins.
pub proof fn law_render_failure_ends_run<RE>(
    s: LoopState<RE>,
    exit_by_escape: bool,
    cause: RE,
    later: Seq<Input<RE>>,
)
    requires
        s.phase == Phase::Rendering,
    ensures
        ({
            let (ended, action) = s.next(exit_by_escape, Input::Rendered(Err(cause)));
            &&& action == Action::Finish
            &&& ended.outcome() == Err::<(), AppError<RE>>(AppError::RendererError(cause))
            &&& ended.run_all(exit_by_escape, later) == ended
            &&& forall|i: int|
                0 <= i < later.len() ==> (#[trigger] ended.actions_of(exit_by_escape, later)[i])
                    == Action::Finish
        }),
{
    law_done_is_final(s.failed(AppError::RendererError(cause)), exit_by_escape, later);
}

/// A failed buffer swap ends the run with `ContextError`, and a failed size
/// query with `WindowNoLongerExists`.
pub proof fn law_failures_end_run<RE>(s: LoopState<RE>, exit_by_escape: bool, text: String)
    ensures
        s.phase == Phase::Presenting ==> ({
            let (ended, action) = s.next(exit_by_escape, Input::Presented(Err(text)));
            action == Action::Finish && ended.phase == Phase::Done && ended.outcome() == Err::<
                (),
                AppError<RE>,
            >(AppError::ContextError(text))
        }),
        s.phase == Phase::Sizing ==> ({
            let (ended, action) = s.next(exit_by_escape, Input::InnerSize(None));
            action == Action::Finish && ended.phase == Phase::Done && ended.outcome() == Err::<
                (),
                AppError<RE>,
            >(AppError::WindowNoLongerExists)
        }),
{
}

/// Every transition keeps a run well formed, and a run at its start is.
pub proof fn law_well_formed<RE>(s: LoopState<RE>, exit_by_escape: bool, input: Input<RE>, hooked: bool)
    ensures
        LoopState::<RE>::start(hooked).wf(),
        s.wf() ==> s.next(exit_by_escape, input).0.wf(),
{
}

} // verus!

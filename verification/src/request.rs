//! The in-flight guard of a control that sends a request: while one request
//! runs, the control starts no other.
use vstd::prelude::*;

verus! {

/// Whether a control's request is running.
#[derive(Debug, Clone, Copy, PartialEq, Eq, Structural)]
pub enum RequestState {
    Idle,
    Running,
}

/// A click on the control that wants a request (`wanted`): the next state
/// and whether a request starts. A request starts only from `Idle`, and the
/// control is then `Running`; otherwise nothing changes.
pub open spec fn click_step(state: RequestState, wanted: bool) -> (RequestState, bool) {
    if wanted && state == RequestState::Idle {
        (RequestState::Running, true)
    } else {
        (state, false)
    }
}

impl RequestState {
    /// Whether a request is running: the control is disabled meanwhile.
    pub fn is_running(self) -> (r: bool)
        ensures
            r == (self == RequestState::Running),
    {
        match self {
            RequestState::Idle => false,
            RequestState::Running => true,
        }
    }

    /// The step of a click that wants a request.
    pub fn click(self, wanted: bool) -> (r: (RequestState, bool))
        ensures
            r == click_step(self, wanted),
    {
        if wanted && !self.is_running() {
            (RequestState::Running, true)
        } else {
            (self, false)
        }
    }

    /// The step when the running request finishes, whether it succeeded or
    /// failed: the control is idle again.
    pub fn finish(self) -> (r: RequestState)
        ensures
            r == RequestState::Idle,
    {
        RequestState::Idle
    }
}

/// What happens to a control: a click, wanting a request or not, or the end
/// of its running request.
pub enum RequestEvent {
    Click(bool),
    Done,
}

/// The control's state and the number of its requests in flight after an event.
pub open spec fn event_step(state: RequestState, in_flight: nat, event: RequestEvent) -> (
    RequestState,
    nat,
) {
    match event {
        RequestEvent::Click(wanted) => {
            let (next, start) = click_step(state, wanted);
            (next, if start {
                in_flight + 1
            } else {
                in_flight
            })
        },
        RequestEvent::Done => (RequestState::Idle, (in_flight - 1) as nat),
    }
}

/// The guard's invariant: at most one request is in flight, and the control
/// is running exactly while one is.
pub open spec fn guarded(state: RequestState, in_flight: nat) -> bool {
    &&& in_flight <= 1
    &&& (state == RequestState::Running <==> in_flight == 1)
}

/// The state and requests in flight after a run of events from `state`.
pub open spec fn run_events(state: RequestState, in_flight: nat, events: Seq<RequestEvent>) -> (
    RequestState,
    nat,
)
    decreases events.len(),
{
    if events.len() == 0 {
        (state, in_flight)
    } else {
        let (s, n) = event_step(state, in_flight, events[0]);
        run_events(s, n, events.drop_first())
    }
}

/// Whether every `Done` of a run ends a request that is in flight.
pub open spec fn ends_only_started(state: RequestState, in_flight: nat, events: Seq<RequestEvent>) -> bool
    decreases events.len(),
{
    if events.len() == 0 {
        true
    } else {
        let (s, n) = event_step(state, in_flight, events[0]);
        &&& (events[0] is Done ==> in_flight > 0)
        &&& ends_only_started(s, n, events.drop_first())
    }
}

/// One step keeps the guard's invariant: a click while a request runs starts
/// nothing, a click from idle starts at most one request, and the end of the
/// running request makes the control idle.
pub proof fn lemma_step_keeps_guard(state: RequestState, in_flight: nat, event: RequestEvent)
    requires
        guarded(state, in_flight),
        event is Done ==> in_flight > 0,
    ensures
        guarded(event_step(state, in_flight, event).0, event_step(state, in_flight, event).1),
{
}

/// From an idle control with nothing in flight, every run whose ends match
/// started requests keeps at most one request in flight, and the control is
/// running exactly while one is.
pub proof fn lemma_at_most_one_in_flight(state: RequestState, in_flight: nat, events: Seq<RequestEvent>)
    requires
        guarded(state, in_flight),
        ends_only_started(state, in_flight, events),
    ensures
        guarded(run_events(state, in_flight, events).0, run_events(state, in_flight, events).1),
    decreases events.len(),
{
    if events.len() > 0 {
        lemma_step_keeps_guard(state, in_flight, events[0]);
        let (s, n) = event_step(state, in_flight, events[0]);
        lemma_at_most_one_in_flight(s, n, events.drop_first());
    }
}

/// A click on "Clear completed": it wants a request when some todo is completed.
pub fn clear_completed_click(state: RequestState, completed: usize) -> (r: (RequestState, bool))
    ensures
        r == click_step(state, completed > 0),
{
    state.click(completed > 0)
}

/// A change of the "mark all as complete" box: it always wants a request.
pub fn toggle_all_click(state: RequestState) -> (r: (RequestState, bool))
    ensures
        r == click_step(state, true),
{
    state.click(true)
}

} // verus!

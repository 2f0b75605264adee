//! The decisions of the control loop: what to do with the persisted record
//! at startup, and what each event of the monitoring loop leads to.
use vstd::prelude::*;
use crate::agent_state::{
    APP_VERSION, DeviceView, Sensor, SensorState, SensorStateView, State, StateView, is_fresh_on,
    sensor_with_id,
};
use crate::connection::{
    Request, RequestView, Session, SessionView, opt_request, registered_state, registration_reply,
    registration_request, request_views, resolved_session, sensor_registrations,
};
use crate::error::AgentError;
use crate::wire::sensor_state_views;

verus! {

/// What the agent does with its record before it starts to monitor.
#[derive(Debug, Clone, Copy, PartialEq, Eq, Structural)]
pub enum StartupPlan {
    /// The device is unknown to the hub: register it and its sensors.
    Register,
    /// The device was registered by another version of the application:
    /// update the registration with a new identity.
    UpdateRegistration,
    /// The device is registered: resolve the push endpoint from the record.
    UseStored,
}

/// The plan for a record, given the version of the running application.
pub open spec fn startup_plan(state: StateView, running_version: Seq<char>) -> StartupPlan {
    if !state.registered {
        StartupPlan::Register
    } else if state.device.app_version != running_version {
        StartupPlan::UpdateRegistration
    } else {
        StartupPlan::UseStored
    }
}

/// The record that the agent goes on with: a fresh one where the
/// registration is to be updated, the given one otherwise.
pub open spec fn reconciled_state(
    state: StateView,
    running_version: Seq<char>,
    fresh: StateView,
) -> StateView {
    if startup_plan(state, running_version) == StartupPlan::UpdateRegistration {
        fresh
    } else {
        state
    }
}

/// The request with which a plan begins: a first registration where the
/// device is to be registered, the update of a registration where it is to
/// be updated, none where the record is used as it is.
pub open spec fn startup_request(
    session: SessionView,
    plan: StartupPlan,
    device: DeviceView,
) -> Option<RequestView> {
    match plan {
        StartupPlan::Register => Some(registration_request(session, device, true)),
        StartupPlan::UpdateRegistration => Some(registration_request(session, device, false)),
        StartupPlan::UseStored => None,
    }
}

/// The session after a plan has begun: with the push endpoint resolved from
/// the record where the record is used as it is, unchanged otherwise.
pub open spec fn startup_session(
    session: SessionView,
    plan: StartupPlan,
    state: StateView,
) -> SessionView {
    match plan {
        StartupPlan::UseStored => resolved_session(session, state.webhook_info),
        _ => session,
    }
}

/// The requests that follow the hub's reply under a plan: a first
/// registration is followed by the registration of the sensors, anything
/// else by nothing.
pub open spec fn startup_followers(
    plan: StartupPlan,
    webhook_url: Seq<char>,
    state: StateView,
) -> Seq<RequestView> {
    match plan {
        StartupPlan::Register => sensor_registrations(webhook_url, state.sensors),
        _ => Seq::empty(),
    }
}

/// One of the two sensors that the agent watches.
#[derive(Debug, Clone, Copy, PartialEq, Eq, Structural)]
pub enum SensorKind {
    Webcam,
    Microphone,
}

/// Something that the monitoring loop waited for.
#[derive(Debug, Clone, Copy, PartialEq, Eq, Structural)]
pub enum Event {
    /// A watcher reported whether its device is in use.
    Reading(SensorKind, bool),
    /// A push has come back, with an error where it failed.
    PushFinished(Option<AgentError>),
    /// Reading the realtime connection is over, with an error where it
    /// failed.
    InboundFinished(Option<AgentError>),
}

/// What the monitoring loop does about an event before it waits again.
#[derive(Debug, PartialEq)]
pub enum Action {
    /// Push these sensor values to the hub.
    Push(Vec<SensorState>),
    /// Report the error.
    Report(AgentError),
    /// Nothing.
    Nothing,
}

/// An action as plain values.
pub enum ActionView {
    Push(Seq<SensorStateView>),
    Report(AgentError),
    Nothing,
}

impl View for Action {
    type V = ActionView;

    open spec fn view(&self) -> ActionView {
        match *self {
            Action::Push(states) => ActionView::Push(sensor_state_views(states@)),
            Action::Report(e) => ActionView::Report(e),
            Action::Nothing => ActionView::Nothing,
        }
    }
}

/// Where the agent stands between its start and its end.
#[derive(Debug, Clone, Copy, PartialEq, Eq, Structural)]
pub enum Phase {
    /// The device is unknown to the hub.
    Unregistered,
    /// The registration is on its way.
    Registering,
    /// The device was registered by another version of the application.
    Stale,
    /// The update of the registration is on its way.
    Updating,
    /// The agent monitors.
    Ready,
    /// The agent cannot go on.
    Fatal,
}

/// What moves the agent from one phase to the next.
#[derive(Debug, Clone, Copy, PartialEq, Eq, Structural)]
pub enum Progress {
    /// The registration, or its update, has been sent.
    RequestSent,
    /// The hub has replied to it, with an error where it failed.
    Replied(Option<AgentError>),
    /// Something happened in the monitoring loop.
    Monitoring(Event),
}

/// The phase in which a plan begins.
pub open spec fn first_phase(plan: StartupPlan) -> Phase {
    match plan {
        StartupPlan::Register => Phase::Unregistered,
        StartupPlan::UpdateRegistration => Phase::Stale,
        StartupPlan::UseStored => Phase::Ready,
    }
}

/// The phase that follows. A registration that fails at startup is fatal;
/// once the agent monitors, nothing that happens in the loop ends it.
pub open spec fn next_phase(phase: Phase, progress: Progress) -> Phase {
    match (phase, progress) {
        (Phase::Unregistered, Progress::RequestSent) => Phase::Registering,
        (Phase::Stale, Progress::RequestSent) => Phase::Updating,
        (Phase::Registering, Progress::Replied(None)) => Phase::Ready,
        (Phase::Updating, Progress::Replied(None)) => Phase::Ready,
        (Phase::Registering, Progress::Replied(Some(_))) => Phase::Fatal,
        (Phase::Updating, Progress::Replied(Some(_))) => Phase::Fatal,
        (Phase::Ready, Progress::Monitoring(_)) => Phase::Ready,
        _ => phase,
    }
}

impl Phase {
    /// The phase in which a plan begins.
    pub fn first(plan: StartupPlan) -> (phase: Phase)
        ensures
            phase == first_phase(plan),
    {
        match plan {
            StartupPlan::Register => Phase::Unregistered,
            StartupPlan::UpdateRegistration => Phase::Stale,
            StartupPlan::UseStored => Phase::Ready,
        }
    }

    /// The phase that follows this one.
    pub fn next(self, progress: Progress) -> (phase: Phase)
        ensures
            phase == next_phase(self, progress),
    {
        match (self, progress) {
            (Phase::Unregistered, Progress::RequestSent) => Phase::Registering,
            (Phase::Stale, Progress::RequestSent) => Phase::Updating,
            (Phase::Registering, Progress::Replied(None)) => Phase::Ready,
            (Phase::Updating, Progress::Replied(None)) => Phase::Ready,
            (Phase::Registering, Progress::Replied(Some(_))) => Phase::Fatal,
            (Phase::Updating, Progress::Replied(Some(_))) => Phase::Fatal,
            _ => self,
        }
    }
}

/// Once the agent monitors it goes on monitoring, whatever fails in the
/// loop.
pub proof fn lemma_ready_stays_ready(event: Event)
    ensures
        next_phase(Phase::Ready, Progress::Monitoring(event)) == Phase::Ready,
{
}

/// The agent ends only where a registration, or its update, has failed.
pub proof fn lemma_fatal_only_from_failed_registration(phase: Phase, progress: Progress)
    requires
        phase != Phase::Fatal,
        next_phase(phase, progress) == Phase::Fatal,
    ensures
        phase == Phase::Registering || phase == Phase::Updating,
        progress matches Progress::Replied(Some(_)),
{
}

/// The sensor values that the monitoring loop has pushed last.
#[derive(Debug, PartialEq)]
pub struct Monitor {
    webcam: SensorState,
    microphone: SensorState,
}

/// The two sensor values as plain text.
pub struct MonitorView {
    pub webcam: SensorStateView,
    pub microphone: SensorStateView,
}

impl View for Monitor {
    type V = MonitorView;

    closed spec fn view(&self) -> MonitorView {
        MonitorView { webcam: self.webcam@, microphone: self.microphone@ }
    }
}

impl MonitorView {
    /// The value of one of the two sensors.
    pub open spec fn sensor(self, kind: SensorKind) -> SensorStateView {
        match kind {
            SensorKind::Webcam => self.webcam,
            SensorKind::Microphone => self.microphone,
        }
    }

    /// The monitor with one of the two sensors set to a reading.
    pub open spec fn with_reading(self, kind: SensorKind, in_use: bool) -> MonitorView {
        match kind {
            SensorKind::Webcam => MonitorView {
                webcam: SensorStateView { value: in_use, ..self.webcam },
                ..self
            },
            SensorKind::Microphone => MonitorView {
                microphone: SensorStateView { value: in_use, ..self.microphone },
                ..self
            },
        }
    }
}

/// A sensor value taken from the record, switched on where the device is
/// in use.
pub open spec fn probed(state: SensorStateView, in_use: bool) -> SensorStateView {
    SensorStateView { value: state.value || in_use, ..state }
}

/// The monitor that the loop starts with: the camera and the microphone of
/// the record, each switched on where its device is in use. There is none
/// where the record lacks one of the two.
pub open spec fn initial_monitor(
    state: StateView,
    webcam_in_use: bool,
    microphone_in_use: bool,
) -> Option<MonitorView> {
    match (
        sensor_with_id(state.sensors, "webcam"@),
        sensor_with_id(state.sensors, "microphone"@),
    ) {
        (Some(webcam), Some(microphone)) => Some(
            MonitorView {
                webcam: probed(webcam.state, webcam_in_use),
                microphone: probed(microphone.state, microphone_in_use),
            },
        ),
        _ => None,
    }
}

/// What an event leads to: the monitor afterwards and the action. A
/// reading that differs from the sensor's value is taken over and pushed; a
/// reading that repeats it changes nothing. A push or a reading of the
/// realtime connection that is over leaves the monitor as it is, and its
/// error, where it has one, is reported.
pub open spec fn step(monitor: MonitorView, event: Event) -> (MonitorView, ActionView) {
    match event {
        Event::Reading(kind, in_use) => if monitor.sensor(kind).value != in_use {
            let next = monitor.with_reading(kind, in_use);
            (next, ActionView::Push(seq![next.sensor(kind)]))
        } else {
            (monitor, ActionView::Nothing)
        },
        Event::PushFinished(Some(e)) => (monitor, ActionView::Report(e)),
        Event::InboundFinished(Some(e)) => (monitor, ActionView::Report(e)),
        _ => (monitor, ActionView::Nothing),
    }
}

/// The actions that a run of events leads to, one for each event, in
/// order.
pub open spec fn run(monitor: MonitorView, events: Seq<Event>) -> Seq<ActionView>
    decreases events.len(),
{
    if events.len() == 0 {
        Seq::empty()
    } else {
        seq![step(monitor, events[0]).1] + run(step(monitor, events[0]).0, events.drop_first())
    }
}

/// The readings of one sensor as events, in order.
pub open spec fn readings(kind: SensorKind, values: Seq<bool>) -> Seq<Event> {
    Seq::new(values.len(), |i: int| Event::Reading(kind, values[i]))
}

/// The reading before the one at `i`: the sensor's value at the start for
/// the first, the reading at `i - 1` for the others.
pub open spec fn previous_reading(start: bool, values: Seq<bool>, i: int) -> bool {
    if i == 0 {
        start
    } else {
        values[i - 1]
    }
}

impl State {
    /// Decides what to do with the record before monitoring starts.
    pub fn startup_plan(&self) -> (plan: StartupPlan)
        ensures
            plan == startup_plan(self@, APP_VERSION@),
    {
        self.startup_plan_for(APP_VERSION)
    }

    /// Decides what to do with the record before monitoring starts, for a
    /// given version of the running application.
    pub fn startup_plan_for(&self, running_version: &str) -> (plan: StartupPlan)
        ensures
            plan == startup_plan(self@, running_version@),
    {
        if !self.registered {
            StartupPlan::Register
        } else if !self.device.app_version.as_str().eq(running_version) {
            StartupPlan::UpdateRegistration
        } else {
            StartupPlan::UseStored
        }
    }

    /// The record to go on with under a plan: where the registration is to
    /// be updated, the persisted identity is given up for a fresh record;
    /// otherwise the record stays. `hostname` is the name of the machine,
    /// `None` where it has given none.
    pub fn reconcile(self, hostname: Option<String>) -> (next: (State, StartupPlan))
        ensures
            next.1 == startup_plan(self@, APP_VERSION@),
            next.1 == StartupPlan::UpdateRegistration ==> is_fresh_on(next.0@, hostname),
            next.1 != StartupPlan::UpdateRegistration ==> next.0 == self,
    {
        let plan = self.startup_plan();
        match plan {
            StartupPlan::UpdateRegistration => (State::new(hostname), plan),
            _ => (self, plan),
        }
    }

    /// The record to go on with, given the version of the running
    /// application and the fresh record that takes the place of a stale
    /// one.
    pub fn reconcile_with(self, running_version: &str, fresh: State) -> (next: (State, StartupPlan))
        ensures
            next.1 == startup_plan(self@, running_version@),
            next.0@ == reconciled_state(self@, running_version@, fresh@),
    {
        let plan = self.startup_plan_for(running_version);
        match plan {
            StartupPlan::UpdateRegistration => (fresh, plan),
            _ => (self, plan),
        }
    }
}

impl Session {
    /// Begins a plan. Where the plan is to register the device or to update
    /// its registration, the request for that comes out and the session
    /// stays as it is. Where the plan is to use the record as it is, the
    /// push endpoint is resolved from the record and nothing is to be sent.
    pub fn startup_request(&mut self, plan: StartupPlan, state: &State) -> (request: Option<Request>)
        ensures
            opt_request(request) == startup_request(old(self)@, plan, state@.device),
            final(self)@ == startup_session(old(self)@, plan, state@),
    {
        match plan {
            StartupPlan::Register => Some(self.registration_request(&state.device, true)),
            StartupPlan::UpdateRegistration => Some(
                self.registration_request(&state.device, false),
            ),
            StartupPlan::UseStored => {
                self.update_webhook_url(&state.webhook_info);
                None
            },
        }
    }

    /// Takes the hub's reply to the request of a plan into record and
    /// session, and hands out the requests that follow. Where the hub has
    /// accepted, the record is registered and the push endpoint resolved
    /// anew. A failed registration leaves record and session as they were.
    /// A plan that sent no request has no reply: nothing changes and
    /// nothing follows.
    pub fn startup_reply(
        &mut self,
        plan: StartupPlan,
        state: &mut State,
        status: u16,
        body: &str,
    ) -> (requests: Result<Vec<Request>, AgentError>)
        ensures
            match plan {
                StartupPlan::UseStored => requests matches Ok(r) && r@.len() == 0
                    && *final(state) == *old(state) && *final(self) == *old(self),
                _ => match registration_reply(status, body@) {
                    Some(info) => requests matches Ok(r)
                        && final(state)@ == registered_state(old(state)@, info)
                        && final(self)@ == resolved_session(old(self)@, info)
                        && request_views(r@) == startup_followers(
                        plan,
                        final(self)@.webhook_url,
                        old(state)@,
                    ),
                    None => requests == Err::<Vec<Request>, AgentError>(
                        AgentError::RegistrationFailed,
                    ) && *final(state) == *old(state) && *final(self) == *old(self),
                },
            },
    {
        match plan {
            StartupPlan::Register => self.register(state, status, body),
            StartupPlan::UpdateRegistration => match self.update_registration(state, status, body) {
                Ok(()) => {
                    let none: Vec<Request> = Vec::new();
                    assert(request_views(none@) =~= Seq::<RequestView>::empty());
                    Ok(none)
                },
                Err(e) => Err(e),
            },
            StartupPlan::UseStored => Ok(Vec::new()),
        }
    }
}

fn probe(sensor: Sensor, in_use: bool) -> (state: SensorState)
    ensures
        state@ == probed(sensor@.state, in_use),
{
    let mut state = sensor.state;
    if in_use {
        state.value = true;
    }
    state
}

impl Monitor {
    /// Sets the monitoring loop up from the record and from what the two
    /// devices say at this moment.
    pub fn start(
        state: &State,
        webcam_in_use: bool,
        microphone_in_use: bool,
    ) -> (monitor: Option<Monitor>)
        ensures
            match monitor {
                Some(m) => initial_monitor(state@, webcam_in_use, microphone_in_use) == Some(m@),
                None => initial_monitor(state@, webcam_in_use, microphone_in_use) is None,
            },
    {
        let webcam = state.get_sensor_by_unique_id("webcam");
        let microphone = state.get_sensor_by_unique_id("microphone");
        match (webcam, microphone) {
            (Some(webcam), Some(microphone)) => Some(
                Monitor {
                    webcam: probe(webcam, webcam_in_use),
                    microphone: probe(microphone, microphone_in_use),
                },
            ),
            _ => None,
        }
    }

    /// The value of one sensor, as a push carries it.
    pub fn snapshot(&self, kind: SensorKind) -> (states: Vec<SensorState>)
        ensures
            sensor_state_views(states@) == seq![self@.sensor(kind)],
    {
        let mut states: Vec<SensorState> = Vec::new();
        match kind {
            SensorKind::Webcam => states.push(self.webcam.clone()),
            SensorKind::Microphone => states.push(self.microphone.clone()),
        }
        assert(sensor_state_views(states@) =~= seq![self@.sensor(kind)]);
        states
    }

    /// Takes one event of the monitoring loop and says what to do about
    /// it.
    pub fn handle(&mut self, event: Event) -> (action: Action)
        ensures
            (final(self)@, action@) == step(old(self)@, event),
    {
        match event {
            Event::Reading(kind, in_use) => {
                let changed = match kind {
                    SensorKind::Webcam => self.webcam.value != in_use,
                    SensorKind::Microphone => self.microphone.value != in_use,
                };
                if changed {
                    match kind {
                        SensorKind::Webcam => { self.webcam.value = in_use; },
                        SensorKind::Microphone => { self.microphone.value = in_use; },
                    }
                    Action::Push(self.snapshot(kind))
                } else {
                    Action::Nothing
                }
            },
            Event::PushFinished(Some(e)) => Action::Report(e),
            Event::InboundFinished(Some(e)) => Action::Report(e),
            _ => Action::Nothing,
        }
    }
}

/// A record that is registered under another version than the running one
/// has its registration updated, never made anew, and its identity is given
/// up for a fresh one: the request that goes out is the update of a
/// registration.
pub proof fn lemma_stale_version_updates_registration(
    state: StateView,
    running_version: Seq<char>,
    fresh: StateView,
    session: SessionView,
)
    requires
        state.registered,
        state.device.app_version != running_version,
    ensures
        startup_plan(state, running_version) == StartupPlan::UpdateRegistration,
        startup_plan(state, running_version) != StartupPlan::Register,
        reconciled_state(state, running_version, fresh) == fresh,
        startup_request(session, startup_plan(state, running_version), fresh.device) == Some(
            registration_request(session, fresh.device, false),
        ),
{
}

/// A record keeps its identity unless its registration is to be updated.
pub proof fn lemma_identity_is_kept_otherwise(
    state: StateView,
    running_version: Seq<char>,
    fresh: StateView,
)
    requires
        !state.registered || state.device.app_version == running_version,
    ensures
        startup_plan(state, running_version) != StartupPlan::UpdateRegistration,
        reconciled_state(state, running_version, fresh) == state,
{
}

/// Of a run of readings of one sensor, exactly those are pushed that
/// differ from the reading before them, and each push carries the sensor
/// with the new value. A reading that repeats the one before it leads to
/// nothing.
pub proof fn lemma_only_changes_are_pushed(
    monitor: MonitorView,
    kind: SensorKind,
    values: Seq<bool>,
    i: int,
)
    requires
        0 <= i < values.len(),
    ensures
        run(monitor, readings(kind, values)).len() == values.len(),
        values[i] != previous_reading(monitor.sensor(kind).value, values, i) ==> run(
            monitor,
            readings(kind, values),
        )[i] == ActionView::Push(
            seq![SensorStateView { value: values[i], ..monitor.sensor(kind) }],
        ),
        values[i] == previous_reading(monitor.sensor(kind).value, values, i) ==> run(
            monitor,
            readings(kind, values),
        )[i] == ActionView::Nothing,
    decreases values.len(),
{
    let events = readings(kind, values);
    let next = step(monitor, events[0]).0;
    let rest = values.drop_first();
    assert(events.drop_first() =~= readings(kind, rest));
    lemma_run_length(monitor, events);
    assert(next.sensor(kind) == SensorStateView { value: values[0], ..monitor.sensor(kind) });
    if i > 0 {
        lemma_only_changes_are_pushed(next, kind, rest, i - 1);
        assert(run(monitor, events)[i] == run(next, events.drop_first())[i - 1]);
        assert(rest[i - 1] == values[i]);
        assert(previous_reading(next.sensor(kind).value, rest, i - 1) == previous_reading(
            monitor.sensor(kind).value,
            values,
            i,
        ));
    }
}

/// A run leads to one action for each event.
pub proof fn lemma_run_length(monitor: MonitorView, events: Seq<Event>)
    ensures
        run(monitor, events).len() == events.len(),
    decreases events.len(),
{
    if events.len() > 0 {
        lemma_run_length(step(monitor, events[0]).0, events.drop_first());
    }
}

/// A push that failed neither changes what the loop knows nor what it does
/// next: the event after it is treated as if the push had not happened, and
/// the failure itself leads to a report, not to the end of the loop.
pub proof fn lemma_failed_push_does_not_interfere(
    monitor: MonitorView,
    failure: AgentError,
    next: Event,
)
    ensures
        step(monitor, Event::PushFinished(Some(failure))) == (monitor, ActionView::Report(failure)),
        step(step(monitor, Event::PushFinished(Some(failure))).0, next) == step(monitor, next),
        run(monitor, seq![Event::PushFinished(Some(failure)), next])[1] == step(monitor, next).1,
{
    let events = seq![Event::PushFinished(Some(failure)), next];
    let rest = events.drop_first();
    assert(rest[0] == next);
    assert(rest.drop_first().len() == 0);
    reveal_with_fuel(run, 3);
}

/// The readings of one sensor never touch the other.
pub proof fn lemma_sensors_are_independent(monitor: MonitorView, kind: SensorKind, in_use: bool)
    ensures
        kind == SensorKind::Webcam ==> step(monitor, Event::Reading(kind, in_use)).0.microphone
            == monitor.microphone,
        kind == SensorKind::Microphone ==> step(monitor, Event::Reading(kind, in_use)).0.webcam
            == monitor.webcam,
{
}

} // verus!

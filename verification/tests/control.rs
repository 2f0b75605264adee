use ha_agent::agent_state::{State, APP_VERSION};
use ha_agent::connection::Session;
use ha_agent::control::{Action, Event, Monitor, Phase, Progress, SensorKind, StartupPlan};
use ha_agent::error::AgentError;

fn record(registered: bool, app_version: &str) -> State {
    let mut state = State::assemble(
        Some(String::from("Linux")),
        Some(String::from("6.1.0")),
        Some(String::from("den")),
        Some(String::from("alice")),
    );
    state.registered = registered;
    state.device.app_version = String::from(app_version);
    state
}

fn pushes(monitor: &mut Monitor, kind: SensorKind, readings: &[bool]) -> Vec<bool> {
    let mut pushed = Vec::new();
    for reading in readings {
        match monitor.handle(Event::Reading(kind, *reading)) {
            Action::Push(states) => {
                assert_eq!(states.len(), 1);
                pushed.push(states[0].value);
            }
            Action::Nothing => {}
            Action::Report(e) => panic!("{:?}", e),
        }
    }
    pushed
}

#[test]
fn an_unregistered_record_is_registered() {
    assert_eq!(record(false, APP_VERSION).startup_plan(), StartupPlan::Register);
    assert_eq!(record(false, "0.0.1").startup_plan(), StartupPlan::Register);
    assert_eq!(record(false, "0.0.1").startup_plan_for("0.0.2"), StartupPlan::Register);
}

#[test]
fn a_version_mismatch_updates_the_registration() {
    assert_eq!(record(true, "0.0.1").startup_plan(), StartupPlan::UpdateRegistration);
    assert_eq!(record(true, "").startup_plan(), StartupPlan::UpdateRegistration);
    assert_eq!(record(true, "1.0").startup_plan_for("1.0.0"), StartupPlan::UpdateRegistration);
}

#[test]
fn a_registered_record_of_this_version_is_used() {
    assert_eq!(record(true, APP_VERSION).startup_plan(), StartupPlan::UseStored);
    assert_eq!(record(true, "9.9.9").startup_plan_for("9.9.9"), StartupPlan::UseStored);
}

#[test]
fn a_stale_record_gives_way_to_a_fresh_one() {
    let mut stale = record(true, "0.0.1");
    stale.webhook_info.webhook_id = Some(String::from("abc"));
    stale.device.device_id = String::from("someone@else");

    let (next, plan) = stale.reconcile(sys_info::hostname().ok());
    assert_eq!(plan, StartupPlan::UpdateRegistration);
    assert_eq!(next, State::new(sys_info::hostname().ok()));
    assert_eq!(next.registered, false);
    assert_eq!(next.device.app_version, APP_VERSION);
}

#[test]
fn reconcile_with_takes_the_fresh_record_only_for_a_stale_one() {
    let fresh = record(false, "2.0.0");

    let (next, plan) = record(true, "1.0.0").reconcile_with("2.0.0", record(false, "2.0.0"));
    assert_eq!(plan, StartupPlan::UpdateRegistration);
    assert_eq!(next, fresh);

    let (next, plan) = record(true, "2.0.0").reconcile_with("2.0.0", record(false, "2.0.0"));
    assert_eq!(plan, StartupPlan::UseStored);
    assert_eq!(next, record(true, "2.0.0"));

    let (next, plan) = record(false, "1.0.0").reconcile_with("2.0.0", record(false, "2.0.0"));
    assert_eq!(plan, StartupPlan::Register);
    assert_eq!(next, record(false, "1.0.0"));
}

#[test]
fn other_records_stay_as_they_are() {
    let kept = record(true, APP_VERSION);
    assert_eq!(kept.reconcile(None), (record(true, APP_VERSION), StartupPlan::UseStored));

    let unregistered = record(false, "0.0.1");
    assert_eq!(unregistered.reconcile(None), (record(false, "0.0.1"), StartupPlan::Register));
}

#[test]
fn monitor_starts_from_the_record_and_the_devices() {
    let state = record(true, APP_VERSION);

    let monitor = Monitor::start(&state, false, true).unwrap();
    assert_eq!(monitor.snapshot(SensorKind::Webcam), vec![state.sensors[0].state.clone()]);
    let mut microphone = state.sensors[1].state.clone();
    microphone.value = true;
    assert_eq!(monitor.snapshot(SensorKind::Microphone), vec![microphone]);
}

#[test]
fn monitor_keeps_a_value_that_the_record_has_switched_on() {
    let mut state = record(true, APP_VERSION);
    state.sensors[0].state.value = true;

    let monitor = Monitor::start(&state, false, false).unwrap();
    assert_eq!(monitor.snapshot(SensorKind::Webcam)[0].value, true);
    assert_eq!(monitor.snapshot(SensorKind::Microphone)[0].value, false);
}

#[test]
fn monitor_needs_both_sensors() {
    let mut state = record(true, APP_VERSION);
    state.sensors.remove(1);
    assert_eq!(Monitor::start(&state, false, false), None);

    let mut state = record(true, APP_VERSION);
    state.sensors[0].state.unique_id = String::from("camera");
    assert_eq!(Monitor::start(&state, true, true), None);
}

#[test]
fn only_the_two_transitions_of_four_readings_are_pushed() {
    let mut monitor = Monitor::start(&record(true, APP_VERSION), false, false).unwrap();

    assert_eq!(
        pushes(&mut monitor, SensorKind::Webcam, &[false, true, true, false]),
        vec![true, false]
    );
}

#[test]
fn repeated_readings_are_not_pushed() {
    let mut monitor = Monitor::start(&record(true, APP_VERSION), true, false).unwrap();

    assert_eq!(pushes(&mut monitor, SensorKind::Webcam, &[true, true, true]), Vec::<bool>::new());
    assert_eq!(pushes(&mut monitor, SensorKind::Microphone, &[false, false]), Vec::<bool>::new());
    assert_eq!(pushes(&mut monitor, SensorKind::Webcam, &[]), Vec::<bool>::new());
    assert_eq!(
        pushes(&mut monitor, SensorKind::Microphone, &[true, false, true, false]),
        vec![true, false, true, false]
    );
}

#[test]
fn a_push_carries_the_sensor_with_its_new_value() {
    let state = record(true, APP_VERSION);
    let mut monitor = Monitor::start(&state, false, false).unwrap();

    let mut expected = state.sensors[1].state.clone();
    expected.value = true;
    assert_eq!(
        monitor.handle(Event::Reading(SensorKind::Microphone, true)),
        Action::Push(vec![expected.clone()])
    );
    assert_eq!(monitor.snapshot(SensorKind::Microphone), vec![expected]);
    assert_eq!(monitor.snapshot(SensorKind::Webcam), vec![state.sensors[0].state.clone()]);
}

#[test]
fn a_failed_push_does_not_hold_up_the_other_sensor() {
    let state = record(true, APP_VERSION);
    let mut monitor = Monitor::start(&state, false, false).unwrap();
    let mut undisturbed = Monitor::start(&state, false, false).unwrap();

    assert!(matches!(
        monitor.handle(Event::Reading(SensorKind::Webcam, true)),
        Action::Push(_)
    ));
    assert_eq!(
        monitor.handle(Event::PushFinished(Some(AgentError::PushFailed))),
        Action::Report(AgentError::PushFailed)
    );
    let after_failure = monitor.handle(Event::Reading(SensorKind::Microphone, true));

    undisturbed.handle(Event::Reading(SensorKind::Webcam, true));
    let without_failure = undisturbed.handle(Event::Reading(SensorKind::Microphone, true));

    assert!(matches!(after_failure, Action::Push(_)));
    assert_eq!(after_failure, without_failure);
    assert_eq!(monitor, undisturbed);
}

#[test]
fn what_is_over_without_an_error_leads_to_nothing() {
    let state = record(true, APP_VERSION);
    let mut monitor = Monitor::start(&state, false, false).unwrap();

    assert_eq!(monitor.handle(Event::PushFinished(None)), Action::Nothing);
    assert_eq!(monitor.handle(Event::InboundFinished(None)), Action::Nothing);
    assert_eq!(
        monitor.handle(Event::InboundFinished(Some(AgentError::ConnectionError))),
        Action::Report(AgentError::ConnectionError)
    );
    assert_eq!(monitor, Monitor::start(&state, false, false).unwrap());
}

#[test]
fn phases_follow_the_plan() {
    assert_eq!(Phase::first(StartupPlan::Register), Phase::Unregistered);
    assert_eq!(Phase::first(StartupPlan::UpdateRegistration), Phase::Stale);
    assert_eq!(Phase::first(StartupPlan::UseStored), Phase::Ready);

    assert_eq!(Phase::Unregistered.next(Progress::RequestSent), Phase::Registering);
    assert_eq!(Phase::Registering.next(Progress::Replied(None)), Phase::Ready);
    assert_eq!(Phase::Stale.next(Progress::RequestSent), Phase::Updating);
    assert_eq!(Phase::Updating.next(Progress::Replied(None)), Phase::Ready);
}

#[test]
fn a_failed_registration_is_fatal() {
    let failed = Progress::Replied(Some(AgentError::RegistrationFailed));
    assert_eq!(Phase::Registering.next(failed), Phase::Fatal);
    assert_eq!(Phase::Updating.next(failed), Phase::Fatal);
    assert_eq!(Phase::Fatal.next(Progress::Replied(None)), Phase::Fatal);
    assert_eq!(Phase::Fatal.next(Progress::RequestSent), Phase::Fatal);
}

#[test]
fn nothing_in_the_loop_ends_the_agent() {
    let events = [
        Event::Reading(SensorKind::Webcam, true),
        Event::Reading(SensorKind::Microphone, false),
        Event::PushFinished(Some(AgentError::PushFailed)),
        Event::PushFinished(None),
        Event::InboundFinished(Some(AgentError::ConnectionError)),
        Event::InboundFinished(None),
    ];
    for event in events {
        assert_eq!(Phase::Ready.next(Progress::Monitoring(event)), Phase::Ready);
    }
    assert_eq!(Phase::Ready.next(Progress::Replied(Some(AgentError::PushFailed))), Phase::Ready);
    assert_eq!(Phase::Ready.next(Progress::RequestSent), Phase::Ready);
}

#[test]
fn a_plan_to_register_begins_with_a_first_registration() {
    let mut session = Session::new("https", "hub.local:8123", "token");
    let state = record(false, APP_VERSION);

    let request = session.startup_request(StartupPlan::Register, &state).unwrap();
    assert_eq!(request, session.registration_request(&state.device, true));
    assert!(request.body.ends_with("\"type\":\"register\"}"));
    assert_eq!(session.webhook_url(), "");
}

#[test]
fn a_plan_to_update_begins_with_the_update_of_a_registration() {
    let mut session = Session::new("https", "hub.local:8123", "token");
    let mut state = record(true, "0.0.1");
    state.webhook_info.webhook_id = Some(String::from("old"));

    let request = session.startup_request(StartupPlan::UpdateRegistration, &state).unwrap();
    assert_eq!(request, session.registration_request(&state.device, false));
    assert!(request.body.ends_with("\"type\":\"update_registration\"}"));
    assert_eq!(session.webhook_url(), "");
}

#[test]
fn a_plan_to_use_the_record_resolves_the_endpoint_and_sends_nothing() {
    let mut session = Session::new("https", "hub.local:8123", "token");
    let mut state = record(true, APP_VERSION);
    state.webhook_info.webhook_id = Some(String::from("abc"));

    assert_eq!(session.startup_request(StartupPlan::UseStored, &state), None);
    assert_eq!(session.webhook_url(), "https://hub.local:8123/api/webhook/abc");

    assert_eq!(
        session.startup_reply(StartupPlan::UseStored, &mut state, 500, "no reply"),
        Ok(vec![])
    );
    assert_eq!(session.webhook_url(), "https://hub.local:8123/api/webhook/abc");
    assert_eq!(state.webhook_info.webhook_id, Some(String::from("abc")));
}

#[test]
fn the_reply_to_a_first_registration_is_followed_by_the_sensors() {
    let mut session = Session::new("https", "hub.local:8123", "token");
    let mut state = record(false, APP_VERSION);

    let followers = session
        .startup_reply(StartupPlan::Register, &mut state, 201, "{\"webhook_id\": \"abc\"}")
        .unwrap();
    assert_eq!(followers.len(), 2);
    assert_eq!(followers, session.register_sensors(&state));
    assert_eq!(followers[0].url, "https://hub.local:8123/api/webhook/abc");
    assert_eq!(state.registered, true);
}

#[test]
fn the_reply_to_an_update_is_followed_by_nothing() {
    let mut session = Session::new("https", "hub.local:8123", "token");
    let mut state = record(false, APP_VERSION);

    assert_eq!(
        session.startup_reply(
            StartupPlan::UpdateRegistration,
            &mut state,
            200,
            "{\"webhook_id\": \"abc\"}"
        ),
        Ok(vec![])
    );
    assert_eq!(session.webhook_url(), "https://hub.local:8123/api/webhook/abc");
    assert_eq!(state.registered, true);
}

#[test]
fn a_rejected_startup_request_changes_nothing() {
    for plan in [StartupPlan::Register, StartupPlan::UpdateRegistration] {
        let mut session = Session::new("https", "hub.local:8123", "token");
        let mut state = record(false, APP_VERSION);

        assert_eq!(
            session.startup_reply(plan, &mut state, 401, "{\"webhook_id\": \"abc\"}"),
            Err(AgentError::RegistrationFailed)
        );
        assert_eq!(state, record(false, APP_VERSION));
        assert_eq!(session.webhook_url(), "");
    }
}

use ha_agent::agent_state::State;
use ha_agent::error::AgentError;
use std::io::{Read, Write};
use tempfile::tempdir;

#[test]
fn test_new_state() {
    let state = State::new(sys_info::hostname().ok());

    assert_eq!(state.registered, false);
    assert_eq!(state.device.device_id.contains('@'), true);
    assert_eq!(state.device.app_id, "ha-agent-rs");
    assert_eq!(state.device.app_name, "Home Assistant Agent");
    assert_eq!(state.sensors.len(), 2);
    assert_eq!(state.sensors[0].name, "Webcam");
    assert_eq!(state.sensors[1].name, "Microphone");
}

#[test]
fn test_init_state_with_empty_path() {
    let state = State::init("", sys_info::hostname().ok());

    assert_eq!(state.registered, false);
    assert_eq!(state.device.device_id.contains('@'), true);
    assert_eq!(state.device.app_id, "ha-agent-rs");
    assert_eq!(state.device.app_name, "Home Assistant Agent");
    assert_eq!(state.sensors.len(), 2);
    assert_eq!(state.sensors[0].name, "Webcam");
    assert_eq!(state.sensors[1].name, "Microphone");
}

#[test]
fn test_save_and_load_state() {
    let dir = tempdir().unwrap();
    let mut file = tempfile::Builder::new()
        .prefix("state.json")
        .tempfile_in(dir.path())
        .unwrap();
    let state = State::new(sys_info::hostname().ok());

    file.write_all(state.save_state().unwrap().as_bytes()).unwrap();

    let mut persisted = String::new();
    file.reopen().unwrap().read_to_string(&mut persisted).unwrap();
    let loaded_state = State::load_state(&persisted).unwrap();

    assert_eq!(state, loaded_state);
}

#[test]
fn test_get_sensor_by_unique_id() {
    let state = State::new(sys_info::hostname().ok());

    assert!(state.get_sensor_by_unique_id("webcam").is_some());
    assert!(state.get_sensor_by_unique_id("microphone").is_some());
    assert!(state.get_sensor_by_unique_id("nonexistent").is_none());
}

fn registered_record() -> State {
    let mut state = State::new(sys_info::hostname().ok());
    state.registered = true;
    state.webhook_info.cloudhook_url = Some(String::from("https://hooks.example/abc"));
    state.webhook_info.secret = Some(String::from("s3cr3t \"quoted\""));
    state.webhook_info.webhook_id = Some(String::from("abc"));
    state.sensors[1].state.value = true;
    state
}

#[test]
fn fresh_record_has_the_default_identity_and_sensors() {
    let state = State::new(sys_info::hostname().ok());

    assert_eq!(state.device.app_version, ha_agent::agent_state::APP_VERSION);
    assert_eq!(state.device.app_version, "0.1.0");
    assert_eq!(state.device.manufacturer, "Computer");
    assert_eq!(state.device.model, "Computer");
    assert_eq!(state.device.supports_encryption, false);
    assert_eq!(
        state.device.device_id,
        format!("{}@{}", state.device.device_id.split('@').next().unwrap(), state.device.device_name)
    );
    assert_eq!(state.webhook_info.cloudhook_url, None);
    assert_eq!(state.webhook_info.remote_ui_url, None);
    assert_eq!(state.webhook_info.secret, None);
    assert_eq!(state.webhook_info.webhook_id, None);
    assert_eq!(state.sensors[0].state.unique_id, "webcam");
    assert_eq!(state.sensors[0].state.sensor_type, "binary_sensor");
    assert_eq!(state.sensors[0].state.icon, "mdi:webcam");
    assert_eq!(state.sensors[0].state.value, false);
    assert_eq!(state.sensors[1].state.unique_id, "microphone");
    assert_eq!(state.sensors[1].state.sensor_type, "binary_sensor");
    assert_eq!(state.sensors[1].state.icon, "mdi:microphone");
    assert_eq!(state.sensors[1].state.value, false);
}

#[test]
fn assemble_uses_the_answers_and_names_what_is_unknown() {
    let known = State::assemble(
        Some(String::from("Linux")),
        Some(String::from("6.1.0")),
        Some(String::from("den")),
        Some(String::from("alice")),
    );
    assert_eq!(known.device.device_id, "alice@den");
    assert_eq!(known.device.device_name, "den");
    assert_eq!(known.device.os_name, "Linux");
    assert_eq!(known.device.os_version, "6.1.0");

    let unknown = State::assemble(None, None, None, None);
    assert_eq!(unknown.device.device_id, "Unknown User@Unknown Hostname");
    assert_eq!(unknown.device.device_name, "Unknown Hostname");
    assert_eq!(unknown.device.os_name, "Unknown OS");
    assert_eq!(unknown.device.os_version, "Unknown OS version");
    assert_eq!(unknown.registered, false);
    assert_eq!(unknown.sensors.len(), 2);
}

#[test]
fn lookup_finds_each_default_sensor_and_nothing_else() {
    let state = State::new(sys_info::hostname().ok());

    assert_eq!(state.get_sensor_by_unique_id("webcam"), Some(state.sensors[0].clone()));
    assert_eq!(state.get_sensor_by_unique_id("microphone"), Some(state.sensors[1].clone()));
    assert_eq!(state.get_sensor_by_unique_id(""), None);
    assert_eq!(state.get_sensor_by_unique_id("Webcam"), None);
    assert_eq!(state.get_sensor_by_unique_id("webcam "), None);
}

#[test]
fn lookup_hands_out_the_first_of_two_with_one_identifier() {
    let mut state = State::new(sys_info::hostname().ok());
    state.sensors[1].state.unique_id = String::from("webcam");

    let found = state.get_sensor_by_unique_id("webcam").unwrap();
    assert_eq!(found.name, "Webcam");

    state.sensors.clear();
    assert_eq!(state.get_sensor_by_unique_id("webcam"), None);
}

#[test]
fn persisted_text_is_the_indented_json_of_the_record() {
    let state = State::assemble(
        Some(String::from("Linux")),
        Some(String::from("6.1.0")),
        Some(String::from("den")),
        Some(String::from("alice")),
    );
    let text = state.save_state().unwrap();

    let expected = "{\n  \"device\": {\n    \"app_id\": \"ha-agent-rs\",\n    \"app_name\": \"Home Assistant Agent\",\n    \"app_version\": \"0.1.0\",\n    \"device_id\": \"alice@den\",\n    \"device_name\": \"den\",\n    \"manufacturer\": \"Computer\",\n    \"model\": \"Computer\",\n    \"os_name\": \"Linux\",\n    \"os_version\": \"6.1.0\",\n    \"supports_encryption\": false\n  },\n  \"registered\": false,\n  \"sensors\": [\n    {\n      \"icon\": \"mdi:webcam\",\n      \"name\": \"Webcam\",\n      \"state\": false,\n      \"type\": \"binary_sensor\",\n      \"unique_id\": \"webcam\"\n    },\n    {\n      \"icon\": \"mdi:microphone\",\n      \"name\": \"Microphone\",\n      \"state\": false,\n      \"type\": \"binary_sensor\",\n      \"unique_id\": \"microphone\"\n    }\n  ],\n  \"webhook_info\": {\n    \"cloudhook_url\": null,\n    \"remote_ui_url\": null,\n    \"secret\": null,\n    \"webhook_id\": null\n  }\n}";
    assert_eq!(text, expected);
}

#[test]
fn a_registered_record_round_trips_through_its_text() {
    let state = registered_record();

    let text = state.save_state().unwrap();
    let loaded = State::load_state(&text).unwrap();

    assert_eq!(loaded, state);
    assert_eq!(loaded.save_state().unwrap(), text);
}

#[test]
fn a_record_round_trips_through_its_json_value() {
    let state = registered_record();

    assert_eq!(State::from_json(&state.to_json()), Some(state));
}

#[test]
fn init_takes_the_persisted_record_where_there_is_one() {
    let state = registered_record();
    let text = state.save_state().unwrap();

    assert_eq!(State::init(&text, None), state);
}

#[test]
fn init_starts_afresh_where_the_text_holds_no_record() {
    assert_eq!(State::init("not json", sys_info::hostname().ok()), State::new(sys_info::hostname().ok()));
    assert_eq!(State::init("{}", sys_info::hostname().ok()), State::new(sys_info::hostname().ok()));
    assert_eq!(State::init("{\"registered\": true}", sys_info::hostname().ok()), State::new(sys_info::hostname().ok()));
}

#[test]
fn load_state_rejects_what_is_no_record() {
    assert_eq!(State::load_state(""), Err(AgentError::PersistenceError));
    assert_eq!(State::load_state("[]"), Err(AgentError::PersistenceError));
    assert_eq!(State::load_state("{\"registered\": 1}"), Err(AgentError::PersistenceError));

    let text = State::new(sys_info::hostname().ok()).save_state().unwrap();
    assert_eq!(
        State::load_state(&text.replace("\"registered\": false", "\"registered\": \"no\"")),
        Err(AgentError::PersistenceError)
    );
    assert_eq!(
        State::load_state(&text.replace("\"unique_id\": \"microphone\"", "\"unique_id\": 7")),
        Err(AgentError::PersistenceError)
    );
    assert_eq!(
        State::load_state(&text.replace("\"app_id\"", "\"app\"")),
        Err(AgentError::PersistenceError)
    );
    assert_eq!(
        State::load_state(&text.replace("\"secret\": null", "\"secret\": false")),
        Err(AgentError::PersistenceError)
    );
}

#[test]
fn load_state_takes_missing_addressing_members_as_absent() {
    let text = State::new(sys_info::hostname().ok()).save_state().unwrap();
    let without = text.replace("    \"secret\": null,\n", "");
    assert!(without != text);

    assert_eq!(State::load_state(&without), Ok(State::new(sys_info::hostname().ok())));
}

#[test]
fn a_fresh_record_carries_the_name_of_the_machine() {
    let named = State::new(Some(String::from("den")));
    assert_eq!(named.device.device_name, "den");
    assert!(named.device.device_id.ends_with("@den"));

    let unnamed = State::new(None);
    assert_eq!(unnamed.device.device_name, "Unknown Hostname");
    assert!(unnamed.device.device_id.ends_with("@Unknown Hostname"));

    assert_eq!(State::init("", Some(String::from("den"))), named);
    assert_eq!(State::init("[]", None), unnamed);
}

#[test]
fn every_record_has_a_text() {
    let mut state = State::new(None);
    assert!(state.save_state().is_ok());

    state.sensors.clear();
    state.device.device_id = String::from("\u{0}\"\\\n\u{1F600}");
    let text = state.save_state().unwrap();
    assert_eq!(State::load_state(&text), Ok(state));
}

use ha_agent::agent_state::{Device, Sensor, SensorState, State, WebhookInfo};
use ha_agent::wire::{sensor_states_to_json, sensors_from_json, sensors_to_json};
use serde_json::Value;

fn parsed(text: &str) -> Value {
    serde_json::from_str(text).unwrap()
}

fn record() -> State {
    State::assemble(
        Some(String::from("Linux")),
        Some(String::from("6.1.0")),
        Some(String::from("den")),
        Some(String::from("alice")),
    )
}

#[test]
fn device_json_has_every_member() {
    let device = record().device;

    assert_eq!(
        device.to_json().to_string(),
        "{\"app_id\":\"ha-agent-rs\",\"app_name\":\"Home Assistant Agent\",\"app_version\":\"0.1.0\",\"device_id\":\"alice@den\",\"device_name\":\"den\",\"manufacturer\":\"Computer\",\"model\":\"Computer\",\"os_name\":\"Linux\",\"os_version\":\"6.1.0\",\"supports_encryption\":false}"
    );
    assert_eq!(Value::Object(device.to_fields()), device.to_json());
    assert_eq!(Device::from_json(&device.to_json()), Some(device));
}

#[test]
fn device_is_not_read_from_what_lacks_a_member() {
    let device = record().device;
    let members = [
        "device_id",
        "app_id",
        "app_name",
        "app_version",
        "device_name",
        "manufacturer",
        "model",
        "os_name",
        "os_version",
        "supports_encryption",
    ];
    for member in members {
        let mut fields = device.to_fields();
        fields.remove(member);
        assert_eq!(Device::from_json(&Value::Object(fields)), None);

        let mut fields = device.to_fields();
        fields.insert(String::from(member), Value::Null);
        assert_eq!(Device::from_json(&Value::Object(fields)), None);
    }
    assert_eq!(Device::from_json(&parsed("[]")), None);
    assert_eq!(Device::from_json(&parsed("null")), None);
}

#[test]
fn sensor_json_holds_value_and_name_in_one_object() {
    let mut sensor = record().sensors.remove(0);
    sensor.state.value = true;

    assert_eq!(
        sensor.to_json().to_string(),
        "{\"icon\":\"mdi:webcam\",\"name\":\"Webcam\",\"state\":true,\"type\":\"binary_sensor\",\"unique_id\":\"webcam\"}"
    );
    assert_eq!(
        sensor.state.to_json().to_string(),
        "{\"icon\":\"mdi:webcam\",\"state\":true,\"type\":\"binary_sensor\",\"unique_id\":\"webcam\"}"
    );
    assert_eq!(Sensor::from_json(&sensor.to_json()), Some(sensor));
}

#[test]
fn sensor_is_read_from_its_members() {
    let sensor = Sensor::from_json(&parsed(
        "{\"name\": \"Door\", \"state\": true, \"unique_id\": \"door\", \"type\": \"binary_sensor\", \"icon\": \"mdi:door\", \"extra\": 1}",
    ));
    assert_eq!(
        sensor,
        Some(Sensor {
            state: SensorState {
                value: true,
                unique_id: String::from("door"),
                sensor_type: String::from("binary_sensor"),
                icon: String::from("mdi:door"),
            },
            name: String::from("Door"),
        })
    );
    assert_eq!(
        Sensor::from_json(&parsed(
            "{\"name\": \"Door\", \"state\": \"on\", \"unique_id\": \"door\", \"type\": \"binary_sensor\", \"icon\": \"mdi:door\"}"
        )),
        None
    );
    assert_eq!(
        Sensor::from_json(&parsed(
            "{\"state\": true, \"unique_id\": \"door\", \"type\": \"binary_sensor\", \"icon\": \"mdi:door\"}"
        )),
        None
    );
}

#[test]
fn addressing_data_json_has_null_for_what_is_absent() {
    let info = WebhookInfo {
        cloudhook_url: None,
        remote_ui_url: Some(String::from("remote.example")),
        secret: None,
        webhook_id: Some(String::from("abc")),
    };

    assert_eq!(
        info.to_json().to_string(),
        "{\"cloudhook_url\":null,\"remote_ui_url\":\"remote.example\",\"secret\":null,\"webhook_id\":\"abc\"}"
    );
    assert_eq!(WebhookInfo::from_json(&info.to_json()), Some(info));
}

#[test]
fn addressing_data_is_read_from_an_object_only() {
    let nothing = WebhookInfo {
        cloudhook_url: None,
        remote_ui_url: None,
        secret: None,
        webhook_id: None,
    };
    assert_eq!(WebhookInfo::from_json(&parsed("{}")), Some(nothing));
    assert_eq!(WebhookInfo::from_json(&parsed("[]")), None);
    assert_eq!(WebhookInfo::from_json(&parsed("null")), None);
    assert_eq!(WebhookInfo::from_json(&parsed("\"abc\"")), None);
    assert_eq!(WebhookInfo::from_json(&parsed("{\"cloudhook_url\": 1}")), None);
    assert_eq!(WebhookInfo::from_json(&parsed("{\"remote_ui_url\": true}")), None);
    assert_eq!(WebhookInfo::from_json(&parsed("{\"secret\": []}")), None);
    assert_eq!(WebhookInfo::from_json(&parsed("{\"webhook_id\": {}}")), None);
}

#[test]
fn sensors_go_to_an_array_and_back() {
    let sensors = record().sensors;

    let array = sensors_to_json(&sensors);
    assert_eq!(array.as_array().unwrap().len(), 2);
    assert_eq!(array[0], sensors[0].to_json());
    assert_eq!(array[1], sensors[1].to_json());
    assert_eq!(sensors_from_json(array.as_array().unwrap()), Some(sensors));
    assert_eq!(sensors_to_json(&vec![]).to_string(), "[]");
    assert_eq!(sensors_from_json(&vec![]), Some(vec![]));
}

#[test]
fn sensors_are_not_read_where_one_item_is_no_sensor() {
    let sensors = record().sensors;
    let items = vec![sensors[0].to_json(), Value::Bool(true), sensors[1].to_json()];

    assert_eq!(sensors_from_json(&items), None);
}

#[test]
fn sensor_values_go_to_an_array_in_order() {
    let sensors = record().sensors;
    let states = vec![sensors[1].state.clone(), sensors[0].state.clone()];

    assert_eq!(
        sensor_states_to_json(&states).to_string(),
        "[{\"icon\":\"mdi:microphone\",\"state\":false,\"type\":\"binary_sensor\",\"unique_id\":\"microphone\"},{\"icon\":\"mdi:webcam\",\"state\":false,\"type\":\"binary_sensor\",\"unique_id\":\"webcam\"}]"
    );
}

#[test]
fn record_json_names_its_four_parts() {
    let state = record();
    let value = state.to_json();

    assert_eq!(value["registered"], Value::Bool(false));
    assert_eq!(value["device"], state.device.to_json());
    assert_eq!(value["webhook_info"], state.webhook_info.to_json());
    assert_eq!(value["sensors"], sensors_to_json(&state.sensors));
    assert_eq!(value.as_object().unwrap().len(), 4);
}

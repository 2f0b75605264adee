//! The JSON shape of the record and of the messages to the hub.
//!
//! Each type has a tree that stands for it, a function that builds the
//! `serde_json::Value` holding that tree, and, where the agent reads the type
//! back, a function that recovers it from a value.
use vstd::prelude::*;
use serde_json::Value;
use crate::agent_state::{
    Device, DeviceView, Sensor, SensorState, SensorStateView, SensorView, State, StateView,
    WebhookInfo, WebhookInfoView, is_fresh_on, opt_sensor, opt_state,
};
use crate::error::AgentError;
use crate::json::{
    Fields, JsonTree, array_value, as_flag, as_items, as_text, flag_value, is_null, is_object,
    json_document, json_fields, json_pretty_text, json_tree, json_trees, member, no_fields,
    no_members, null_value, object_value, parse, put_field, render_pretty, text_value,
};
use crate::text::opt_text;

verus! {

/// The member of an object under a key; `None` where the tree is no object or
/// the object has no such member.
pub open spec fn tree_member(tree: JsonTree, key: Seq<char>) -> Option<JsonTree> {
    match tree {
        JsonTree::Object(fields) => if fields.contains_key(key) {
            Some(fields[key])
        } else {
            None
        },
        _ => None,
    }
}

/// The string under a key that must be there.
pub open spec fn required_text(tree: JsonTree, key: Seq<char>) -> Option<Seq<char>> {
    match tree_member(tree, key) {
        Some(JsonTree::Text(text)) => Some(text),
        _ => None,
    }
}

/// The boolean under a key that must be there.
pub open spec fn required_flag(tree: JsonTree, key: Seq<char>) -> Option<bool> {
    match tree_member(tree, key) {
        Some(JsonTree::Bool(flag)) => Some(flag),
        _ => None,
    }
}

/// The string under a key that may be missing or null: `Some(None)` where it
/// is, `None` where the member is something other than a string or null.
pub open spec fn optional_text(tree: JsonTree, key: Seq<char>) -> Option<Option<Seq<char>>> {
    match tree_member(tree, key) {
        None => Some(None),
        Some(JsonTree::Null) => Some(None),
        Some(JsonTree::Text(text)) => Some(Some(text)),
        _ => None,
    }
}

/// The tree of an optional string: the string, or null.
pub open spec fn optional_text_tree(text: Option<Seq<char>>) -> JsonTree {
    match text {
        Some(t) => JsonTree::Text(t),
        None => JsonTree::Null,
    }
}

/// The members of a device identity.
pub open spec fn device_members(d: DeviceView) -> Map<Seq<char>, JsonTree> {
    no_members()
        .insert("device_id"@, JsonTree::Text(d.device_id))
        .insert("app_id"@, JsonTree::Text(d.app_id))
        .insert("app_name"@, JsonTree::Text(d.app_name))
        .insert("app_version"@, JsonTree::Text(d.app_version))
        .insert("device_name"@, JsonTree::Text(d.device_name))
        .insert("manufacturer"@, JsonTree::Text(d.manufacturer))
        .insert("model"@, JsonTree::Text(d.model))
        .insert("os_name"@, JsonTree::Text(d.os_name))
        .insert("os_version"@, JsonTree::Text(d.os_version))
        .insert("supports_encryption"@, JsonTree::Bool(d.supports_encryption))
}

/// The tree of a device identity.
pub open spec fn device_tree(d: DeviceView) -> JsonTree {
    JsonTree::Object(device_members(d))
}

/// The members of a sensor value: the value under "state", the kind under
/// "type".
pub open spec fn sensor_state_members(s: SensorStateView) -> Map<Seq<char>, JsonTree> {
    no_members()
        .insert("state"@, JsonTree::Bool(s.value))
        .insert("unique_id"@, JsonTree::Text(s.unique_id))
        .insert("type"@, JsonTree::Text(s.sensor_type))
        .insert("icon"@, JsonTree::Text(s.icon))
}

/// The tree of a sensor value.
pub open spec fn sensor_state_tree(s: SensorStateView) -> JsonTree {
    JsonTree::Object(sensor_state_members(s))
}

/// A sensor is its value with the name beside it, in one object.
pub open spec fn sensor_tree(s: SensorView) -> JsonTree {
    JsonTree::Object(sensor_state_members(s.state).insert("name"@, JsonTree::Text(s.name)))
}

/// The tree of the hub's addressing data: what is absent is null.
pub open spec fn webhook_info_tree(w: WebhookInfoView) -> JsonTree {
    JsonTree::Object(
        no_members()
            .insert("cloudhook_url"@, optional_text_tree(w.cloudhook_url))
            .insert("remote_ui_url"@, optional_text_tree(w.remote_ui_url))
            .insert("secret"@, optional_text_tree(w.secret))
            .insert("webhook_id"@, optional_text_tree(w.webhook_id)),
    )
}

/// The trees of the sensors, in order.
pub open spec fn sensor_trees(sensors: Seq<SensorView>) -> Seq<JsonTree> {
    Seq::new(sensors.len(), |i: int| sensor_tree(sensors[i]))
}

/// The trees of the sensor values, in order.
pub open spec fn sensor_state_trees(states: Seq<SensorStateView>) -> Seq<JsonTree> {
    Seq::new(states.len(), |i: int| sensor_state_tree(states[i]))
}

/// The tree of a record.
pub open spec fn state_tree(s: StateView) -> JsonTree {
    JsonTree::Object(
        no_members()
            .insert("registered"@, JsonTree::Bool(s.registered))
            .insert("device"@, device_tree(s.device))
            .insert("webhook_info"@, webhook_info_tree(s.webhook_info))
            .insert("sensors"@, JsonTree::Array(sensor_trees(s.sensors))),
    )
}

/// The device identity that a tree holds.
pub open spec fn device_of_tree(t: JsonTree) -> Option<DeviceView> {
    if required_text(t, "device_id"@) is Some && required_text(t, "app_id"@) is Some
        && required_text(t, "app_name"@) is Some && required_text(t, "app_version"@) is Some
        && required_text(t, "device_name"@) is Some && required_text(t, "manufacturer"@) is Some
        && required_text(t, "model"@) is Some && required_text(t, "os_name"@) is Some
        && required_text(t, "os_version"@) is Some && required_flag(t, "supports_encryption"@)
        is Some {
        Some(
            DeviceView {
                device_id: required_text(t, "device_id"@)->0,
                app_id: required_text(t, "app_id"@)->0,
                app_name: required_text(t, "app_name"@)->0,
                app_version: required_text(t, "app_version"@)->0,
                device_name: required_text(t, "device_name"@)->0,
                manufacturer: required_text(t, "manufacturer"@)->0,
                model: required_text(t, "model"@)->0,
                os_name: required_text(t, "os_name"@)->0,
                os_version: required_text(t, "os_version"@)->0,
                supports_encryption: required_flag(t, "supports_encryption"@)->0,
            },
        )
    } else {
        None
    }
}

/// The sensor that a tree holds.
pub open spec fn sensor_of_tree(t: JsonTree) -> Option<SensorView> {
    if required_flag(t, "state"@) is Some && required_text(t, "unique_id"@) is Some
        && required_text(t, "type"@) is Some && required_text(t, "icon"@) is Some && required_text(
        t,
        "name"@,
    ) is Some {
        Some(
            SensorView {
                state: SensorStateView {
                    value: required_flag(t, "state"@)->0,
                    unique_id: required_text(t, "unique_id"@)->0,
                    sensor_type: required_text(t, "type"@)->0,
                    icon: required_text(t, "icon"@)->0,
                },
                name: required_text(t, "name"@)->0,
            },
        )
    } else {
        None
    }
}

/// The addressing data that a tree holds: an object whose four members are
/// each a string, null or missing.
pub open spec fn webhook_info_of_tree(t: JsonTree) -> Option<WebhookInfoView> {
    if t is Object && optional_text(t, "cloudhook_url"@) is Some && optional_text(
        t,
        "remote_ui_url"@,
    ) is Some && optional_text(t, "secret"@) is Some && optional_text(t, "webhook_id"@) is Some {
        Some(
            WebhookInfoView {
                cloudhook_url: optional_text(t, "cloudhook_url"@)->0,
                remote_ui_url: optional_text(t, "remote_ui_url"@)->0,
                secret: optional_text(t, "secret"@)->0,
                webhook_id: optional_text(t, "webhook_id"@)->0,
            },
        )
    } else {
        None
    }
}

/// The sensors that a sequence of trees holds, if each holds one.
pub open spec fn sensors_of_trees(items: Seq<JsonTree>) -> Option<Seq<SensorView>> {
    if forall|i: int| 0 <= i < items.len() ==> (#[trigger] sensor_of_tree(items[i])) is Some {
        Some(Seq::new(items.len(), |i: int| sensor_of_tree(items[i])->0))
    } else {
        None
    }
}

/// The sensors under the key "sensors".
pub open spec fn sensors_member(t: JsonTree) -> Option<Seq<SensorView>> {
    match tree_member(t, "sensors"@) {
        Some(JsonTree::Array(items)) => sensors_of_trees(items),
        _ => None,
    }
}

/// The device identity under the key "device".
pub open spec fn device_member(t: JsonTree) -> Option<DeviceView> {
    match tree_member(t, "device"@) {
        Some(device) => device_of_tree(device),
        None => None,
    }
}

/// The addressing data under the key "webhook_info".
pub open spec fn webhook_info_member(t: JsonTree) -> Option<WebhookInfoView> {
    match tree_member(t, "webhook_info"@) {
        Some(info) => webhook_info_of_tree(info),
        None => None,
    }
}

/// The record that a tree holds.
pub open spec fn state_of_tree(t: JsonTree) -> Option<StateView> {
    if required_flag(t, "registered"@) is Some && device_member(t) is Some && webhook_info_member(
        t,
    ) is Some && sensors_member(t) is Some {
        Some(
            StateView {
                registered: required_flag(t, "registered"@)->0,
                device: device_member(t)->0,
                webhook_info: webhook_info_member(t)->0,
                sensors: sensors_member(t)->0,
            },
        )
    } else {
        None
    }
}

/// The record that a text holds: the text is a JSON document, and the
/// document holds a record.
pub open spec fn state_of_text(text: Seq<char>) -> Option<StateView> {
    match json_document(text) {
        Some(tree) => state_of_tree(tree),
        None => None,
    }
}

/// The view of an optional device identity.
pub open spec fn opt_device(d: Option<Device>) -> Option<DeviceView> {
    match d {
        Some(d) => Some(d@),
        None => None,
    }
}

/// The view of optional addressing data.
pub open spec fn opt_webhook_info(w: Option<WebhookInfo>) -> Option<WebhookInfoView> {
    match w {
        Some(w) => Some(w@),
        None => None,
    }
}

/// The views of the sensors, in order.
pub open spec fn sensor_views(sensors: Seq<Sensor>) -> Seq<SensorView> {
    Seq::new(sensors.len(), |i: int| sensors[i]@)
}

/// The views of the sensor values, in order.
pub open spec fn sensor_state_views(states: Seq<SensorState>) -> Seq<SensorStateView> {
    Seq::new(states.len(), |i: int| states[i]@)
}

pub(crate) fn put_text(fields: &mut Fields, key: &str, text: &str)
    ensures
        json_fields(*final(fields)) == json_fields(*old(fields)).insert(key@, JsonTree::Text(text@)),
{
    put_field(fields, String::from_str(key), text_value(String::from_str(text)));
}

pub(crate) fn put_flag(fields: &mut Fields, key: &str, flag: bool)
    ensures
        json_fields(*final(fields)) == json_fields(*old(fields)).insert(key@, JsonTree::Bool(flag)),
{
    put_field(fields, String::from_str(key), flag_value(flag));
}

fn put_optional_text(fields: &mut Fields, key: &str, text: &Option<String>)
    ensures
        json_fields(*final(fields)) == json_fields(*old(fields)).insert(
            key@,
            optional_text_tree(opt_text(*text)),
        ),
{
    let value = match text {
        Some(t) => text_value(t.clone()),
        None => null_value(),
    };
    put_field(fields, String::from_str(key), value);
}

fn get_text(v: &Value, key: &str) -> (text: Option<String>)
    ensures
        opt_text(text) == required_text(json_tree(*v), key@),
{
    match member(v, key) {
        Some(m) => match as_text(m) {
            Some(t) => Some(String::from_str(t)),
            None => None,
        },
        None => None,
    }
}

fn get_flag(v: &Value, key: &str) -> (flag: Option<bool>)
    ensures
        flag == required_flag(json_tree(*v), key@),
{
    match member(v, key) {
        Some(m) => as_flag(m),
        None => None,
    }
}

/// `Err` where the member is neither a string nor null.
fn get_optional_text(v: &Value, key: &str) -> (text: Result<Option<String>, ()>)
    ensures
        match text {
            Ok(t) => optional_text(json_tree(*v), key@) == Some(opt_text(t)),
            Err(_) => optional_text(json_tree(*v), key@) is None,
        },
{
    match member(v, key) {
        Some(m) => match as_text(m) {
            Some(t) => Ok(Some(String::from_str(t))),
            None => if is_null(m) {
                Ok(None)
            } else {
                Err(())
            },
        },
        None => Ok(None),
    }
}

fn device_fields(device: &Device) -> (fields: Fields)
    ensures
        json_fields(fields) == device_members(device@),
{
    let mut fields = no_fields();
    put_text(&mut fields, "device_id", device.device_id.as_str());
    put_text(&mut fields, "app_id", device.app_id.as_str());
    put_text(&mut fields, "app_name", device.app_name.as_str());
    put_text(&mut fields, "app_version", device.app_version.as_str());
    put_text(&mut fields, "device_name", device.device_name.as_str());
    put_text(&mut fields, "manufacturer", device.manufacturer.as_str());
    put_text(&mut fields, "model", device.model.as_str());
    put_text(&mut fields, "os_name", device.os_name.as_str());
    put_text(&mut fields, "os_version", device.os_version.as_str());
    put_flag(&mut fields, "supports_encryption", device.supports_encryption);
    fields
}

fn sensor_state_fields(state: &SensorState) -> (fields: Fields)
    ensures
        json_fields(fields) == sensor_state_members(state@),
{
    let mut fields = no_fields();
    put_flag(&mut fields, "state", state.value);
    put_text(&mut fields, "unique_id", state.unique_id.as_str());
    put_text(&mut fields, "type", state.sensor_type.as_str());
    put_text(&mut fields, "icon", state.icon.as_str());
    fields
}

impl Device {
    /// The members of the JSON object that stands for this identity.
    pub fn to_fields(&self) -> (fields: Fields)
        ensures
            json_fields(fields) == device_members(self@),
    {
        device_fields(self)
    }

    /// The JSON value that stands for this identity.
    pub fn to_json(&self) -> (v: Value)
        ensures
            json_tree(v) == device_tree(self@),
    {
        object_value(device_fields(self))
    }

    /// Recovers an identity from a JSON value: an object that has every
    /// member of an identity, each of its kind.
    pub fn from_json(v: &Value) -> (device: Option<Device>)
        ensures
            opt_device(device) == device_of_tree(json_tree(*v)),
    {
        let device_id = get_text(v, "device_id");
        let app_id = get_text(v, "app_id");
        let app_name = get_text(v, "app_name");
        let app_version = get_text(v, "app_version");
        let device_name = get_text(v, "device_name");
        let manufacturer = get_text(v, "manufacturer");
        let model = get_text(v, "model");
        let os_name = get_text(v, "os_name");
        let os_version = get_text(v, "os_version");
        let supports_encryption = get_flag(v, "supports_encryption");
        match (
            device_id,
            app_id,
            app_name,
            app_version,
            device_name,
            manufacturer,
            model,
            os_name,
            os_version,
            supports_encryption,
        ) {
            (
                Some(device_id),
                Some(app_id),
                Some(app_name),
                Some(app_version),
                Some(device_name),
                Some(manufacturer),
                Some(model),
                Some(os_name),
                Some(os_version),
                Some(supports_encryption),
            ) => Some(
                Device {
                    device_id,
                    app_id,
                    app_name,
                    app_version,
                    device_name,
                    manufacturer,
                    model,
                    os_name,
                    os_version,
                    supports_encryption,
                },
            ),
            _ => None,
        }
    }
}

impl SensorState {
    /// The JSON value that stands for this sensor value.
    pub fn to_json(&self) -> (v: Value)
        ensures
            json_tree(v) == sensor_state_tree(self@),
    {
        object_value(sensor_state_fields(self))
    }
}

impl Sensor {
    /// The JSON value that stands for this sensor.
    pub fn to_json(&self) -> (v: Value)
        ensures
            json_tree(v) == sensor_tree(self@),
    {
        let mut fields = sensor_state_fields(&self.state);
        put_text(&mut fields, "name", self.name.as_str());
        object_value(fields)
    }

    /// Recovers a sensor from a JSON value: an object that has every member
    /// of a sensor, each of its kind.
    pub fn from_json(v: &Value) -> (sensor: Option<Sensor>)
        ensures
            opt_sensor(sensor) == sensor_of_tree(json_tree(*v)),
    {
        let value = get_flag(v, "state");
        let unique_id = get_text(v, "unique_id");
        let sensor_type = get_text(v, "type");
        let icon = get_text(v, "icon");
        let name = get_text(v, "name");
        match (value, unique_id, sensor_type, icon, name) {
            (Some(value), Some(unique_id), Some(sensor_type), Some(icon), Some(name)) => Some(
                Sensor { state: SensorState { value, unique_id, sensor_type, icon }, name },
            ),
            _ => None,
        }
    }
}

impl WebhookInfo {
    /// The JSON value that stands for this addressing data.
    pub fn to_json(&self) -> (v: Value)
        ensures
            json_tree(v) == webhook_info_tree(self@),
    {
        let mut fields = no_fields();
        put_optional_text(&mut fields, "cloudhook_url", &self.cloudhook_url);
        put_optional_text(&mut fields, "remote_ui_url", &self.remote_ui_url);
        put_optional_text(&mut fields, "secret", &self.secret);
        put_optional_text(&mut fields, "webhook_id", &self.webhook_id);
        object_value(fields)
    }

    /// Recovers addressing data from a JSON value: an object in which each
    /// of the four members is a string, null or missing.
    pub fn from_json(v: &Value) -> (info: Option<WebhookInfo>)
        ensures
            opt_webhook_info(info) == webhook_info_of_tree(json_tree(*v)),
    {
        if !is_object(v) {
            return None;
        }
        let cloudhook_url = get_optional_text(v, "cloudhook_url");
        let remote_ui_url = get_optional_text(v, "remote_ui_url");
        let secret = get_optional_text(v, "secret");
        let webhook_id = get_optional_text(v, "webhook_id");
        match (cloudhook_url, remote_ui_url, secret, webhook_id) {
            (Ok(cloudhook_url), Ok(remote_ui_url), Ok(secret), Ok(webhook_id)) => Some(
                WebhookInfo { cloudhook_url, remote_ui_url, secret, webhook_id },
            ),
            _ => None,
        }
    }
}

/// The JSON array of the sensors, in order.
pub fn sensors_to_json(sensors: &Vec<Sensor>) -> (v: Value)
    ensures
        json_tree(v) == JsonTree::Array(sensor_trees(sensor_views(sensors@))),
{
    let mut items: Vec<Value> = Vec::new();
    let mut i: usize = 0;
    while i < sensors.len()
        invariant
            i <= sensors.len(),
            items@.len() == i,
            forall|j: int| 0 <= j < i ==> json_tree(#[trigger] items@[j]) == sensor_tree(sensors@[j]@),
        decreases sensors.len() - i,
    {
        items.push(sensors[i].to_json());
        i += 1;
    }
    assert(json_trees(items@) =~= sensor_trees(sensor_views(sensors@)));
    array_value(items)
}

/// The JSON array of the sensor values, in order.
pub fn sensor_states_to_json(states: &Vec<SensorState>) -> (v: Value)
    ensures
        json_tree(v) == JsonTree::Array(sensor_state_trees(sensor_state_views(states@))),
{
    let mut items: Vec<Value> = Vec::new();
    let mut i: usize = 0;
    while i < states.len()
        invariant
            i <= states.len(),
            items@.len() == i,
            forall|j: int| 0 <= j < i ==> json_tree(#[trigger] items@[j]) == sensor_state_tree(states@[j]@),
        decreases states.len() - i,
    {
        items.push(states[i].to_json());
        i += 1;
    }
    assert(json_trees(items@) =~= sensor_state_trees(sensor_state_views(states@)));
    array_value(items)
}

/// Recovers the sensors from the items of a JSON array, if each holds one.
pub fn sensors_from_json(items: &Vec<Value>) -> (sensors: Option<Vec<Sensor>>)
    ensures
        match sensors {
            Some(found) => sensors_of_trees(json_trees(items@)) == Some(sensor_views(found@)),
            None => sensors_of_trees(json_trees(items@)) is None,
        },
{
    let ghost trees = json_trees(items@);
    let mut sensors: Vec<Sensor> = Vec::new();
    let mut i: usize = 0;
    while i < items.len()
        invariant
            i <= items.len(),
            trees == json_trees(items@),
            sensors@.len() == i,
            forall|j: int| 0 <= j < i ==> sensor_of_tree(trees[j]) == Some(#[trigger] sensors@[j]@),
        decreases items.len() - i,
    {
        match Sensor::from_json(&items[i]) {
            Some(sensor) => {
                sensors.push(sensor);
            },
            None => {
                assert(sensor_of_tree(trees[i as int]) is None);
                return None;
            },
        }
        i += 1;
    }
    assert forall|j: int| 0 <= j < trees.len() implies (#[trigger] sensor_of_tree(trees[j])) is Some by {
        assert(sensor_of_tree(trees[j]) == Some(sensors@[j]@));
    }
    assert(sensors_of_trees(trees)->0 =~= sensor_views(sensors@));
    Some(sensors)
}

impl State {
    /// The JSON value that stands for this record.
    pub fn to_json(&self) -> (v: Value)
        ensures
            json_tree(v) == state_tree(self@),
    {
        let mut fields = no_fields();
        put_flag(&mut fields, "registered", self.registered);
        put_field(&mut fields, String::from_str("device"), self.device.to_json());
        put_field(&mut fields, String::from_str("webhook_info"), self.webhook_info.to_json());
        put_field(&mut fields, String::from_str("sensors"), sensors_to_json(&self.sensors));
        assert(sensor_views(self.sensors@) =~= self@.sensors);
        object_value(fields)
    }

    /// Recovers a record from a JSON value: an object with the registration
    /// flag, the device identity, the addressing data and the array of
    /// sensors.
    pub fn from_json(v: &Value) -> (state: Option<State>)
        ensures
            opt_state(state) == state_of_tree(json_tree(*v)),
    {
        let registered = match get_flag(v, "registered") {
            Some(flag) => flag,
            None => { return None; },
        };
        let device = match member(v, "device") {
            Some(m) => match Device::from_json(m) {
                Some(device) => device,
                None => { return None; },
            },
            None => { return None; },
        };
        let webhook_info = match member(v, "webhook_info") {
            Some(m) => match WebhookInfo::from_json(m) {
                Some(info) => info,
                None => { return None; },
            },
            None => { return None; },
        };
        let sensors = match member(v, "sensors") {
            Some(m) => match as_items(m) {
                Some(items) => match sensors_from_json(items) {
                    Some(sensors) => sensors,
                    None => { return None; },
                },
                None => { return None; },
            },
            None => { return None; },
        };
        let state = State { registered, device, webhook_info, sensors };
        assert(state@.sensors =~= sensor_views(state.sensors@));
        Some(state)
    }

    /// The text under which the record is persisted: its JSON value,
    /// indented. Every record has one.
    pub fn save_state(&self) -> (text: Result<String, AgentError>)
        ensures
            text matches Ok(t) && t@ == json_pretty_text(state_tree(self@)),
    {
        let value = self.to_json();
        match render_pretty(&value) {
            Ok(text) => Ok(text),
            Err(_) => Err(AgentError::PersistenceError),
        }
    }

    /// Reads a record back from the text under which it was persisted.
    pub fn load_state(text: &str) -> (state: Result<State, AgentError>)
        ensures
            match state {
                Ok(s) => state_of_text(text@) == Some(s@),
                Err(e) => e == AgentError::PersistenceError && state_of_text(text@) is None,
            },
    {
        match parse(text) {
            Ok(value) => match State::from_json(&value) {
                Some(state) => Ok(state),
                None => Err(AgentError::PersistenceError),
            },
            Err(_) => Err(AgentError::PersistenceError),
        }
    }

    /// The record to start from: the persisted one where the text holds a
    /// record, a fresh one where it does not. `persisted` is what was read
    /// from the state file, empty where there is none; `hostname` is the
    /// name of the machine, `None` where it has given none.
    pub fn init(persisted: &str, hostname: Option<String>) -> (state: State)
        ensures
            match state_of_text(persisted@) {
                Some(s) => state@ == s,
                None => is_fresh_on(state@, hostname),
            },
    {
        match State::load_state(persisted) {
            Ok(state) => state,
            Err(_) => State::new(hostname),
        }
    }
}

/// A device identity is recovered from its own tree.
pub proof fn lemma_device_round_trip(d: DeviceView)
    ensures
        device_of_tree(device_tree(d)) == Some(d),
{
    reveal_strlit("device_id");
    reveal_strlit("app_id");
    reveal_strlit("app_name");
    reveal_strlit("app_version");
    reveal_strlit("device_name");
    reveal_strlit("manufacturer");
    reveal_strlit("model");
    reveal_strlit("os_name");
    reveal_strlit("os_version");
    reveal_strlit("supports_encryption");
    assert("device_id"@.len() == 9);
    assert("app_id"@.len() == 6);
    assert("app_name"@.len() == 8);
    assert("app_version"@.len() == 11);
    assert("device_name"@.len() == 11);
    assert("manufacturer"@.len() == 12);
    assert("model"@.len() == 5);
    assert("os_name"@.len() == 7);
    assert("os_version"@.len() == 10);
    assert("supports_encryption"@.len() == 19);
    assert("app_version"@[0] != "device_name"@[0]);
}

/// A sensor is recovered from its own tree.
pub proof fn lemma_sensor_round_trip(s: SensorView)
    ensures
        sensor_of_tree(sensor_tree(s)) == Some(s),
{
    reveal_strlit("state");
    reveal_strlit("unique_id");
    reveal_strlit("type");
    reveal_strlit("icon");
    reveal_strlit("name");
    assert("state"@.len() == 5);
    assert("unique_id"@.len() == 9);
    assert("type"@.len() == 4);
    assert("icon"@.len() == 4);
    assert("name"@.len() == 4);
    assert("type"@[0] != "icon"@[0]);
    assert("type"@[0] != "name"@[0]);
    assert("icon"@[0] != "name"@[0]);
}

/// Addressing data is recovered from its own tree.
pub proof fn lemma_webhook_info_round_trip(w: WebhookInfoView)
    ensures
        webhook_info_of_tree(webhook_info_tree(w)) == Some(w),
{
    reveal_strlit("cloudhook_url");
    reveal_strlit("remote_ui_url");
    reveal_strlit("secret");
    reveal_strlit("webhook_id");
    assert("cloudhook_url"@.len() == 13);
    assert("remote_ui_url"@.len() == 13);
    assert("secret"@.len() == 6);
    assert("webhook_id"@.len() == 10);
    assert("cloudhook_url"@[0] != "remote_ui_url"@[0]);
}

/// A record is recovered from its own tree: what is written out is what is
/// read back.
pub proof fn lemma_state_round_trip(s: StateView)
    ensures
        state_of_tree(state_tree(s)) == Some(s),
{
    reveal_strlit("registered");
    reveal_strlit("device");
    reveal_strlit("webhook_info");
    reveal_strlit("sensors");
    assert("registered"@.len() == 10);
    assert("device"@.len() == 6);
    assert("webhook_info"@.len() == 12);
    assert("sensors"@.len() == 7);
    lemma_device_round_trip(s.device);
    lemma_webhook_info_round_trip(s.webhook_info);
    let items = sensor_trees(s.sensors);
    assert forall|i: int| 0 <= i < items.len() implies (#[trigger] sensor_of_tree(items[i])) == Some(
        s.sensors[i],
    ) by {
        lemma_sensor_round_trip(s.sensors[i]);
    }
    assert(sensors_of_trees(items)->0 =~= s.sensors);
}

} // verus!

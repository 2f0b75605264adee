//! The record of the agent: device identity, hub endpoints and sensors.
use vstd::prelude::*;
use crate::text::opt_text;

verus! {

/// Identity of the device as the hub sees it.
#[derive(Debug, PartialEq)]
pub struct Device {
    pub device_id: String,
    pub app_id: String,
    pub app_name: String,
    pub app_version: String,
    pub device_name: String,
    pub manufacturer: String,
    pub model: String,
    pub os_name: String,
    pub os_version: String,
    pub supports_encryption: bool,
}

/// The value of a sensor as it is pushed to the hub.
#[derive(Debug, PartialEq)]
pub struct SensorState {
    pub value: bool,
    pub unique_id: String,
    pub sensor_type: String,
    pub icon: String,
}

/// A sensor as it is registered with the hub.
#[derive(Debug, PartialEq)]
pub struct Sensor {
    pub state: SensorState,
    pub name: String,
}

/// Addressing data that the hub hands out at registration.
#[derive(Debug, PartialEq)]
pub struct WebhookInfo {
    pub cloudhook_url: Option<String>,
    pub remote_ui_url: Option<String>,
    pub secret: Option<String>,
    pub webhook_id: Option<String>,
}

/// Everything the agent persists between runs.
#[derive(Debug, PartialEq)]
pub struct State {
    pub registered: bool,
    pub device: Device,
    pub webhook_info: WebhookInfo,
    pub sensors: Vec<Sensor>,
}

/// A device identity as plain text.
pub struct DeviceView {
    pub device_id: Seq<char>,
    pub app_id: Seq<char>,
    pub app_name: Seq<char>,
    pub app_version: Seq<char>,
    pub device_name: Seq<char>,
    pub manufacturer: Seq<char>,
    pub model: Seq<char>,
    pub os_name: Seq<char>,
    pub os_version: Seq<char>,
    pub supports_encryption: bool,
}

/// A sensor value as plain text.
pub struct SensorStateView {
    pub value: bool,
    pub unique_id: Seq<char>,
    pub sensor_type: Seq<char>,
    pub icon: Seq<char>,
}

/// A sensor as plain text.
pub struct SensorView {
    pub state: SensorStateView,
    pub name: Seq<char>,
}

/// The hub's addressing data as plain text.
pub struct WebhookInfoView {
    pub cloudhook_url: Option<Seq<char>>,
    pub remote_ui_url: Option<Seq<char>>,
    pub secret: Option<Seq<char>>,
    pub webhook_id: Option<Seq<char>>,
}

/// A record as plain values.
pub struct StateView {
    pub registered: bool,
    pub device: DeviceView,
    pub webhook_info: WebhookInfoView,
    pub sensors: Seq<SensorView>,
}

impl View for Device {
    type V = DeviceView;

    open spec fn view(&self) -> DeviceView {
        DeviceView {
            device_id: self.device_id@,
            app_id: self.app_id@,
            app_name: self.app_name@,
            app_version: self.app_version@,
            device_name: self.device_name@,
            manufacturer: self.manufacturer@,
            model: self.model@,
            os_name: self.os_name@,
            os_version: self.os_version@,
            supports_encryption: self.supports_encryption,
        }
    }
}

impl View for SensorState {
    type V = SensorStateView;

    open spec fn view(&self) -> SensorStateView {
        SensorStateView {
            value: self.value,
            unique_id: self.unique_id@,
            sensor_type: self.sensor_type@,
            icon: self.icon@,
        }
    }
}

impl View for Sensor {
    type V = SensorView;

    open spec fn view(&self) -> SensorView {
        SensorView { state: self.state@, name: self.name@ }
    }
}

impl View for WebhookInfo {
    type V = WebhookInfoView;

    open spec fn view(&self) -> WebhookInfoView {
        WebhookInfoView {
            cloudhook_url: opt_text(self.cloudhook_url),
            remote_ui_url: opt_text(self.remote_ui_url),
            secret: opt_text(self.secret),
            webhook_id: opt_text(self.webhook_id),
        }
    }
}

impl View for State {
    type V = StateView;

    open spec fn view(&self) -> StateView {
        StateView {
            registered: self.registered,
            device: self.device@,
            webhook_info: self.webhook_info@,
            sensors: Seq::new(self.sensors@.len(), |i: int| self.sensors@[i]@),
        }
    }
}

impl Clone for SensorState {
    fn clone(&self) -> (r: Self)
        ensures
            r == *self,
    {
        SensorState {
            value: self.value,
            unique_id: self.unique_id.clone(),
            sensor_type: self.sensor_type.clone(),
            icon: self.icon.clone(),
        }
    }
}

impl Clone for Sensor {
    fn clone(&self) -> (r: Self)
        ensures
            r == *self,
    {
        Sensor { state: self.state.clone(), name: self.name.clone() }
    }
}

/// The version of the application that this build reports to the hub.
pub const APP_VERSION: &'static str = "0.1.0";

/// The sensor that reports whether the camera is in use, not in use yet.
pub open spec fn webcam_sensor() -> SensorView {
    SensorView {
        state: SensorStateView {
            value: false,
            unique_id: "webcam"@,
            sensor_type: "binary_sensor"@,
            icon: "mdi:webcam"@,
        },
        name: "Webcam"@,
    }
}

/// The sensor that reports whether the microphone is in use, not in use yet.
pub open spec fn microphone_sensor() -> SensorView {
    SensorView {
        state: SensorStateView {
            value: false,
            unique_id: "microphone"@,
            sensor_type: "binary_sensor"@,
            icon: "mdi:microphone"@,
        },
        name: "Microphone"@,
    }
}

/// The sensors of a fresh record: camera first, microphone second.
pub open spec fn default_sensors() -> Seq<SensorView> {
    seq![webcam_sensor(), microphone_sensor()]
}

/// Addressing data before the hub has sent any.
pub open spec fn no_webhook_info() -> WebhookInfoView {
    WebhookInfoView { cloudhook_url: None, remote_ui_url: None, secret: None, webhook_id: None }
}

/// The identity of this application on the host of the given name, run by
/// the given user.
pub open spec fn fresh_device(
    username: Seq<char>,
    hostname: Seq<char>,
    os_name: Seq<char>,
    os_version: Seq<char>,
) -> DeviceView {
    DeviceView {
        device_id: username + "@"@ + hostname,
        app_id: "ha-agent-rs"@,
        app_name: "Home Assistant Agent"@,
        app_version: APP_VERSION@,
        device_name: hostname,
        manufacturer: "Computer"@,
        model: "Computer"@,
        os_name,
        os_version,
        supports_encryption: false,
    }
}

/// The record of an agent that has never talked to a hub.
pub open spec fn fresh_state(
    username: Seq<char>,
    hostname: Seq<char>,
    os_name: Seq<char>,
    os_version: Seq<char>,
) -> StateView {
    StateView {
        registered: false,
        device: fresh_device(username, hostname, os_name, os_version),
        webhook_info: no_webhook_info(),
        sensors: default_sensors(),
    }
}

/// Whether a record is that of an agent that has never talked to a hub, for
/// some user on the host that the record names.
pub open spec fn is_fresh(s: StateView) -> bool {
    exists|username: Seq<char>|
        s == #[trigger] fresh_state(
            username,
            s.device.device_name,
            s.device.os_name,
            s.device.os_version,
        )
}

/// Whether a record is that of an agent that has never talked to a hub, on
/// the machine of the given name, or of no name where it has given none.
pub open spec fn is_fresh_on(s: StateView, hostname: Option<String>) -> bool {
    is_fresh(s) && s.device.device_name == or_unknown(hostname, "Unknown Hostname"@)
}

/// What the machine's answer is taken to be where it gave none.
pub open spec fn or_unknown(answer: Option<String>, unknown: Seq<char>) -> Seq<char> {
    match answer {
        Some(text) => text@,
        None => unknown,
    }
}

/// The record that `State::assemble` builds from the machine's answers.
pub open spec fn assembled_state(
    os_type: Option<String>,
    os_release: Option<String>,
    hostname: Option<String>,
    username: Option<String>,
) -> StateView {
    fresh_state(
        or_unknown(username, "Unknown User"@),
        or_unknown(hostname, "Unknown Hostname"@),
        or_unknown(os_type, "Unknown OS"@),
        or_unknown(os_release, "Unknown OS version"@),
    )
}

/// The first sensor that carries the identifier `id`, if there is one.
pub open spec fn sensor_with_id(sensors: Seq<SensorView>, id: Seq<char>) -> Option<SensorView>
    decreases sensors.len(),
{
    if sensors.len() == 0 {
        None
    } else if sensors[0].state.unique_id == id {
        Some(sensors[0])
    } else {
        sensor_with_id(sensors.drop_first(), id)
    }
}

/// Whether no two sensors carry the same identifier.
pub open spec fn has_unique_ids(sensors: Seq<SensorView>) -> bool {
    forall|i: int, j: int|
        0 <= i < j < sensors.len() ==> (#[trigger] sensors[i]).state.unique_id
            != (#[trigger] sensors[j]).state.unique_id
}

/// The view of an optional sensor.
pub open spec fn opt_sensor(found: Option<Sensor>) -> Option<SensorView> {
    match found {
        Some(sensor) => Some(sensor@),
        None => None,
    }
}

/// The view of an optional record.
pub open spec fn opt_state(state: Option<State>) -> Option<StateView> {
    match state {
        Some(s) => Some(s@),
        None => None,
    }
}

fn text_or(answer: Option<String>, unknown: &str) -> (text: String)
    ensures
        text@ == or_unknown(answer, unknown@),
{
    match answer {
        Some(text) => text,
        None => String::from_str(unknown),
    }
}

impl Sensor {
    /// A binary sensor that is not in use.
    pub fn binary(name: &str, unique_id: &str, icon: &str) -> (sensor: Sensor)
        ensures
            sensor@ == (SensorView {
                state: SensorStateView {
                    value: false,
                    unique_id: unique_id@,
                    sensor_type: "binary_sensor"@,
                    icon: icon@,
                },
                name: name@,
            }),
    {
        Sensor {
            name: String::from_str(name),
            state: SensorState {
                value: false,
                unique_id: String::from_str(unique_id),
                sensor_type: String::from_str("binary_sensor"),
                icon: String::from_str(icon),
            },
        }
    }
}

impl State {
    /// Builds a fresh record from what the machine answered. Where the
    /// machine did not name its operating system, itself or its user, the
    /// record says so in place of the name.
    pub fn assemble(
        os_type: Option<String>,
        os_release: Option<String>,
        hostname: Option<String>,
        username: Option<String>,
    ) -> (state: State)
        ensures
            state@ == assembled_state(os_type, os_release, hostname, username),
    {
        let username = text_or(username, "Unknown User");
        let os_name = text_or(os_type, "Unknown OS");
        let os_version = text_or(os_release, "Unknown OS version");
        let hostname = text_or(hostname, "Unknown Hostname");
        let mut device_id = username;
        device_id.append("@");
        device_id.append(hostname.as_str());
        let mut sensors: Vec<Sensor> = Vec::new();
        sensors.push(Sensor::binary("Webcam", "webcam", "mdi:webcam"));
        sensors.push(Sensor::binary("Microphone", "microphone", "mdi:microphone"));
        let state = State {
            registered: false,
            device: Device {
                device_id,
                app_id: String::from_str("ha-agent-rs"),
                app_name: String::from_str("Home Assistant Agent"),
                app_version: String::from_str(APP_VERSION),
                device_name: hostname,
                manufacturer: String::from_str("Computer"),
                model: String::from_str("Computer"),
                os_name,
                os_version,
                supports_encryption: false,
            },
            webhook_info: WebhookInfo {
                cloudhook_url: None,
                remote_ui_url: None,
                secret: None,
                webhook_id: None,
            },
            sensors,
        };
        assert(state@.sensors =~= default_sensors());
        state
    }

    /// The record of an agent that has never talked to a hub, for the user
    /// that runs it on the machine of the given name. `hostname` is `None`
    /// where the machine has given no name.
    pub fn new(hostname: Option<String>) -> (state: State)
        ensures
            is_fresh_on(state@, hostname),
    {
        let os_type = crate::host::os_type();
        let os_release = crate::host::os_release();
        let username = match crate::host::user_by_uid(crate::host::current_uid()) {
            Some(user) => crate::host::user_name(&user),
            None => None,
        };
        let ghost name = or_unknown(username, "Unknown User"@);
        let state = State::assemble(os_type, os_release, hostname, username);
        assert(state@ == fresh_state(
            name,
            state@.device.device_name,
            state@.device.os_name,
            state@.device.os_version,
        ));
        state
    }

    /// Looks a sensor up by its identifier and hands out a copy of the first
    /// one that carries it.
    pub fn get_sensor_by_unique_id(&self, unique_id: &str) -> (found: Option<Sensor>)
        ensures
            opt_sensor(found) == sensor_with_id(self@.sensors, unique_id@),
    {
        let mut i: usize = 0;
        assert(self@.sensors.skip(0) =~= self@.sensors);
        while i < self.sensors.len()
            invariant
                i <= self.sensors.len(),
                sensor_with_id(self@.sensors, unique_id@) == sensor_with_id(
                    self@.sensors.skip(i as int),
                    unique_id@,
                ),
            decreases self.sensors.len() - i,
        {
            let ghost rest = self@.sensors.skip(i as int);
            assert(rest[0] == self.sensors@[i as int]@);
            assert(rest.drop_first() =~= self@.sensors.skip(i as int + 1));
            if self.sensors[i].state.unique_id.as_str().eq(unique_id) {
                return Some(self.sensors[i].clone());
            }
            i += 1;
        }
        None
    }
}

/// `sensor_with_id` finds a sensor exactly when one carries the identifier,
/// and then it is the first that does.
pub proof fn lemma_sensor_with_id_is_first(sensors: Seq<SensorView>, id: Seq<char>)
    ensures
        match sensor_with_id(sensors, id) {
            Some(sensor) => exists|i: int|
                0 <= i < sensors.len() && #[trigger] sensors[i] == sensor && sensor.state.unique_id
                    == id && forall|j: int| 0 <= j < i ==> (#[trigger] sensors[j]).state.unique_id != id,
            None => forall|j: int| 0 <= j < sensors.len() ==> (#[trigger] sensors[j]).state.unique_id != id,
        },
    decreases sensors.len(),
{
    if sensors.len() == 0 {
    } else if sensors[0].state.unique_id == id {
        assert(sensors[0] == sensors[0]);
    } else {
        let rest = sensors.drop_first();
        lemma_sensor_with_id_is_first(rest, id);
        assert(forall|j: int| 0 <= j < rest.len() ==> rest[j] == sensors[j + 1]);
        match sensor_with_id(rest, id) {
            Some(sensor) => {
                let i = choose|i: int|
                    0 <= i < rest.len() && #[trigger] rest[i] == sensor && sensor.state.unique_id
                        == id && forall|j: int| 0 <= j < i ==> (#[trigger] rest[j]).state.unique_id != id;
                assert(sensors[i + 1] == sensor);
                assert forall|j: int| 0 <= j < i + 1 implies (#[trigger] sensors[j]).state.unique_id
                    != id by {
                    if j > 0 {
                        assert(rest[j - 1] == sensors[j]);
                    }
                }
            },
            None => {
                assert forall|j: int| 0 <= j < sensors.len() implies (#[trigger] sensors[j]).state.unique_id
                    != id by {
                    if j > 0 {
                        assert(rest[j - 1] == sensors[j]);
                    }
                }
            },
        }
    }
}

/// In a record with the default sensors, the camera is found under
/// "webcam", the microphone under "microphone", and nothing under any other
/// identifier.
pub proof fn lemma_default_sensors_by_id(id: Seq<char>)
    ensures
        id == "webcam"@ ==> sensor_with_id(default_sensors(), id) == Some(webcam_sensor()),
        id == "microphone"@ ==> sensor_with_id(default_sensors(), id) == Some(microphone_sensor()),
        id != "webcam"@ && id != "microphone"@ ==> sensor_with_id(default_sensors(), id) is None,
{
    reveal_strlit("webcam");
    reveal_strlit("microphone");
    let sensors = default_sensors();
    let rest = sensors.drop_first();
    assert(rest.len() == 1 && rest[0] == microphone_sensor());
    assert(rest.drop_first().len() == 0);
    assert("webcam"@.len() != "microphone"@.len());
    reveal_with_fuel(sensor_with_id, 3);
}

/// The sensors of a fresh record carry different identifiers.
pub proof fn lemma_default_sensors_have_unique_ids()
    ensures
        has_unique_ids(default_sensors()),
{
    reveal_strlit("webcam");
    reveal_strlit("microphone");
    assert("webcam"@.len() != "microphone"@.len());
}

/// Where no two sensors carry the same identifier, each sensor is the one
/// that is found under its identifier.
pub proof fn lemma_unique_id_finds_its_sensor(sensors: Seq<SensorView>, i: int)
    requires
        has_unique_ids(sensors),
        0 <= i < sensors.len(),
    ensures
        sensor_with_id(sensors, sensors[i].state.unique_id) == Some(sensors[i]),
{
    let id = sensors[i].state.unique_id;
    lemma_sensor_with_id_is_first(sensors, id);
    match sensor_with_id(sensors, id) {
        Some(sensor) => {
            let k = choose|k: int|
                0 <= k < sensors.len() && #[trigger] sensors[k] == sensor && sensor.state.unique_id
                    == id && forall|j: int| 0 <= j < k ==> (#[trigger] sensors[j]).state.unique_id != id;
            if k < i {
                assert(sensors[k].state.unique_id != sensors[i].state.unique_id);
            } else if i < k {
                assert(sensors[i].state.unique_id != id);
            }
        },
        None => {
            assert(sensors[i].state.unique_id != id);
        },
    }
}

} // verus!

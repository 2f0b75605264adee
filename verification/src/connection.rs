//! The session with the hub: endpoint resolution, the requests that are
//! posted over HTTP and what each reply means.
use vstd::prelude::*;
use serde_json::Value;
use crate::agent_state::{
    Device, DeviceView, SensorState, SensorStateView, SensorView, State, StateView, WebhookInfo,
    WebhookInfoView,
};
use crate::error::AgentError;
use crate::json::{
    JsonTree, json_document, json_text, json_tree, no_fields, no_members, object_value, parse,
    put_field, render,
};
use crate::wire::{
    device_members, put_text, required_text, sensor_state_trees, sensor_state_views,
    sensor_states_to_json, sensor_tree, webhook_info_of_tree,
};

verus! {

/// What is known for the lifetime of a connection, and the endpoint that
/// sensor pushes currently go to.
#[derive(Debug)]
pub struct Session {
    hass_protocol: String,
    hass_address: String,
    hass_token: String,
    webhook_url: String,
}

/// A session as plain text.
pub struct SessionView {
    pub protocol: Seq<char>,
    pub address: Seq<char>,
    pub token: Seq<char>,
    pub webhook_url: Seq<char>,
}

impl View for Session {
    type V = SessionView;

    closed spec fn view(&self) -> SessionView {
        SessionView {
            protocol: self.hass_protocol@,
            address: self.hass_address@,
            token: self.hass_token@,
            webhook_url: self.webhook_url@,
        }
    }
}

/// The session that a handshake ends in: it has no push endpoint yet.
pub open spec fn new_session(
    protocol: Seq<char>,
    address: Seq<char>,
    token: Seq<char>,
) -> SessionView {
    SessionView { protocol, address, token, webhook_url: Seq::empty() }
}

/// The push endpoint under a host: `{protocol}://{host}/api/webhook/{id}`.
pub open spec fn webhook_path(protocol: Seq<char>, host: Seq<char>, id: Seq<char>) -> Seq<char> {
    protocol + "://"@ + host + "/api/webhook/"@ + id
}

/// The push endpoint that the hub's addressing data resolves to. A direct
/// push URL wins; else an identifier is placed under the alternate address
/// if there is one, under the address of the session if not; with neither URL nor
/// identifier the endpoint is empty.
pub open spec fn resolved_webhook_url(
    protocol: Seq<char>,
    address: Seq<char>,
    info: WebhookInfoView,
) -> Seq<char> {
    match info.cloudhook_url {
        Some(url) => url,
        None => match info.webhook_id {
            Some(id) => match info.remote_ui_url {
                Some(alternate) => webhook_path(protocol, alternate, id),
                None => webhook_path(protocol, address, id),
            },
            None => Seq::empty(),
        },
    }
}

/// A request that the agent posts to the hub over HTTP.
#[derive(Debug, PartialEq)]
pub struct Request {
    /// Where the request goes.
    pub url: String,
    /// The value of the `Authorization` header, where the request has one.
    pub authorization: Option<String>,
    /// The JSON text that is sent.
    pub body: String,
}

/// A request as plain text.
pub struct RequestView {
    pub url: Seq<char>,
    pub authorization: Option<Seq<char>>,
    pub body: Seq<char>,
}

impl View for Request {
    type V = RequestView;

    open spec fn view(&self) -> RequestView {
        RequestView {
            url: self.url@,
            authorization: crate::text::opt_text(self.authorization),
            body: self.body@,
        }
    }
}

pub open spec fn request_views(requests: Seq<Request>) -> Seq<RequestView> {
    Seq::new(requests.len(), |i: int| requests[i]@)
}

pub open spec fn opt_request(request: Option<Request>) -> Option<RequestView> {
    match request {
        Some(r) => Some(r@),
        None => None,
    }
}

/// Whether an HTTP status reports success: 200 to 299.
pub open spec fn is_success(status: u16) -> bool {
    200 <= status < 300
}

/// Where a device is registered: `{protocol}://{address}/api/mobile_app/registrations`.
pub open spec fn registration_url(protocol: Seq<char>, address: Seq<char>) -> Seq<char> {
    protocol + "://"@ + address + "/api/mobile_app/registrations"@
}

/// The kind of a registration message: a first registration or the update
/// of an earlier one.
pub open spec fn registration_kind(new_registration: bool) -> Seq<char> {
    if new_registration {
        "register"@
    } else {
        "update_registration"@
    }
}

/// A registration message: the members of the device identity with the
/// kind of the message beside them.
pub open spec fn registration_tree(device: DeviceView, new_registration: bool) -> JsonTree {
    JsonTree::Object(
        device_members(device).insert("type"@, JsonTree::Text(registration_kind(new_registration))),
    )
}

/// The request that registers a device.
pub open spec fn registration_request(
    session: SessionView,
    device: DeviceView,
    new_registration: bool,
) -> RequestView {
    RequestView {
        url: registration_url(session.protocol, session.address),
        authorization: Some("Bearer "@ + session.token),
        body: json_text(registration_tree(device, new_registration)),
    }
}

/// A message about sensors: its kind and what it carries.
pub open spec fn sensor_message_tree(kind: Seq<char>, data: JsonTree) -> JsonTree {
    JsonTree::Object(no_members().insert("type"@, JsonTree::Text(kind)).insert("data"@, data))
}

/// The request that registers one sensor at the push endpoint.
pub open spec fn sensor_registration(webhook_url: Seq<char>, sensor: SensorView) -> RequestView {
    RequestView {
        url: webhook_url,
        authorization: None,
        body: json_text(sensor_message_tree("register_sensor"@, sensor_tree(sensor))),
    }
}

/// The requests that register the sensors: one for each, in order; none
/// while no push endpoint is resolved.
pub open spec fn sensor_registrations(
    webhook_url: Seq<char>,
    sensors: Seq<SensorView>,
) -> Seq<RequestView> {
    if webhook_url.len() == 0 {
        Seq::empty()
    } else {
        Seq::new(sensors.len(), |i: int| sensor_registration(webhook_url, sensors[i]))
    }
}

/// The request that pushes sensor values; none while no push endpoint is
/// resolved.
pub open spec fn sensor_update(
    webhook_url: Seq<char>,
    states: Seq<SensorStateView>,
) -> Option<RequestView> {
    if webhook_url.len() == 0 {
        None
    } else {
        Some(
            RequestView {
                url: webhook_url,
                authorization: None,
                body: json_text(
                    sensor_message_tree(
                        "update_sensor_states"@,
                        JsonTree::Array(sensor_state_trees(states)),
                    ),
                ),
            },
        )
    }
}

/// The addressing data that the hub's reply to a registration carries: the
/// status reports success and the body is a JSON document that holds
/// addressing data.
pub open spec fn registration_reply(status: u16, body: Seq<char>) -> Option<WebhookInfoView> {
    if is_success(status) {
        match json_document(body) {
            Some(tree) => webhook_info_of_tree(tree),
            None => None,
        }
    } else {
        None
    }
}

/// The record after the hub has accepted the registration.
pub open spec fn registered_state(state: StateView, info: WebhookInfoView) -> StateView {
    StateView { registered: true, webhook_info: info, ..state }
}

/// The session after the hub's addressing data has changed.
pub open spec fn resolved_session(session: SessionView, info: WebhookInfoView) -> SessionView {
    SessionView {
        webhook_url: resolved_webhook_url(session.protocol, session.address, info),
        ..session
    }
}

fn http_success(status: u16) -> (r: bool)
    ensures
        r == is_success(status),
{
    200 <= status && status < 300
}

fn sensor_message(kind: &str, data: Value) -> (body: String)
    ensures
        body@ == json_text(sensor_message_tree(kind@, json_tree(data))),
{
    let mut fields = no_fields();
    put_text(&mut fields, "type", kind);
    put_field(&mut fields, String::from_str("data"), data);
    render(&object_value(fields))
}

impl Session {
    /// A session that has not resolved a push endpoint yet.
    pub fn new(hass_protocol: &str, hass_address: &str, hass_token: &str) -> (session: Session)
        ensures
            session@ == new_session(hass_protocol@, hass_address@, hass_token@),
    {
        Session {
            hass_protocol: String::from_str(hass_protocol),
            hass_address: String::from_str(hass_address),
            hass_token: String::from_str(hass_token),
            webhook_url: String::new(),
        }
    }

    /// The endpoint that sensor pushes currently go to; empty while none is
    /// resolved.
    pub fn webhook_url(&self) -> (url: &str)
        ensures
            url@ == self@.webhook_url,
    {
        self.webhook_url.as_str()
    }

    /// Resolves the push endpoint from the hub's addressing data.
    pub fn calculate_webhook_url(&self, webhook_info: &WebhookInfo) -> (url: String)
        ensures
            url@ == resolved_webhook_url(self@.protocol, self@.address, webhook_info@),
    {
        match &webhook_info.cloudhook_url {
            Some(cloudhook_url) => cloudhook_url.clone(),
            None => match &webhook_info.webhook_id {
                Some(webhook_id) => {
                    let host: &str = match &webhook_info.remote_ui_url {
                        Some(remote_ui_url) => remote_ui_url.as_str(),
                        None => self.hass_address.as_str(),
                    };
                    let mut url = self.hass_protocol.clone();
                    url.append("://");
                    url.append(host);
                    url.append("/api/webhook/");
                    url.append(webhook_id.as_str());
                    url
                },
                None => String::new(),
            },
        }
    }

    /// Resolves the push endpoint anew and keeps it. To be called whenever
    /// the hub's addressing data has changed.
    pub fn update_webhook_url(&mut self, webhook_info: &WebhookInfo)
        ensures
            final(self)@ == (SessionView {
                webhook_url: resolved_webhook_url(
                    old(self)@.protocol,
                    old(self)@.address,
                    webhook_info@,
                ),
                ..old(self)@
            }),
    {
        self.webhook_url = self.calculate_webhook_url(webhook_info);
    }

    /// The request that registers the device with the hub, as a first
    /// registration or as the update of an earlier one.
    pub fn registration_request(&self, device: &Device, new_registration: bool) -> (request: Request)
        ensures
            request@ == registration_request(self@, device@, new_registration),
    {
        let mut url = self.hass_protocol.clone();
        url.append("://");
        url.append(self.hass_address.as_str());
        url.append("/api/mobile_app/registrations");
        let mut authorization = String::from_str("Bearer ");
        authorization.append(self.hass_token.as_str());
        let mut fields = device.to_fields();
        if new_registration {
            put_text(&mut fields, "type", "register");
        } else {
            put_text(&mut fields, "type", "update_registration");
        }
        let body = render(&object_value(fields));
        Request { url, authorization: Some(authorization), body }
    }

    /// Takes the hub's reply to a registration into the record. Where the
    /// status reports success and the body holds addressing data, the
    /// record has that data and counts as registered. Any other reply is a
    /// failed registration and leaves the record as it was.
    pub fn register_device(
        state: &mut State,
        status: u16,
        body: &str,
    ) -> (done: Result<(), AgentError>)
        ensures
            match registration_reply(status, body@) {
                Some(info) => done is Ok && final(state)@ == registered_state(old(state)@, info),
                None => done == Err::<(), AgentError>(AgentError::RegistrationFailed)
                    && *final(state) == *old(state),
            },
    {
        if !http_success(status) {
            return Err(AgentError::RegistrationFailed);
        }
        let info = match parse(body) {
            Ok(value) => WebhookInfo::from_json(&value),
            Err(_) => None,
        };
        match info {
            Some(info) => {
                state.webhook_info = info;
                state.registered = true;
                Ok(())
            },
            None => Err(AgentError::RegistrationFailed),
        }
    }

    /// Takes the hub's reply to the update of a registration into the
    /// record and resolves the push endpoint anew. A failed registration
    /// leaves record and session as they were.
    pub fn update_registration(
        &mut self,
        state: &mut State,
        status: u16,
        body: &str,
    ) -> (done: Result<(), AgentError>)
        ensures
            match registration_reply(status, body@) {
                Some(info) => done is Ok && final(state)@ == registered_state(old(state)@, info)
                    && final(self)@ == resolved_session(old(self)@, info),
                None => done == Err::<(), AgentError>(AgentError::RegistrationFailed)
                    && *final(state) == *old(state) && *final(self) == *old(self),
            },
    {
        match Session::register_device(state, status, body) {
            Ok(()) => {
                self.update_webhook_url(&state.webhook_info);
                Ok(())
            },
            Err(e) => Err(e),
        }
    }

    /// Takes the hub's reply to a first registration into the record,
    /// resolves the push endpoint anew and hands out the requests that
    /// register the sensors. A failed registration leaves record and
    /// session as they were.
    pub fn register(
        &mut self,
        state: &mut State,
        status: u16,
        body: &str,
    ) -> (requests: Result<Vec<Request>, AgentError>)
        ensures
            match registration_reply(status, body@) {
                Some(info) => requests matches Ok(r) && final(state)@ == registered_state(
                    old(state)@,
                    info,
                ) && final(self)@ == resolved_session(old(self)@, info) && request_views(r@)
                    == sensor_registrations(final(self)@.webhook_url, old(state)@.sensors),
                None => requests == Err::<Vec<Request>, AgentError>(AgentError::RegistrationFailed)
                    && *final(state) == *old(state) && *final(self) == *old(self),
            },
    {
        match self.update_registration(state, status, body) {
            Ok(()) => Ok(self.register_sensors(state)),
            Err(e) => Err(e),
        }
    }

    /// The requests that register the sensors of the record at the push
    /// endpoint: one for each sensor, in order. Each is sent whatever
    /// became of the others. While no push endpoint is resolved there is
    /// nothing to send.
    pub fn register_sensors(&self, state: &State) -> (requests: Vec<Request>)
        ensures
            request_views(requests@) == sensor_registrations(self@.webhook_url, state@.sensors),
    {
        let mut requests: Vec<Request> = Vec::new();
        if self.webhook_url.as_str().is_empty() {
            assert(request_views(requests@) =~= sensor_registrations(
                self@.webhook_url,
                state@.sensors,
            ));
            return requests;
        }
        let mut i: usize = 0;
        while i < state.sensors.len()
            invariant
                i <= state.sensors.len(),
                requests@.len() == i,
                self@.webhook_url.len() > 0,
                forall|j: int|
                    0 <= j < i ==> (#[trigger] requests@[j])@ == sensor_registration(
                        self@.webhook_url,
                        state.sensors@[j]@,
                    ),
            decreases state.sensors.len() - i,
        {
            let body = sensor_message("register_sensor", state.sensors[i].to_json());
            requests.push(Request { url: self.webhook_url.clone(), authorization: None, body });
            i += 1;
        }
        assert(request_views(requests@) =~= sensor_registrations(
            self@.webhook_url,
            state@.sensors,
        ));
        requests
    }

    /// The request that pushes the given sensor values to the hub. While no
    /// push endpoint is resolved there is nothing to send.
    pub fn update_sensor(&self, sensors: Vec<SensorState>) -> (request: Option<Request>)
        ensures
            opt_request(request) == sensor_update(self@.webhook_url, sensor_state_views(sensors@)),
    {
        if self.webhook_url.as_str().is_empty() {
            return None;
        }
        let body = sensor_message("update_sensor_states", sensor_states_to_json(&sensors));
        Some(Request { url: self.webhook_url.clone(), authorization: None, body })
    }

    /// What the status of the hub's reply to a sensor registration or
    /// update means: the push failed unless the status reports success.
    pub fn push_outcome(status: u16) -> (done: Result<(), AgentError>)
        ensures
            done == if is_success(status) {
                Ok::<(), AgentError>(())
            } else {
                Err::<(), AgentError>(AgentError::PushFailed)
            },
    {
        if http_success(status) {
            Ok(())
        } else {
            Err(AgentError::PushFailed)
        }
    }
}

/// A direct push URL is used as it is, whatever else the hub sent.
pub proof fn lemma_direct_url_wins(
    protocol: Seq<char>,
    address: Seq<char>,
    info: WebhookInfoView,
    url: Seq<char>,
)
    requires
        info.cloudhook_url == Some(url),
    ensures
        resolved_webhook_url(protocol, address, info) == url,
{
}

/// Without a direct push URL, an identifier is placed under the alternate
/// address where the hub sent one, and under the address of the session where it
/// did not.
pub proof fn lemma_identifier_is_placed(
    protocol: Seq<char>,
    address: Seq<char>,
    info: WebhookInfoView,
    id: Seq<char>,
)
    requires
        info.cloudhook_url is None,
        info.webhook_id == Some(id),
    ensures
        info.remote_ui_url matches Some(alternate) ==> resolved_webhook_url(protocol, address, info)
            == protocol + "://"@ + alternate + "/api/webhook/"@ + id,
        info.remote_ui_url is None ==> resolved_webhook_url(protocol, address, info) == protocol
            + "://"@ + address + "/api/webhook/"@ + id,
{
}

/// A registration message names its kind under "type": "register" for a
/// first registration, "update_registration" for the update of one.
pub proof fn lemma_registration_names_its_kind(device: DeviceView, new_registration: bool)
    ensures
        required_text(registration_tree(device, new_registration), "type"@) == Some(
            registration_kind(new_registration),
        ),
        registration_kind(true) != registration_kind(false),
{
    reveal_strlit("register");
    reveal_strlit("update_registration");
    assert("register"@.len() != "update_registration"@.len());
}

/// With neither a direct push URL nor an identifier there is no push
/// endpoint, and nothing is sent: no sensor is registered and no value is
/// pushed.
pub proof fn lemma_no_endpoint_no_push(
    session: SessionView,
    info: WebhookInfoView,
    sensors: Seq<SensorView>,
    states: Seq<SensorStateView>,
)
    requires
        info.cloudhook_url is None,
        info.webhook_id is None,
    ensures
        sensor_registrations(resolved_session(session, info).webhook_url, sensors).len() == 0,
        sensor_update(resolved_session(session, info).webhook_url, states) is None,
{
}

/// With neither a direct push URL nor an identifier the endpoint is empty.
pub proof fn lemma_nothing_to_resolve(protocol: Seq<char>, address: Seq<char>, info: WebhookInfoView)
    requires
        info.cloudhook_url is None,
        info.webhook_id is None,
    ensures
        resolved_webhook_url(protocol, address, info).len() == 0,
{
}

} // verus!

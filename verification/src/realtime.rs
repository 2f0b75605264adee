//! The realtime connection to the hub: the handshake that opens it and the
//! frames that come in while it stands.
use vstd::prelude::*;
use serde_json::Value;
use crate::connection::{Session, SessionView, new_session};
use crate::error::AgentError;
use crate::json::{
    JsonTree, as_text, json_document, json_text, json_tree, member, no_fields, no_members,
    object_value, parse, render,
};
use crate::locator::{read_url, url_normal_form};
use crate::wire::{put_text, required_text};

verus! {

/// A frame on the realtime connection.
#[derive(Debug, PartialEq)]
pub enum Frame {
    Text(String),
    Binary(Vec<u8>),
    Ping(Vec<u8>),
    Pong(Vec<u8>),
    Close,
}

/// A frame as plain values.
pub enum FrameView {
    Text(Seq<char>),
    Binary(Seq<u8>),
    Ping(Seq<u8>),
    Pong(Seq<u8>),
    Close,
}

impl View for Frame {
    type V = FrameView;

    open spec fn view(&self) -> FrameView {
        match *self {
            Frame::Text(text) => FrameView::Text(text@),
            Frame::Binary(data) => FrameView::Binary(data@),
            Frame::Ping(data) => FrameView::Ping(data@),
            Frame::Pong(data) => FrameView::Pong(data@),
            Frame::Close => FrameView::Close,
        }
    }
}

/// What the realtime connection yielded when the agent waited for it.
#[derive(Debug, PartialEq)]
pub enum Inbound {
    /// The hub sent a frame.
    Frame(Frame),
    /// Reading failed.
    Failed,
    /// The connection has ended.
    Closed,
}

/// What the connection yielded, as plain values.
pub enum InboundView {
    Frame(FrameView),
    Failed,
    Closed,
}

impl View for Inbound {
    type V = InboundView;

    open spec fn view(&self) -> InboundView {
        match *self {
            Inbound::Frame(frame) => InboundView::Frame(frame@),
            Inbound::Failed => InboundView::Failed,
            Inbound::Closed => InboundView::Closed,
        }
    }
}

/// What the agent does about something that the realtime connection
/// yielded.
#[derive(Debug, PartialEq)]
pub enum Pump {
    /// Send this frame, then wait for the next.
    Reply(Frame),
    /// The hub sent a text; note it, then wait for the next.
    Observed(String),
    /// Wait for the next.
    Ignored,
    /// The connection has ended; reading is over.
    Finished,
    /// Reading is over with an error.
    Failed(AgentError),
}

/// What the agent does about it, as plain values.
pub enum PumpView {
    Reply(FrameView),
    Observed(Seq<char>),
    Ignored,
    Finished,
    Failed(AgentError),
}

impl View for Pump {
    type V = PumpView;

    open spec fn view(&self) -> PumpView {
        match *self {
            Pump::Reply(frame) => PumpView::Reply(frame@),
            Pump::Observed(text) => PumpView::Observed(text@),
            Pump::Ignored => PumpView::Ignored,
            Pump::Finished => PumpView::Finished,
            Pump::Failed(e) => PumpView::Failed(e),
        }
    }
}

/// The pong that answers a ping: it carries nothing.
pub open spec fn pong() -> FrameView {
    FrameView::Pong(Seq::empty())
}

/// What the agent does about something that the realtime connection
/// yielded: a ping is answered with a pong, a text is noted, any other
/// frame is passed over, and the end of the connection or a failure ends
/// the reading.
pub open spec fn pump(event: InboundView) -> PumpView {
    match event {
        InboundView::Frame(FrameView::Ping(_)) => PumpView::Reply(pong()),
        InboundView::Frame(FrameView::Text(text)) => PumpView::Observed(text),
        InboundView::Frame(_) => PumpView::Ignored,
        InboundView::Closed => PumpView::Finished,
        InboundView::Failed => PumpView::Failed(AgentError::ConnectionError),
    }
}

/// A frame that went over the realtime connection, and which way.
pub enum Wire {
    Received(FrameView),
    Sent(FrameView),
}

/// What goes over the realtime connection, in order, while the agent takes
/// the given events one after the other: each frame that comes in, and
/// behind it the reply where the agent sends one. It ends where the reading
/// ends.
pub open spec fn exchange(events: Seq<InboundView>) -> Seq<Wire>
    decreases events.len(),
{
    if events.len() == 0 {
        Seq::empty()
    } else {
        match events[0] {
            InboundView::Frame(frame) => match pump(events[0]) {
                PumpView::Reply(reply) => seq![Wire::Received(frame), Wire::Sent(reply)] + exchange(
                    events.drop_first(),
                ),
                _ => seq![Wire::Received(frame)] + exchange(events.drop_first()),
            },
            _ => Seq::empty(),
        }
    }
}

/// Where the handshake on the realtime connection stands.
#[derive(Debug, Clone, Copy, PartialEq, Eq, Structural)]
pub enum Handshake {
    /// The agent waits for the frame with which the hub opens.
    AwaitingGreeting,
    /// The agent has sent its token and waits for the hub's answer.
    AwaitingVerdict,
}

/// What the agent does next in the handshake.
#[derive(Debug)]
pub enum HandshakeStep {
    /// Send this text, then wait for the hub's answer.
    Send(String),
    /// The hub has accepted the token.
    Established(Session),
    /// The handshake has failed.
    Failed(AgentError),
}

/// A step of the handshake as plain values.
pub enum HandshakeStepView {
    Send(Seq<char>),
    Established(SessionView),
    Failed(AgentError),
}

impl View for HandshakeStep {
    type V = HandshakeStepView;

    open spec fn view(&self) -> HandshakeStepView {
        match *self {
            HandshakeStep::Send(text) => HandshakeStepView::Send(text@),
            HandshakeStep::Established(session) => HandshakeStepView::Established(session@),
            HandshakeStep::Failed(e) => HandshakeStepView::Failed(e),
        }
    }
}

/// What the agent does about what the realtime connection yielded during
/// the handshake. Whatever the hub opens with is passed over and answered
/// with the token. The hub's answer to that decides: a text that accepts
/// the token establishes the session, any other frame or none is a failed
/// authentication. A failure of the connection is a connection error.
pub open spec fn handshake_step(
    stage: Handshake,
    protocol: Seq<char>,
    address: Seq<char>,
    token: Seq<char>,
    event: InboundView,
) -> HandshakeStepView {
    match stage {
        Handshake::AwaitingGreeting => match event {
            InboundView::Frame(_) => HandshakeStepView::Send(json_text(auth_tree(token))),
            _ => HandshakeStepView::Failed(AgentError::ConnectionError),
        },
        Handshake::AwaitingVerdict => match event {
            InboundView::Frame(FrameView::Text(text)) => if text_accepts(text) {
                HandshakeStepView::Established(new_session(protocol, address, token))
            } else {
                HandshakeStepView::Failed(AgentError::AuthenticationFailed)
            },
            InboundView::Failed => HandshakeStepView::Failed(AgentError::ConnectionError),
            _ => HandshakeStepView::Failed(AgentError::AuthenticationFailed),
        },
    }
}

/// The text of the realtime endpoint at an address, before it is checked.
pub open spec fn realtime_text(address: Seq<char>) -> Seq<char> {
    "wss://"@ + address + "/api/websocket"@
}

/// The first message of the agent on the realtime connection.
pub open spec fn auth_tree(token: Seq<char>) -> JsonTree {
    JsonTree::Object(
        no_members().insert("type"@, JsonTree::Text("auth"@)).insert(
            "access_token"@,
            JsonTree::Text(token),
        ),
    )
}

/// Whether the hub's answer to the first message accepts the token: its
/// member "type" is the string "auth_ok".
pub open spec fn accepts(response: JsonTree) -> bool {
    required_text(response, "type"@) == Some("auth_ok"@)
}

/// Whether the text of the hub's answer is a JSON document that accepts the
/// token.
pub open spec fn text_accepts(response: Seq<char>) -> bool {
    match json_document(response) {
        Some(tree) => accepts(tree),
        None => false,
    }
}

impl Session {
    /// The URL of the hub's realtime endpoint at an address:
    /// `wss://{address}/api/websocket` in its normal form, or a connection
    /// error where that is no URL.
    pub fn realtime_url(hass_address: &str) -> (url: Result<String, AgentError>)
        ensures
            match url_normal_form(realtime_text(hass_address@)) {
                Some(normal) => url matches Ok(u) && u@ == normal,
                None => url == Err::<String, AgentError>(AgentError::ConnectionError),
            },
    {
        let mut text = String::from_str("wss://");
        text.append(hass_address);
        text.append("/api/websocket");
        match read_url(text.as_str()) {
            Some(url) => Ok(url.text),
            None => Err(AgentError::ConnectionError),
        }
    }

    /// The first message that the agent sends on the realtime connection:
    /// it carries the access token.
    pub fn auth_message(hass_token: &str) -> (text: String)
        ensures
            text@ == json_text(auth_tree(hass_token@)),
    {
        let mut fields = no_fields();
        put_text(&mut fields, "type", "auth");
        put_text(&mut fields, "access_token", hass_token);
        render(&object_value(fields))
    }

    /// Whether the hub's answer to the first message accepts the token.
    pub fn auth_accepted(response: &Value) -> (accepted: bool)
        ensures
            accepted == accepts(json_tree(*response)),
    {
        match member(response, "type") {
            Some(kind) => match as_text(kind) {
                Some(text) => text.eq("auth_ok"),
                None => false,
            },
            None => false,
        }
    }

    /// Ends the handshake on the realtime connection. `response` is the
    /// text of the one frame that the hub sent after the agent's first
    /// message, `None` where it sent none. A session comes out where the
    /// answer accepts the token, and it has no push endpoint yet.
    pub fn connect(
        hass_protocol: &str,
        hass_address: &str,
        hass_token: &str,
        response: Option<&str>,
    ) -> (session: Result<Session, AgentError>)
        ensures
            match session {
                Ok(s) => response matches Some(text) && text_accepts(text@) && s@ == new_session(
                    hass_protocol@,
                    hass_address@,
                    hass_token@,
                ),
                Err(e) => e == AgentError::AuthenticationFailed && !(response matches Some(text)
                    && text_accepts(text@)),
            },
    {
        let accepted = match response {
            Some(text) => match parse(text) {
                Ok(value) => Session::auth_accepted(&value),
                Err(_) => false,
            },
            None => false,
        };
        if accepted {
            Ok(Session::new(hass_protocol, hass_address, hass_token))
        } else {
            Err(AgentError::AuthenticationFailed)
        }
    }

    /// Decides what to do about what the realtime connection yielded. A
    /// ping is answered with one pong, which is to be sent before the
    /// connection is read again.
    pub fn read_incoming(&self, event: Inbound) -> (action: Pump)
        ensures
            action@ == pump(event@),
    {
        match event {
            Inbound::Frame(Frame::Ping(_)) => Pump::Reply(Frame::Pong(Vec::new())),
            Inbound::Frame(Frame::Text(text)) => Pump::Observed(text),
            Inbound::Frame(_) => Pump::Ignored,
            Inbound::Closed => Pump::Finished,
            Inbound::Failed => Pump::Failed(AgentError::ConnectionError),
        }
    }
}

impl Handshake {
    /// The stage in which a handshake begins.
    pub fn begin() -> (stage: Handshake)
        ensures
            stage == Handshake::AwaitingGreeting,
    {
        Handshake::AwaitingGreeting
    }

    /// Takes what the realtime connection yielded and says what to do
    /// next. After the first step the handshake waits for the hub's answer.
    pub fn advance(
        &mut self,
        hass_protocol: &str,
        hass_address: &str,
        hass_token: &str,
        event: Inbound,
    ) -> (step: HandshakeStep)
        ensures
            step@ == handshake_step(
                *old(self),
                hass_protocol@,
                hass_address@,
                hass_token@,
                event@,
            ),
            *final(self) == Handshake::AwaitingVerdict,
    {
        let stage = *self;
        *self = Handshake::AwaitingVerdict;
        match stage {
            Handshake::AwaitingGreeting => match event {
                Inbound::Frame(_) => HandshakeStep::Send(Session::auth_message(hass_token)),
                _ => HandshakeStep::Failed(AgentError::ConnectionError),
            },
            Handshake::AwaitingVerdict => match event {
                Inbound::Frame(Frame::Text(text)) => {
                    match Session::connect(
                        hass_protocol,
                        hass_address,
                        hass_token,
                        Some(text.as_str()),
                    ) {
                        Ok(session) => HandshakeStep::Established(session),
                        Err(e) => HandshakeStep::Failed(e),
                    }
                },
                Inbound::Failed => HandshakeStep::Failed(AgentError::ConnectionError),
                _ => HandshakeStep::Failed(AgentError::AuthenticationFailed),
            },
        }
    }
}

/// A ping that came in is answered at once: the next frame on the
/// connection is the agent's pong, and the frame after that, if there is
/// one, came from the hub.
pub proof fn lemma_ping_is_answered_once(events: Seq<InboundView>, k: int)
    requires
        0 <= k < exchange(events).len(),
        exchange(events)[k] matches Wire::Received(FrameView::Ping(_)),
    ensures
        k + 1 < exchange(events).len(),
        exchange(events)[k + 1] == Wire::Sent(pong()),
        k + 2 < exchange(events).len() ==> exchange(events)[k + 2] is Received,
    decreases events.len(),
{
    if events.len() > 0 {
        let rest = exchange(events.drop_first());
        match events[0] {
            InboundView::Frame(frame) => match pump(events[0]) {
                PumpView::Reply(reply) => {
                    if k >= 2 {
                        lemma_ping_is_answered_once(events.drop_first(), k - 2);
                        assert(exchange(events)[k] == rest[k - 2]);
                        assert(exchange(events)[k + 1] == rest[k - 1]);
                        if k + 2 < exchange(events).len() {
                            assert(exchange(events)[k + 2] == rest[k]);
                        }
                    } else if k == 0 {
                        if 2 < exchange(events).len() {
                            assert(exchange(events)[2] == rest[0]);
                            lemma_exchange_starts_with_received(events.drop_first());
                        }
                    }
                },
                _ => {
                    if k >= 1 {
                        lemma_ping_is_answered_once(events.drop_first(), k - 1);
                        assert(exchange(events)[k] == rest[k - 1]);
                        assert(exchange(events)[k + 1] == rest[k]);
                        if k + 2 < exchange(events).len() {
                            assert(exchange(events)[k + 2] == rest[k + 1]);
                        }
                    }
                },
            },
            _ => {},
        }
    }
}

/// Whatever goes over the connection first came from the hub.
pub proof fn lemma_exchange_starts_with_received(events: Seq<InboundView>)
    requires
        exchange(events).len() > 0,
    ensures
        exchange(events)[0] is Received,
{
}

/// The agent sends nothing but pongs on the realtime connection, and each
/// directly behind a ping that came in.
pub proof fn lemma_only_pings_are_answered(events: Seq<InboundView>, k: int)
    requires
        0 <= k < exchange(events).len(),
        exchange(events)[k] is Sent,
    ensures
        exchange(events)[k] == Wire::Sent(pong()),
        k >= 1,
        exchange(events)[k - 1] matches Wire::Received(FrameView::Ping(_)),
    decreases events.len(),
{
    if events.len() > 0 {
        let rest = exchange(events.drop_first());
        match events[0] {
            InboundView::Frame(frame) => match pump(events[0]) {
                PumpView::Reply(reply) => {
                    if k >= 2 {
                        lemma_only_pings_are_answered(events.drop_first(), k - 2);
                        assert(exchange(events)[k] == rest[k - 2]);
                        if k >= 3 {
                            assert(exchange(events)[k - 1] == rest[k - 3]);
                        }
                    }
                },
                _ => {
                    if k >= 1 {
                        lemma_only_pings_are_answered(events.drop_first(), k - 1);
                        assert(exchange(events)[k] == rest[k - 1]);
                        if k >= 2 {
                            assert(exchange(events)[k - 1] == rest[k - 2]);
                        }
                    }
                },
            },
            _ => {},
        }
    }
}

} // verus!

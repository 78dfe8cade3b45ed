//! The relay hub: at most one registered channel per role, the controller's
//! liveness, and what each inbound message causes to be sent to whom.
//! Channels are the caller's; the hub decides which one a message goes to.
use vstd::prelude::*;

use crate::config::{Config, ConfigView, ServerError, error_text};
use crate::controller_message::ControllerMessage;
use crate::schedule::{duplicate_schedules, schedules_view};
use crate::server_message::{
    ControllerHeartbeatPayload, ServerMessage, ServerResponse, ToggleZonePayload,
};
use crate::types::ClientType;
use crate::user_message::{
    GetConfigResponse, SetScheduleResponse, StatusResponse, ToggleZoneResponse, UserMessage,
    UserMessageResponse,
};

verus! {

/// A controller that sent nothing for this long counts as gone.
pub const LIVENESS_WINDOW_MS: u64 = 15_000;

/// Interval between two heartbeats to the user.
pub const HEARTBEAT_INTERVAL_MS: u64 = 5_000;

/// The ids of the channels registered for each role, and the id the next
/// registration will get.
pub ghost struct RegistryView {
    pub user: Option<u64>,
    pub controller: Option<u64>,
    pub next_id: u64,
}

impl RegistryView {
    pub open spec fn id_of(self, role: ClientType) -> Option<u64> {
        match role {
            ClientType::User => self.user,
            ClientType::Controller => self.controller,
        }
    }

    /// Every registered id was handed out before, and no two roles share one.
    pub open spec fn wf(self) -> bool {
        &&& (self.user matches Some(id) ==> id < self.next_id)
        &&& (self.controller matches Some(id) ==> id < self.next_id)
        &&& (self.user matches Some(u) ==> self.controller != Some(u))
    }

    /// The registry after `role` registers a channel: the new channel gets
    /// the next id and takes the place of the old one.
    pub open spec fn registered(self, role: ClientType) -> RegistryView {
        match role {
            ClientType::User => RegistryView { user: Some(self.next_id), next_id: (self.next_id + 1) as u64, ..self },
            ClientType::Controller => RegistryView { controller: Some(self.next_id), next_id: (self.next_id + 1) as u64, ..self },
        }
    }

    /// The registry after the session that registered `id` for `role` ends:
    /// the role's entry goes only if it is still that session's.
    pub open spec fn unregistered(self, role: ClientType, id: u64) -> RegistryView {
        if self.id_of(role) == Some(id) {
            match role {
                ClientType::User => RegistryView { user: None, ..self },
                ClientType::Controller => RegistryView { controller: None, ..self },
            }
        } else {
            self
        }
    }
}

/// A channel registered under an id.
pub struct Registration<C> {
    pub id: u64,
    pub channel: C,
}

/// The outbound channel of each connected role, at most one per role.
pub struct ClientRegistry<C> {
    user: Option<Registration<C>>,
    controller: Option<Registration<C>>,
    next_id: u64,
}

impl<C> ClientRegistry<C> {
    pub closed spec fn view_ids(&self) -> RegistryView {
        RegistryView {
            user: match self.user { Some(r) => Some(r.id), None => None },
            controller: match self.controller { Some(r) => Some(r.id), None => None },
            next_id: self.next_id,
        }
    }

    /// The channel registered for `role`.
    pub closed spec fn channel_of(&self, role: ClientType) -> Option<C> {
        match role {
            ClientType::User => match self.user { Some(r) => Some(r.channel), None => None },
            ClientType::Controller => match self.controller { Some(r) => Some(r.channel), None => None },
        }
    }

    pub closed spec fn wf(&self) -> bool {
        self.view_ids().wf()
    }

    pub fn new() -> (r: Self)
        ensures
            r.view_ids() == (RegistryView { user: None, controller: None, next_id: 0 }),
            r.wf(),
    {
        ClientRegistry { user: None, controller: None, next_id: 0 }
    }

    /// Whether another registration can still get an id of its own.
    pub fn can_register(&self) -> (r: bool)
        ensures
            r == (self.view_ids().next_id < u64::MAX),
    {
        self.next_id < u64::MAX
    }

    /// Registers `channel` for `role` and returns its id. A channel already
    /// registered for the role is evicted and dropped: nothing sent to the
    /// role reaches it any more.
    pub fn register(&mut self, role: ClientType, channel: C) -> (id: u64)
        requires
            old(self).wf(),
            old(self).view_ids().next_id < u64::MAX,
        ensures
            id == old(self).view_ids().next_id,
            final(self).view_ids() == old(self).view_ids().registered(role),
            final(self).channel_of(role) == Some(channel),
            final(self).channel_of(role.other()) == old(self).channel_of(role.other()),
            final(self).wf(),
    {
        let id = self.next_id;
        let entry = Registration { id, channel };
        match role {
            ClientType::User => {
                self.user = Some(entry);
            },
            ClientType::Controller => {
                self.controller = Some(entry);
            },
        }
        self.next_id = id + 1;
        id
    }

    /// Ends the registration `id` of `role` when the session that made it
    /// ends. A session that was evicted leaves its successor in place.
    pub fn unregister(&mut self, role: ClientType, id: u64)
        requires
            old(self).wf(),
        ensures
            final(self).view_ids() == old(self).view_ids().unregistered(role, id),
            old(self).view_ids().id_of(role) == Some(id) ==> final(self).channel_of(role) is None,
            old(self).view_ids().id_of(role) != Some(id) ==> final(self).channel_of(role) == old(self).channel_of(role),
            final(self).channel_of(role.other()) == old(self).channel_of(role.other()),
            final(self).wf(),
    {
        match role {
            ClientType::User => {
                let owned = match &self.user { Some(r) => r.id == id, None => false };
                if owned {
                    self.user = None;
                }
            },
            ClientType::Controller => {
                let owned = match &self.controller { Some(r) => r.id == id, None => false };
                if owned {
                    self.controller = None;
                }
            },
        }
    }

    pub fn is_registered(&self, role: ClientType) -> (r: bool)
        ensures
            r == (self.view_ids().id_of(role) is Some),
    {
        match role {
            ClientType::User => self.user.is_some(),
            ClientType::Controller => self.controller.is_some(),
        }
    }

    /// The channel a message for `role` goes to, if the role is connected.
    pub fn send_to_client(&self, role: ClientType) -> (r: Option<&C>)
        ensures
            r is Some <==> self.view_ids().id_of(role) is Some,
            r matches Some(c) ==> self.channel_of(role) == Some(*c),
    {
        match role {
            ClientType::User => match &self.user {
                Some(r) => Some(&r.channel),
                None => None,
            },
            ClientType::Controller => match &self.controller {
                Some(r) => Some(&r.channel),
                None => None,
            },
        }
    }

    pub fn send_to_controller(&self) -> (r: Option<&C>)
        ensures
            r is Some <==> self.view_ids().id_of(ClientType::Controller) is Some,
            r matches Some(c) ==> self.channel_of(ClientType::Controller) == Some(*c),
    {
        self.send_to_client(ClientType::Controller)
    }
}

/// Registering a second channel for a role evicts the first: the role now
/// answers to the new id, which differs from the evicted one; the evicted id
/// is registered for no role; and the end of the evicted session leaves the
/// new registration in place.
pub proof fn lemma_eviction(m: RegistryView, role: ClientType, evicted: u64)
    requires
        m.wf(),
        m.id_of(role) == Some(evicted),
        m.next_id < u64::MAX,
    ensures
        m.registered(role).id_of(role) == Some(m.next_id),
        m.next_id != evicted,
        m.registered(role).id_of(role) != Some(evicted),
        m.registered(role).id_of(role.other()) != Some(evicted),
        m.registered(role).unregistered(role, evicted) == m.registered(role),
        m.registered(role).wf(),
{
}

/// When the controller was last heard from, in milliseconds on the caller's
/// monotonic clock.
pub struct ControllerTimestamp {
    last_seen_ms: Option<u64>,
}

/// Milliseconds from `since` to `now`; zero if `now` is earlier.
pub open spec fn elapsed_ms(since: u64, now: u64) -> int {
    if now >= since { now - since } else { 0 }
}

/// The controller counts as connected iff it was heard from less than
/// `LIVENESS_WINDOW_MS` ago.
pub open spec fn controller_alive(last_seen: Option<u64>, now_ms: u64) -> bool {
    match last_seen {
        Some(t) => elapsed_ms(t, now_ms) < LIVENESS_WINDOW_MS,
        None => false,
    }
}

impl ControllerTimestamp {
    pub closed spec fn last_seen(&self) -> Option<u64> {
        self.last_seen_ms
    }

    pub fn new() -> (r: Self)
        ensures
            r.last_seen() is None,
    {
        ControllerTimestamp { last_seen_ms: None }
    }

    /// Records that the controller was heard from at `now_ms`.
    pub fn record(&mut self, now_ms: u64)
        ensures
            final(self).last_seen() == Some(now_ms),
    {
        self.last_seen_ms = Some(now_ms);
    }

    pub fn is_controller_connected(&self, now_ms: u64) -> (r: bool)
        ensures
            r == controller_alive(self.last_seen(), now_ms),
    {
        match self.last_seen_ms {
            Some(t) => {
                let elapsed: u64 = if now_ms >= t { now_ms - t } else { 0 };
                elapsed < LIVENESS_WINDOW_MS
            },
            None => false,
        }
    }
}

/// What a message to send holds.
#[derive(Debug)]
pub enum OutboundBody {
    /// A command for the controller.
    Server(ServerMessage),
    /// An answer to the user.
    User(UserMessageResponse),
    /// Status pushed to the user.
    Status(ServerResponse),
    /// Diagnostic text.
    Text(String),
}

/// A message for the channel of `recipient`. When the role has no channel,
/// or the channel is gone, the message is dropped.
#[derive(Debug)]
pub struct Outbound {
    pub recipient: ClientType,
    pub body: OutboundBody,
}

/// What the hub does with a message from the user.
#[derive(Debug)]
pub enum UserAction {
    /// Send these messages, in order.
    Send(Vec<Outbound>),
    /// The schedules were replaced: store the configuration, restart the
    /// schedule timers, then answer with `set_schedule_response`.
    SaveConfig,
}

pub open spec fn is_toggle_command(o: Outbound, zone: u8, activate: bool) -> bool {
    o.recipient == ClientType::Controller && o.body == OutboundBody::Server(
        ServerMessage::ToggleZone(ToggleZonePayload { zone, activate }),
    )
}

pub open spec fn is_toggle_ack(o: Outbound) -> bool {
    &&& o.recipient == ClientType::User
    &&& o.body matches OutboundBody::User(UserMessageResponse::ToggleZoneResponse(resp))
    &&& resp.success
    &&& resp.error is None
}

pub open spec fn is_status_answer(o: Outbound, connected: bool) -> bool {
    o.recipient == ClientType::User && o.body == OutboundBody::User(
        UserMessageResponse::StatusResponse(StatusResponse { is_controller_connected: connected }),
    )
}

pub open spec fn is_config_answer(o: Outbound, c: ConfigView) -> bool {
    &&& o.recipient == ClientType::User
    &&& o.body matches OutboundBody::User(UserMessageResponse::GetConfigResponse(resp))
    &&& schedules_view(resp.schedules@) == c.schedules
    &&& resp.stagger_on == c.stagger_on
    &&& resp.stagger_zones == c.stagger_zones
}

/// What handling `msg` amounts to, from the configuration `before` to
/// `after`, with the controller's liveness `alive`.
pub open spec fn user_outcome(msg: UserMessage, before: ConfigView, after: ConfigView, alive: bool, r: UserAction) -> bool {
    match msg {
        UserMessage::ToggleZone(p) => after == before && (r matches UserAction::Send(out) && out@.len() == 2
            && is_toggle_command(out@[0], p.zone, p.activate) && is_toggle_ack(out@[1])),
        UserMessage::Status(_) => after == before && (r matches UserAction::Send(out) && out@.len() == 1
            && is_status_answer(out@[0], alive)),
        UserMessage::KeepAlive(_) => after == before && (r matches UserAction::Send(out) && out@.len() == 0),
        UserMessage::SetSchedule(p) => r is SaveConfig && after == (ConfigView {
            schedules: schedules_view(p.schedules@),
            ..before
        }),
        UserMessage::GetConfig(_) => after == before && (r matches UserAction::Send(out) && out@.len() == 1
            && is_config_answer(out@[0], before)),
    }
}

/// Handles a message from the user: forwards a zone switch to the
/// controller and acknowledges it; answers a status request with the
/// controller's liveness at `now_ms`; ignores a keep-alive; replaces the
/// schedules on a schedule update; answers a configuration request with the
/// configuration.
pub fn handle_user_message(
    msg: UserMessage,
    config: &mut Config,
    timestamp: &ControllerTimestamp,
    now_ms: u64,
) -> (r: UserAction)
    ensures
        user_outcome(msg, old(config)@, final(config)@, controller_alive(timestamp.last_seen(), now_ms), r),
{
    match msg {
        UserMessage::ToggleZone(p) => {
            let mut out: Vec<Outbound> = Vec::new();
            out.push(Outbound {
                recipient: ClientType::Controller,
                body: OutboundBody::Server(ServerMessage::ToggleZone(ToggleZonePayload { zone: p.zone, activate: p.activate })),
            });
            out.push(Outbound {
                recipient: ClientType::User,
                body: OutboundBody::User(UserMessageResponse::ToggleZoneResponse(ToggleZoneResponse { success: true, error: None })),
            });
            UserAction::Send(out)
        },
        UserMessage::Status(_) => {
            let connected = timestamp.is_controller_connected(now_ms);
            let mut out: Vec<Outbound> = Vec::new();
            out.push(Outbound {
                recipient: ClientType::User,
                body: OutboundBody::User(UserMessageResponse::StatusResponse(StatusResponse { is_controller_connected: connected })),
            });
            UserAction::Send(out)
        },
        UserMessage::KeepAlive(_) => UserAction::Send(Vec::new()),
        UserMessage::SetSchedule(p) => {
            config.set_schedules(p.schedules);
            UserAction::SaveConfig
        },
        UserMessage::GetConfig(_) => {
            let response = GetConfigResponse {
                schedules: duplicate_schedules(&config.schedules),
                stagger_on: config.stagger_on,
                stagger_zones: config.stagger_zones,
            };
            let mut out: Vec<Outbound> = Vec::new();
            out.push(Outbound { recipient: ClientType::User, body: OutboundBody::User(UserMessageResponse::GetConfigResponse(response)) });
            UserAction::Send(out)
        },
    }
}

/// The answer to a schedule update once the configuration was stored, or
/// failed to be: success, or failure with the error's text.
pub fn set_schedule_response(saved: Result<(), ServerError>) -> (r: Outbound)
    ensures
        r.recipient == ClientType::User,
        r.body matches OutboundBody::User(UserMessageResponse::SetScheduleResponse(resp)) && match saved {
            Ok(()) => resp.success && resp.error is None,
            Err(e) => !resp.success && (resp.error matches Some(text) && text@ == error_text(e@)),
        },
{
    let response = match saved {
        Ok(()) => SetScheduleResponse { success: true, error: None },
        Err(e) => SetScheduleResponse { success: false, error: Some(e.message()) },
    };
    Outbound { recipient: ClientType::User, body: OutboundBody::User(UserMessageResponse::SetScheduleResponse(response)) }
}

/// Handles a message from the controller. A keep-alive needs no answer.
pub fn handle_controller_message(msg: ControllerMessage) -> (r: Vec<Outbound>)
    ensures
        r@.len() == 0,
{
    match msg {
        ControllerMessage::KeepAlive(_) => Vec::new(),
    }
}

/// A text message from a peer, as the caller parsed it against the schema
/// of the peer's role; `Err` holds the parser's complaint.
pub enum IncomingMessage {
    User(Result<UserMessage, String>),
    Controller(Result<ControllerMessage, String>),
}

pub open spec fn parse_error_text(complaint: Seq<char>) -> Seq<char> {
    "Error parsing user message: "@ + complaint
}

/// Routes a message from a peer. A user message that did not parse is
/// reported to the controller as text; one that did is handled by
/// `handle_user_message`. Any controller message, parsed or not, records
/// that the controller is alive at `now_ms`; one that did not parse is
/// dropped.
pub fn handle_incoming_message(
    incoming: IncomingMessage,
    timestamp: &mut ControllerTimestamp,
    config: &mut Config,
    now_ms: u64,
) -> (r: UserAction)
    ensures
        match incoming {
            IncomingMessage::User(Err(complaint)) => final(timestamp).last_seen() == old(timestamp).last_seen()
                && final(config)@ == old(config)@ && (r matches UserAction::Send(out) && out@.len() == 1
                && out@[0].recipient == ClientType::Controller
                && (out@[0].body matches OutboundBody::Text(t) && t@ == parse_error_text(complaint@))),
            IncomingMessage::User(Ok(_)) => final(timestamp).last_seen() == old(timestamp).last_seen(),
            IncomingMessage::Controller(_) => final(timestamp).last_seen() == Some(now_ms)
                && final(config)@ == old(config)@ && (r matches UserAction::Send(out) && out@.len() == 0),
        },
        incoming matches IncomingMessage::User(Ok(msg)) ==> user_outcome(
            msg,
            old(config)@,
            final(config)@,
            controller_alive(old(timestamp).last_seen(), now_ms),
            r,
        ),
{
    match incoming {
        IncomingMessage::User(Err(complaint)) => {
            let mut text = String::from_str("Error parsing user message: ");
            text.append(complaint.as_str());
            let mut out: Vec<Outbound> = Vec::new();
            out.push(Outbound { recipient: ClientType::Controller, body: OutboundBody::Text(text) });
            UserAction::Send(out)
        },
        IncomingMessage::User(Ok(msg)) => handle_user_message(msg, config, timestamp, now_ms),
        IncomingMessage::Controller(parsed) => {
            timestamp.record(now_ms);
            match parsed {
                Ok(msg) => UserAction::Send(handle_controller_message(msg)),
                Err(_) => UserAction::Send(Vec::new()),
            }
        },
    }
}

/// The heartbeat of one tick: the controller's liveness at `now_ms`, for the
/// user if one is registered; nothing otherwise.
pub fn heartbeat(timestamp: &ControllerTimestamp, user_registered: bool, now_ms: u64) -> (r: Option<Outbound>)
    ensures
        !user_registered ==> r is None,
        user_registered ==> (r matches Some(o) && o.recipient == ClientType::User && o.body == OutboundBody::Status(
            ServerResponse::ControllerHeartbeat(ControllerHeartbeatPayload {
                is_controller_connected: controller_alive(timestamp.last_seen(), now_ms),
            }),
        )),
{
    if !user_registered {
        return None;
    }
    let connected = timestamp.is_controller_connected(now_ms);
    Some(Outbound {
        recipient: ClientType::User,
        body: OutboundBody::Status(ServerResponse::ControllerHeartbeat(ControllerHeartbeatPayload { is_controller_connected: connected })),
    })
}

/// The controller's liveness: heard from 10 s ago it is connected, 20 s ago
/// it is not, and never heard from it is not.
pub proof fn lemma_liveness(now_ms: u64)
    requires
        now_ms >= 20_000,
    ensures
        controller_alive(Some((now_ms - 10_000) as u64), now_ms),
        !controller_alive(Some((now_ms - 20_000) as u64), now_ms),
        !controller_alive(None, now_ms),
{
}

} // verus!

use irrigation_relay::config::Config;
use irrigation_relay::controller_message::{ControllerMessage, KeepAlivePayload};
use irrigation_relay::hub::{
    handle_incoming_message, heartbeat, set_schedule_response, ClientRegistry,
    ControllerTimestamp, IncomingMessage, OutboundBody, UserAction,
};
use irrigation_relay::server_message::{ServerMessage, ServerResponse, ToggleZonePayload};
use irrigation_relay::config::ServerError;
use irrigation_relay::types::{ActivePeriod, ClientType, Day, Schedule, Zone};
use irrigation_relay::user_message::{
    GetConfigPayload, SetSchedulePayload, StatusPayload, UserMessage, UserMessageResponse,
};
use irrigation_relay::user_message::ToggleZonePayload as UserToggle;
use irrigation_relay::user_message::KeepAlivePayload as UserKeepAlive;

#[test]
fn identification_names_a_role() {
    assert_eq!(ClientType::from_identification("user"), Some(ClientType::User));
    assert_eq!(ClientType::from_identification("controller"), Some(ClientType::Controller));
    assert_eq!(ClientType::from_identification("User"), None);
    assert_eq!(ClientType::from_identification("controller "), None);
    assert_eq!(ClientType::from_identification(""), None);
    assert_eq!(ClientType::User.as_str(), "User");
    assert_eq!(ClientType::Controller.as_str(), "Controller");
}

#[test]
fn new_registration_evicts_the_old_channel() {
    let mut registry: ClientRegistry<&str> = ClientRegistry::new();
    let first = registry.register(ClientType::User, "first user");
    let second = registry.register(ClientType::User, "second user");
    assert_ne!(first, second);
    assert_eq!(registry.send_to_client(ClientType::User), Some(&"second user"));
    // the evicted session ends later: the new user stays registered
    registry.unregister(ClientType::User, first);
    assert_eq!(registry.send_to_client(ClientType::User), Some(&"second user"));
    registry.unregister(ClientType::User, second);
    assert_eq!(registry.send_to_client(ClientType::User), None);
}

#[test]
fn roles_are_registered_apart() {
    let mut registry: ClientRegistry<u32> = ClientRegistry::new();
    assert!(!registry.is_registered(ClientType::Controller));
    assert_eq!(registry.send_to_controller(), None);
    let c = registry.register(ClientType::Controller, 7);
    registry.register(ClientType::User, 9);
    assert_eq!(registry.send_to_controller(), Some(&7));
    assert_eq!(registry.send_to_client(ClientType::User), Some(&9));
    registry.unregister(ClientType::User, c);
    assert!(registry.is_registered(ClientType::User));
    assert!(registry.can_register());
}

#[test]
fn liveness_follows_the_window() {
    let now = 100_000u64;
    let mut ts = ControllerTimestamp::new();
    assert!(!ts.is_controller_connected(now));
    ts.record(now - 10_000);
    assert!(ts.is_controller_connected(now));
    ts.record(now - 20_000);
    assert!(!ts.is_controller_connected(now));
    ts.record(now - 15_000);
    assert!(!ts.is_controller_connected(now));
    ts.record(now - 14_999);
    assert!(ts.is_controller_connected(now));
}

#[test]
fn heartbeat_only_with_a_user() {
    let mut ts = ControllerTimestamp::new();
    assert!(heartbeat(&ts, false, 1_000).is_none());
    let beat = heartbeat(&ts, true, 1_000).unwrap();
    assert_eq!(beat.recipient, ClientType::User);
    match beat.body {
        OutboundBody::Status(ServerResponse::ControllerHeartbeat(p)) => assert!(!p.is_controller_connected),
        other => panic!("unexpected {other:?}"),
    }
    ts.record(1_000);
    match heartbeat(&ts, true, 5_000).unwrap().body {
        OutboundBody::Status(ServerResponse::ControllerHeartbeat(p)) => assert!(p.is_controller_connected),
        other => panic!("unexpected {other:?}"),
    }
}

fn sends(action: UserAction) -> Vec<irrigation_relay::hub::Outbound> {
    match action {
        UserAction::Send(out) => out,
        UserAction::SaveConfig => panic!("expected messages"),
    }
}

#[test]
fn user_zone_switch_is_forwarded_and_acknowledged() {
    let mut config = Config::default();
    let mut ts = ControllerTimestamp::new();
    let msg = UserMessage::ToggleZone(UserToggle { zone: 3, activate: true });
    let out = sends(handle_incoming_message(IncomingMessage::User(Ok(msg)), &mut ts, &mut config, 0));
    assert_eq!(out.len(), 2);
    assert_eq!(out[0].recipient, ClientType::Controller);
    match &out[0].body {
        OutboundBody::Server(ServerMessage::ToggleZone(p)) => {
            assert_eq!(*p, ToggleZonePayload { zone: 3, activate: true })
        }
        other => panic!("unexpected {other:?}"),
    }
    assert_eq!(out[1].recipient, ClientType::User);
    match &out[1].body {
        OutboundBody::User(UserMessageResponse::ToggleZoneResponse(r)) => {
            assert!(r.success);
            assert!(r.error.is_none());
        }
        other => panic!("unexpected {other:?}"),
    }
}

#[test]
fn bad_user_message_is_reported_to_the_controller() {
    let mut config = Config::default();
    let mut ts = ControllerTimestamp::new();
    let out = sends(handle_incoming_message(
        IncomingMessage::User(Err("missing field `type`".to_string())),
        &mut ts,
        &mut config,
        0,
    ));
    assert_eq!(out.len(), 1);
    assert_eq!(out[0].recipient, ClientType::Controller);
    match &out[0].body {
        OutboundBody::Text(t) => assert_eq!(t, "Error parsing user message: missing field `type`"),
        other => panic!("unexpected {other:?}"),
    }
}

#[test]
fn controller_messages_refresh_liveness_even_unparsed() {
    let mut config = Config::default();
    let mut ts = ControllerTimestamp::new();
    let out = sends(handle_incoming_message(
        IncomingMessage::Controller(Err("bad".to_string())),
        &mut ts,
        &mut config,
        50_000,
    ));
    assert!(out.is_empty());
    assert!(ts.is_controller_connected(60_000));
    let out = sends(handle_incoming_message(
        IncomingMessage::Controller(Ok(ControllerMessage::KeepAlive(KeepAlivePayload {}))),
        &mut ts,
        &mut config,
        70_000,
    ));
    assert!(out.is_empty());
    assert!(ts.is_controller_connected(80_000));
}

#[test]
fn status_and_keep_alive() {
    let mut config = Config::default();
    let mut ts = ControllerTimestamp::new();
    ts.record(90_000);
    let out = sends(handle_incoming_message(
        IncomingMessage::User(Ok(UserMessage::Status(StatusPayload {}))),
        &mut ts,
        &mut config,
        100_000,
    ));
    match &out[0].body {
        OutboundBody::User(UserMessageResponse::StatusResponse(r)) => assert!(r.is_controller_connected),
        other => panic!("unexpected {other:?}"),
    }
    let out = sends(handle_incoming_message(
        IncomingMessage::User(Ok(UserMessage::KeepAlive(UserKeepAlive {}))),
        &mut ts,
        &mut config,
        100_000,
    ));
    assert!(out.is_empty());
}

fn lawn() -> Schedule {
    Schedule::new(
        "lawn".to_string(),
        vec![Day::Monday, Day::Thursday],
        vec![ActivePeriod { zone: Zone::Zone1, duration_minutes: 10 }],
        360,
        true,
    )
}

#[test]
fn schedule_update_replaces_config_and_is_answered() {
    let mut config = Config::default();
    config.set_stagger_on(true);
    let mut ts = ControllerTimestamp::new();
    let action = handle_incoming_message(
        IncomingMessage::User(Ok(UserMessage::SetSchedule(SetSchedulePayload { schedules: vec![lawn()] }))),
        &mut ts,
        &mut config,
        0,
    );
    assert!(matches!(action, UserAction::SaveConfig));
    assert_eq!(config.schedules.len(), 1);
    assert_eq!(config.schedules[0].name, "lawn");
    assert!(config.stagger_on);

    let out = handle_incoming_message(
        IncomingMessage::User(Ok(UserMessage::GetConfig(GetConfigPayload {}))),
        &mut ts,
        &mut config,
        0,
    );
    let out = sends(out);
    match &out[0].body {
        OutboundBody::User(UserMessageResponse::GetConfigResponse(r)) => {
            assert_eq!(r.schedules.len(), 1);
            assert_eq!(r.schedules[0].days, vec![Day::Monday, Day::Thursday]);
            assert_eq!(r.schedules[0].start_time_minutes, 360);
            assert!(r.stagger_on);
            assert!(!r.stagger_zones);
        }
        other => panic!("unexpected {other:?}"),
    }
}

#[test]
fn schedule_update_answer_carries_the_error_text() {
    match set_schedule_response(Ok(())).body {
        OutboundBody::User(UserMessageResponse::SetScheduleResponse(r)) => {
            assert!(r.success);
            assert!(r.error.is_none());
        }
        other => panic!("unexpected {other:?}"),
    }
    let failed = set_schedule_response(Err(ServerError::FailedToCreateFile(".config.toml".to_string())));
    assert_eq!(failed.recipient, ClientType::User);
    match failed.body {
        OutboundBody::User(UserMessageResponse::SetScheduleResponse(r)) => {
            assert!(!r.success);
            assert_eq!(r.error.as_deref(), Some("Failed to create file: .config.toml"));
        }
        other => panic!("unexpected {other:?}"),
    }
}

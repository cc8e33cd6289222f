use twilight_model::gateway::event::EventType;
use splinter::event::{extract_event_type, EventKind};

#[test]
fn ready_payload_is_ready() {
    let json = r#"{"t":"READY","s":1,"op":0,"d":{}}"#;
    assert!(matches!(extract_event_type(json), Some(EventKind::Ready)));
}

#[test]
fn resumed_payload_is_resumed() {
    let json = r#"{"t": "RESUMED","s":7,"op":0,"d":{}}"#;
    assert!(matches!(extract_event_type(json), Some(EventKind::Resumed)));
}

#[test]
fn other_dispatch_is_other() {
    let json = r#"{"t":"MESSAGE_CREATE","s":2,"op":0,"d":{}}"#;
    assert!(matches!(extract_event_type(json), Some(EventKind::Other(EventType::MessageCreate))));
    let json = r#"{"t":"GUILD_CREATE","s":3,"op":0,"d":{}}"#;
    assert!(matches!(extract_event_type(json), Some(EventKind::Other(EventType::GuildCreate))));
}

#[test]
fn hello_payload_is_gateway_hello() {
    let json = r#"{"t":null,"s":null,"op":10,"d":{"heartbeat_interval":41250}}"#;
    assert!(matches!(extract_event_type(json), Some(EventKind::GatewayHello)));
}

#[test]
fn unknown_event_name_is_none() {
    let json = r#"{"t":"SOMETHING_NEW","s":3,"op":0,"d":{}}"#;
    assert!(extract_event_type(json).is_none());
    let json = r#"{"t":"GATEWAY_HELLO","s":3,"op":0,"d":{}}"#;
    assert!(extract_event_type(json).is_none());
}

#[test]
fn payload_without_opcode_is_none() {
    assert!(extract_event_type(r#"{"t":"READY"}"#).is_none());
    assert!(extract_event_type("not json").is_none());
}

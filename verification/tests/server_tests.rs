use base64::Engine;
use freshblu::device::{DeviceView, MeshbluMeta};
use freshblu::message::{device_event_to_nats, DeviceEvent, Message, NatsEvent};
use freshblu::permissions::Whitelists;
use freshblu::props::Properties;
use freshblu::subjects::parse_mqtt_topic;
use freshblu::url_guard::is_safe_url;
use uuid::Uuid;

#[test]
fn safe_url_allows_public() {
    assert!(is_safe_url("https://example.com/hook", false));
    assert!(is_safe_url("http://api.external.io/webhook", false));
}

#[test]
fn safe_url_blocks_localhost() {
    assert!(!is_safe_url("http://localhost/hook", false));
    assert!(!is_safe_url("http://127.0.0.1/hook", false));
    assert!(!is_safe_url("http://[::1]/hook", false));
    assert!(!is_safe_url("http://0.0.0.0/hook", false));
}

#[test]
fn safe_url_allows_localhost_when_enabled() {
    assert!(is_safe_url("http://127.0.0.1/hook", true));
    assert!(is_safe_url("http://localhost/hook", true));
}

#[test]
fn safe_url_blocks_private_ips() {
    assert!(!is_safe_url("http://10.0.0.1/hook", false));
    assert!(!is_safe_url("http://192.168.1.1/hook", false));
    assert!(!is_safe_url("http://172.16.0.1/hook", false));
}

#[test]
fn safe_url_blocks_metadata() {
    assert!(!is_safe_url(
        "http://169.254.169.254/latest/meta-data/",
        false
    ));
    assert!(!is_safe_url(
        "http://metadata.google.internal/computeMetadata/",
        false
    ));
}

#[test]
fn safe_url_blocks_non_http() {
    assert!(!is_safe_url("file:///etc/passwd", false));
    assert!(!is_safe_url("ftp://example.com/file", false));
    assert!(!is_safe_url("gopher://evil.com", false));
}

#[test]
fn safe_url_blocks_internal_tlds() {
    assert!(!is_safe_url("http://service.internal/hook", false));
    assert!(!is_safe_url("http://host.local/hook", false));
    assert!(!is_safe_url("http://app.localhost/hook", false));
}

#[test]
fn mqtt_topic_parsing_valid_message() {
    let uuid = Uuid::new_v4();
    let topic = format!("{}/message", uuid);
    let result = parse_mqtt_topic(&topic);
    assert!(result.is_some());
    let (parsed_uuid, event_type) = result.unwrap();
    assert_eq!(parsed_uuid, uuid.as_u128());
    assert_eq!(event_type, "message");
}

#[test]
fn mqtt_topic_parsing_valid_broadcast() {
    let uuid = Uuid::new_v4();
    let topic = format!("{}/broadcast", uuid);
    let (parsed_uuid, event_type) = parse_mqtt_topic(&topic).unwrap();
    assert_eq!(parsed_uuid, uuid.as_u128());
    assert_eq!(event_type, "broadcast");
}

#[test]
fn mqtt_topic_parsing_valid_config() {
    let uuid = Uuid::new_v4();
    let topic = format!("{}/config", uuid);
    let (parsed_uuid, event_type) = parse_mqtt_topic(&topic).unwrap();
    assert_eq!(parsed_uuid, uuid.as_u128());
    assert_eq!(event_type, "config");
}

#[test]
fn mqtt_topic_parsing_no_slash_defaults_to_message() {
    let uuid = Uuid::new_v4();
    let topic = uuid.to_string();
    let result = parse_mqtt_topic(&topic);
    assert!(result.is_some());
    let (parsed_uuid, event_type) = result.unwrap();
    assert_eq!(parsed_uuid, uuid.as_u128());
    assert_eq!(event_type, "message");
}

#[test]
fn mqtt_topic_parsing_invalid_uuid() {
    assert!(parse_mqtt_topic("not-a-uuid/message").is_none());
    assert!(parse_mqtt_topic("").is_none());
    assert!(parse_mqtt_topic("/message").is_none());
}

#[test]
fn mqtt_topic_parsing_nested_path() {
    let uuid = Uuid::new_v4();
    // the split happens at the first '/', so "message/extra/stuff" is the event type
    let topic = format!("{}/message/extra/stuff", uuid);
    let (parsed_uuid, event_type) = parse_mqtt_topic(&topic).unwrap();
    assert_eq!(parsed_uuid, uuid.as_u128());
    assert_eq!(event_type, "message/extra/stuff");
}

#[test]
fn mqtt_sender_identity_contract() {
    // The bridge takes the sender from the topic, so a topic may name any device.
    let client_uuid = Uuid::new_v4();
    let spoofed_topic = format!("{}/message", Uuid::new_v4());
    let (topic_uuid, _) = parse_mqtt_topic(&spoofed_topic).unwrap();
    assert_ne!(topic_uuid, client_uuid.as_u128(),
        "the bridge cannot validate the topic UUID against the client identity");
}

fn arduino_base64(input: &[u8]) -> String {
    const CHARS: &[u8] = b"ABCDEFGHIJKLMNOPQRSTUVWXYZabcdefghijklmnopqrstuvwxyz0123456789+/";
    let mut output = Vec::new();
    let mut i = 0;

    while i + 2 < input.len() {
        let a = input[i];
        let b = input[i + 1];
        let c = input[i + 2];
        output.push(CHARS[((a >> 2) & 0x3f) as usize]);
        output.push(CHARS[(((a & 0x03) << 4) | ((b >> 4) & 0x0f)) as usize]);
        output.push(CHARS[(((b & 0x0f) << 2) | ((c >> 6) & 0x03)) as usize]);
        output.push(CHARS[(c & 0x3f) as usize]);
        i += 3;
    }

    let remaining = input.len() - i;
    if remaining == 1 {
        let a = input[i];
        output.push(CHARS[((a >> 2) & 0x3f) as usize]);
        output.push(CHARS[((a & 0x03) << 4) as usize]);
        output.push(b'=');
        output.push(b'=');
    } else if remaining == 2 {
        let a = input[i];
        let b = input[i + 1];
        output.push(CHARS[((a >> 2) & 0x3f) as usize]);
        output.push(CHARS[(((a & 0x03) << 4) | ((b >> 4) & 0x0f)) as usize]);
        output.push(CHARS[((b & 0x0f) << 2) as usize]);
        output.push(b'=');
    }

    String::from_utf8(output).unwrap()
}

#[test]
fn arduino_base64_matches_standard() {
    let test_cases = [
        "hello:world",
        "550e8400-e29b-41d4-a716-446655440000:abcdef1234567890abcdef",
        "a:b",
        "uuid-with-dashes:token-with-64-chars-0123456789abcdef0123456789abcdef01234",
        "", // empty
        "x",
        "xy",
    ];

    for input in &test_cases {
        let arduino = arduino_base64(input.as_bytes());
        let standard = base64::engine::general_purpose::STANDARD.encode(input.as_bytes());
        assert_eq!(
            arduino, standard,
            "Base64 mismatch for input {:?}",
            input
        );
        assert_eq!(freshblu::codec::base64_encode(input.as_bytes()), standard);
    }
}

fn make_msg() -> Message {
    Message {
        devices: vec!["test".into()],
        from_uuid: Some(Uuid::new_v4().as_u128()),
        topic: None,
        payload: None,
        metadata: None,
        extra: Properties::new(),
    }
}

#[test]
fn device_event_to_nats_all_variants() {
    let target = Uuid::new_v4().as_u128();
    let msg = make_msg();

    // Message -> Some(Message)
    let result = device_event_to_nats(target, &DeviceEvent::Message(msg.clone()));
    assert!(matches!(result, Some(NatsEvent::Message { .. })));

    // Broadcast -> Some(Broadcast)
    let result = device_event_to_nats(target, &DeviceEvent::Broadcast(msg.clone()));
    assert!(matches!(result, Some(NatsEvent::Broadcast { .. })));

    // Config -> Some(ConfigUpdate)
    let view = DeviceView {
        uuid: target,
        online: true,
        device_type: None,
        meshblu: MeshbluMeta::new(Whitelists::default()),
        properties: Properties::new(),
    };
    let result = device_event_to_nats(target, &DeviceEvent::Config { device: view });
    assert!(matches!(result, Some(NatsEvent::ConfigUpdate { .. })));

    // Unregistered -> Some(Unregister)
    let result = device_event_to_nats(target, &DeviceEvent::Unregistered { uuid: target });
    assert!(matches!(result, Some(NatsEvent::Unregister { .. })));
}

#[test]
fn device_event_to_nats_ready_skipped() {
    let target = Uuid::new_v4().as_u128();

    // Ready should return None, NOT Unregister
    let result = device_event_to_nats(
        target,
        &DeviceEvent::Ready {
            uuid: target,
            token: None,
        },
    );
    assert!(result.is_none(), "Ready should not produce a NatsEvent");

    // NotReady should return None
    let result = device_event_to_nats(
        target,
        &DeviceEvent::NotReady {
            reason: "test".into(),
        },
    );
    assert!(result.is_none(), "NotReady should not produce a NatsEvent");
}

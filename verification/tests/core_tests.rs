use freshblu::auth::{generate_token, hash_token, parse_basic_auth, verify_token, TOKEN_LENGTH};
use freshblu::device::Device;
use freshblu::forwarder::{ForwarderEntry, ForwarderEvent, ForwarderPair, Forwarders, MeshbluForwarder};
use freshblu::message::SendMessageParams;
use freshblu::permissions::{WhitelistEntry, Whitelists};
use freshblu::props::Properties;
use freshblu::subscription::SubscriptionType;
use serde_json::Value;
use uuid::Uuid;
use base64::Engine;

#[test]
fn test_token_roundtrip() {
    let token = generate_token();
    assert_eq!(token.len(), TOKEN_LENGTH);
    let hash = hash_token(&token).unwrap();
    assert!(verify_token(&token, &hash));
    assert!(!verify_token("wrongtoken", &hash));
}

#[test]
fn test_basic_auth_parse() {
    let creds = base64::engine::general_purpose::STANDARD.encode("my-uuid:my-token");
    let (u, t) = parse_basic_auth(&format!("Basic {}", creds)).unwrap();
    assert_eq!(u, "my-uuid");
    assert_eq!(t, "my-token");
}

#[test]
fn test_device_new() {
    let props = Properties::new();
    let whitelists = Whitelists::default();
    let device = Device::new(props, whitelists);

    // UUID should be generated (non-nil)
    assert!(device.uuid != 0);
    // meshblu should be populated
    assert_eq!(device.meshblu.version, "2.0.0");
    assert!(device.token.is_none());
    assert!(!device.online);
}

#[test]
fn test_device_to_view_strips_token() {
    let mut props = Properties::new();
    props.insert("token".to_string(), Value::String("secret".to_string()));
    props.insert("name".to_string(), Value::String("mydevice".to_string()));

    let device = Device::new(props, Whitelists::default());
    let view = device.to_view();

    // The view should not contain a "token" key in properties
    assert!(!view.properties.contains_key("token"));
    // Other properties should still be present
    assert_eq!(
        view.properties.get("name"),
        Some(&Value::String("mydevice".to_string()))
    );
}

#[test]
fn test_whitelist_entry_matches() {
    let target = Uuid::new_v4().as_u128();
    let other = Uuid::new_v4().as_u128();

    // Wildcard matches everything
    let wildcard = WhitelistEntry::wildcard();
    assert!(wildcard.matches(target));
    assert!(wildcard.matches(other));

    // Specific entry matches only that UUID
    let specific = WhitelistEntry::for_uuid(target);
    assert!(specific.matches(target));
    assert!(!specific.matches(other));
}

#[test]
fn test_forwarders_get_accessor() {
    let fwd = Forwarders {
        message: ForwarderPair {
            sent: vec![ForwarderEntry::Meshblu(MeshbluForwarder {})],
            received: vec![],
        },
        ..Default::default()
    };
    assert_eq!(fwd.get(ForwarderEvent::MessageSent).len(), 1);
    assert_eq!(fwd.get(ForwarderEvent::MessageReceived).len(), 0);
    assert_eq!(fwd.get(ForwarderEvent::BroadcastSent).len(), 0);
}

fn make_send_params(devices: Vec<&str>) -> SendMessageParams {
    SendMessageParams {
        devices: devices.into_iter().map(String::from).collect(),
        topic: None,
        payload: None,
        extra: Properties::new(),
    }
}

#[test]
fn test_is_broadcast() {
    let broadcast = make_send_params(vec!["*"]);
    assert!(broadcast.is_broadcast());

    let mixed = make_send_params(vec!["some-uuid", "*"]);
    assert!(mixed.is_broadcast());

    let specific = make_send_params(vec!["550e8400-e29b-41d4-a716-446655440000"]);
    assert!(!specific.is_broadcast());

    let empty = make_send_params(vec![]);
    assert!(!empty.is_broadcast());
}

#[test]
fn test_subscription_type_from_str() {
    let cases = vec![
        ("broadcast.sent", SubscriptionType::BroadcastSent),
        ("broadcast.received", SubscriptionType::BroadcastReceived),
        ("configure.sent", SubscriptionType::ConfigureSent),
        ("configure.received", SubscriptionType::ConfigureReceived),
        ("message.sent", SubscriptionType::MessageSent),
        ("message.received", SubscriptionType::MessageReceived),
        ("unregister.sent", SubscriptionType::UnregisterSent),
        ("unregister.received", SubscriptionType::UnregisterReceived),
    ];
    for (input, expected) in cases {
        let parsed: SubscriptionType = input.parse().unwrap();
        assert_eq!(parsed, expected, "failed to parse {}", input);
    }
}

#[test]
fn test_subscription_type_display_roundtrip() {
    let all_types = vec![
        SubscriptionType::BroadcastSent,
        SubscriptionType::BroadcastReceived,
        SubscriptionType::ConfigureSent,
        SubscriptionType::ConfigureReceived,
        SubscriptionType::MessageSent,
        SubscriptionType::MessageReceived,
        SubscriptionType::UnregisterSent,
        SubscriptionType::UnregisterReceived,
    ];
    for st in all_types {
        let displayed = st.to_string();
        let parsed: SubscriptionType = displayed.parse().unwrap();
        assert_eq!(parsed, st);
    }
}

#[test]
fn test_unknown_subscription_type_fails() {
    let result = "nonsense".parse::<SubscriptionType>();
    assert!(result.is_err());

    let result2 = "broadcast.unknown".parse::<SubscriptionType>();
    assert!(result2.is_err());

    let result3 = "".parse::<SubscriptionType>();
    assert!(result3.is_err());
}

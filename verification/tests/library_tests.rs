use freshblu::access::{
    subscription_to_create,
    authorize_act_as, authorize_configure, authorize_create_subscription,
    authorize_manage_subscriptions, authorize_read, authorize_send_as, check_message_size,
    credential_uuid, credentials_from_headers, direct_targets, may_message, may_subscribe,
    registration_permitted, visible_devices,
};
use freshblu::auth::{compute_device_hash, generate_session_token, hash_token, verify_token};
use freshblu::client::{
    classify_server_event, cli_auth_header, device_path, masked_token, not_ready_reason, subscription_path,
    token_path, ClientSession, ServerFrame, classify_response, failure_message, ResponseKind,
};
use freshblu::delivery::{plan_delivery, Audience, Publication};
use freshblu::codec::{base64_encode, basic_auth_header, bearer_credential_header, decode_base64, parse_basic_auth};
use freshblu::config::{ServerConfig, DEFAULT_HTTP_PORT, DEFAULT_MAX_MESSAGE_SIZE};
use freshblu::device::Device;
use freshblu::error::{ApiError, FreshBluError};
use freshblu::forwarder::{
    may_forward_meshblu, plan_forwarders, webhook_method, ForwarderEntry, HttpMethod,
    MeshbluForwarder, WebhookForwarder,
};
use freshblu::message::{SendMessageParams, device_event_to_nats, nats_event_to_device_event, DeviceEvent, Message, NatsEvent};
use freshblu::permissions::{Operation, PermissionChecker, WhitelistEntry, Whitelists};
use freshblu::props::Properties;
use freshblu::rate_limit::RateLimiter;
use freshblu::routing::{fanout_plan, route_event, EventStream, Route};
use freshblu::socket::{
    fallback_client_message, on_authentication, on_client_message, on_subscription_check,
    ClientMessage, NotReadyReason, SocketAction, SocketPhase,
};
use freshblu::subjects::{mqtt_client_id_to_uuid, mqtt_event_kind, presence_key, MqttEvent};
use freshblu::subscription::{optional_subscription_type, SubscriptionType};
use freshblu::token::{webhook_credential_options, TokenRecord};
use freshblu::url_guard::{is_private_ip, is_safe_url, parsed_url_is_safe, IpAddress};
use base64::Engine;
use serde_json::Value;

const A: u128 = 0x550e8400_e29b_41d4_a716_446655440000;
const B: u128 = 0x6ba7b810_9dad_11d1_80b4_00c04fd430c8;
const C: u128 = 0x6ba7b811_9dad_11d1_80b4_00c04fd430c8;
const A_TEXT: &str = "550e8400-e29b-41d4-a716-446655440000";
const B_TEXT: &str = "6ba7b810-9dad-11d1-80b4-00c04fd430c8";

fn entry(uuid: u128) -> WhitelistEntry {
    WhitelistEntry::for_uuid(uuid)
}

#[test]
fn error_statuses() {
    assert_eq!(FreshBluError::NotFound.http_status(), 404);
    assert_eq!(FreshBluError::Forbidden.http_status(), 403);
    assert_eq!(FreshBluError::Unauthorized.http_status(), 401);
    assert_eq!(FreshBluError::InvalidToken.http_status(), 401);
    assert_eq!(FreshBluError::Conflict.http_status(), 409);
    assert_eq!(FreshBluError::Validation("x".to_string()).http_status(), 422);
    assert_eq!(FreshBluError::Storage("x".to_string()).http_status(), 500);
    assert_eq!(FreshBluError::Internal("x".to_string()).http_status(), 500);
    assert_eq!(FreshBluError::RateLimitExceeded.http_status(), 429);
    assert_eq!(FreshBluError::MessageTooLarge.http_status(), 413);
}

#[test]
fn error_messages() {
    assert_eq!(FreshBluError::NotFound.message(), "device not found");
    assert_eq!(FreshBluError::Forbidden.message(), "forbidden");
    assert_eq!(FreshBluError::Unauthorized.message(), "unauthorized");
    assert_eq!(FreshBluError::InvalidToken.message(), "invalid token");
    assert_eq!(FreshBluError::Conflict.message(), "device already exists");
    assert_eq!(FreshBluError::Validation("bad".to_string()).message(), "validation error: bad");
    assert_eq!(FreshBluError::Storage("db".to_string()).message(), "storage error: db");
    assert_eq!(FreshBluError::Internal("oops".to_string()).message(), "internal error: oops");
    assert_eq!(FreshBluError::RateLimitExceeded.message(), "rate limit exceeded");
    assert_eq!(FreshBluError::MessageTooLarge.message(), "message too large");
}

#[test]
fn api_error_keeps_status() {
    let e = ApiError::from(FreshBluError::Forbidden);
    assert_eq!(e.status(), 403);
    assert!(matches!(e.0, FreshBluError::Forbidden));
}

#[test]
fn base64_encode_known_vectors() {
    assert_eq!(base64_encode(b""), "");
    assert_eq!(base64_encode(b"f"), "Zg==");
    assert_eq!(base64_encode(b"fo"), "Zm8=");
    assert_eq!(base64_encode(b"foo"), "Zm9v");
    assert_eq!(base64_encode(b"foob"), "Zm9vYg==");
    assert_eq!(base64_encode(b"fooba"), "Zm9vYmE=");
    assert_eq!(base64_encode(b"foobar"), "Zm9vYmFy");
    assert_eq!(base64_encode(&[0xff, 0xfe, 0xfd]), "//79");
}

#[test]
fn base64_roundtrip_through_decoder() {
    let bytes: Vec<u8> = (0u8..=255).collect();
    let text = base64_encode(&bytes);
    assert_eq!(decode_base64(&text), Some(bytes));
    assert_eq!(decode_base64("Zm9v"), Some(b"foo".to_vec()));
    assert_eq!(decode_base64("not base64!"), None);
}

#[test]
fn basic_auth_edge_cases() {
    assert_eq!(parse_basic_auth("Basic dXVpZDp0b2s6ZW4="), Some(("uuid".to_string(), "tok:en".to_string())));
    // no colon
    assert_eq!(parse_basic_auth("Basic bm9jb2xvbg=="), None);
    // not base64
    assert_eq!(parse_basic_auth("Basic %%%"), None);
    // the prefix is optional
    assert_eq!(parse_basic_auth("dTp0"), Some(("u".to_string(), "t".to_string())));
    // not UTF-8
    assert_eq!(parse_basic_auth("Basic //79"), None);
}

#[test]
fn basic_auth_header_roundtrip() {
    let h = basic_auth_header("my-uuid", "my-token");
    assert_eq!(h, "Basic bXktdXVpZDpteS10b2tlbg==");
    assert_eq!(parse_basic_auth(&h), Some(("my-uuid".to_string(), "my-token".to_string())));
    assert_eq!(cli_auth_header("my-uuid", "my-token"), h);
}

#[test]
fn bearer_credentials_encode_uuid_and_token() {
    let h = bearer_credential_header(A, "secret");
    let expected = format!("{}:secret", A_TEXT);
    let encoded = base64::engine::general_purpose::STANDARD.encode(expected.as_bytes());
    assert_eq!(h, format!("Bearer {}", encoded));
}

#[test]
fn device_hash_is_base64_sha256() {
    assert_eq!(compute_device_hash(""), "47DEQpj8HBSa+/TImW+5JCeuQeRkm5NMpJWZG3hSuFU=");
    assert_eq!(compute_device_hash("abc"), "ungWv48Bz+pBQUDeXa4iI7ADYaOWF3qctBD/YfIAFa0=");
}

#[test]
fn session_tokens_are_hex() {
    let t = generate_session_token();
    assert_eq!(t.len(), 40);
    assert!(t.chars().all(|c| matches!(c, '0'..='9' | 'a'..='f')));
    let h = hash_token(&t).unwrap();
    assert!(verify_token(&t, &h));
    assert!(!verify_token(&t, "not a bcrypt hash"));
}

#[test]
fn client_paths() {
    assert_eq!(device_path(A), format!("/devices/{}", A_TEXT));
    assert_eq!(token_path(A, "tok"), format!("/devices/{}/tokens/tok", A_TEXT));
    assert_eq!(
        subscription_path(A, B, SubscriptionType::BroadcastSent),
        format!("/devices/{}/subscriptions/{}/broadcast-sent", A_TEXT, B_TEXT)
    );
}

#[test]
fn client_session_urls() {
    let mut s = ClientSession::new("https://example.com//");
    assert_eq!(s.url("/status"), "https://example.com/status");
    assert_eq!(s.ws_url(), "wss://example.com/ws");
    assert_eq!(s.auth_header(), None);
    assert!(s.credentials().is_none());
    s.set_credentials(A, "tok".to_string());
    assert_eq!(s.credentials(), Some((A, "tok")));
    assert_eq!(s.auth_header(), Some(basic_auth_header(A_TEXT, "tok")));
    let plain = ClientSession::new("http://localhost:3000");
    assert_eq!(plain.ws_url(), "ws://localhost:3000/ws");
}

#[test]
fn masked_tokens() {
    assert_eq!(masked_token("abcdefghijkl"), "abcdefgh...");
    assert_eq!(masked_token("abc"), "abc...");
    assert_eq!(masked_token(""), "...");
}

#[test]
fn config_from_settings() {
    let c = ServerConfig::from_settings(None, None, None, None, None, None, None);
    assert_eq!(c.http_port, DEFAULT_HTTP_PORT);
    assert_eq!(c.mqtt_port, 1883);
    assert_eq!(c.database_url, "sqlite:freshblu.db");
    assert_eq!(c.pepper, "change-me-in-production");
    assert!(c.open_registration);
    assert_eq!(c.max_message_size, DEFAULT_MAX_MESSAGE_SIZE);
    assert_eq!(c.log_level, "info");
    let d = ServerConfig::default();
    assert_eq!(d.http_port, 3000);
    let c = ServerConfig::from_settings(
        Some("8080".to_string()),
        Some("not a port".to_string()),
        Some("postgres://db".to_string()),
        Some("pep".to_string()),
        Some("false".to_string()),
        Some("2048".to_string()),
        Some("debug".to_string()),
    );
    assert_eq!(c.http_port, 8080);
    assert_eq!(c.mqtt_port, 1883);
    assert_eq!(c.database_url, "postgres://db");
    assert_eq!(c.pepper, "pep");
    assert!(!c.open_registration);
    assert_eq!(c.max_message_size, 2048);
    assert_eq!(c.log_level, "debug");
    let c = ServerConfig::from_settings(None, None, None, None, Some("no".to_string()), None, None);
    assert!(c.open_registration);
}

#[test]
fn rate_limiter_counts_per_window() {
    let mut rl = RateLimiter::new(2, 60);
    assert!(rl.check(A, 100).is_ok());
    assert!(rl.check(A, 101).is_ok());
    assert!(matches!(rl.check(A, 102), Err(FreshBluError::RateLimitExceeded)));
    // another device has its own window
    assert!(rl.check(B, 102).is_ok());
    assert_eq!(rl.tracked_count(), 2);
    // the window runs out after 60 seconds
    assert!(rl.check(A, 160).is_ok());
    // windows older than twice the length are dropped
    rl.evict_stale(60, 250);
    assert_eq!(rl.tracked_count(), 1);
    rl.evict_stale(60, 400);
    assert_eq!(rl.tracked_count(), 0);
}

#[test]
fn private_addresses() {
    assert!(is_private_ip(IpAddress::V4(0x7f000001)));
    assert!(is_private_ip(IpAddress::V4(0x0a000001)));
    assert!(is_private_ip(IpAddress::V4(0xac100001)));
    assert!(is_private_ip(IpAddress::V4(0xc0a80101)));
    assert!(is_private_ip(IpAddress::V4(0xa9fea9fe)));
    assert!(!is_private_ip(IpAddress::V4(0x08080808)));
    assert!(is_private_ip(IpAddress::V6(1)));
    assert!(!is_private_ip(IpAddress::V6(0x2001_4860_4860_0000_0000_0000_0000_8888)));
}

#[test]
fn token_expiry() {
    let mut rec = TokenRecord::new(A, "hash".to_string());
    assert!(!rec.is_expired_at(1_000));
    rec.expires_on = Some(1_000);
    assert!(rec.is_expired_at(1_001));
    assert!(!rec.is_expired_at(1_000));
    assert!(rec.is_expired());
    let opts = webhook_credential_options(1_000);
    assert_eq!(opts.expires_on, Some(1_300));
    assert_eq!(opts.tag.as_deref(), Some("webhook-credential"));
}

#[test]
fn permission_checker_by_list() {
    let mut w = Whitelists::private(A);
    w.message.from.push(entry(B));
    let c = PermissionChecker::new(&w, &B, &C);
    assert!(c.can_message_from());
    assert!(!c.can_discover_view());
    assert!(!c.can_configure_update());
    // a device is always permitted on itself
    let own = PermissionChecker::new(&w, &C, &C);
    assert!(own.can_discover_view());
    assert!(own.can_broadcast_as());
    let open = Whitelists::open();
    let c = PermissionChecker::new(&open, &B, &A);
    assert!(c.can_discover_view());
    assert!(c.can_message_from());
}

#[test]
fn read_hides_undiscoverable_devices() {
    let w = Whitelists::private(A);
    assert!(authorize_read(Some(&w), A, C).is_ok());
    assert!(matches!(authorize_read(Some(&w), B, C), Err(FreshBluError::NotFound)));
    assert!(matches!(authorize_read(None, B, C), Err(FreshBluError::NotFound)));
    assert!(authorize_read(Some(&Whitelists::open()), B, C).is_ok());
}

#[test]
fn configure_refusals() {
    let w = Whitelists::private(A);
    assert!(authorize_configure(Some(&w), A, C).is_ok());
    assert!(authorize_configure(Some(&w), C, C).is_ok());
    assert!(matches!(authorize_configure(Some(&w), B, C), Err(FreshBluError::Forbidden)));
    assert!(matches!(authorize_configure(None, B, C), Err(FreshBluError::NotFound)));
}

#[test]
fn act_as_checks() {
    let mut w = Whitelists::private(A);
    // the `as` lists of a private device are empty: only the device itself
    assert!(authorize_act_as(Some(&w), C, C, Operation::MessageAs).is_ok());
    assert!(matches!(authorize_act_as(Some(&w), A, C, Operation::MessageAs), Err(FreshBluError::Forbidden)));
    assert!(matches!(authorize_act_as(None, B, C, Operation::MessageAs), Err(FreshBluError::NotFound)));
    w.message.act_as.push(entry(B));
    assert!(authorize_act_as(Some(&w), B, C, Operation::MessageAs).is_ok());
    let direct = vec![A_TEXT.to_string()];
    let bcast = vec!["*".to_string()];
    assert!(authorize_send_as(Some(&w), B, C, &direct).is_ok());
    assert!(matches!(authorize_send_as(Some(&w), B, C, &bcast), Err(FreshBluError::Forbidden)));
    w.broadcast.act_as.push(entry(B));
    assert!(authorize_send_as(Some(&w), B, C, &bcast).is_ok());
}

#[test]
fn subscription_management() {
    let w = Whitelists::private(A);
    assert!(authorize_manage_subscriptions(C, C, None).is_ok());
    assert!(authorize_manage_subscriptions(A, C, Some(&w)).is_ok());
    assert!(matches!(authorize_manage_subscriptions(B, C, Some(&w)), Err(FreshBluError::Forbidden)));
    let open = Whitelists::open();
    assert!(authorize_create_subscription(C, C, Some(&w), A, Some(&open), SubscriptionType::BroadcastSent).is_ok());
    assert!(matches!(
        authorize_create_subscription(C, C, Some(&w), A, None, SubscriptionType::BroadcastSent),
        Err(FreshBluError::NotFound)
    ));
    assert!(may_subscribe(Some(&open), C, A, SubscriptionType::MessageSent));
    assert!(!may_subscribe(Some(&w), B, C, SubscriptionType::MessageSent));
    assert!(!may_subscribe(None, B, C, SubscriptionType::MessageSent));
}

#[test]
fn message_targets_and_size() {
    let devices = vec![A_TEXT.to_string(), "*".to_string(), "nope".to_string(), B_TEXT.to_string()];
    assert_eq!(direct_targets(&devices), vec![A, B]);
    let w = Whitelists::private(A);
    assert!(may_message(Some(&w), A, C));
    assert!(!may_message(Some(&w), B, C));
    assert!(!may_message(None, A, C));
    assert!(check_message_size(10, 5, 15).is_ok());
    assert!(matches!(check_message_size(10, 6, 15), Err(FreshBluError::MessageTooLarge)));
}

#[test]
fn search_shows_only_discoverable_devices() {
    let mut open = Device::new(Properties::new(), Whitelists::open());
    open.uuid = A;
    let mut hidden = Device::new(Properties::new(), Whitelists::private(B));
    hidden.uuid = C;
    let mut own = Device::new(Properties::new(), Whitelists::private(B));
    own.uuid = B;
    let devices = vec![open, hidden, own];
    assert_eq!(visible_devices(&devices, B), vec![0, 1, 2]);
    assert_eq!(visible_devices(&devices, A), vec![0]);
}

#[test]
fn request_credentials() {
    let basic = basic_auth_header("u", "t");
    assert_eq!(
        credentials_from_headers(Some(&basic), Some("x"), Some("y")),
        Some(("u".to_string(), "t".to_string()))
    );
    assert_eq!(
        credentials_from_headers(None, Some("x"), Some("y")),
        Some(("x".to_string(), "y".to_string()))
    );
    assert_eq!(credentials_from_headers(None, Some("x"), None), None);
    assert_eq!(credential_uuid(A_TEXT).ok(), Some(A));
    assert!(matches!(credential_uuid("nope"), Err(FreshBluError::Unauthorized)));
    assert!(registration_permitted(true, None, false).is_ok());
    assert!(matches!(registration_permitted(false, None, false), Err(FreshBluError::Forbidden)));
    assert!(registration_permitted(false, Some(&basic), false).is_ok());
    assert!(registration_permitted(false, None, true).is_ok());
}

#[test]
fn forwarder_plan_and_loops() {
    let wh = |m: &str| {
        ForwarderEntry::Webhook(WebhookForwarder {
            url: "https://example.com".to_string(),
            method: m.to_string(),
            sign_request: false,
            generate_and_forward_meshblu_credentials: false,
        })
    };
    let mut entries = vec![wh("POST"), ForwarderEntry::Meshblu(MeshbluForwarder {}), wh("get")];
    let (w, m) = plan_forwarders(&entries);
    assert_eq!(w, vec![0, 2]);
    assert_eq!(m, vec![1]);
    for _ in 0..10 {
        entries.push(ForwarderEntry::Meshblu(MeshbluForwarder {}));
    }
    let (w, m) = plan_forwarders(&entries);
    assert_eq!(w, vec![0, 2]);
    assert_eq!(m, vec![1, 3, 4, 5, 6, 7, 8, 9]);
    assert!(may_forward_meshblu(A, &[B, C]));
    assert!(!may_forward_meshblu(A, &[B, A]));
    assert!(!may_forward_meshblu(A, &[B, B, B, B, B]));
    match (&entries[2], &entries[0]) {
        (ForwarderEntry::Webhook(g), ForwarderEntry::Webhook(p)) => {
            assert_eq!(webhook_method(g), HttpMethod::Get);
            assert_eq!(webhook_method(p), HttpMethod::Post);
        }
        _ => unreachable!(),
    }
    let del = WebhookForwarder {
        url: String::new(),
        method: "Delete".to_string(),
        sign_request: false,
        generate_and_forward_meshblu_credentials: false,
    };
    assert_eq!(webhook_method(&del), HttpMethod::Delete);
}

#[test]
fn properties_map_operations() {
    let mut p = Properties::new();
    assert_eq!(p.len(), 0);
    p.insert("color".to_string(), Value::from("blue"));
    p.insert("size".to_string(), Value::from(3));
    p.insert("color".to_string(), Value::from("red"));
    assert_eq!(p.len(), 2);
    assert_eq!(p.get("color"), Some(&Value::from("red")));
    assert!(p.contains_key("size"));
    p.remove("size");
    assert!(!p.contains_key("size"));
    assert_eq!(p.get("size"), None);
    assert_eq!(p.len(), 1);
}

#[test]
fn nats_event_roundtrip_keeps_messages() {
    let msg = Message::forwarded(A, Value::from(1));
    assert_eq!(msg.from_uuid, Some(A));
    assert_eq!(msg.topic.as_deref(), Some("forwarder"));
    let event = DeviceEvent::Message(msg);
    let nats = device_event_to_nats(B, &event).unwrap();
    match &nats {
        NatsEvent::Message { from, .. } => assert_eq!(*from, A),
        _ => panic!("expected a message"),
    }
    match nats_event_to_device_event(nats) {
        DeviceEvent::Message(m) => assert_eq!(m.from_uuid, Some(A)),
        _ => panic!("expected a message"),
    }
    let gone = device_event_to_nats(B, &DeviceEvent::Unregistered { uuid: C }).unwrap();
    assert!(matches!(nats_event_to_device_event(gone), DeviceEvent::Unregistered { uuid } if uuid == C));
}

#[test]
fn optional_types_and_segments() {
    assert_eq!(optional_subscription_type(Some("message.sent")), Some(SubscriptionType::MessageSent));
    assert_eq!(optional_subscription_type(Some("bogus")), None);
    assert_eq!(optional_subscription_type(None), None);
    assert_eq!(
        SubscriptionType::parse_path_segment("broadcast-sent").ok(),
        Some(SubscriptionType::BroadcastSent)
    );
    assert!(matches!(
        SubscriptionType::parse_path_segment("nope"),
        Err(FreshBluError::Validation(m)) if m == "invalid subscription type"
    ));
}

#[test]
fn presence_keys_and_mqtt_kinds() {
    assert_eq!(presence_key(A), format!("freshblu:presence:{}", A_TEXT));
    assert_eq!(mqtt_event_kind("message"), MqttEvent::Message);
    assert_eq!(mqtt_event_kind("broadcast"), MqttEvent::Broadcast);
    assert_eq!(mqtt_event_kind("config"), MqttEvent::Unknown);
}

#[test]
fn router_routes() {
    let gone = NatsEvent::Unregister { uuid: B };
    let inbox = format!("freshblu.device.{}.inbox", A_TEXT);
    assert_eq!(route_event(EventStream::Device, &inbox, &gone), Some(Route::Direct(A)));
    let bc = format!("freshblu.broadcast.{}", A_TEXT);
    assert_eq!(route_event(EventStream::Broadcast, &bc, &gone), Some(Route::Broadcast(A)));
    assert_eq!(route_event(EventStream::Broadcast, &inbox, &gone), None);
    let cf = format!("freshblu.configure.{}", A_TEXT);
    assert_eq!(route_event(EventStream::Configure, &cf, &gone), Some(Route::Config(A)));
    assert_eq!(
        route_event(EventStream::System, "freshblu.system.unregister", &gone),
        Some(Route::Unregister(B))
    );
    let plan = fanout_plan(Route::Config(A));
    assert_eq!(plan.direct, Some(A));
    assert_eq!(plan.subscribers_of, Some((A, SubscriptionType::ConfigureSent)));
    let plan = fanout_plan(Route::Broadcast(A));
    assert_eq!(plan.direct, None);
    assert_eq!(plan.subscribers_of, Some((A, SubscriptionType::BroadcastSent)));
}

#[test]
fn socket_identity_phase() {
    let (p, a) = on_client_message(SocketPhase::AwaitingIdentity, ClientMessage::Whoami, 1024);
    assert_eq!(p, SocketPhase::AwaitingIdentity);
    assert!(matches!(a, SocketAction::Ignore));
    let (_, a) = on_client_message(SocketPhase::AwaitingIdentity, ClientMessage::Ping, 1024);
    assert!(matches!(a, SocketAction::Pong));
    let bad = ClientMessage::Identity { uuid: "nope".to_string(), token: "t".to_string() };
    let (_, a) = on_client_message(SocketPhase::AwaitingIdentity, bad, 1024);
    assert!(matches!(a, SocketAction::NotReady(NotReadyReason::InvalidUuid)));
    let good = ClientMessage::Identity { uuid: A_TEXT.to_string(), token: "t".to_string() };
    let (p, a) = on_client_message(SocketPhase::AwaitingIdentity, good, 1024);
    assert_eq!(p, SocketPhase::AwaitingIdentity);
    assert!(matches!(a, SocketAction::Authenticate { uuid, ref token } if uuid == A && token == "t"));
    let (p, a) = on_authentication(A, true);
    assert_eq!(p, SocketPhase::Connected(A));
    assert!(matches!(a, SocketAction::Ready { uuid } if uuid == A));
    let (p, a) = on_authentication(A, false);
    assert_eq!(p, SocketPhase::AwaitingIdentity);
    assert!(matches!(a, SocketAction::NotReady(NotReadyReason::Unauthorized)));
}

#[test]
fn socket_connected_phase() {
    let phase = SocketPhase::Connected(A);
    let (p, a) = on_client_message(phase, ClientMessage::Unregister { uuid: B }, 1024);
    assert_eq!(p, phase);
    assert!(matches!(a, SocketAction::Ignore));
    let (_, a) = on_client_message(phase, ClientMessage::Unregister { uuid: A }, 1024);
    assert!(matches!(a, SocketAction::UnregisterAndClose));
    let sub = ClientMessage::Subscribe { emitter_uuid: B, subscription_type: "broadcast.sent".to_string() };
    let (_, a) = on_client_message(phase, sub, 1024);
    assert!(matches!(
        a,
        SocketAction::CheckSubscription { emitter_uuid, subscription_type: SubscriptionType::BroadcastSent }
            if emitter_uuid == B
    ));
    let sub = ClientMessage::Subscribe { emitter_uuid: B, subscription_type: "bogus".to_string() };
    assert!(matches!(on_client_message(phase, sub, 1024).1, SocketAction::Ignore));
    let unsub = ClientMessage::Unsubscribe { emitter_uuid: B, subscription_type: Some("bogus".to_string()) };
    assert!(matches!(
        on_client_message(phase, unsub, 1024).1,
        SocketAction::Unsubscribe { emitter_uuid, subscription_type: None } if emitter_uuid == B
    ));
    let again = ClientMessage::Identity { uuid: B_TEXT.to_string(), token: "t".to_string() };
    let (p, a) = on_client_message(phase, again, 1024);
    assert_eq!(p, phase);
    assert!(matches!(a, SocketAction::Ignore));
    let open = Whitelists::open();
    let private = Whitelists::private(C);
    assert!(matches!(
        on_subscription_check(A, B, SubscriptionType::MessageSent, Some(&open)),
        SocketAction::CreateSubscription(p) if p.subscriber_uuid == A && p.emitter_uuid == B
    ));
    assert!(matches!(
        on_subscription_check(A, B, SubscriptionType::MessageSent, Some(&private)),
        SocketAction::SubscriptionForbidden
    ));
    assert!(matches!(
        on_subscription_check(A, B, SubscriptionType::MessageSent, None),
        SocketAction::SubscriptionForbidden
    ));
}

#[test]
fn socket_fallback_messages() {
    assert!(matches!(
        fallback_client_message("identity", Some("u"), Some("t")),
        Some(ClientMessage::Identity { ref uuid, ref token }) if uuid == "u" && token == "t"
    ));
    assert!(fallback_client_message("identity", Some("u"), None).is_none());
    assert!(matches!(fallback_client_message("ping", None, None), Some(ClientMessage::Ping)));
    assert!(matches!(fallback_client_message("whoami", None, None), Some(ClientMessage::Whoami)));
    assert!(fallback_client_message("other", None, None).is_none());
}

#[test]
fn delivery_plans() {
    let open = Whitelists::open();
    let closed = Whitelists::private(C);
    let targets = vec![A, B, C];
    let devices = vec![Some(open), None, Some(closed)];
    let plan = plan_delivery(B, &targets, &devices, false, false);
    assert_eq!(plan, vec![Publication { audience: Audience::Device(A), broadcast: false }]);
    let plan = plan_delivery(B, &targets, &devices, true, true);
    assert_eq!(
        plan,
        vec![
            Publication { audience: Audience::Device(A), broadcast: false },
            Publication { audience: Audience::Subscribers(A, SubscriptionType::MessageReceived), broadcast: false },
            Publication { audience: Audience::Subscribers(B, SubscriptionType::MessageSent), broadcast: false },
            Publication { audience: Audience::Subscribers(B, SubscriptionType::BroadcastSent), broadcast: true },
            Publication {
                audience: Audience::SubscribersOfSubscribers(
                    B,
                    SubscriptionType::BroadcastSent,
                    SubscriptionType::BroadcastReceived
                ),
                broadcast: true
            },
        ]
    );
    // the target itself is always admitted
    let plan = plan_delivery(C, &vec![C], &vec![Some(Whitelists::private(A))], false, false);
    assert_eq!(plan, vec![Publication { audience: Audience::Device(C), broadcast: false }]);
    let plan = plan_delivery(A, &Vec::new(), &Vec::new(), true, false);
    assert_eq!(plan, vec![Publication { audience: Audience::Subscribers(A, SubscriptionType::BroadcastSent), broadcast: true }]);
}

#[test]
fn server_frames() {
    assert_eq!(classify_server_event("ready"), ServerFrame::Ready);
    assert_eq!(classify_server_event("notReady"), ServerFrame::NotReady);
    assert_eq!(classify_server_event("message"), ServerFrame::Other);
    assert_eq!(not_ready_reason(Some("unauthorized")), "unauthorized");
    assert_eq!(not_ready_reason(None), "Authentication failed");
}

#[test]
fn empty_and_wildcard_whitelists() {
    let empty = Whitelists::default();
    let stranger = PermissionChecker::new(&empty, &B, &A);
    assert!(!stranger.can_discover_view());
    assert!(!stranger.can_message_from());
    assert!(!stranger.can_configure_update());
    assert!(!stranger.can_broadcast_sent());
    let own = PermissionChecker::new(&empty, &A, &A);
    assert!(own.can_discover_view() && own.can_message_from() && own.can_configure_as());
    let mut w = Whitelists::default();
    w.configure.update.push(WhitelistEntry::wildcard());
    let anyone = PermissionChecker::new(&w, &C, &A);
    assert!(anyone.can_configure_update());
    assert!(!anyone.can_configure_sent());
    assert!(Device::is_open_whitelist(&w.configure.update));
    assert!(!Device::is_open_whitelist(&w.configure.sent));
}

#[test]
fn expiry_stays() {
    let mut rec = TokenRecord::new(A, "h".to_string());
    rec.expires_on = Some(10);
    assert!(rec.is_expired_at(11));
    assert!(rec.is_expired_at(1_000_000));
}

#[test]
fn socket_drops_oversized_messages() {
    let phase = SocketPhase::Connected(A);
    let params = |devices: Vec<&str>| SendMessageParams {
        devices: devices.into_iter().map(String::from).collect(),
        topic: None,
        payload: Some(Value::from("x")),
        extra: Properties::new(),
    };
    let fits = ClientMessage::Message { params: params(vec![B_TEXT]), payload_size: 1000, extra_size: 24 };
    assert!(matches!(on_client_message(phase, fits, 1024).1, SocketAction::SendMessage(_)));
    let big = ClientMessage::Message { params: params(vec![B_TEXT]), payload_size: 1000, extra_size: 25 };
    assert!(matches!(on_client_message(phase, big, 1024).1, SocketAction::DropOversized));
    let early = ClientMessage::Message { params: params(vec![B_TEXT]), payload_size: 1, extra_size: 0 };
    assert!(matches!(on_client_message(SocketPhase::AwaitingIdentity, early, 1024).1, SocketAction::Ignore));
}

#[test]
fn rate_limiter_window_slides() {
    let mut rl = RateLimiter::new(2, 10);
    assert!(rl.check(A, 0).is_ok());
    assert!(rl.check(A, 9).is_ok());
    // the request at 0 has left the window
    assert!(rl.check(A, 10).is_ok());
    // 9 and 10 are both within 10 seconds of 11
    assert!(matches!(rl.check(A, 11), Err(FreshBluError::RateLimitExceeded)));
    assert!(matches!(rl.check(A, 18), Err(FreshBluError::RateLimitExceeded)));
    // 9 has left the window, 10 has not
    assert!(rl.check(A, 19).is_ok());
}

#[test]
fn webhook_urls_with_ipv6_hosts() {
    assert!(!is_safe_url("http://[fd00::1]/hook", false));
    assert!(!is_safe_url("http://[::ffff:127.0.0.1]/hook", false));
    assert!(!is_safe_url("http://[::ffff:10.1.2.3]/hook", false));
    assert!(!is_safe_url("http://[fe80::1]/hook", false));
    assert!(!is_safe_url("http://[::]/hook", false));
    assert!(!is_safe_url("http://[::1]/hook", false));
    assert!(is_safe_url("http://[::1]/hook", true));
    assert!(is_safe_url("http://[2606:4700::1111]/hook", false));
    assert!(is_private_ip(IpAddress::V6(0xfd00_0000_0000_0000_0000_0000_0000_0001)));
    assert!(is_private_ip(IpAddress::V6(0xfe80_0000_0000_0000_0000_0000_0000_0001)));
    assert!(is_private_ip(IpAddress::V6(0x0000_0000_0000_0000_0000_ffff_7f00_0001)));
    assert!(!is_private_ip(IpAddress::V6(0x0000_0000_0000_0000_0000_ffff_0808_0808)));
}

#[test]
fn created_subscription_is_for_the_checked_subscriber() {
    let open = Whitelists::open();
    let r = subscription_to_create(C, C, None, A, Some(&open), SubscriptionType::BroadcastSent).unwrap();
    assert_eq!(r.subscriber_uuid, C);
    assert_eq!(r.emitter_uuid, A);
    assert_eq!(r.subscription_type, SubscriptionType::BroadcastSent);
    let private = Whitelists::private(A);
    assert!(matches!(
        subscription_to_create(B, C, Some(&private), A, Some(&open), SubscriptionType::BroadcastSent),
        Err(FreshBluError::Forbidden)
    ));
    assert!(matches!(
        subscription_to_create(C, C, None, A, None, SubscriptionType::BroadcastSent),
        Err(FreshBluError::NotFound)
    ));
}

#[test]
fn tokens_are_hex() {
    let t = freshblu::auth::generate_token();
    assert_eq!(t.len(), 40);
    assert!(t.chars().all(|c| matches!(c, '0'..='9' | 'a'..='f')));
}

#[test]
fn response_reading() {
    assert_eq!(classify_response(204), ResponseKind::Empty);
    assert_eq!(classify_response(200), ResponseKind::Body);
    assert_eq!(classify_response(404), ResponseKind::Failure);
    assert_eq!(failure_message(Some("forbidden"), "{}".to_string()), "forbidden");
    assert_eq!(failure_message(None, "oops".to_string()), "oops");
}

#[test]
fn token_hashes_name_their_cost() {
    let h = hash_token("abc").unwrap();
    assert_eq!(h.len(), 60);
    assert!(h.starts_with("$2b$10$"));
    assert!(verify_token("abc", &h));
}

#[test]
fn parsed_url_decisions() {
    assert!(parsed_url_is_safe("https", Some("example.com"), None, false));
    assert!(!parsed_url_is_safe("ftp", Some("example.com"), None, false));
    assert!(!parsed_url_is_safe("http", None, None, false));
    assert!(!parsed_url_is_safe("http", Some("[fd00::1]"), Some(IpAddress::V6(0xfd00_0000_0000_0000_0000_0000_0000_0001)), false));
    assert!(parsed_url_is_safe("http", Some("8.8.8.8"), Some(IpAddress::V4(0x08080808)), false));
    assert!(!parsed_url_is_safe("http", Some("db.internal"), None, false));
    assert!(parsed_url_is_safe("http", Some("localhost"), None, true));
}

#[test]
fn uuid_text_forms() {
    assert_eq!(mqtt_client_id_to_uuid("550E8400E29B41D4A716446655440000"), Some(A));
    assert_eq!(mqtt_client_id_to_uuid("{550e8400-e29b-41d4-a716-446655440000}"), Some(A));
    assert_eq!(mqtt_client_id_to_uuid("URN:uuid:550e8400-e29b-41d4-a716-446655440000"), Some(A));
    assert_eq!(mqtt_client_id_to_uuid("550e8400e29b-41d4-a716-446655440000"), None);
    assert_eq!(mqtt_client_id_to_uuid("550e8400-e29b-41d4-a716-44665544000g"), None);
}

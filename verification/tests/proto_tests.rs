use freshblu::subjects::{
    broadcast, configure, delivery, device_inbox, extract_uuid_from_subject, presence,
    system_unregister,
};
use uuid::Uuid;

#[test]
fn subject_formats() {
    let uuid = Uuid::parse_str("550e8400-e29b-41d4-a716-446655440000").unwrap().as_u128();
    assert_eq!(
        device_inbox(uuid),
        "freshblu.device.550e8400-e29b-41d4-a716-446655440000.inbox"
    );
    assert_eq!(
        broadcast(uuid),
        "freshblu.broadcast.550e8400-e29b-41d4-a716-446655440000"
    );
    assert_eq!(
        configure(uuid),
        "freshblu.configure.550e8400-e29b-41d4-a716-446655440000"
    );
    assert_eq!(system_unregister(), "freshblu.system.unregister");
    assert_eq!(delivery("pod-1"), "freshblu.delivery.pod-1");
    assert_eq!(
        presence(uuid),
        "freshblu.presence.550e8400-e29b-41d4-a716-446655440000"
    );
}

#[test]
fn subject_builders_device_inbox() {
    let uuid = Uuid::parse_str("550e8400-e29b-41d4-a716-446655440000").unwrap().as_u128();
    assert_eq!(
        device_inbox(uuid),
        "freshblu.device.550e8400-e29b-41d4-a716-446655440000.inbox"
    );
}

#[test]
fn subject_builders_broadcast() {
    let uuid = Uuid::parse_str("550e8400-e29b-41d4-a716-446655440000").unwrap().as_u128();
    assert_eq!(
        broadcast(uuid),
        "freshblu.broadcast.550e8400-e29b-41d4-a716-446655440000"
    );
}

#[test]
fn subject_builders_configure() {
    let uuid = Uuid::parse_str("550e8400-e29b-41d4-a716-446655440000").unwrap().as_u128();
    assert_eq!(
        configure(uuid),
        "freshblu.configure.550e8400-e29b-41d4-a716-446655440000"
    );
}

#[test]
fn subject_builders_delivery() {
    assert_eq!(delivery("pod-42"), "freshblu.delivery.pod-42");
}

#[test]
fn subject_builders_presence() {
    let uuid = Uuid::parse_str("550e8400-e29b-41d4-a716-446655440000").unwrap().as_u128();
    assert_eq!(
        presence(uuid),
        "freshblu.presence.550e8400-e29b-41d4-a716-446655440000"
    );
}

#[test]
fn subject_builders_system_unregister() {
    assert_eq!(system_unregister(), "freshblu.system.unregister");
}

#[test]
fn extract_uuid_device_inbox_format() {
    let uuid = Uuid::new_v4();
    let subject = device_inbox(uuid.as_u128());
    // Should be: freshblu.device.{uuid}.inbox
    assert!(subject.starts_with("freshblu.device."));
    assert!(subject.ends_with(".inbox"));

    // Extract the UUID part
    let stripped = subject
        .strip_prefix("freshblu.device.")
        .unwrap()
        .strip_suffix(".inbox")
        .unwrap();
    let parsed = Uuid::parse_str(stripped).unwrap();
    assert_eq!(parsed, uuid);
    assert_eq!(
        extract_uuid_from_subject(&subject, "freshblu.device.", ".inbox"),
        Some(uuid.as_u128())
    );
}

#[test]
fn extract_uuid_broadcast_format() {
    let uuid = Uuid::new_v4();
    let subject = broadcast(uuid.as_u128());
    let stripped = subject.strip_prefix("freshblu.broadcast.").unwrap();
    let parsed = Uuid::parse_str(stripped).unwrap();
    assert_eq!(parsed, uuid);
    assert_eq!(
        extract_uuid_from_subject(&subject, "freshblu.broadcast.", ""),
        Some(uuid.as_u128())
    );
}

#[test]
fn extract_uuid_invalid_prefix() {
    // If someone tries to parse a non-freshblu subject, it shouldn't work
    let result = Uuid::parse_str("not.a.uuid");
    assert!(result.is_err());
    assert_eq!(
        extract_uuid_from_subject("not.a.uuid", "freshblu.device.", ".inbox"),
        None
    );
}

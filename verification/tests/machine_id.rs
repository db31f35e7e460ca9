use export_doctor::machine::{get_machine_id, machine_id_from_parts};

#[test]
fn machine_id_is_a_digest() {
    let id = machine_id_from_parts("host", "user");
    // 32 digest bytes printed as 64 hex digits, not the joined input
    assert_eq!(id.len(), 64);
    assert!(id.chars().all(|c| c.is_ascii_hexdigit()));
    assert_ne!(id, "host:user");
}

#[test]
fn machine_id_is_deterministic() {
    assert_eq!(
        machine_id_from_parts("host", "user"),
        machine_id_from_parts("host", "user")
    );
}

#[test]
fn machine_id_binds_both_parts() {
    let base = machine_id_from_parts("host", "user");
    assert_ne!(base, machine_id_from_parts("host2", "user"));
    assert_ne!(base, machine_id_from_parts("host", "user2"));
}

#[test]
fn local_machine_id_has_digest_shape() {
    let id = get_machine_id();
    assert_eq!(id.len(), 64);
    assert!(id.chars().all(|c| c.is_ascii_hexdigit()));
}

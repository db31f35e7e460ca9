use export_doctor::license::{
    activate_license, check_license_valid, compute_effective_status, deactivate_license,
    default_license, get_license_status, status_as_str, status_from_str, stored_license_key,
    validate_license_online, LicenseData, LicenseError, LicenseStatus, ValidateApiResponse,
    OFFLINE_MAX_SECS, TRIAL_PERIOD_SECS,
};

const DAY: u64 = 86400;
const NOW: u64 = 1_700_000_000;

fn keyed(status: LicenseStatus, expires_at: u64, last_online_check: u64) -> LicenseData {
    LicenseData {
        license_key: Some(String::from("key-123")),
        status,
        expires_at,
        trial_started_at: NOW - 100 * DAY,
        last_online_check,
    }
}

fn same_record(a: &LicenseData, b: &LicenseData) -> bool {
    a.license_key == b.license_key
        && a.status == b.status
        && a.expires_at == b.expires_at
        && a.trial_started_at == b.trial_started_at
        && a.last_online_check == b.last_online_check
}

#[test]
fn trial_within_window() {
    let d = LicenseData {
        license_key: None,
        status: LicenseStatus::Expired,
        expires_at: 0,
        trial_started_at: NOW - 6 * DAY,
        last_online_check: 0,
    };
    assert_eq!(compute_effective_status(&d, NOW), LicenseStatus::Trial);
}

#[test]
fn trial_past_window() {
    let d = LicenseData {
        license_key: None,
        status: LicenseStatus::Active,
        expires_at: NOW + 100 * DAY,
        trial_started_at: NOW - 8 * DAY,
        last_online_check: NOW,
    };
    assert_eq!(compute_effective_status(&d, NOW), LicenseStatus::Expired);
}

#[test]
fn key_never_validated_is_expired() {
    let d = keyed(LicenseStatus::Active, NOW + 100 * DAY, 0);
    assert_eq!(compute_effective_status(&d, NOW), LicenseStatus::Expired);
}

#[test]
fn offline_ceiling_expires() {
    let d = keyed(LicenseStatus::Active, NOW + 1000 * DAY, NOW - 31 * DAY);
    assert_eq!(compute_effective_status(&d, NOW), LicenseStatus::Expired);
}

#[test]
fn recent_check_active_future_expiry() {
    let d = keyed(LicenseStatus::Active, NOW + DAY, NOW - DAY);
    assert_eq!(compute_effective_status(&d, NOW), LicenseStatus::Active);
}

#[test]
fn recent_check_active_past_expiry() {
    let d = keyed(LicenseStatus::Active, NOW - DAY, NOW - DAY);
    assert_eq!(compute_effective_status(&d, NOW), LicenseStatus::Expired);
}

#[test]
fn cached_non_active_status_is_expired() {
    let d = keyed(LicenseStatus::Trial, NOW + DAY, NOW - DAY);
    assert_eq!(compute_effective_status(&d, NOW), LicenseStatus::Expired);
}

#[test]
fn gate_passes_in_trial() {
    let d = default_license(NOW - 6 * DAY);
    assert!(check_license_valid(&d, NOW).is_ok());
}

#[test]
fn gate_fails_expired() {
    let d = default_license(NOW - 8 * DAY);
    let e = check_license_valid(&d, NOW).unwrap_err();
    assert_eq!(e, LicenseError::LicenseExpired);
    assert_eq!(
        e.message(),
        "Your license has expired. Please subscribe to continue using Export Doctor."
    );
}

#[test]
fn gate_fails_invalid_when_trial_but_expiry_passed() {
    // effective status trial, but the recorded expiry is not in the future
    let d = LicenseData {
        license_key: None,
        status: LicenseStatus::Trial,
        expires_at: NOW,
        trial_started_at: NOW - DAY,
        last_online_check: 0,
    };
    let e = check_license_valid(&d, NOW).unwrap_err();
    assert_eq!(e, LicenseError::LicenseInvalid);
    assert_eq!(
        e.message(),
        "Invalid license. Please subscribe or enter a valid license key."
    );
}

#[test]
fn first_read_persists_default() {
    let r = get_license_status(None, NOW);
    let persisted = r.to_persist.expect("first read must persist");
    assert_eq!(persisted.trial_started_at, NOW);
    assert_eq!(persisted.status, LicenseStatus::Trial);
    assert_eq!(persisted.license_key, None);
    assert_eq!(persisted.expires_at, NOW + TRIAL_PERIOD_SECS);
    assert_eq!(persisted.last_online_check, 0);
    assert_eq!(r.record.status, LicenseStatus::Trial);
    assert_eq!(r.record.trial_started_at, NOW);
}

#[test]
fn later_read_persists_nothing() {
    let d = keyed(LicenseStatus::Active, NOW + DAY, NOW - DAY);
    let r = get_license_status(Some(d), NOW);
    assert!(r.to_persist.is_none());
    assert_eq!(r.record.status, LicenseStatus::Active);
}

#[test]
fn validate_success_activates() {
    let d = keyed(LicenseStatus::Expired, 0, 0);
    let resp = ValidateApiResponse {
        valid: true,
        status: String::from("active"),
        expires_at: NOW + 30 * DAY,
    };
    let r = validate_license_online(d, &resp, NOW);
    assert_eq!(r.status, LicenseStatus::Active);
    assert_eq!(r.expires_at, NOW + 30 * DAY);
    assert_eq!(r.last_online_check, NOW);
    assert_eq!(r.license_key.as_deref(), Some("key-123"));
    assert_eq!(r.trial_started_at, NOW - 100 * DAY);
}

#[test]
fn validate_failure_expires_without_grace() {
    let d = keyed(LicenseStatus::Active, NOW + 30 * DAY, NOW - DAY);
    let resp = ValidateApiResponse {
        valid: false,
        status: String::from("active"),
        expires_at: NOW + 30 * DAY,
    };
    let r = validate_license_online(d, &resp, NOW);
    // the server's status string is ignored: only the valid flag decides
    assert_eq!(r.status, LicenseStatus::Expired);
}

#[test]
fn activate_stores_key_only() {
    let d = default_license(NOW);
    let r = activate_license(d, String::from("fresh-key"));
    assert_eq!(r.license_key.as_deref(), Some("fresh-key"));
    assert_eq!(r.status, LicenseStatus::Trial);
    assert_eq!(r.trial_started_at, NOW);
}

#[test]
fn stored_key_required() {
    let d = keyed(LicenseStatus::Active, NOW, NOW);
    assert_eq!(stored_license_key(&d).unwrap(), "key-123");
    let none = default_license(NOW);
    let e = stored_license_key(&none).unwrap_err();
    assert_eq!(e, LicenseError::NoLicenseKey);
    assert_eq!(e.message(), "No license key stored");
}

#[test]
fn deactivation_preserves_trial_start() {
    let d = keyed(LicenseStatus::Active, NOW + DAY, NOW - DAY);
    let started = d.trial_started_at;
    let cleared = deactivate_license(d);
    assert_eq!(cleared.license_key, None);
    assert_eq!(cleared.status, LicenseStatus::Expired);
    assert_eq!(cleared.expires_at, 0);
    assert_eq!(cleared.last_online_check, 0);
    assert_eq!(cleared.trial_started_at, started);
    let r = get_license_status(Some(cleared), NOW + DAY);
    assert_eq!(r.record.trial_started_at, started);
}

#[test]
fn status_read_idempotent_fresh() {
    let first = get_license_status(None, NOW);
    let second = get_license_status(first.to_persist.clone(), NOW);
    assert!(same_record(&first.record, &second.record));
    assert!(second.to_persist.is_none());
}

#[test]
fn status_read_idempotent_stored() {
    let d = keyed(LicenseStatus::Active, NOW + DAY, NOW - DAY);
    let first = get_license_status(Some(d.clone()), NOW);
    let second = get_license_status(Some(d), NOW);
    assert!(same_record(&first.record, &second.record));
    assert!(second.to_persist.is_none());
}

#[test]
fn status_names_round_trip() {
    assert_eq!(status_as_str(LicenseStatus::Trial), "trial");
    assert_eq!(status_as_str(LicenseStatus::Active), "active");
    assert_eq!(status_as_str(LicenseStatus::Expired), "expired");
    assert_eq!(status_from_str("trial"), LicenseStatus::Trial);
    assert_eq!(status_from_str("active"), LicenseStatus::Active);
    assert_eq!(status_from_str("expired"), LicenseStatus::Expired);
    assert_eq!(status_from_str("anything-else"), LicenseStatus::Expired);
}

#[test]
fn offline_ceiling_boundary() {
    let d = keyed(LicenseStatus::Active, NOW + 1000 * DAY, NOW - OFFLINE_MAX_SECS);
    // exactly at the ceiling the cached status is still trusted
    assert_eq!(compute_effective_status(&d, NOW), LicenseStatus::Active);
}

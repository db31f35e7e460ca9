//! The license state machine: a persisted record plus the wall clock give an
//! effective status (`trial` / `active` / `expired`), which gates analysis.
//! The cached `status` field is never authoritative; it is recomputed from
//! the timestamps on every read.

use vstd::prelude::*;
use vstd::string::StringExecFns;
use crate::text::str_eq;

verus! {

/// Seconds in the seven-day trial window.
pub const TRIAL_PERIOD_SECS: u64 = 604800;

/// Seconds in the thirty-day offline-tolerance ceiling: how long a cached
/// active status stays trusted without a successful online check.
pub const OFFLINE_MAX_SECS: u64 = 2592000;

/// A license state.
#[derive(Clone, Copy, PartialEq, Eq, Structural, Debug)]
pub enum LicenseStatus {
    Trial,
    Active,
    Expired,
}

/// The persisted license record: one per installation, created on first
/// read, never deleted. `license_key` absent means trial mode; `status` is a
/// cached last-known value only; `last_online_check == 0` means never
/// validated online.
#[derive(Clone, Debug)]
pub struct LicenseData {
    pub license_key: Option<String>,
    pub status: LicenseStatus,
    pub expires_at: u64,
    pub trial_started_at: u64,
    pub last_online_check: u64,
}

/// The serialized name of a status.
pub fn status_as_str(s: LicenseStatus) -> (r: &'static str)
    ensures
        s == LicenseStatus::Trial ==> r@ == "trial"@,
        s == LicenseStatus::Active ==> r@ == "active"@,
        s == LicenseStatus::Expired ==> r@ == "expired"@,
{
    match s {
        LicenseStatus::Trial => "trial",
        LicenseStatus::Active => "active",
        LicenseStatus::Expired => "expired",
    }
}

/// Reads a serialized status name; any unrecognized name counts as
/// `Expired`, which the state machine treats exactly like any other
/// non-active cached status.
pub fn status_from_str(s: &str) -> (r: LicenseStatus)
    ensures
        r == (if s@ == "trial"@ {
            LicenseStatus::Trial
        } else if s@ == "active"@ {
            LicenseStatus::Active
        } else {
            LicenseStatus::Expired
        }),
{
    if str_eq(s, "trial") {
        LicenseStatus::Trial
    } else if str_eq(s, "active") {
        LicenseStatus::Active
    } else {
        LicenseStatus::Expired
    }
}

/// Relies on std::time::SystemTime::now and duration_since: seconds since
/// the unix epoch by the system clock, 0 when the clock reads before the
/// epoch. Nothing is promised of the clock's value.
#[verifier::external_body]
pub fn now_unix() -> u64 {
    std::time::SystemTime::now()
        .duration_since(std::time::UNIX_EPOCH)
        .unwrap_or_default()
        .as_secs()
}

/// The record created on first read: trial mode, started now.
pub open spec fn spec_default_license(now: u64) -> LicenseData {
    LicenseData {
        license_key: None,
        status: LicenseStatus::Trial,
        expires_at: (if now + TRIAL_PERIOD_SECS > u64::MAX {
            u64::MAX
        } else {
            (now + TRIAL_PERIOD_SECS) as u64
        }),
        trial_started_at: now,
        last_online_check: 0,
    }
}

/// Builds the fresh trial record persisted on first read.
pub fn default_license(now: u64) -> (r: LicenseData)
    ensures
        r == spec_default_license(now),
{
    LicenseData {
        license_key: None,
        status: LicenseStatus::Trial,
        expires_at: now.saturating_add(TRIAL_PERIOD_SECS),
        trial_started_at: now,
        last_online_check: 0,
    }
}

/// The five-branch decision table for the effective status:
/// no key — trial strictly within seven days of the trial start, expired
/// after; a key never validated online — expired; more than thirty days
/// offline since the last check — expired; a cached active status with a
/// future expiry — active; anything else — expired.
pub open spec fn spec_effective_status(d: LicenseData, now: u64) -> LicenseStatus {
    if d.license_key is None {
        if (now as int) < d.trial_started_at + TRIAL_PERIOD_SECS {
            LicenseStatus::Trial
        } else {
            LicenseStatus::Expired
        }
    } else if d.last_online_check == 0 {
        LicenseStatus::Expired
    } else if (now as int) > d.last_online_check + OFFLINE_MAX_SECS {
        LicenseStatus::Expired
    } else if d.status == LicenseStatus::Active && (now as int) < d.expires_at {
        LicenseStatus::Active
    } else {
        LicenseStatus::Expired
    }
}

/// Recomputes the authoritative status of a record at time `now`.
pub fn compute_effective_status(data: &LicenseData, now: u64) -> (r: LicenseStatus)
    ensures
        r == spec_effective_status(*data, now),
{
    if data.license_key.is_none() {
        if (now as u128) < (data.trial_started_at as u128) + (TRIAL_PERIOD_SECS as u128) {
            LicenseStatus::Trial
        } else {
            LicenseStatus::Expired
        }
    } else if data.last_online_check == 0 {
        LicenseStatus::Expired
    } else if (now as u128) > (data.last_online_check as u128) + (OFFLINE_MAX_SECS as u128) {
        LicenseStatus::Expired
    } else if data.status == LicenseStatus::Active && now < data.expires_at {
        LicenseStatus::Active
    } else {
        LicenseStatus::Expired
    }
}

/// A license-side failure.
#[derive(Clone, Copy, PartialEq, Eq, Structural, Debug)]
pub enum LicenseError {
    /// A command that needs a stored key found none.
    NoLicenseKey,
    /// The effective status is expired.
    LicenseExpired,
    /// The status names a license that does not gate analysis.
    LicenseInvalid,
}

impl LicenseError {
    /// The human-readable message shown for this error.
    pub fn message(&self) -> (r: String)
        ensures
            *self == LicenseError::NoLicenseKey ==> r@ == "No license key stored"@,
            *self == LicenseError::LicenseExpired ==> r@
                == "Your license has expired. Please subscribe to continue using Export Doctor."@,
            *self == LicenseError::LicenseInvalid ==> r@
                == "Invalid license. Please subscribe or enter a valid license key."@,
    {
        match self {
            LicenseError::NoLicenseKey => String::from_str("No license key stored"),
            LicenseError::LicenseExpired => String::from_str(
                "Your license has expired. Please subscribe to continue using Export Doctor.",
            ),
            LicenseError::LicenseInvalid => String::from_str(
                "Invalid license. Please subscribe or enter a valid license key.",
            ),
        }
    }
}

/// Gate check run before analysis: passes exactly when the effective status
/// is trial or active and the recorded expiry still lies in the future.
pub fn check_license_valid(data: &LicenseData, now: u64) -> (r: Result<(), LicenseError>)
    ensures
        r is Ok <==> ((spec_effective_status(*data, now) == LicenseStatus::Trial
            || spec_effective_status(*data, now) == LicenseStatus::Active) && data.expires_at
            > now),
        r matches Err(e) ==> e == (if spec_effective_status(*data, now)
            == LicenseStatus::Expired {
            LicenseError::LicenseExpired
        } else {
            LicenseError::LicenseInvalid
        }),
{
    let eff = compute_effective_status(data, now);
    if (eff == LicenseStatus::Trial || eff == LicenseStatus::Active) && data.expires_at > now {
        Ok(())
    } else if eff == LicenseStatus::Expired {
        Err(LicenseError::LicenseExpired)
    } else {
        Err(LicenseError::LicenseInvalid)
    }
}

/// `d` with its cached status replaced.
pub open spec fn spec_with_status(d: LicenseData, s: LicenseStatus) -> LicenseData {
    LicenseData {
        license_key: d.license_key,
        status: s,
        expires_at: d.expires_at,
        trial_started_at: d.trial_started_at,
        last_online_check: d.last_online_check,
    }
}

/// What a status read returns and what it persists.
pub struct StatusRead {
    /// The record handed back, its status recomputed.
    pub record: LicenseData,
    /// A record to write back to the store before returning, if any: only a
    /// first read persists the freshly created trial record, so the trial
    /// start is fixed exactly once.
    pub to_persist: Option<LicenseData>,
}

/// The status read, as a pure function of the stored record and the clock.
pub open spec fn spec_read(stored: Option<LicenseData>, now: u64) -> StatusRead {
    match stored {
        Some(d) => StatusRead {
            record: spec_with_status(d, spec_effective_status(d, now)),
            to_persist: None,
        },
        None => StatusRead {
            record: spec_with_status(
                spec_default_license(now),
                spec_effective_status(spec_default_license(now), now),
            ),
            to_persist: Some(spec_default_license(now)),
        },
    }
}

/// Reads the license status: recomputes the effective status of the stored
/// record, creating (and asking the caller to persist) the default trial
/// record when none was stored yet.
pub fn get_license_status(stored: Option<LicenseData>, now: u64) -> (r: StatusRead)
    ensures
        r == spec_read(stored, now),
{
    match stored {
        Some(d) => {
            let eff = compute_effective_status(&d, now);
            StatusRead {
                record: LicenseData {
                    license_key: d.license_key,
                    status: eff,
                    expires_at: d.expires_at,
                    trial_started_at: d.trial_started_at,
                    last_online_check: d.last_online_check,
                },
                to_persist: None,
            }
        },
        None => {
            let fresh = default_license(now);
            let eff = compute_effective_status(&fresh, now);
            let persisted = default_license(now);
            StatusRead {
                record: LicenseData {
                    license_key: fresh.license_key,
                    status: eff,
                    expires_at: fresh.expires_at,
                    trial_started_at: fresh.trial_started_at,
                    last_online_check: fresh.last_online_check,
                },
                to_persist: Some(persisted),
            }
        },
    }
}

/// The stored key, or the failure reported when a command that needs one
/// finds none.
pub fn stored_license_key(data: &LicenseData) -> (r: Result<String, LicenseError>)
    ensures
        data.license_key matches Some(k) ==> (r matches Ok(k2) && k2@ == k@),
        data.license_key is None ==> (r matches Err(e) && e == LicenseError::NoLicenseKey),
{
    match &data.license_key {
        Some(k) => Ok(k.clone()),
        None => Err(LicenseError::NoLicenseKey),
    }
}

/// What the remote validation endpoint answers. The `status` string the
/// server declares is deliberately ignored by the state machine: only the
/// `valid` boolean decides between active and expired.
#[derive(Clone, Debug)]
pub struct ValidateApiResponse {
    pub valid: bool,
    pub status: String,
    pub expires_at: u64,
}

/// The record after a successful round trip to the validation endpoint.
pub open spec fn spec_validate(d: LicenseData, valid: bool, expires_at: u64, now: u64) -> LicenseData {
    LicenseData {
        license_key: d.license_key,
        status: (if valid {
            LicenseStatus::Active
        } else {
            LicenseStatus::Expired
        }),
        expires_at,
        trial_started_at: d.trial_started_at,
        last_online_check: now,
    }
}

/// Applies a validation response: stamps the online check at `now`, takes
/// the server's expiry, and sets the status active exactly when the server
/// reported the key valid — expired otherwise, with no grace period.
pub fn validate_license_online(data: LicenseData, response: &ValidateApiResponse, now: u64) -> (r:
    LicenseData)
    requires
        data.license_key is Some,
    ensures
        r == spec_validate(data, response.valid, response.expires_at, now),
{
    LicenseData {
        license_key: data.license_key,
        status: (if response.valid {
            LicenseStatus::Active
        } else {
            LicenseStatus::Expired
        }),
        expires_at: response.expires_at,
        trial_started_at: data.trial_started_at,
        last_online_check: now,
    }
}

/// The record after a key is stored (user-supplied on activation, or issued
/// by the checkout endpoint): only the key changes; the cached status stays
/// untouched until the next online validation.
pub open spec fn spec_activate(d: LicenseData, license_key: String) -> LicenseData {
    LicenseData {
        license_key: Some(license_key),
        status: d.status,
        expires_at: d.expires_at,
        trial_started_at: d.trial_started_at,
        last_online_check: d.last_online_check,
    }
}

/// Stores a license key on the record.
pub fn activate_license(data: LicenseData, license_key: String) -> (r: LicenseData)
    ensures
        r == spec_activate(data, license_key),
{
    LicenseData {
        license_key: Some(license_key),
        status: data.status,
        expires_at: data.expires_at,
        trial_started_at: data.trial_started_at,
        last_online_check: data.last_online_check,
    }
}

/// The record after deactivation: the key, the cached status and both
/// timestamps are cleared, but the trial start is deliberately preserved so
/// the trial cannot be reset.
pub open spec fn spec_deactivate(d: LicenseData) -> LicenseData {
    LicenseData {
        license_key: None,
        status: LicenseStatus::Expired,
        expires_at: 0,
        trial_started_at: d.trial_started_at,
        last_online_check: 0,
    }
}

/// Deactivates the license.
pub fn deactivate_license(data: LicenseData) -> (r: LicenseData)
    ensures
        r == spec_deactivate(data),
{
    LicenseData {
        license_key: None,
        status: LicenseStatus::Expired,
        expires_at: 0,
        trial_started_at: data.trial_started_at,
        last_online_check: 0,
    }
}

/// With no stored key the record follows the pure trial clock: trial
/// strictly within seven days of the recorded start, expired afterwards,
/// whatever the cached fields say.
pub proof fn lemma_trial_clock(d: LicenseData, now: u64)
    requires
        d.license_key is None,
    ensures
        spec_effective_status(d, now) == (if (now as int) < d.trial_started_at
            + TRIAL_PERIOD_SECS {
            LicenseStatus::Trial
        } else {
            LicenseStatus::Expired
        }),
{
}

/// A stored key that was never validated online grants nothing, whatever
/// the other fields hold.
pub proof fn lemma_unvalidated_key_expired(d: LicenseData, now: u64)
    requires
        d.license_key is Some,
        d.last_online_check == 0,
    ensures
        spec_effective_status(d, now) == LicenseStatus::Expired,
{
}

/// The offline-tolerance ceiling: more than thirty days past the last
/// online check the license is expired, even with a cached active status
/// and a far-future expiry.
pub proof fn lemma_offline_ceiling(d: LicenseData, now: u64)
    requires
        d.license_key is Some,
        (now as int) > d.last_online_check + OFFLINE_MAX_SECS,
    ensures
        spec_effective_status(d, now) == LicenseStatus::Expired,
{
}

/// Within the offline ceiling a cached active status is trusted exactly
/// while the recorded expiry lies in the future.
pub proof fn lemma_cached_active(d: LicenseData, now: u64)
    requires
        d.license_key is Some,
        d.last_online_check != 0,
        (now as int) <= d.last_online_check + OFFLINE_MAX_SECS,
        d.status == LicenseStatus::Active,
    ensures
        spec_effective_status(d, now) == (if (now as int) < d.expires_at {
            LicenseStatus::Active
        } else {
            LicenseStatus::Expired
        }),
{
}

/// Deactivation clears the key, the cached status and both timestamps, and
/// a status read made at any later time still reports the trial start the
/// record had before deactivation.
pub proof fn lemma_deactivate_preserves_trial_start(d: LicenseData, now: u64)
    ensures
        spec_deactivate(d).license_key is None,
        spec_deactivate(d).status == LicenseStatus::Expired,
        spec_deactivate(d).expires_at == 0,
        spec_deactivate(d).last_online_check == 0,
        spec_read(Some(spec_deactivate(d)), now).record.trial_started_at == d.trial_started_at,
{
}

/// Reading the status twice in succession, with no other mutation, returns
/// the same record both times and persists nothing the second time: no
/// field drifts.
pub proof fn lemma_status_read_idempotent(stored: Option<LicenseData>, now: u64)
    ensures
        ({
            let first = spec_read(stored, now);
            let again = match first.to_persist {
                Some(p) => spec_read(Some(p), now),
                None => spec_read(stored, now),
            };
            again.record == first.record && again.to_persist is None
        }),
{
}

} // verus!

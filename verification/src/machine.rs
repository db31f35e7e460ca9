//! The stable machine identifier: a one-way digest of host name and user
//! name, binding a license activation to an install without transmitting
//! either name in the clear.

use vstd::prelude::*;
use vstd::string::StringExecFns;
use sha2::Digest;

verus! {

/// The lowercase hex digest that the hash function assigns to a sequence of
/// characters; a function of the characters alone.
pub uninterp spec fn sha256_hex_of(s: Seq<char>) -> Seq<char>;

/// Relies on sha2::Sha256 and the digest's LowerHex formatting: the digest
/// of the input bytes alone, 32 bytes printed as 64 lowercase hex digits.
#[verifier::external_body]
fn sha256_hex(s: &str) -> (r: String)
    ensures
        r@ == sha256_hex_of(s@),
        r@.len() == 64,
{
    let mut hasher = sha2::Sha256::new();
    hasher.update(s.as_bytes());
    format!("{:x}", hasher.finalize())
}

/// Relies on hostname::get: the machine's host name, an environment read.
/// Nothing is promised of the result.
#[verifier::external_body]
fn host_name() -> (r: Option<String>) {
    hostname::get().ok().map(|h| h.to_string_lossy().to_string())
}

/// Relies on whoami::username: the current user's name, an environment
/// read. Nothing is promised of the result.
#[verifier::external_body]
fn user_name() -> (r: String) {
    whoami::username()
}

/// The identifier derived from a host name and a user name: the digest of
/// `"host:user"`.
pub fn machine_id_from_parts(host: &str, user: &str) -> (r: String)
    ensures
        r@ == sha256_hex_of(host@ + ":"@ + user@),
        r@.len() == 64,
{
    let mut joined = host.to_owned();
    joined.append(":");
    joined.append(user);
    sha256_hex(joined.as_str())
}

/// The stable machine identifier of this install, from the environment's
/// host name (`"unknown-host"` when it cannot be read) and user name.
pub fn get_machine_id() -> (r: String)
    ensures
        r@.len() == 64,
{
    let host = match host_name() {
        Some(h) => h,
        None => String::from_str("unknown-host"),
    };
    let user = user_name();
    machine_id_from_parts(host.as_str(), user.as_str())
}

} // verus!

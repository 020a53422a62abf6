//! Tenant resolution.
//!
//! An inbound request carries an opaque session artifact that decodes into a
//! JSON object `{ "database_name": <string> }`. `resolve` extracts that
//! database name — the tenant identity — and fails closed when the artifact
//! is absent or undecodable. `tenant_key` then derives the key under which
//! the pool registry caches the tenant's connection pool.

use vstd::prelude::*;
use vstd::string::StringExecFns;
use crate::errors::ResolutionError;

verus! {

/// The tenant database name that a session artifact decodes to: `Some` when
/// the artifact is a JSON object with a string field `database_name`,
/// `None` otherwise. A fixed function of the artifact's characters alone.
pub uninterp spec fn artifact_tenant(s: Seq<char>) -> Option<Seq<char>>;

/// Relies on `serde_json::from_str`, `Value::get` and `Value::as_str`:
/// decoding is a pure function of the artifact text, and yields the
/// `database_name` string field exactly when the text is a JSON object
/// carrying one.
#[verifier::external_body]
fn decode_artifact(s: &str) -> (r: Option<String>)
    ensures
        match r {
            Some(name) => artifact_tenant(s@) == Some(name@),
            None => artifact_tenant(s@) is None,
        },
{
    match serde_json::from_str::<serde_json::Value>(s) {
        Ok(v) => match v.get("database_name") {
            Some(d) => match d.as_str() {
                Some(name) => Some(name.to_string()),
                None => None,
            },
            None => None,
        },
        Err(_) => None,
    }
}

/// Extract the tenant identity (its database name) from a session artifact.
///
/// Fails closed: a missing artifact and an undecodable artifact are both
/// terminal for the calling request — there is no silent default tenant.
pub fn resolve(artifact: Option<&String>) -> (r: Result<String, ResolutionError>)
    ensures
        match r {
            Ok(name) => artifact matches Some(a) && artifact_tenant(a@) == Some(name@),
            Err(e) => match e {
                ResolutionError::Missing => artifact is None,
                ResolutionError::Malformed => artifact matches Some(a) && artifact_tenant(
                    a@,
                ) is None,
            },
        },
{
    match artifact {
        None => Err(ResolutionError::Missing),
        Some(a) => match decode_artifact(a.as_str()) {
            Some(name) => Ok(name),
            None => Err(ResolutionError::Malformed),
        },
    }
}

/// The key under which a tenant's pool is cached: the base connection URL
/// for tenant databases followed by the tenant's database name.
pub fn tenant_key(base_url: &String, database_name: &String) -> (r: String)
    ensures
        r@ == base_url@ + database_name@,
{
    let mut key = base_url.clone();
    key.append(database_name.as_str());
    key
}

} // verus!

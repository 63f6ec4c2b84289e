//! Rules of the development data seed: which entitlements and which login it
//! writes. Reading the configuration and writing rows happen in the shell.
use vstd::prelude::*;
use vstd::string::*;
use crate::text::same_text;

verus! {

broadcast use vstd::string::group_string_axioms;

/// Row id of a seeded entitlement: `ent-{tenant_id}-{module_key}`.
pub fn seed_entitlement_id(tenant_id: &str, module_key: &str) -> (id: String)
    ensures
        id@ == "ent-"@ + tenant_id@ + "-"@ + module_key@,
{
    String::from_str("ent-").concat(tenant_id).concat("-").concat(module_key)
}

/// A login-capable user is seeded only when both an email and a password hash
/// are configured; there is no default credential.
pub fn seed_user_credentials(email: Option<String>, password_hash: Option<String>) -> (c: Option<(String, String)>)
    ensures
        match (email, password_hash) {
            (Some(e), Some(h)) => c == Some((e, h)),
            _ => c is None,
        },
{
    match (email, password_hash) {
        (Some(e), Some(h)) => Some((e, h)),
        _ => None,
    }
}

/// The sample quote is seeded only on explicit opt-in: the flag set to `"1"`.
pub fn sample_quote_requested(flag: Option<&str>) -> (b: bool)
    ensures
        b == (flag matches Some(f) && f@ == "1"@),
{
    match flag {
        Some(f) => same_text(f, "1"),
        None => false,
    }
}

} // verus!

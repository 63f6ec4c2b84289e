//! Asset lookup for the quote line-item picker: request and result shapes,
//! how a search maps to one filtered query, and the errors it reports.
//!
//! Every query is scoped by the request's tenant and gated behind the
//! `inventory_specs` entitlement; the queries themselves run in the shell.
use vstd::prelude::*;
use vstd::string::*;

verus! {

broadcast use vstd::string::group_string_axioms;

/// The entitlement module key that gates asset lookup.
pub const INVENTORY_MODULE_KEY: &'static str = "inventory_specs";

/// One technical specification of an asset.
#[derive(Debug)]
pub struct EquipmentSpec {
    pub id: String,
    pub asset_id: String,
    pub spec_key: String,
    pub spec_value: String,
    pub unit_of_measure: Option<String>,
}

/// How to search a tenant's assets.
#[derive(Debug)]
pub enum AssetSearchType {
    /// By `category_id`.
    ByCategory(String),
    /// By `asset_code`, exact match.
    ByCode(String),
    /// By `asset_name`, containing the text.
    ByName(String),
    /// By status: Available, In-Use, Maintenance, Retired.
    ByStatus(String),
}

/// An asset search, always for one tenant.
#[derive(Debug)]
pub struct AssetSearchRequest {
    pub tenant_id: String,
    pub search_type: AssetSearchType,
}

/// Error reported by an asset lookup.
#[derive(Debug)]
pub struct AssetLookupError {
    pub error: String,
    pub code: String,
}

/// The column a search filters on (besides the tenant).
#[derive(Debug, Clone, Copy, PartialEq, Eq, Structural)]
pub enum AssetFilter {
    /// `category_id = value`
    CategoryId,
    /// `asset_code = value`; at most one asset matches.
    AssetCode,
    /// `asset_name LIKE value`
    AssetNameLike,
    /// `status = value`
    Status,
}

/// The `LIKE` pattern for a name search: the text anywhere in the name.
pub open spec fn contains_pattern(text: Seq<char>) -> Seq<char> {
    seq!['%'] + text + seq!['%']
}

/// `format!("%{}%", name)`.
pub fn name_search_pattern(name: &str) -> (p: String)
    ensures
        p@ == contains_pattern(name@),
{
    proof {
        reveal_strlit("%");
    }
    String::from_str("%").concat(name).concat("%")
}

/// The filter and bound value of the single query a search runs.
pub fn search_criterion(search: &AssetSearchType) -> (c: (AssetFilter, String))
    ensures
        match search {
            AssetSearchType::ByCategory(v) => c.0 == AssetFilter::CategoryId && c.1@ == v@,
            AssetSearchType::ByCode(v) => c.0 == AssetFilter::AssetCode && c.1@ == v@,
            AssetSearchType::ByName(v) => c.0 == AssetFilter::AssetNameLike && c.1@ == contains_pattern(v@),
            AssetSearchType::ByStatus(v) => c.0 == AssetFilter::Status && c.1@ == v@,
        },
{
    match search {
        AssetSearchType::ByCategory(v) => (AssetFilter::CategoryId, v.clone()),
        AssetSearchType::ByCode(v) => (AssetFilter::AssetCode, v.clone()),
        AssetSearchType::ByName(v) => (AssetFilter::AssetNameLike, name_search_pattern(v.as_str())),
        AssetSearchType::ByStatus(v) => (AssetFilter::Status, v.clone()),
    }
}

/// The error for a tenant without the `inventory_specs` entitlement.
pub fn entitlement_denied_error() -> (e: AssetLookupError)
    ensures
        e.error@ == "Entitlement 'inventory_specs' not enabled for this tenant"@,
        e.code@ == "ENTITLEMENT_DENIED"@,
{
    AssetLookupError {
        error: String::from_str("Entitlement 'inventory_specs' not enabled for this tenant"),
        code: String::from_str("ENTITLEMENT_DENIED"),
    }
}

/// The error for a failed asset query, carrying the storage message.
pub fn database_error(detail: &str) -> (e: AssetLookupError)
    ensures
        e.error@ == "Database error: "@ + detail@,
        e.code@ == "DB_ERROR"@,
{
    AssetLookupError {
        error: String::from_str("Database error: ").concat(detail),
        code: String::from_str("DB_ERROR"),
    }
}

/// The error for a failed specification query, carrying the storage message.
pub fn spec_database_error(detail: &str) -> (e: AssetLookupError)
    ensures
        e.error@ == "Database error fetching specs: "@ + detail@,
        e.code@ == "DB_ERROR"@,
{
    AssetLookupError {
        error: String::from_str("Database error fetching specs: ").concat(detail),
        code: String::from_str("DB_ERROR"),
    }
}

/// The message of an entitlement check whose query failed.
pub fn entitlement_check_db_error(detail: &str) -> (m: String)
    ensures
        m@ == "Entitlement check DB error: "@ + detail@,
{
    String::from_str("Entitlement check DB error: ").concat(detail)
}

/// Outcome of an asset entitlement check given whether the tenant's row for
/// `module_key` exists and is enabled.
pub fn tenant_entitlement_outcome(tenant_id: &str, module_key: &str, enabled: bool) -> (res: Result<(), String>)
    ensures
        enabled ==> res is Ok,
        !enabled ==> match res {
            Err(m) => m@ == "Entitlement '"@ + module_key@ + "' not enabled for tenant '"@ + tenant_id@ + "'"@,
            Ok(_) => false,
        },
{
    if enabled {
        return Ok(());
    }
    Err(String::from_str("Entitlement '").concat(module_key).concat("' not enabled for tenant '").concat(
        tenant_id,
    ).concat("'"))
}

} // verus!

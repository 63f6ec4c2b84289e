//! Quote persistence rules: what a save must carry, when a stored revision is
//! locked against further edits, and when a new revision may be branched
//! from an existing one.
//!
//! A quote is identified per tenant by `(offer_ref, rev_suffix)`. Saving the
//! same pair again updates that revision in place unless it is locked; saving a
//! new `rev_suffix` creates a separate revision and keeps the earlier ones.
use vstd::prelude::*;
use vstd::string::*;
use crate::codec::generate_id;
use crate::text::{blank, is_blank, same_text};

verus! {

broadcast use vstd::string::group_string_axioms;

/// Why a quote operation failed.
#[derive(Debug)]
pub enum QuoteError {
    InvalidPayload(String),
    /// The target revision's status is locked; branch a new revision instead.
    Locked(String),
    /// A storage error, with its message.
    Db(String),
}

/// One entry of a quote's audit-logged revision history.
#[derive(Debug)]
pub struct QuoteRevisionRecord {
    pub id: String,
    pub quote_id: String,
    pub revision_number: i64,
    pub status_at_snapshot: String,
    pub created_by: String,
    pub created_at: String,
}

/// Statuses that lock a quote revision against further modification.
pub const LOCKED_STATUSES: [&'static str; 4] = ["Approved", "Issued", "LPO Confirmed", "Job Booked"];

/// `status` is one of `LOCKED_STATUSES`.
pub open spec fn locked_status(status: Seq<char>) -> bool {
    ||| status == "Approved"@
    ||| status == "Issued"@
    ||| status == "LPO Confirmed"@
    ||| status == "Job Booked"@
}

/// Membership in `LOCKED_STATUSES`.
pub fn is_locked_status(status: &str) -> (b: bool)
    ensures
        b == locked_status(status@),
{
    same_text(status, "Approved") || same_text(status, "Issued") || same_text(status, "LPO Confirmed")
        || same_text(status, "Job Booked")
}

/// A save must name its revision: blank `offer_ref` or `rev_suffix` is an
/// `InvalidPayload` (checked in that order).
pub fn validate_quote_identity(offer_ref: &str, rev_suffix: &str) -> (res: Result<(), QuoteError>)
    ensures
        blank(offer_ref@) ==> match res {
            Err(QuoteError::InvalidPayload(m)) => m@ == "offer_ref is required"@,
            _ => false,
        },
        !blank(offer_ref@) && blank(rev_suffix@) ==> match res {
            Err(QuoteError::InvalidPayload(m)) => m@ == "rev_suffix is required"@,
            _ => false,
        },
        !blank(offer_ref@) && !blank(rev_suffix@) ==> res is Ok,
{
    if is_blank(offer_ref) {
        return Err(QuoteError::InvalidPayload(String::from_str("offer_ref is required")));
    }
    if is_blank(rev_suffix) {
        return Err(QuoteError::InvalidPayload(String::from_str("rev_suffix is required")));
    }
    Ok(())
}

/// The message for a tax rule that the tenant does not own.
pub open spec fn foreign_tax_rule_error(rule_id: Seq<char>) -> Seq<char> {
    "tax_rule_id '"@ + rule_id + "' does not belong to this tenant"@
}

/// A quote may only reference a tax rule of its own tenant.
pub fn check_tax_rule_owned(rule_id: &str, owned_by_tenant: bool) -> (res: Result<(), QuoteError>)
    ensures
        owned_by_tenant ==> res is Ok,
        !owned_by_tenant ==> match res {
            Err(QuoteError::InvalidPayload(m)) => m@ == foreign_tax_rule_error(rule_id@),
            _ => false,
        },
{
    if !owned_by_tenant {
        let msg = String::from_str("tax_rule_id '").concat(rule_id).concat("' does not belong to this tenant");
        return Err(QuoteError::InvalidPayload(msg));
    }
    Ok(())
}

/// The message for a save that targets a locked revision.
pub open spec fn locked_error(offer_ref: Seq<char>, rev_suffix: Seq<char>, status: Seq<char>) -> Seq<char> {
    "Quote '"@ + offer_ref + "' "@ + rev_suffix + " is locked (status = '"@ + status
        + "') and cannot be modified further. Use branch_new_revision to create a new revision instead."@
}

/// Whether a save may write a revision whose stored status is `existing`
/// (`None`: the revision does not exist yet).
pub open spec fn save_permitted(existing: Option<Seq<char>>) -> bool {
    match existing {
        None => true,
        Some(s) => !locked_status(s),
    }
}

/// Whether a new revision may be branched from a source in `status`.
pub open spec fn branch_permitted(status: Seq<char>) -> bool {
    locked_status(status)
}

/// A save of `(offer_ref, rev_suffix)` may proceed when no revision with that
/// pair exists yet, or the existing one's status is not locked; otherwise it is
/// refused with `Locked` before anything is written.
pub fn check_save_allowed(offer_ref: &str, rev_suffix: &str, existing_status: Option<&str>) -> (res: Result<(), QuoteError>)
    ensures
        match existing_status {
            None => res is Ok,
            Some(s) => if locked_status(s@) {
                match res {
                    Err(QuoteError::Locked(m)) => m@ == locked_error(offer_ref@, rev_suffix@, s@),
                    _ => false,
                }
            } else {
                res is Ok
            },
        },
        res is Ok <==> save_permitted(
            match existing_status {
                Some(s) => Some(s@),
                None => None,
            },
        ),
{
    match existing_status {
        None => Ok(()),
        Some(s) => {
            if is_locked_status(s) {
                let msg = String::from_str("Quote '").concat(offer_ref).concat("' ").concat(rev_suffix).concat(
                    " is locked (status = '",
                ).concat(s).concat(
                    "') and cannot be modified further. Use branch_new_revision to create a new revision instead.",
                );
                Err(QuoteError::Locked(msg))
            } else {
                Ok(())
            }
        },
    }
}

/// Which `quotes` row a save writes.
#[derive(Debug)]
pub enum SaveTarget {
    /// The revision exists: update this row in place (and replace its line items).
    Update(String),
    /// A new revision: insert a row with this fresh id.
    Insert(String),
}

impl SaveTarget {
    /// The row id the save writes and returns.
    pub fn quote_id(&self) -> (id: &String)
        ensures
            id == match self {
                SaveTarget::Update(i) => i,
                SaveTarget::Insert(i) => i,
            },
    {
        match self {
            SaveTarget::Update(i) => i,
            SaveTarget::Insert(i) => i,
        }
    }
}

/// A save of an existing `(offer_ref, rev_suffix)` revision keeps that row's
/// id; a save of a new revision gets a fresh random 36-digit hexadecimal id.
pub fn save_target(existing_id: Option<String>) -> (t: SaveTarget)
    ensures
        match existing_id {
            Some(id) => t == SaveTarget::Update(id),
            None => match t {
                SaveTarget::Insert(id) => id@.len() == 36,
                _ => false,
            },
        },
{
    match existing_id {
        Some(id) => SaveTarget::Update(id),
        None => SaveTarget::Insert(generate_id()),
    }
}

/// Validity in days a save stores: the given one, else 30.
pub fn validity_days_or_default(validity_days: Option<i64>) -> (d: i64)
    ensures
        d == match validity_days {
            Some(v) => v,
            None => 30,
        },
{
    match validity_days {
        Some(v) => v,
        None => 30,
    }
}

/// Status a save stores: the given one, else `"Draft"`.
pub fn status_or_default(status: Option<&str>) -> (s: String)
    ensures
        s@ == match status {
            Some(v) => v@,
            None => "Draft"@,
        },
{
    match status {
        Some(v) => String::from_str(v),
        None => String::from_str("Draft"),
    }
}

/// The `item_order` values of a quote's line items, in input order: `1, 2, 3, ...`.
pub fn line_item_orders(count: usize) -> (orders: Vec<i64>)
    requires
        count < i64::MAX,
    ensures
        orders@.len() == count,
        forall|i: int| 0 <= i < count ==> orders@[i] == i + 1,
{
    let mut orders: Vec<i64> = Vec::new();
    let mut i: usize = 0;
    while i < count
        invariant
            i <= count,
            count < i64::MAX,
            orders@.len() == i,
            forall|j: int| 0 <= j < i ==> orders@[j] == j + 1,
        decreases count - i,
    {
        orders.push((i as i64) + 1);
        i = i + 1;
    }
    orders
}

/// The rate basis a line item has when none is given.
pub fn default_rate_basis() -> (basis: String)
    ensures
        basis@ == "Monthly"@,
{
    String::from_str("Monthly")
}

/// The stored facts about the revision a branch starts from.
#[derive(Debug)]
pub struct BranchSource<'a> {
    pub offer_ref: &'a str,
    pub rev_suffix: &'a str,
    pub status: &'a str,
}

/// The message for a branch from an unknown quote id.
pub open spec fn branch_not_found_error(quote_id: Seq<char>) -> Seq<char> {
    "Quote id '"@ + quote_id + "' not found for this tenant"@
}

/// The message for a branch from a revision that is not locked.
pub open spec fn branch_unlocked_error(offer_ref: Seq<char>, rev_suffix: Seq<char>, status: Seq<char>) -> Seq<char> {
    "Quote '"@ + offer_ref + "' "@ + rev_suffix + " is not locked (status = '"@ + status
        + "') \u{2014} edit it directly via save_quote instead of branching a new revision."@
}

/// The message for a branch to a revision suffix that already exists.
pub open spec fn branch_exists_error(new_rev_suffix: Seq<char>, offer_ref: Seq<char>) -> Seq<char> {
    "Revision '"@ + new_rev_suffix + "' already exists for offer_ref '"@ + offer_ref + "'"@
}

/// The preconditions of branching a new revision, checked in order: a
/// non-blank new suffix, a source quote of this tenant, a locked source, and a
/// new suffix not yet used under the source's `offer_ref`. Each failure is an
/// `InvalidPayload`; success means the branch may be written.
pub fn check_branch_allowed(
    from_quote_id: &str,
    new_rev_suffix: &str,
    source: Option<BranchSource>,
    new_suffix_taken: bool,
) -> (res: Result<(), QuoteError>)
    ensures
        blank(new_rev_suffix@) ==> match res {
            Err(QuoteError::InvalidPayload(m)) => m@ == "new_rev_suffix is required"@,
            _ => false,
        },
        !blank(new_rev_suffix@) ==> match source {
            None => match res {
                Err(QuoteError::InvalidPayload(m)) => m@ == branch_not_found_error(from_quote_id@),
                _ => false,
            },
            Some(src) => if !locked_status(src.status@) {
                match res {
                    Err(QuoteError::InvalidPayload(m)) => m@ == branch_unlocked_error(
                        src.offer_ref@,
                        src.rev_suffix@,
                        src.status@,
                    ),
                    _ => false,
                }
            } else if new_suffix_taken {
                match res {
                    Err(QuoteError::InvalidPayload(m)) => m@ == branch_exists_error(new_rev_suffix@, src.offer_ref@),
                    _ => false,
                }
            } else {
                res is Ok
            },
        },
        !blank(new_rev_suffix@) && !new_suffix_taken ==> match source {
            Some(src) => (res is Ok <==> branch_permitted(src.status@)),
            None => res is Err,
        },
{
    if is_blank(new_rev_suffix) {
        return Err(QuoteError::InvalidPayload(String::from_str("new_rev_suffix is required")));
    }
    match source {
        None => {
            let msg = String::from_str("Quote id '").concat(from_quote_id).concat("' not found for this tenant");
            Err(QuoteError::InvalidPayload(msg))
        },
        Some(src) => {
            if !is_locked_status(src.status) {
                let msg = String::from_str("Quote '").concat(src.offer_ref).concat("' ").concat(src.rev_suffix).concat(
                    " is not locked (status = '",
                ).concat(src.status).concat(
                    "') \u{2014} edit it directly via save_quote instead of branching a new revision.",
                );
                return Err(QuoteError::InvalidPayload(msg));
            }
            if new_suffix_taken {
                let msg = String::from_str("Revision '").concat(new_rev_suffix).concat(
                    "' already exists for offer_ref '",
                ).concat(src.offer_ref).concat("'");
                return Err(QuoteError::InvalidPayload(msg));
            }
            Ok(())
        },
    }
}

/// An existing revision changes in exactly one way: an unlocked one is
/// edited in place by a save and cannot be branched from; a locked one refuses
/// saves and is the only kind a new revision can be branched from.
pub proof fn lemma_edit_or_branch(status: Seq<char>)
    ensures
        save_permitted(Some(status)) != branch_permitted(status),
{
}

/// A revision saved without a status is stored as `"Draft"`, and a `Draft`
/// revision stays editable: saving it again is permitted, branching from it is not.
pub proof fn lemma_draft_is_editable()
    ensures
        save_permitted(Some("Draft"@)),
        !branch_permitted("Draft"@),
{
    reveal_strlit("Draft");
    reveal_strlit("Approved");
    reveal_strlit("Issued");
    reveal_strlit("LPO Confirmed");
    reveal_strlit("Job Booked");
    assert("Draft"@.len() != "Approved"@.len());
    assert("Draft"@.len() != "Issued"@.len());
    assert("Draft"@.len() != "LPO Confirmed"@.len());
    assert("Draft"@.len() != "Job Booked"@.len());
}

} // verus!

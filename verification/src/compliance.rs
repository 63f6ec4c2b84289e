//! Compliance terms library and regional tax rules: the records, their
//! validation and the outcome rules the storage operations follow.
//!
//! Rows are read and written by the storage layer; every rule it applies on
//! the way (what a valid term is, when an update found nothing, which tax rate
//! a quote resolves to) is decided here.
use vstd::prelude::*;
use vstd::string::*;
use crate::text::{blank, is_blank, same_text};

verus! {

broadcast use vstd::string::group_string_axioms;

/// Input for creating or updating a compliance term.
#[derive(Debug)]
pub struct ComplianceTermInput {
    /// One of `VALID_CATEGORIES`.
    pub category: String,
    pub title: String,
    pub body_text: String,
    pub is_default: bool,
    pub display_order: i64,
}

/// A stored compliance term.
#[derive(Debug)]
pub struct ComplianceTermRecord {
    pub id: String,
    pub category: String,
    pub title: String,
    pub body_text: String,
    pub is_default: bool,
    pub display_order: i64,
    pub is_active: bool,
    pub created_at: String,
    pub updated_at: String,
}

/// Why a compliance or tax-rule operation failed.
#[derive(Debug)]
pub enum ComplianceError {
    InvalidPayload(String),
    NotFound,
    /// A storage error, with its message.
    Db(String),
}

/// The term categories a compliance term may have.
pub const VALID_CATEGORIES: [&'static str; 5] = ["Payment", "Liability", "Warranty", "Cancellation", "General"];

/// `category` is one of `VALID_CATEGORIES`.
pub open spec fn valid_category(category: Seq<char>) -> bool {
    ||| category == "Payment"@
    ||| category == "Liability"@
    ||| category == "Warranty"@
    ||| category == "Cancellation"@
    ||| category == "General"@
}

/// Name for the text `format!("{:?}", s)` produces for a string slice (its
/// quoted, escaped debug form).
pub uninterp spec fn debug_quoted(s: Seq<char>) -> Seq<char>;

/// `format!("{:?}", s)`: the debug form of a string slice. Claims only that the
/// result is a function of the text.
#[verifier::external_body]
fn debug_text(s: &str) -> (t: String)
    ensures
        t@ == debug_quoted(s@),
{
    format!("{:?}", s)
}

/// The message for a category outside `VALID_CATEGORIES`.
pub open spec fn category_error(category: Seq<char>) -> Seq<char> {
    "category must be one of [\"Payment\", \"Liability\", \"Warranty\", \"Cancellation\", \"General\"], got "@
        + debug_quoted(category)
}

/// What validating a term input gives, by view: the first failing check's
/// message, in the order title, body text, category.
pub open spec fn term_input_check(title: Seq<char>, body_text: Seq<char>, category: Seq<char>) -> Option<Seq<char>> {
    if blank(title) {
        Some("title is required"@)
    } else if blank(body_text) {
        Some("body_text is required"@)
    } else if !valid_category(category) {
        Some(category_error(category))
    } else {
        None
    }
}

/// Checks a term input: non-blank title, non-blank body text, and a category
/// from `VALID_CATEGORIES`; the first failure is an `InvalidPayload`.
pub fn validate_term_input(input: &ComplianceTermInput) -> (res: Result<(), ComplianceError>)
    ensures
        match term_input_check(input.title@, input.body_text@, input.category@) {
            None => res is Ok,
            Some(msg) => match res {
                Err(ComplianceError::InvalidPayload(m)) => m@ == msg,
                _ => false,
            },
        },
{
    if is_blank(input.title.as_str()) {
        proof {
            reveal_strlit("title is required");
        }
        return Err(ComplianceError::InvalidPayload(String::from_str("title is required")));
    }
    if is_blank(input.body_text.as_str()) {
        proof {
            reveal_strlit("body_text is required");
        }
        return Err(ComplianceError::InvalidPayload(String::from_str("body_text is required")));
    }
    let c = input.category.as_str();
    let known = same_text(c, "Payment") || same_text(c, "Liability") || same_text(c, "Warranty")
        || same_text(c, "Cancellation") || same_text(c, "General");
    if !known {
        let shown = debug_text(c);
        let msg = String::from_str(
            "category must be one of [\"Payment\", \"Liability\", \"Warranty\", \"Cancellation\", \"General\"], got ",
        ).concat(shown.as_str());
        return Err(ComplianceError::InvalidPayload(msg));
    }
    Ok(())
}

/// Checks a tax rule's region label: blank is an `InvalidPayload`.
pub fn validate_region_label(region_label: &str) -> (res: Result<(), ComplianceError>)
    ensures
        !blank(region_label@) ==> res is Ok,
        blank(region_label@) ==> match res {
            Err(ComplianceError::InvalidPayload(m)) => m@ == "region_label is required"@,
            _ => false,
        },
{
    if is_blank(region_label) {
        return Err(ComplianceError::InvalidPayload(String::from_str("region_label is required")));
    }
    Ok(())
}

/// An update or deactivation scoped by id and tenant succeeded only if it
/// touched a row; touching none means the id does not exist for this tenant.
pub fn require_row_affected(rows: usize) -> (res: Result<(), ComplianceError>)
    ensures
        rows == 0 ==> res matches Err(ComplianceError::NotFound),
        rows > 0 ==> res is Ok,
{
    if rows == 0 {
        return Err(ComplianceError::NotFound);
    }
    Ok(())
}

/// The rate a quote uses: the explicitly selected rule's rate when that rule
/// is active for the tenant, else the tenant's active default rule's rate,
/// else none.
pub fn choose_tax_rate<R>(explicit_rate: Option<R>, default_rate: Option<R>) -> (rate: Option<R>)
    ensures
        rate == (if explicit_rate is Some { explicit_rate } else { default_rate }),
{
    match explicit_rate {
        Some(r) => Some(r),
        None => default_rate,
    }
}

/// Display positions for the terms attached to a quote, in selection order:
/// `0, 1, 2, ...`.
pub fn attached_term_orders(count: usize) -> (orders: Vec<i64>)
    requires
        count <= i64::MAX,
    ensures
        orders@.len() == count,
        forall|i: int| 0 <= i < count ==> orders@[i] == i,
{
    let mut orders: Vec<i64> = Vec::new();
    let mut i: usize = 0;
    while i < count
        invariant
            i <= count,
            count <= i64::MAX,
            orders@.len() == i,
            forall|j: int| 0 <= j < i ==> orders@[j] == j,
        decreases count - i,
    {
        orders.push(i as i64);
        i = i + 1;
    }
    orders
}

/// The categories listed in `VALID_CATEGORIES` are exactly the valid ones,
/// and a term with a non-blank title and body text passes validation in every
/// listed category.
pub proof fn lemma_listed_categories_are_valid(title: Seq<char>, body_text: Seq<char>, category: Seq<char>)
    ensures
        valid_category(category) <==> exists|i: int| 0 <= i < 5 && #[trigger] VALID_CATEGORIES@[i]@ == category,
        !blank(title) && !blank(body_text) ==> forall|i: int|
            0 <= i < 5 ==> term_input_check(title, body_text, #[trigger] VALID_CATEGORIES@[i]@) is None,
{
    reveal_strlit("Payment");
    reveal_strlit("Liability");
    reveal_strlit("Warranty");
    reveal_strlit("Cancellation");
    reveal_strlit("General");
    let cs = VALID_CATEGORIES@;
    assert(cs[0]@ == "Payment"@);
    assert(cs[1]@ == "Liability"@);
    assert(cs[2]@ == "Warranty"@);
    assert(cs[3]@ == "Cancellation"@);
    assert(cs[4]@ == "General"@);
    if valid_category(category) {
        if category == "Payment"@ {
            assert(cs[0]@ == category);
        } else if category == "Liability"@ {
            assert(cs[1]@ == category);
        } else if category == "Warranty"@ {
            assert(cs[2]@ == category);
        } else if category == "Cancellation"@ {
            assert(cs[3]@ == category);
        } else {
            assert(cs[4]@ == category);
        }
    }
}

} // verus!

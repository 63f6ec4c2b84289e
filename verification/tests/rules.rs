use borge_equipment_rental::db::resolve_db_path;
use borge_equipment_rental::assets::{
    database_error, entitlement_denied_error, name_search_pattern, search_criterion,
    tenant_entitlement_outcome, AssetFilter, AssetSearchType,
};
use borge_equipment_rental::codec::generate_id;
use borge_equipment_rental::compliance::{
    attached_term_orders, choose_tax_rate, require_row_affected, validate_region_label,
    validate_term_input, ComplianceError, ComplianceTermInput,
};
use borge_equipment_rental::document::{document_terms, quote_pdf_file_name, rate_basis_text_or_default};
use borge_equipment_rental::quotes::{
    check_branch_allowed, check_save_allowed, check_tax_rule_owned, is_locked_status,
    line_item_orders, status_or_default, validate_quote_identity, validity_days_or_default,
    BranchSource, QuoteError,
};
use borge_equipment_rental::seed::{sample_quote_requested, seed_entitlement_id, seed_user_credentials};
use borge_equipment_rental::text::{decimal_string, is_blank, same_text};

fn sample_term(category: &str, title: &str) -> ComplianceTermInput {
    ComplianceTermInput {
        category: category.to_string(),
        title: title.to_string(),
        body_text: "Sample clause body text.".to_string(),
        is_default: false,
        display_order: 0,
    }
}

#[test]
fn term_validation_checks_title_body_then_category() {
    assert!(validate_term_input(&sample_term("Payment", "Net 30")).is_ok());
    match validate_term_input(&sample_term("Payment", "   ")) {
        Err(ComplianceError::InvalidPayload(m)) => assert_eq!(m, "title is required"),
        other => panic!("unexpected {:?}", other),
    }
    let mut no_body = sample_term("Payment", "Net 30");
    no_body.body_text = "\n\t".to_string();
    match validate_term_input(&no_body) {
        Err(ComplianceError::InvalidPayload(m)) => assert_eq!(m, "body_text is required"),
        other => panic!("unexpected {:?}", other),
    }
    match validate_term_input(&sample_term("NotARealCategory", "Net 30")) {
        Err(ComplianceError::InvalidPayload(m)) => assert_eq!(
            m,
            "category must be one of [\"Payment\", \"Liability\", \"Warranty\", \"Cancellation\", \"General\"], got \"NotARealCategory\""
        ),
        other => panic!("unexpected {:?}", other),
    }
    assert!(validate_term_input(&sample_term("payment", "Net 30")).is_err());
}

#[test]
fn tax_rule_label_and_row_outcomes() {
    assert!(validate_region_label("UAE Standard VAT").is_ok());
    assert!(matches!(validate_region_label(" "), Err(ComplianceError::InvalidPayload(_))));
    assert!(matches!(require_row_affected(0), Err(ComplianceError::NotFound)));
    assert!(require_row_affected(1).is_ok());
    assert_eq!(choose_tax_rate(Some(0.0), Some(5.0)), Some(0.0));
    assert_eq!(choose_tax_rate(None, Some(5.0)), Some(5.0));
    assert_eq!(choose_tax_rate::<f64>(None, None), None);
    assert_eq!(attached_term_orders(3), vec![0, 1, 2]);
}

#[test]
fn quote_identity_and_lock_rules() {
    assert!(matches!(validate_quote_identity("", "Rev.01"), Err(QuoteError::InvalidPayload(m)) if m == "offer_ref is required"));
    assert!(matches!(validate_quote_identity("QN-1", " "), Err(QuoteError::InvalidPayload(m)) if m == "rev_suffix is required"));
    assert!(validate_quote_identity("QN-1", "Rev.01").is_ok());
    for s in ["Approved", "Issued", "LPO Confirmed", "Job Booked"] {
        assert!(is_locked_status(s));
    }
    assert!(!is_locked_status("Draft"));
    assert!(check_save_allowed("QN-EH/800/2026", "Rev.01", None).is_ok());
    assert!(check_save_allowed("QN-EH/800/2026", "Rev.01", Some("Draft")).is_ok());
    match check_save_allowed("QN-EH/800/2026", "Rev.01", Some("Approved")) {
        Err(QuoteError::Locked(m)) => assert_eq!(
            m,
            "Quote 'QN-EH/800/2026' Rev.01 is locked (status = 'Approved') and cannot be modified further. Use branch_new_revision to create a new revision instead."
        ),
        other => panic!("unexpected {:?}", other),
    }
    assert!(check_tax_rule_owned("rule-1", true).is_ok());
    assert!(matches!(check_tax_rule_owned("rule-foreign", false), Err(QuoteError::InvalidPayload(m)) if m == "tax_rule_id 'rule-foreign' does not belong to this tenant"));
    assert_eq!(validity_days_or_default(None), 30);
    assert_eq!(validity_days_or_default(Some(14)), 14);
    assert_eq!(status_or_default(None), "Draft");
    assert_eq!(line_item_orders(3), vec![1, 2, 3]);
}

#[test]
fn branch_rules_in_order() {
    let locked = BranchSource { offer_ref: "QN-1", rev_suffix: "Rev.01", status: "Approved" };
    let draft = BranchSource { offer_ref: "QN-1", rev_suffix: "Rev.01", status: "Draft" };
    assert!(matches!(check_branch_allowed("q1", " ", None, false), Err(QuoteError::InvalidPayload(m)) if m == "new_rev_suffix is required"));
    assert!(matches!(check_branch_allowed("q1", "Rev.02", None, false), Err(QuoteError::InvalidPayload(m)) if m == "Quote id 'q1' not found for this tenant"));
    assert!(matches!(check_branch_allowed("q1", "Rev.02", Some(draft), false), Err(QuoteError::InvalidPayload(_))));
    let locked2 = BranchSource { offer_ref: "QN-1", rev_suffix: "Rev.01", status: "Approved" };
    assert!(matches!(check_branch_allowed("q1", "Rev.02", Some(locked2), true), Err(QuoteError::InvalidPayload(m)) if m == "Revision 'Rev.02' already exists for offer_ref 'QN-1'"));
    assert!(check_branch_allowed("q1", "Rev.02", Some(locked), false).is_ok());
}

#[test]
fn generated_ids_are_random_lowercase_hex() {
    let id = generate_id();
    assert_eq!(id.len(), 36);
    assert!(id.chars().all(|c| c.is_ascii_digit() || ('a'..='f').contains(&c)));
    assert_ne!(id, generate_id());
}

#[test]
fn text_helpers() {
    assert!(is_blank(""));
    assert!(is_blank(" \t\n\u{3000}\u{a0}"));
    assert!(!is_blank(" x "));
    assert!(same_text("abc", "abc"));
    assert!(!same_text("abc", "abd"));
    assert!(!same_text("abc", "ab"));
    assert_eq!(decimal_string(0), "0");
    assert_eq!(decimal_string(-42), "-42");
    assert_eq!(decimal_string(i64::MAX), "9223372036854775807");
}

#[test]
fn asset_search_maps_to_one_filter() {
    assert_eq!(name_search_pattern("Excavator"), "%Excavator%");
    let (f, v) = search_criterion(&AssetSearchType::ByName("Gen".to_string()));
    assert_eq!((f, v.as_str()), (AssetFilter::AssetNameLike, "%Gen%"));
    let (f, v) = search_criterion(&AssetSearchType::ByCode("EX-01".to_string()));
    assert_eq!((f, v.as_str()), (AssetFilter::AssetCode, "EX-01"));
    let e = entitlement_denied_error();
    assert_eq!(e.code, "ENTITLEMENT_DENIED");
    assert_eq!(database_error("boom").error, "Database error: boom");
    assert_eq!(
        tenant_entitlement_outcome("t1", "inventory_specs", false),
        Err("Entitlement 'inventory_specs' not enabled for tenant 't1'".to_string())
    );
    assert_eq!(tenant_entitlement_outcome("t1", "inventory_specs", true), Ok(()));
}

#[test]
fn document_terms_prefer_attached_then_legacy() {
    let attached = vec!["A".to_string(), "B".to_string()];
    assert_eq!(document_terms(attached.clone(), Some("legacy".to_string())), attached);
    assert_eq!(document_terms(vec![], Some("legacy".to_string())), vec!["legacy".to_string()]);
    assert!(document_terms(vec![], Some("  ".to_string())).is_empty());
    assert!(document_terms(vec![], None).is_empty());
    assert_eq!(rate_basis_text_or_default(None), "Monthly");
}

#[test]
fn seed_rules() {
    assert_eq!(seed_entitlement_id("t-1", "quotes_core"), "ent-t-1-quotes_core");
    assert_eq!(seed_user_credentials(Some("a".to_string()), None), None);
    assert_eq!(
        seed_user_credentials(Some("a".to_string()), Some("h".to_string())),
        Some(("a".to_string(), "h".to_string()))
    );
    assert!(sample_quote_requested(Some("1")));
    assert!(!sample_quote_requested(Some("true")));
    assert!(!sample_quote_requested(None));
}

#[test]
fn database_file_sits_directly_inside_the_data_directory() {
    let p = resolve_db_path(std::path::Path::new("/data/app"));
    assert_eq!(p, std::path::PathBuf::from("/data/app/borge_equipment_rental.sqlite3"));
    assert_eq!(p.parent(), Some(std::path::Path::new("/data/app")));
}

#[test]
fn pdf_file_name_replaces_path_separators() {
    assert_eq!(quote_pdf_file_name("QN-EH/800/2026", "Rev.01"), "QN-EH_800_2026_Rev.01_quote.pdf");
    assert_eq!(quote_pdf_file_name("A\\B", "R/1\\2"), "A_B_R_1_2_quote.pdf");
    assert_eq!(quote_pdf_file_name("", ""), "__quote.pdf");
    assert_eq!(quote_pdf_file_name("Ré/ф", "x"), "Ré_ф_x_quote.pdf");
}

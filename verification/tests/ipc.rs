use borge_equipment_rental::auth::{hash_password, SessionClaims, TokenError, CANONICAL_MODULE_KEYS};
use borge_equipment_rental::compliance::ComplianceError;
use borge_equipment_rental::ipc::{
    authenticate_login, check_login_input, check_session_registration, compliance_error_response,
    parse_ipc_command, quote_error_response, require_entitlement, require_known_session,
    require_registered_session, require_session_token, required_module_key, IpcCommand,
    dispatched_reply, admit_entitled, admit_session,
    LoginAccount,
};
use borge_equipment_rental::quotes::{default_rate_basis, QuoteError};
use borge_equipment_rental::session::SessionState;

#[test]
fn required_module_key_maps_known_commands_and_only_those() {
    assert_eq!(required_module_key("save_quote"), Some("quotes_core"));
    assert_eq!(required_module_key("fetch_quote"), Some("quotes_core"));
    assert_eq!(
        required_module_key("fetch_inventory_specs"),
        Some("inventory_specs")
    );
    assert_eq!(
        required_module_key("calculate_rate_matrix"),
        Some("rate_matrix")
    );
    assert_eq!(
        required_module_key("generate_quote_pdf"),
        Some("quotes_core")
    );
    assert_eq!(
        required_module_key("fetch_quote_revisions"),
        Some("quotes_core")
    );
    assert_eq!(
        required_module_key("branch_new_revision"),
        Some("quotes_core")
    );
    assert_eq!(
        required_module_key("update_quote_status"),
        Some("quotes_core")
    );
    assert_eq!(required_module_key("attach_lpo"), Some("quotes_core"));
    assert_eq!(
        required_module_key("list_compliance_terms"),
        Some("compliance_terms")
    );
    assert_eq!(
        required_module_key("save_compliance_term"),
        Some("compliance_terms")
    );
    assert_eq!(
        required_module_key("deactivate_compliance_term"),
        Some("compliance_terms")
    );
    assert_eq!(
        required_module_key("attach_terms_to_quote"),
        Some("compliance_terms")
    );
    assert_eq!(required_module_key("list_tax_rules"), Some("compliance_terms"));
    assert_eq!(required_module_key("save_tax_rule"), Some("compliance_terms"));
    assert_eq!(
        required_module_key("deactivate_tax_rule"),
        Some("compliance_terms")
    );
    assert_eq!(required_module_key("admin_seed_entitlements"), None);
    assert_eq!(required_module_key("nonexistent_cmd"), None);
}

#[test]
fn required_module_key_values_are_all_canonical() {
    for cmd in [
        "save_quote",
        "fetch_quote",
        "fetch_inventory_specs",
        "calculate_rate_matrix",
        "generate_quote_pdf",
        "fetch_quote_revisions",
        "branch_new_revision",
        "update_quote_status",
        "attach_lpo",
        "list_compliance_terms",
        "save_compliance_term",
        "deactivate_compliance_term",
        "attach_terms_to_quote",
        "list_tax_rules",
        "save_tax_rule",
        "deactivate_tax_rule",
    ] {
        let key = required_module_key(cmd).unwrap();
        assert!(
            CANONICAL_MODULE_KEYS.contains(&key),
            "{} maps to {}, which is not in CANONICAL_MODULE_KEYS",
            cmd,
            key
        );
    }
}

#[test]
fn commands_route_to_their_handlers() {
    assert_eq!(parse_ipc_command("save_quote"), IpcCommand::SaveQuote);
    assert_eq!(parse_ipc_command("deactivate_tax_rule"), IpcCommand::DeactivateTaxRule);
    assert_eq!(parse_ipc_command("attach_lpo"), IpcCommand::AttachLpo);
    assert_eq!(parse_ipc_command("greet"), IpcCommand::Other);
    assert_eq!(parse_ipc_command("Save_Quote"), IpcCommand::Other);
}

#[test]
fn gates_reply_with_their_statuses() {
    let r = require_session_token(None).unwrap_err();
    assert_eq!(r.status, 401);
    assert_eq!(r.message, "Unauthorized: Missing or empty session token");
    assert!(require_session_token(Some("   ".to_string())).is_err());
    assert_eq!(require_session_token(Some("tok".to_string())).ok(), Some("tok".to_string()));

    let r = require_registered_session(None).unwrap_err();
    assert_eq!(r.status, 401);
    assert_eq!(r.message, "Unauthorized: Invalid or unregistered session token");

    let r = require_entitlement("tenant-1", "rate_matrix", false).unwrap_err();
    assert_eq!(r.status, 403);
    assert_eq!(
        r.message,
        "Access Denied: Tenant 'tenant-1' does not hold active entitlement for module 'rate_matrix'"
    );
    assert!(require_entitlement("tenant-1", "rate_matrix", true).is_ok());
    assert_eq!(require_known_session(false).unwrap_err().status, 401);
}

#[test]
fn error_replies_map_kinds_to_statuses() {
    let r = quote_error_response(QuoteError::Locked("locked".to_string()));
    assert_eq!((r.status, r.message.as_str()), (409, "locked"));
    let r = quote_error_response(QuoteError::Db("disk".to_string()));
    assert_eq!((r.status, r.message.as_str()), (500, "Internal Error: disk"));
    let r = compliance_error_response(ComplianceError::NotFound);
    assert_eq!((r.status, r.message.as_str()), (404, "Not found"));
    let r = compliance_error_response(ComplianceError::InvalidPayload("bad".to_string()));
    assert_eq!((r.status, r.message.as_str()), (400, "bad"));
}

#[test]
fn login_rejects_missing_fields_unknown_user_and_wrong_password_alike() {
    assert_eq!(check_login_input(" ", "pw").unwrap_err().status, 400);
    assert_eq!(check_login_input("a@b.c", "").unwrap_err().status, 400);
    assert!(check_login_input("a@b.c", "pw").is_ok());
    let unknown = authenticate_login("pw", None).unwrap_err();
    let account = LoginAccount {
        user_id: "u1".to_string(),
        tenant_id: "t1".to_string(),
        password_hash: hash_password("pw", None),
        role: "staff".to_string(),
    };
    let wrong = authenticate_login("nope", Some(LoginAccount { ..account_clone(&account) })).unwrap_err();
    assert_eq!((unknown.status, unknown.message.clone()), (wrong.status, wrong.message.clone()));
    assert_eq!(unknown.status, 401);
    let ok = authenticate_login("pw", Some(account)).ok().unwrap();
    assert_eq!(ok.user_id, "u1");
}

fn account_clone(a: &LoginAccount) -> LoginAccount {
    LoginAccount {
        user_id: a.user_id.clone(),
        tenant_id: a.tenant_id.clone(),
        password_hash: a.password_hash.clone(),
        role: a.role.clone(),
    }
}

#[test]
fn session_registration_requires_token_verification_and_tenant() {
    let claims = SessionClaims {
        sub: "u1".to_string(),
        tenant_id: "t1".to_string(),
        role: "staff".to_string(),
        iat: 0,
        exp: 10,
    };
    assert_eq!(check_session_registration("", Ok(claims.clone())).unwrap_err().status, 400);
    assert_eq!(
        check_session_registration("tok", Err(TokenError::BadSignature)).unwrap_err().status,
        401
    );
    let mut no_tenant = claims.clone();
    no_tenant.tenant_id = String::new();
    assert_eq!(check_session_registration("tok", Ok(no_tenant)).unwrap_err().status, 403);
    assert_eq!(
        check_session_registration("tok", Ok(claims)).ok(),
        Some(("t1".to_string(), "u1".to_string()))
    );
}

#[test]
fn session_registry_gives_back_what_was_registered() {
    let mut sessions = SessionState::new();
    assert!(!sessions.is_registered("tok-1"));
    assert_eq!(sessions.lookup("tok-1"), None);
    sessions.register("tok-1".to_string(), "tenant-a".to_string(), "user-1".to_string());
    sessions.register("tok-2".to_string(), "tenant-b".to_string(), "user-2".to_string());
    assert!(sessions.is_registered("tok-1"));
    assert_eq!(sessions.lookup("tok-1"), Some(("tenant-a".to_string(), "user-1".to_string())));
    assert_eq!(sessions.lookup("tok-2"), Some(("tenant-b".to_string(), "user-2".to_string())));
    sessions.register("tok-1".to_string(), "tenant-c".to_string(), "user-3".to_string());
    assert_eq!(sessions.lookup("tok-1"), Some(("tenant-c".to_string(), "user-3".to_string())));
    assert_eq!(sessions.lookup("tok-2"), Some(("tenant-b".to_string(), "user-2".to_string())));
    assert_eq!(sessions.lookup("tok-3"), None);
}

#[test]
fn line_items_default_to_monthly_rates() {
    assert_eq!(default_rate_basis(), "Monthly");
}

#[test]
fn commands_without_a_handler_echo_their_payload() {
    let r = dispatched_reply("greet_tenant", Some(serde_json::Value::String("hi".to_string())));
    assert_eq!(r.status, 200);
    assert_eq!(r.message, "Command 'greet_tenant' dispatched successfully");
    assert_eq!(r.data, Some(serde_json::Value::String("hi".to_string())));
    let r = dispatched_reply("noop", None);
    assert_eq!(r.data, None);
}

#[test]
fn gates_run_in_order_and_identity_comes_from_the_registry() {
    let mut sessions = SessionState::new();
    sessions.register("tok-1".to_string(), "tenant-a".to_string(), "user-1".to_string());

    let r = admit_session("save_quote", None, &sessions).unwrap_err();
    assert_eq!((r.status, r.message.as_str()), (401, "Unauthorized: Missing or empty session token"));
    let r = admit_session("save_quote", Some("  ".to_string()), &sessions).unwrap_err();
    assert_eq!(r.status, 401);
    let r = admit_session("save_quote", Some("tok-9".to_string()), &sessions).unwrap_err();
    assert_eq!((r.status, r.message.as_str()), (401, "Unauthorized: Invalid or unregistered session token"));

    let a = admit_session("save_quote", Some("tok-1".to_string()), &sessions).unwrap();
    assert_eq!((a.tenant_id.as_str(), a.user_id.as_str()), ("tenant-a", "user-1"));
    assert_eq!(a.command, IpcCommand::SaveQuote);
    assert_eq!(a.required_key, Some("quotes_core"));
    let r = admit_entitled(a, None).unwrap_err();
    assert_eq!(r.status, 403);
    assert_eq!(r.message, "Access Denied: Tenant 'tenant-a' does not hold active entitlement for module 'quotes_core'");

    let a = admit_session("save_quote", Some("tok-1".to_string()), &sessions).unwrap();
    assert_eq!(admit_entitled(a, Some(false)).unwrap_err().status, 403);
    let a = admit_session("save_quote", Some("tok-1".to_string()), &sessions).unwrap();
    assert_eq!(admit_entitled(a, Some(true)).unwrap().command, IpcCommand::SaveQuote);

    let a = admit_session("greet_tenant", Some("tok-1".to_string()), &sessions).unwrap();
    assert_eq!(a.required_key, None);
    assert_eq!(admit_entitled(a, None).unwrap().command, IpcCommand::Other);
}

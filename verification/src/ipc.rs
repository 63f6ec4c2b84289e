//! Decisions of the desktop IPC boundary: which module entitlement each
//! command needs, how a request is routed, the order of its gates (session
//! token, registered session, entitlement) and the replies for each failure.
//!
//! The shell performs the lookups between gates (registered sessions,
//! entitlement rows, user rows) and hands their results to these functions.
use vstd::prelude::*;
use vstd::string::*;
use crate::auth::{canonical_module_key, password_matches, verify_password, SessionClaims, TokenError};
use crate::compliance::ComplianceError;
use crate::quotes::QuoteError;
use crate::session::SessionState;
use crate::text::{blank, is_blank, same_text};
use vstd::utf8::encode_utf8;

verus! {

broadcast use vstd::string::group_string_axioms;

#[verifier::external_type_specification]
#[verifier::external_body]
pub struct ExJsonValue(serde_json::Value);

/// Reply to an IPC request.
#[derive(Debug)]
pub struct IpcResponse {
    pub status: u16,
    pub message: String,
    pub data: Option<serde_json::Value>,
}

/// `r` is a reply with this status and message and no data.
pub open spec fn plain_reply(r: IpcResponse, status: u16, message: Seq<char>) -> bool {
    &&& r.status == status
    &&& r.message@ == message
    &&& r.data is None
}

fn reply(status: u16, message: String) -> (r: IpcResponse)
    ensures
        plain_reply(r, status, message@),
{
    IpcResponse { status, message, data: None }
}

/// The module key a command requires, by name.
pub open spec fn module_key_for(cmd: Seq<char>) -> Option<Seq<char>> {
    if cmd == "save_quote"@ || cmd == "fetch_quote"@ {
        Some("quotes_core"@)
    } else if cmd == "fetch_inventory_specs"@ {
        Some("inventory_specs"@)
    } else if cmd == "calculate_rate_matrix"@ {
        Some("rate_matrix"@)
    } else if cmd == "generate_quote_pdf"@ || cmd == "fetch_quote_revisions"@ || cmd == "branch_new_revision"@
        || cmd == "update_quote_status"@ || cmd == "attach_lpo"@ {
        Some("quotes_core"@)
    } else if cmd == "list_compliance_terms"@ || cmd == "save_compliance_term"@ || cmd
        == "deactivate_compliance_term"@ || cmd == "attach_terms_to_quote"@ || cmd == "list_tax_rules"@ || cmd
        == "save_tax_rule"@ || cmd == "deactivate_tax_rule"@ {
        Some("compliance_terms"@)
    } else {
        None
    }
}

/// Maps an IPC command name to the module key required to invoke it; `None`
/// for commands that need no entitlement (or are unknown).
pub fn required_module_key(command_name: &str) -> (key: Option<&'static str>)
    ensures
        match key {
            Some(k) => module_key_for(command_name@) == Some(k@),
            None => module_key_for(command_name@) is None,
        },
{
    let c = command_name;
    if same_text(c, "save_quote") || same_text(c, "fetch_quote") {
        Some("quotes_core")
    } else if same_text(c, "fetch_inventory_specs") {
        Some("inventory_specs")
    } else if same_text(c, "calculate_rate_matrix") {
        Some("rate_matrix")
    } else if same_text(c, "generate_quote_pdf") || same_text(c, "fetch_quote_revisions") || same_text(
        c,
        "branch_new_revision",
    ) || same_text(c, "update_quote_status") || same_text(c, "attach_lpo") {
        Some("quotes_core")
    } else if same_text(c, "list_compliance_terms") || same_text(c, "save_compliance_term") || same_text(
        c,
        "deactivate_compliance_term",
    ) || same_text(c, "attach_terms_to_quote") || same_text(c, "list_tax_rules") || same_text(
        c,
        "save_tax_rule",
    ) || same_text(c, "deactivate_tax_rule") {
        Some("compliance_terms")
    } else {
        None
    }
}

/// Every module key a command requires is a canonical one.
pub proof fn lemma_required_module_keys_canonical(cmd: Seq<char>)
    ensures
        module_key_for(cmd) matches Some(k) ==> canonical_module_key(k),
{
}

/// The commands the IPC boundary dispatches to real handlers.
#[derive(Debug, Clone, Copy, PartialEq, Eq, Structural)]
pub enum IpcCommand {
    SaveQuote,
    FetchQuote,
    CalculateRateMatrix,
    GenerateQuotePdf,
    FetchQuoteRevisions,
    BranchNewRevision,
    UpdateQuoteStatus,
    AttachLpo,
    ListComplianceTerms,
    SaveComplianceTerm,
    DeactivateComplianceTerm,
    AttachTermsToQuote,
    ListTaxRules,
    SaveTaxRule,
    DeactivateTaxRule,
    /// Any other name: echoed back as dispatched.
    Other,
}

/// The handler a command name routes to.
pub open spec fn command_for(cmd: Seq<char>) -> IpcCommand {
    if cmd == "save_quote"@ {
        IpcCommand::SaveQuote
    } else if cmd == "fetch_quote"@ {
        IpcCommand::FetchQuote
    } else if cmd == "calculate_rate_matrix"@ {
        IpcCommand::CalculateRateMatrix
    } else if cmd == "generate_quote_pdf"@ {
        IpcCommand::GenerateQuotePdf
    } else if cmd == "fetch_quote_revisions"@ {
        IpcCommand::FetchQuoteRevisions
    } else if cmd == "branch_new_revision"@ {
        IpcCommand::BranchNewRevision
    } else if cmd == "update_quote_status"@ {
        IpcCommand::UpdateQuoteStatus
    } else if cmd == "attach_lpo"@ {
        IpcCommand::AttachLpo
    } else if cmd == "list_compliance_terms"@ {
        IpcCommand::ListComplianceTerms
    } else if cmd == "save_compliance_term"@ {
        IpcCommand::SaveComplianceTerm
    } else if cmd == "deactivate_compliance_term"@ {
        IpcCommand::DeactivateComplianceTerm
    } else if cmd == "attach_terms_to_quote"@ {
        IpcCommand::AttachTermsToQuote
    } else if cmd == "list_tax_rules"@ {
        IpcCommand::ListTaxRules
    } else if cmd == "save_tax_rule"@ {
        IpcCommand::SaveTaxRule
    } else if cmd == "deactivate_tax_rule"@ {
        IpcCommand::DeactivateTaxRule
    } else {
        IpcCommand::Other
    }
}

/// Routes a command name to its handler.
pub fn parse_ipc_command(command_name: &str) -> (c: IpcCommand)
    ensures
        c == command_for(command_name@),
{
    let n = command_name;
    if same_text(n, "save_quote") {
        IpcCommand::SaveQuote
    } else if same_text(n, "fetch_quote") {
        IpcCommand::FetchQuote
    } else if same_text(n, "calculate_rate_matrix") {
        IpcCommand::CalculateRateMatrix
    } else if same_text(n, "generate_quote_pdf") {
        IpcCommand::GenerateQuotePdf
    } else if same_text(n, "fetch_quote_revisions") {
        IpcCommand::FetchQuoteRevisions
    } else if same_text(n, "branch_new_revision") {
        IpcCommand::BranchNewRevision
    } else if same_text(n, "update_quote_status") {
        IpcCommand::UpdateQuoteStatus
    } else if same_text(n, "attach_lpo") {
        IpcCommand::AttachLpo
    } else if same_text(n, "list_compliance_terms") {
        IpcCommand::ListComplianceTerms
    } else if same_text(n, "save_compliance_term") {
        IpcCommand::SaveComplianceTerm
    } else if same_text(n, "deactivate_compliance_term") {
        IpcCommand::DeactivateComplianceTerm
    } else if same_text(n, "attach_terms_to_quote") {
        IpcCommand::AttachTermsToQuote
    } else if same_text(n, "list_tax_rules") {
        IpcCommand::ListTaxRules
    } else if same_text(n, "save_tax_rule") {
        IpcCommand::SaveTaxRule
    } else if same_text(n, "deactivate_tax_rule") {
        IpcCommand::DeactivateTaxRule
    } else {
        IpcCommand::Other
    }
}

/// The command name each handler serves (`None` for the echo of unknown names).
pub open spec fn handler_name(c: IpcCommand) -> Option<Seq<char>> {
    match c {
        IpcCommand::SaveQuote => Some("save_quote"@),
        IpcCommand::FetchQuote => Some("fetch_quote"@),
        IpcCommand::CalculateRateMatrix => Some("calculate_rate_matrix"@),
        IpcCommand::GenerateQuotePdf => Some("generate_quote_pdf"@),
        IpcCommand::FetchQuoteRevisions => Some("fetch_quote_revisions"@),
        IpcCommand::BranchNewRevision => Some("branch_new_revision"@),
        IpcCommand::UpdateQuoteStatus => Some("update_quote_status"@),
        IpcCommand::AttachLpo => Some("attach_lpo"@),
        IpcCommand::ListComplianceTerms => Some("list_compliance_terms"@),
        IpcCommand::SaveComplianceTerm => Some("save_compliance_term"@),
        IpcCommand::DeactivateComplianceTerm => Some("deactivate_compliance_term"@),
        IpcCommand::AttachTermsToQuote => Some("attach_terms_to_quote"@),
        IpcCommand::ListTaxRules => Some("list_tax_rules"@),
        IpcCommand::SaveTaxRule => Some("save_tax_rule"@),
        IpcCommand::DeactivateTaxRule => Some("deactivate_tax_rule"@),
        IpcCommand::Other => None,
    }
}

/// Every handler is reached by its own command name and is gated by a module
/// key, and every command that needs a module key is dispatched to a handler, except
/// `fetch_inventory_specs`, which has no handler on this route (asset lookup
/// has commands of its own) and is echoed once its entitlement is held.
pub proof fn lemma_commands_route_to_their_handlers(c: IpcCommand, cmd: Seq<char>)
    ensures
        handler_name(c) matches Some(n) ==> command_for(n) == c,
        handler_name(c) matches Some(n) ==> module_key_for(n) is Some,
        module_key_for(cmd) is Some && cmd != "fetch_inventory_specs"@ ==> command_for(cmd) != IpcCommand::Other,
{
    reveal_strlit("save_quote");
    reveal_strlit("fetch_quote");
    reveal_strlit("calculate_rate_matrix");
    reveal_strlit("generate_quote_pdf");
    reveal_strlit("fetch_quote_revisions");
    reveal_strlit("branch_new_revision");
    reveal_strlit("update_quote_status");
    reveal_strlit("attach_lpo");
    reveal_strlit("list_compliance_terms");
    reveal_strlit("save_compliance_term");
    reveal_strlit("deactivate_compliance_term");
    reveal_strlit("attach_terms_to_quote");
    reveal_strlit("list_tax_rules");
    reveal_strlit("save_tax_rule");
    reveal_strlit("deactivate_tax_rule");
    reveal_strlit("fetch_inventory_specs");
    assert("save_quote"@.len() == 10 && "save_quote"@[0] == 's');
    assert("fetch_quote"@.len() == 11 && "fetch_quote"@[0] == 'f');
    assert("calculate_rate_matrix"@.len() == 21 && "calculate_rate_matrix"@[0] == 'c');
    assert("generate_quote_pdf"@.len() == 18 && "generate_quote_pdf"@[0] == 'g');
    assert("fetch_quote_revisions"@.len() == 21 && "fetch_quote_revisions"@[0] == 'f');
    assert("branch_new_revision"@.len() == 19 && "branch_new_revision"@[0] == 'b');
    assert("update_quote_status"@.len() == 19 && "update_quote_status"@[0] == 'u');
    assert("attach_lpo"@.len() == 10 && "attach_lpo"@[0] == 'a');
    assert("list_compliance_terms"@.len() == 21 && "list_compliance_terms"@[0] == 'l');
    assert("save_compliance_term"@.len() == 20 && "save_compliance_term"@[0] == 's');
    assert("deactivate_compliance_term"@.len() == 26 && "deactivate_compliance_term"@[0] == 'd');
    assert("attach_terms_to_quote"@.len() == 21 && "attach_terms_to_quote"@[0] == 'a');
    assert("list_tax_rules"@.len() == 14 && "list_tax_rules"@[0] == 'l');
    assert("save_tax_rule"@.len() == 13 && "save_tax_rule"@[0] == 's');
    assert("deactivate_tax_rule"@.len() == 19 && "deactivate_tax_rule"@[0] == 'd');
    assert("fetch_inventory_specs"@.len() == 21 && "fetch_inventory_specs"@[0] == 'f');
}

/// Every command that is routed to a handler also requires an entitlement.
pub proof fn lemma_routed_commands_are_gated(cmd: Seq<char>)
    ensures
        command_for(cmd) != IpcCommand::Other ==> module_key_for(cmd) is Some,
{
}

// ---------------------------------------------------------------------------
// Gates of a guarded request, in order
// ---------------------------------------------------------------------------

/// Gate 1: a non-blank session token must be present (else 401).
pub fn require_session_token(session_token: Option<String>) -> (res: Result<String, IpcResponse>)
    ensures
        match session_token {
            Some(t) if !blank(t@) => res == Ok::<String, IpcResponse>(t),
            _ => match res {
                Err(r) => plain_reply(r, 401, "Unauthorized: Missing or empty session token"@),
                Ok(_) => false,
            },
        },
{
    match session_token {
        Some(t) => {
            if !is_blank(t.as_str()) {
                return Ok(t);
            }
        },
        None => {},
    }
    Err(reply(401, String::from_str("Unauthorized: Missing or empty session token")))
}

/// Gate 2: the token must belong to a registered session, which yields the
/// trusted `(tenant_id, user_id)` (else 401).
pub fn require_registered_session(session: Option<(String, String)>) -> (res: Result<(String, String), IpcResponse>)
    ensures
        match session {
            Some(s) => res == Ok::<(String, String), IpcResponse>(s),
            None => match res {
                Err(r) => plain_reply(r, 401, "Unauthorized: Invalid or unregistered session token"@),
                Ok(_) => false,
            },
        },
{
    match session {
        Some(s) => Ok(s),
        None => Err(reply(401, String::from_str("Unauthorized: Invalid or unregistered session token"))),
    }
}

/// The message for a tenant without the entitlement a command needs.
pub open spec fn access_denied_message(tenant_id: Seq<char>, module_key: Seq<char>) -> Seq<char> {
    "Access Denied: Tenant '"@ + tenant_id + "' does not hold active entitlement for module '"@ + module_key + "'"@
}

/// Gate 3: when the command requires a module key, the tenant must hold it
/// (else 403 naming tenant and module).
pub fn require_entitlement(tenant_id: &str, required_key: &str, allowed: bool) -> (res: Result<(), IpcResponse>)
    ensures
        allowed ==> res is Ok,
        !allowed ==> match res {
            Err(r) => plain_reply(r, 403, access_denied_message(tenant_id@, required_key@)),
            Ok(_) => false,
        },
{
    if !allowed {
        let msg = String::from_str("Access Denied: Tenant '").concat(tenant_id).concat(
            "' does not hold active entitlement for module '",
        ).concat(required_key).concat("'");
        return Err(reply(403, msg));
    }
    Ok(())
}

/// A request that has passed the session gates: the trusted tenant and user
/// of its registered session, the handler it routes to, and the entitlement
/// it still has to hold.
#[derive(Debug)]
pub struct AdmittedRequest {
    pub tenant_id: String,
    pub user_id: String,
    pub command: IpcCommand,
    pub required_key: Option<&'static str>,
}

/// Gates 1 and 2 in order: a non-blank session token (else 401), registered
/// in `sessions` (else 401). The identity comes from the registry, never from
/// the request; the command's route and required module key come with it.
pub fn admit_session(command_name: &str, session_token: Option<String>, sessions: &SessionState) -> (res: Result<AdmittedRequest, IpcResponse>)
    ensures
        match session_token {
            Some(t) if !blank(t@) => if sessions.sessions().contains_key(t@) {
                match res {
                    Ok(a) => {
                        &&& a.tenant_id@ == sessions.sessions()[t@].0
                        &&& a.user_id@ == sessions.sessions()[t@].1
                        &&& a.command == command_for(command_name@)
                        &&& match a.required_key {
                            Some(k) => module_key_for(command_name@) == Some(k@),
                            None => module_key_for(command_name@) is None,
                        }
                    },
                    Err(_) => false,
                }
            } else {
                match res {
                    Err(r) => plain_reply(r, 401, "Unauthorized: Invalid or unregistered session token"@),
                    Ok(_) => false,
                }
            },
            _ => match res {
                Err(r) => plain_reply(r, 401, "Unauthorized: Missing or empty session token"@),
                Ok(_) => false,
            },
        },
{
    let token = require_session_token(session_token)?;
    let (tenant_id, user_id) = require_registered_session(sessions.lookup(token.as_str()))?;
    Ok(AdmittedRequest {
        tenant_id,
        user_id,
        command: parse_ipc_command(command_name),
        required_key: required_module_key(command_name),
    })
}

/// Gate 3: a request whose command needs a module key is dispatched only when
/// the tenant's entitlement lookup answered `Some(true)`; a lookup that failed
/// (`None`) or answered `false` is refused with 403. A request that needs no
/// key passes whatever the lookup gave.
pub fn admit_entitled(request: AdmittedRequest, entitlement_lookup: Option<bool>) -> (res: Result<AdmittedRequest, IpcResponse>)
    ensures
        match request.required_key {
            None => res == Ok::<AdmittedRequest, IpcResponse>(request),
            Some(k) => if entitlement_lookup == Some(true) {
                res == Ok::<AdmittedRequest, IpcResponse>(request)
            } else {
                match res {
                    Err(r) => plain_reply(r, 403, access_denied_message(request.tenant_id@, k@)),
                    Ok(_) => false,
                }
            },
        },
{
    match request.required_key {
        None => Ok(request),
        Some(k) => {
            let allowed = match entitlement_lookup {
                Some(b) => b,
                None => false,
            };
            match require_entitlement(request.tenant_id.as_str(), k, allowed) {
                Ok(()) => Ok(request),
                Err(r) => Err(r),
            }
        },
    }
}

/// Reply for a failed quote operation: invalid payload 400, locked 409,
/// storage error 500.
pub fn quote_error_response(e: QuoteError) -> (r: IpcResponse)
    ensures
        match e {
            QuoteError::InvalidPayload(m) => plain_reply(r, 400, m@),
            QuoteError::Locked(m) => plain_reply(r, 409, m@),
            QuoteError::Db(m) => plain_reply(r, 500, "Internal Error: "@ + m@),
        },
{
    match e {
        QuoteError::InvalidPayload(m) => reply(400, m),
        QuoteError::Locked(m) => reply(409, m),
        QuoteError::Db(m) => reply(500, String::from_str("Internal Error: ").concat(m.as_str())),
    }
}

/// Reply for a failed compliance or tax-rule operation: invalid payload 400,
/// not found 404, storage error 500.
pub fn compliance_error_response(e: ComplianceError) -> (r: IpcResponse)
    ensures
        match e {
            ComplianceError::InvalidPayload(m) => plain_reply(r, 400, m@),
            ComplianceError::NotFound => plain_reply(r, 404, "Not found"@),
            ComplianceError::Db(m) => plain_reply(r, 500, "Internal Error: "@ + m@),
        },
{
    match e {
        ComplianceError::InvalidPayload(m) => reply(400, m),
        ComplianceError::NotFound => reply(404, String::from_str("Not found")),
        ComplianceError::Db(m) => reply(500, String::from_str("Internal Error: ").concat(m.as_str())),
    }
}

/// Reply for a command that has no handler of its own: 200, naming the
/// command, with the request's payload echoed back as data.
pub fn dispatched_reply(command_name: &str, payload: Option<serde_json::Value>) -> (r: IpcResponse)
    ensures
        r.status == 200,
        r.message@ == "Command '"@ + command_name@ + "' dispatched successfully"@,
        r.data == payload,
{
    let msg = String::from_str("Command '").concat(command_name).concat("' dispatched successfully");
    IpcResponse { status: 200, message: msg, data: payload }
}

// ---------------------------------------------------------------------------
// Login and session registration
// ---------------------------------------------------------------------------

/// The stored user row a login is checked against.
#[derive(Debug)]
pub struct LoginAccount {
    pub user_id: String,
    pub tenant_id: String,
    pub password_hash: String,
    pub role: String,
}

/// A login needs a non-blank email and a non-empty password (else 400).
pub fn check_login_input(email: &str, password: &str) -> (res: Result<(), IpcResponse>)
    ensures
        !blank(email@) && password@.len() > 0 ==> res is Ok,
        !(!blank(email@) && password@.len() > 0) ==> match res {
            Err(r) => plain_reply(r, 400, "email and password are required"@),
            Ok(_) => false,
        },
{
    if is_blank(email) || password.is_empty() {
        return Err(reply(400, String::from_str("email and password are required")));
    }
    Ok(())
}

/// A login succeeds for an active user whose stored hash the password
/// matches; an unknown email and a wrong password get the same 401.
pub fn authenticate_login(password: &str, account: Option<LoginAccount>) -> (res: Result<LoginAccount, IpcResponse>)
    ensures
        match account {
            Some(a) if password_matches(encode_utf8(password@), a.password_hash@) =>
                res == Ok::<LoginAccount, IpcResponse>(a),
            _ => match res {
                Err(r) => plain_reply(r, 401, "Invalid email or password"@),
                Ok(_) => false,
            },
        },
{
    match account {
        None => Err(reply(401, String::from_str("Invalid email or password"))),
        Some(a) => {
            if verify_password(password, a.password_hash.as_str()) {
                Ok(a)
            } else {
                Err(reply(401, String::from_str("Invalid email or password")))
            }
        },
    }
}

/// Registering a session needs a non-blank token (else 400) that verified
/// (else 401) and carries a tenant scope (else 403); the session then maps to
/// the claims' `(tenant_id, sub)`.
pub fn check_session_registration(session_token: &str, verified: Result<SessionClaims, TokenError>) -> (res: Result<(String, String), IpcResponse>)
    ensures
        blank(session_token@) ==> match res {
            Err(r) => plain_reply(r, 400, "session_token is required"@),
            Ok(_) => false,
        },
        !blank(session_token@) ==> match verified {
            Err(_) => match res {
                Err(r) => plain_reply(r, 401, "Unauthorized: invalid, tampered, or expired session token"@),
                Ok(_) => false,
            },
            Ok(c) => if blank(c.tenant_id@) {
                match res {
                    Err(r) => plain_reply(r, 403, "Forbidden: token has no tenant scope"@),
                    Ok(_) => false,
                }
            } else {
                res == Ok::<(String, String), IpcResponse>((c.tenant_id, c.sub))
            },
        },
{
    if is_blank(session_token) {
        return Err(reply(400, String::from_str("session_token is required")));
    }
    match verified {
        Err(_) => Err(reply(401, String::from_str("Unauthorized: invalid, tampered, or expired session token"))),
        Ok(c) => {
            if is_blank(c.tenant_id.as_str()) {
                Err(reply(403, String::from_str("Forbidden: token has no tenant scope")))
            } else {
                Ok((c.tenant_id, c.sub))
            }
        },
    }
}

/// Seeding entitlements requires a registered session (else 401).
pub fn require_known_session(is_known: bool) -> (res: Result<(), IpcResponse>)
    ensures
        is_known ==> res is Ok,
        !is_known ==> match res {
            Err(r) => plain_reply(r, 401, "Unauthorized: session not registered"@),
            Ok(_) => false,
        },
{
    if !is_known {
        return Err(reply(401, String::from_str("Unauthorized: session not registered")));
    }
    Ok(())
}

} // verus!

//! Client pre-flight: parse and validate a plan locally, apply request and
//! session overrides, refuse non-execute plans for `send`, and produce the
//! local `validate` verdict.

use vstd::prelude::*;

verus! {

use crate::parse::{parse_action_plan, parser_message};
use crate::text::{blank, str_is_blank};
use crate::types::{ActionPlan, ErrorCode, RequestError, ValidateVerdict};
use crate::validate::{plan_err, validate_action_plan};
use vstd::string::StringExecFns;

/// A pre-flight failure, carrying the message the client reports.
#[derive(Debug, Clone, PartialEq, Eq)]
pub struct ClientError {
    pub message: String,
}

fn cerr(msg: &str) -> (e: ClientError)
    ensures
        e.message@ == msg@,
{
    ClientError { message: String::from_str(msg) }
}

/// Applies non-blank request and session overrides to a plan; a blank
/// override is refused, an absent one leaves the field as it was.
pub fn apply_overrides(plan: ActionPlan, request_id: Option<&str>, session_id: Option<&str>) -> (r:
    Result<ActionPlan, ClientError>)
    ensures
        match r {
            Ok(p) => {
                &&& (request_id matches Some(rid) ==> !blank(rid@) && p.request_id@ == rid@)
                &&& (request_id is None ==> p.request_id == plan.request_id)
                &&& (session_id matches Some(sid) ==> !blank(sid@) && (p.session_id matches Some(s)
                    && s@ == sid@))
                &&& (session_id is None ==> p.session_id == plan.session_id)
                &&& p.version == plan.version
                &&& p.mode == plan.mode
                &&& p.actions == plan.actions
                &&& p.confirmation == plan.confirmation
            },
            Err(e) => {
                ||| (request_id matches Some(rid) && blank(rid@) && e.message@
                    == "request_id override must be non-empty"@)
                ||| (session_id matches Some(sid) && blank(sid@) && e.message@
                    == "session_id override must be non-empty"@)
            },
        },
{
    let mut plan = plan;
    if let Some(rid) = request_id {
        if str_is_blank(rid) {
            return Err(cerr("request_id override must be non-empty"));
        }
        plan.request_id = String::from_str(rid);
    }
    if let Some(sid) = session_id {
        if str_is_blank(sid) {
            return Err(cerr("session_id override must be non-empty"));
        }
        plan.session_id = Some(String::from_str(sid));
    }
    Ok(plan)
}

/// Parses the input strictly and validates it; the returned plan passed every
/// structural rule.
pub fn parse_and_validate(input: &str) -> (r: Result<ActionPlan, ClientError>)
    ensures
        r matches Ok(p) ==> plan_err(p) is None,
        r matches Err(e) ==> parser_message(e.message@) || (exists|p: ActionPlan|
            #[trigger] plan_err(p) matches Some(m) && e.message@ == m),
{
    let plan = match parse_action_plan(input) {
        Ok(p) => p,
        Err(e) => {
            return Err(ClientError { message: e.message });
        },
    };
    if let Err(e) = validate_action_plan(&plan) {
        return Err(ClientError { message: e.message });
    }
    Ok(plan)
}

/// The outcome of local validation: `ok` exactly when the input parses and
/// validates; otherwise the failure's kind and message.
pub fn validate_verdict(input: &str) -> (v: ValidateVerdict)
    ensures
        v.ok <==> v.error is None,
        v.error matches Some(e) ==> e.code == ErrorCode::ParseFailed || e.code
            == ErrorCode::ValidationFailed,
        (v.error matches Some(e) && e.code == ErrorCode::ParseFailed) ==> parser_message(
            (v.error->0).message@,
        ),
        (v.error matches Some(e) && e.code == ErrorCode::ValidationFailed) ==> exists|p: ActionPlan|
            #[trigger] plan_err(p) matches Some(m) && (v.error->0).message@ == m,
{
    match parse_action_plan(input) {
        Ok(plan) => match validate_action_plan(&plan) {
            Ok(()) => ValidateVerdict { ok: true, error: None },
            Err(e) => ValidateVerdict {
                ok: false,
                error: Some(
                    RequestError { code: ErrorCode::ValidationFailed, message: e.message },
                ),
            },
        },
        Err(e) => ValidateVerdict {
            ok: false,
            error: Some(RequestError { code: ErrorCode::ParseFailed, message: e.message }),
        },
    }
}

/// As `parse_and_validate`, and additionally refuses any plan that does not
/// ask for `execute` mode: the client never sends previews.
pub fn parse_and_validate_for_send(input: &str) -> (r: Result<ActionPlan, ClientError>)
    ensures
        r matches Ok(p) ==> plan_err(p) is None && p.mode is Execute,
        r matches Err(e) ==> parser_message(e.message@) || (exists|p: ActionPlan|
            #[trigger] plan_err(p) matches Some(m) && e.message@ == m) || e.message@
            == "client refuses non-execute mode"@,
{
    let plan = parse_and_validate(input)?;
    if !matches!(plan.mode, crate::types::Mode::Execute) {
        return Err(cerr("client refuses non-execute mode"));
    }
    Ok(plan)
}

/// Parses, applies overrides before validation (so a blank `request_id` in
/// the input is legal when overridden), validates, and refuses non-execute
/// mode.
pub fn parse_and_validate_for_send_with_overrides(
    input: &str,
    request_id: Option<&str>,
    session_id: Option<&str>,
) -> (r: Result<ActionPlan, ClientError>)
    ensures
        r matches Ok(p) ==> {
            &&& plan_err(p) is None
            &&& p.mode is Execute
            &&& (request_id matches Some(rid) ==> p.request_id@ == rid@)
            &&& (session_id matches Some(sid) ==> p.session_id matches Some(s) && s@ == sid@)
        },
        r matches Err(e) ==> parser_message(e.message@) || (exists|p: ActionPlan|
            #[trigger] plan_err(p) matches Some(m) && e.message@ == m) || e.message@
            == "client refuses non-execute mode"@ || e.message@
            == "request_id override must be non-empty"@ || e.message@
            == "session_id override must be non-empty"@,
{
    let plan = match parse_action_plan(input) {
        Ok(p) => p,
        Err(e) => {
            return Err(ClientError { message: e.message });
        },
    };
    let plan = apply_overrides(plan, request_id, session_id)?;
    if let Err(e) = validate_action_plan(&plan) {
        return Err(ClientError { message: e.message });
    }
    if !matches!(plan.mode, crate::types::Mode::Execute) {
        return Err(cerr("client refuses non-execute mode"));
    }
    Ok(plan)
}

} // verus!

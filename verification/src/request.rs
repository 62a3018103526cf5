//! The per-connection request pipeline before dispatch: the bounded input
//! reader and the preflight that turns raw bytes into either an error
//! response or a validated plan.

use vstd::prelude::*;

verus! {

use crate::dispatch::utf8_lossy;
use crate::parse::parse_action_plan;
use crate::types::{ActionPlan, ActionPlanResult, ActionResult, ErrorCode, RequestError};
use crate::validate::{plan_err, validate_action_plan};
use crate::MAX_REQUEST_BYTES;
use vstd::string::StringExecFns;

/// The connection's input accumulator: buffers at most `MAX_REQUEST_BYTES`,
/// and once a connection has sent more it only drains, never stores.
pub struct RequestReader {
    pub data: Vec<u8>,
    pub exceeded: bool,
    /// Every byte the connection has sent, stored only as a ghost record.
    pub fed: Ghost<Seq<u8>>,
}

/// The reader's invariant: the buffer never exceeds the cap; while within the
/// cap it holds exactly what was sent, and the flag is set exactly when the
/// connection has sent more than the cap.
pub open spec fn reader_inv(r: RequestReader) -> bool {
    &&& r.data@.len() <= MAX_REQUEST_BYTES
    &&& (!r.exceeded ==> r.data@ == r.fed@)
    &&& (r.exceeded <==> r.fed@.len() > MAX_REQUEST_BYTES)
}

impl RequestReader {
    /// A reader that has seen nothing yet.
    pub fn new() -> (r: RequestReader)
        ensures
            reader_inv(r),
            r.fed@.len() == 0,
    {
        RequestReader { data: Vec::new(), exceeded: false, fed: Ghost(Seq::empty()) }
    }

    /// Absorbs the first `n` bytes of one chunk read from the socket.
    pub fn feed(&mut self, buf: &[u8], n: usize)
        requires
            n <= buf@.len(),
            reader_inv(*old(self)),
        ensures
            reader_inv(*final(self)),
            final(self).fed@ == old(self).fed@ + buf@.take(n as int),
            final(self).exceeded == (old(self).exceeded || old(self).data@.len() + n
                > MAX_REQUEST_BYTES),
            !final(self).exceeded ==> final(self).data@ == old(self).data@ + buf@.take(n as int),
    {
        proof {
            self.fed@ = self.fed@ + buf@.take(n as int);
        }
        if self.exceeded {
            return ;
        }
        if n > MAX_REQUEST_BYTES - self.data.len() {
            self.exceeded = true;
            return ;
        }
        let mut j: usize = 0;
        let ghost data0 = self.data@;
        while j < n
            invariant
                n <= buf@.len(),
                j <= n,
                data0 == old(self).data@,
                self.data@ == data0 + buf@.take(j as int),
                data0.len() + n <= MAX_REQUEST_BYTES,
                self.exceeded == false,
                old(self).exceeded == false,
                reader_inv(*old(self)),
                self.fed@ == old(self).fed@ + buf@.take(n as int),
            decreases n - j,
        {
            self.data.push(buf[j]);
            proof {
                assert(self.data@ =~= data0 + buf@.take(j + 1));
            }
            j += 1;
        }
    }
}

/// A connection that sends more than the cap always trips the reader's
/// oversize flag, whatever the chunking was.
pub proof fn lemma_oversized_request(r: RequestReader)
    requires
        reader_inv(r),
        r.fed@.len() > MAX_REQUEST_BYTES,
    ensures
        r.exceeded,
{
}

/// What the preflight decided: answer at once, or dispatch the plan.
pub enum Preflight {
    Reply(ActionPlanResult),
    Dispatch(ActionPlan),
}

/// An error reply before any action ran: no results, mode not executed.
pub open spec fn error_reply(
    r: ActionPlanResult,
    rid: Seq<char>,
    code: ErrorCode,
    msg: Seq<char>,
) -> bool {
    &&& r.request_id@ == rid
    &&& !r.executed
    &&& r.results@.len() == 0
    &&& r.error matches Some(e) && e.code == code && e.message@ == msg
}

fn reply(request_id: &str, code: ErrorCode, message: String) -> (r: ActionPlanResult)
    ensures
        error_reply(r, request_id@, code, message@),
{
    ActionPlanResult {
        request_id: String::from_str(request_id),
        executed: false,
        results: Vec::new(),
        error: Some(RequestError { code, message }),
    }
}

fn prefixed(prefix: &str, msg: &str) -> (r: String)
    ensures
        r@ == prefix@ + msg@,
{
    let mut out = String::from_str(prefix);
    out.append(msg);
    out
}

/// Decides what one request deserves before any action runs: an oversize or
/// idle-empty connection, a parse failure, or a validation failure each get
/// their error reply; otherwise the validated plan goes on to dispatch.
///
/// Every reply is tied to its cause: `request_too_large` comes exactly when
/// the connection overran the cap; `parse_failed` always carries request_id
/// `unknown` and either the idle message or a message prefixed
/// `parse failed: `; `validation_failed` always carries some plan's own
/// request_id together with `validation failed: ` and that plan's first
/// validator message; and a dispatched plan always passed validation.
pub fn preflight(reader: &RequestReader, idle: bool) -> (r: Preflight)
    requires
        reader_inv(*reader),
    ensures
        reader.exceeded ==> (r matches Preflight::Reply(resp) && error_reply(
            resp,
            "unknown"@,
            ErrorCode::RequestTooLarge,
            "request exceeds max bytes"@,
        )),
        !reader.exceeded && idle && reader.data@.len() == 0 ==> (r matches Preflight::Reply(resp)
            && error_reply(resp, "unknown"@, ErrorCode::ParseFailed, "read timed out"@)),
        r matches Preflight::Reply(resp) ==> !resp.executed && resp.results@.len() == 0 && (
        resp.error matches Some(e) && {
            ||| (e.code == ErrorCode::RequestTooLarge && reader.exceeded && resp.request_id@
                == "unknown"@ && e.message@ == "request exceeds max bytes"@)
            ||| (e.code == ErrorCode::ParseFailed && resp.request_id@ == "unknown"@ && (e.message@
                == "read timed out"@ || (exists|em: Seq<char>| #[trigger] crate::parse::parser_message(em)
                && e.message@ == "parse failed: "@ + em)))
            ||| (e.code == ErrorCode::ValidationFailed && (exists|p: ActionPlan|
                #[trigger] plan_err(p) matches Some(m) && e.message@ == "validation failed: "@ + m
                    && resp.request_id@ == p.request_id@))
        }),
        r matches Preflight::Dispatch(p) ==> plan_err(p) is None && !reader.exceeded && !(idle
            && reader.data@.len() == 0),
{
    if reader.exceeded {
        return Preflight::Reply(
            reply(
                "unknown",
                ErrorCode::RequestTooLarge,
                String::from_str("request exceeds max bytes"),
            ),
        );
    }
    if idle && reader.data.len() == 0 {
        return Preflight::Reply(
            reply("unknown", ErrorCode::ParseFailed, String::from_str("read timed out")),
        );
    }
    let text = utf8_lossy(reader.data.as_slice());
    let plan = match parse_action_plan(text.as_str()) {
        Ok(p) => p,
        Err(e) => {
            return Preflight::Reply(
                reply(
                    "unknown",
                    ErrorCode::ParseFailed,
                    prefixed("parse failed: ", e.message.as_str()),
                ),
            );
        },
    };
    match validate_action_plan(&plan) {
        Ok(()) => Preflight::Dispatch(plan),
        Err(e) => {
            let msg = prefixed("validation failed: ", e.message.as_str());
            Preflight::Reply(reply(plan.request_id.as_str(), ErrorCode::ValidationFailed, msg))
        },
    }
}

/// The response for a plan whose actions all produced a result: results in
/// input order, `executed` reporting the requested mode, no request error.
pub fn finish_response(plan: &ActionPlan, results: Vec<ActionResult>) -> (r: ActionPlanResult)
    ensures
        r.request_id@ == plan.request_id@,
        r.executed == (plan.mode is Execute),
        r.results@ == results@,
        r.error is None,
{
    let executed = matches!(plan.mode, crate::types::Mode::Execute);
    ActionPlanResult {
        request_id: String::from_str(plan.request_id.as_str()),
        executed,
        results,
        error: None,
    }
}

/// Whether the plan's own confirmation matches the configured token.
pub open spec fn plan_conf_valid(p: ActionPlan, expected: Seq<char>) -> bool {
    p.confirmation matches Some(c) && crate::text::trim_chars(c.token@) == expected
}

/// The whole response for a plan under `plan_only` mode: one preview result
/// per action, in order, nothing executed.
pub fn plan_only_response(plan: &ActionPlan, confirm_token: &str) -> (r: ActionPlanResult)
    ensures
        r.request_id@ == plan.request_id@,
        !r.executed,
        r.error is None,
        r.results@.len() == plan.actions@.len(),
        forall|i: int|
            0 <= i < plan.actions@.len() ==> crate::dispatch::plan_action_spec(
                plan.actions@[i],
                plan_conf_valid(*plan, confirm_token@),
                #[trigger] r.results@[i],
            ),
{
    let token: Option<&str> = match &plan.confirmation {
        Some(c) => Some(c.token.as_str()),
        None => None,
    };
    let n = plan.actions.len();
    let mut results: Vec<ActionResult> = Vec::new();
    let mut i: usize = 0;
    while i < n
        invariant
            n == plan.actions@.len(),
            i <= n,
            results@.len() == i,
            crate::dispatch::conf_valid(token, confirm_token@) == plan_conf_valid(
                *plan,
                confirm_token@,
            ),
            forall|j: int|
                0 <= j < i ==> crate::dispatch::plan_action_spec(
                    plan.actions@[j],
                    plan_conf_valid(*plan, confirm_token@),
                    #[trigger] results@[j],
                ),
        decreases n - i,
    {
        let res = crate::dispatch::plan_action(&plan.actions[i], token, confirm_token);
        results.push(res);
        i += 1;
    }
    ActionPlanResult {
        request_id: String::from_str(plan.request_id.as_str()),
        executed: false,
        results,
        error: None,
    }
}

} // verus!

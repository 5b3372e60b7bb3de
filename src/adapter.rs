//! The call protocol at the foreign boundary: decoding of the caller's string
//! arguments, and the status code and output slots that each path leaves.
//!
//! A call goes through three steps. [`decode_request`] checks the arguments
//! in order and stops at the first invalid one. An execution context is then
//! started to run the selection; [`runtime_unavailable`] gives the outcome
//! where it could not be. [`conclude`] turns the selection's result into the
//! outcome. Either output slot may be absent; a slot that is absent is never
//! written.

use vstd::prelude::*;
use vstd::string::*;
use crate::headers::{headers_from_json, headers_of_json, headers_view, json_object_entries, Header};
use crate::selector::{not_implemented_message, result_view, selection};
use crate::text::opt_view;

verus! {

/// Success: the endpoint slot holds the chosen endpoint.
pub const STATUS_OK: i32 = 0;

/// The `host` argument is missing or not valid UTF-8.
pub const STATUS_BAD_HOST: i32 = 1;

/// The `port` argument is missing or not valid UTF-8.
pub const STATUS_BAD_PORT: i32 = 2;

/// The `method` argument is missing or not valid UTF-8.
pub const STATUS_BAD_METHOD: i32 = 3;

/// The `headers_json` argument is missing or not valid UTF-8.
pub const STATUS_BAD_HEADERS: i32 = 4;

/// The execution context for the selection could not be started.
pub const STATUS_RUNTIME_FAILED: i32 = 10;

/// An endpoint was chosen but the caller gave no slot to receive it.
pub const STATUS_NO_ENDPOINT_SLOT: i32 = 11;

/// The selection failed; the error slot says why.
pub const STATUS_SELECTION_FAILED: i32 = 12;

/// The error reported when an endpoint was chosen with no slot to receive it.
pub const NO_ENDPOINT_SLOT_MESSAGE: &'static str = "endpoint_out is null";

/// The start of the error reported when the execution context fails to start.
pub const RUNTIME_FAILED_PREFIX: &'static str = "tokio runtime init failed: ";

/// A string argument as it arrived from the caller.
pub enum ArgText {
    /// The caller passed no string.
    Null,
    /// The bytes are not valid UTF-8; the text describes where they fail.
    NotUtf8(String),
    /// The decoded text.
    Text(String),
}

/// A request whose arguments all decoded.
pub struct Request {
    pub host: String,
    pub port: String,
    pub method: String,
    pub headers: Vec<Header>,
}

impl View for Request {
    type V = (Seq<char>, Seq<char>, Seq<char>, Seq<(Seq<char>, Option<Seq<char>>)>);

    open spec fn view(&self) -> Self::V {
        (self.host@, self.port@, self.method@, headers_view(self.headers@))
    }
}

/// What a call leaves for the caller: its status code and what it wrote to
/// each output slot (`None`: nothing written, the slot holds null).
pub struct Outcome {
    pub status: i32,
    pub endpoint: Option<String>,
    pub error: Option<String>,
}

impl View for Outcome {
    type V = (i32, Option<Seq<char>>, Option<Seq<char>>);

    open spec fn view(&self) -> Self::V {
        (self.status, opt_view(self.endpoint), opt_view(self.error))
    }
}

/// The text of argument `arg`, named `name`, or the message that reports it.
pub open spec fn arg_value(arg: ArgText, name: Seq<char>) -> Result<Seq<char>, Seq<char>> {
    match arg {
        ArgText::Null => Err("null pointer for "@ + name),
        ArgText::NotUtf8(detail) => Err("invalid utf8 for "@ + name + ": "@ + detail@),
        ArgText::Text(s) => Ok(s@),
    }
}

/// The outcome of a failure with status `status` and message `message`: no
/// endpoint, and the message in the error slot if there is one.
pub open spec fn failure(status: i32, message: Seq<char>, error_slot: bool) -> (
    i32,
    Option<Seq<char>>,
    Option<Seq<char>>,
) {
    (status, None, if error_slot { Some(message) } else { None })
}

/// The decoded request, or the outcome of the first invalid argument in the
/// order host, port, method, headers.
pub open spec fn decoded(
    host: ArgText,
    port: ArgText,
    method: ArgText,
    headers_json: ArgText,
    error_slot: bool,
) -> Result<
    (Seq<char>, Seq<char>, Seq<char>, Seq<(Seq<char>, Option<Seq<char>>)>),
    (i32, Option<Seq<char>>, Option<Seq<char>>),
> {
    match arg_value(host, "host"@) {
        Err(m) => Err(failure(STATUS_BAD_HOST, m, error_slot)),
        Ok(h) => match arg_value(port, "port"@) {
            Err(m) => Err(failure(STATUS_BAD_PORT, m, error_slot)),
            Ok(p) => match arg_value(method, "method"@) {
                Err(m) => Err(failure(STATUS_BAD_METHOD, m, error_slot)),
                Ok(me) => match arg_value(headers_json, "headers_json"@) {
                    Err(m) => Err(failure(STATUS_BAD_HEADERS, m, error_slot)),
                    Ok(j) => Ok((h, p, me, headers_of_json(j))),
                },
            },
        },
    }
}

/// The outcome of a selection result `result`.
pub open spec fn concluded(
    result: Result<Seq<char>, Seq<char>>,
    endpoint_slot: bool,
    error_slot: bool,
) -> (i32, Option<Seq<char>>, Option<Seq<char>>) {
    match result {
        Ok(endpoint) => if endpoint_slot {
            (STATUS_OK, Some(endpoint), None)
        } else {
            failure(STATUS_NO_ENDPOINT_SLOT, NO_ENDPOINT_SLOT_MESSAGE@, error_slot)
        },
        Err(message) => failure(STATUS_SELECTION_FAILED, message, error_slot),
    }
}

/// The outcome of a whole call. `runtime_error` is the description of why the
/// execution context did not start, where it did not.
pub open spec fn call_outcome(
    host: ArgText,
    port: ArgText,
    method: ArgText,
    headers_json: ArgText,
    runtime_error: Option<Seq<char>>,
    endpoint_slot: bool,
    error_slot: bool,
) -> (i32, Option<Seq<char>>, Option<Seq<char>>) {
    match decoded(host, port, method, headers_json, error_slot) {
        Err(outcome) => outcome,
        Ok(request) => match runtime_error {
            Some(detail) => failure(
                STATUS_RUNTIME_FAILED,
                RUNTIME_FAILED_PREFIX@ + detail,
                error_slot,
            ),
            None => concluded(
                selection(request.0, request.1, request.3),
                endpoint_slot,
                error_slot,
            ),
        },
    }
}

fn failure_outcome(status: i32, message: String, error_slot: bool) -> (r: Outcome)
    ensures
        r@ == failure(status, message@, error_slot),
{
    Outcome { status, endpoint: None, error: if error_slot { Some(message) } else { None } }
}

/// The text of a string argument named `name`, or the message that reports
/// why it is unusable.
pub fn cstr_to_str(arg: ArgText, name: &str) -> (r: Result<String, String>)
    ensures
        result_view(r) == arg_value(arg, name@),
{
    match arg {
        ArgText::Null => {
            let mut m = String::from_str("null pointer for ");
            m.append(name);
            Err(m)
        },
        ArgText::NotUtf8(detail) => {
            let mut m = String::from_str("invalid utf8 for ");
            m.append(name);
            m.append(": ");
            m.append(detail.as_str());
            Err(m)
        },
        ArgText::Text(s) => Ok(s),
    }
}

/// Decodes the caller's arguments, stopping at the first that is unusable in
/// the order host, port, method, headers. Headers that are not a JSON object
/// are not an error: the request then carries no headers.
pub fn decode_request(
    host: ArgText,
    port: ArgText,
    method: ArgText,
    headers_json: ArgText,
    error_slot: bool,
) -> (r: Result<Request, Outcome>)
    ensures
        decoded(host, port, method, headers_json, error_slot) == match r {
            Ok(req) => Ok(req@),
            Err(o) => Err(o@),
        },
{
    let host = match cstr_to_str(host, "host") {
        Ok(v) => v,
        Err(e) => return Err(failure_outcome(STATUS_BAD_HOST, e, error_slot)),
    };
    let port = match cstr_to_str(port, "port") {
        Ok(v) => v,
        Err(e) => return Err(failure_outcome(STATUS_BAD_PORT, e, error_slot)),
    };
    let method = match cstr_to_str(method, "method") {
        Ok(v) => v,
        Err(e) => return Err(failure_outcome(STATUS_BAD_METHOD, e, error_slot)),
    };
    let headers_json = match cstr_to_str(headers_json, "headers_json") {
        Ok(v) => v,
        Err(e) => return Err(failure_outcome(STATUS_BAD_HEADERS, e, error_slot)),
    };
    let headers = headers_from_json(headers_json.as_str());
    Ok(Request { host, port, method, headers })
}

/// The outcome when the execution context could not be started, `detail`
/// saying why.
pub fn runtime_unavailable(detail: &str, error_slot: bool) -> (r: Outcome)
    ensures
        r@ == failure(STATUS_RUNTIME_FAILED, RUNTIME_FAILED_PREFIX@ + detail@, error_slot),
{
    let mut m = String::from_str(RUNTIME_FAILED_PREFIX);
    m.append(detail);
    failure_outcome(STATUS_RUNTIME_FAILED, m, error_slot)
}

/// The outcome of a selection result: the endpoint in its slot, or, where the
/// caller gave no endpoint slot or the selection failed, the reason in the
/// error slot.
pub fn conclude(result: Result<String, String>, endpoint_slot: bool, error_slot: bool) -> (r:
    Outcome)
    ensures
        r@ == concluded(result_view(result), endpoint_slot, error_slot),
{
    match result {
        Ok(endpoint) => if endpoint_slot {
            Outcome { status: STATUS_OK, endpoint: Some(endpoint), error: None }
        } else {
            failure_outcome(
                STATUS_NO_ENDPOINT_SLOT,
                String::from_str(NO_ENDPOINT_SLOT_MESSAGE),
                error_slot,
            )
        },
        Err(message) => failure_outcome(STATUS_SELECTION_FAILED, message, error_slot),
    }
}

/// When the caller gives both output slots, every call writes exactly one of
/// them: the endpoint slot when it succeeds (status 0), the error slot on any
/// failure.
pub proof fn lemma_exactly_one_output(
    host: ArgText,
    port: ArgText,
    method: ArgText,
    headers_json: ArgText,
    runtime_error: Option<Seq<char>>,
)
    ensures
        ({
            let o = call_outcome(host, port, method, headers_json, runtime_error, true, true);
            &&& (o.1 is Some) != (o.2 is Some)
            &&& (o.1 is Some) == (o.0 == STATUS_OK)
        }),
{
}

/// A host argument that is missing or not UTF-8 ends the call with status 1,
/// no endpoint, and a message naming the host in the error slot, whatever the
/// other arguments are.
pub proof fn lemma_invalid_host_rejected(
    host: ArgText,
    port: ArgText,
    method: ArgText,
    headers_json: ArgText,
    runtime_error: Option<Seq<char>>,
    endpoint_slot: bool,
)
    requires
        !(host is Text),
    ensures
        ({
            let o = call_outcome(
                host,
                port,
                method,
                headers_json,
                runtime_error,
                endpoint_slot,
                true,
            );
            &&& o.0 == STATUS_BAD_HOST
            &&& o.1 is None
            &&& o.2 == Some(arg_value(host, "host"@)->Err_0)
        }),
{
}

/// Header text that is not a JSON object is no argument error: the call goes
/// on without headers, and so fails as a request without override header does.
pub proof fn lemma_unreadable_headers_take_default_path(
    host: String,
    port: String,
    method: String,
    headers_json: String,
    endpoint_slot: bool,
)
    ensures
        json_object_entries(headers_json@) is None ==> call_outcome(
            ArgText::Text(host),
            ArgText::Text(port),
            ArgText::Text(method),
            ArgText::Text(headers_json),
            None,
            endpoint_slot,
            true,
        ) == failure(STATUS_SELECTION_FAILED, not_implemented_message(host@, port@), true),
{
}

} // verus!

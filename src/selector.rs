//! The selection decision: which endpoint ("host:port") a request goes to.
//!
//! No selection service is wired in yet. A request that names its endpoints in
//! the override header is routed to the first of them; any other request
//! fails with a message that names the selection service it would have asked.

use vstd::prelude::*;
use vstd::string::*;
use crate::headers::{find_header, header_value, headers_view, Header};
use crate::text::{ascii_fold, first_listed, first_listed_entry, same_ignoring_ascii_case};

verus! {

/// The header whose value lists endpoints, comma-separated, to route to.
pub const OVERRIDE_HEADER: &'static str = "test-epp-endpoint-selection";

/// The failure when the override header lists no endpoint.
pub const EMPTY_OVERRIDE_MESSAGE: &'static str = "empty test-epp-endpoint-selection header";

/// The start of the failure when no override header is present.
pub const NOT_IMPLEMENTED_PREFIX: &'static str = "EPP client not implemented yet (tonic ext_proc). target=";

/// The contents of a selection outcome.
pub open spec fn result_view(r: Result<String, String>) -> Result<Seq<char>, Seq<char>> {
    match r {
        Ok(s) => Ok(s@),
        Err(e) => Err(e@),
    }
}

/// The failure for a request without override header, sent to `host:port`.
pub open spec fn not_implemented_message(host: Seq<char>, port: Seq<char>) -> Seq<char> {
    NOT_IMPLEMENTED_PREFIX@ + host + ":"@ + port
}

/// The endpoint chosen for a request to the selection service at `host:port`
/// with headers `headers`, or the reason why none is.
pub open spec fn selection(
    host: Seq<char>,
    port: Seq<char>,
    headers: Seq<(Seq<char>, Option<Seq<char>>)>,
) -> Result<Seq<char>, Seq<char>> {
    match header_value(headers, OVERRIDE_HEADER@) {
        Some(list) => match first_listed(list) {
            Some(endpoint) => Ok(endpoint),
            None => Err(EMPTY_OVERRIDE_MESSAGE@),
        },
        None => Err(not_implemented_message(host, port)),
    }
}

/// Decides the destination endpoint of a request for the selection service at
/// `host:port`. `method` and `body` are taken for the service's use and do
/// not change the decision.
pub fn get_destination_endpoint(
    host: &str,
    port: &str,
    method: &str,
    headers: &[Header],
    body: &[u8],
) -> (r: Result<String, String>)
    ensures
        result_view(r) == selection(host@, port@, headers_view(headers@)),
{
    match find_header(headers, OVERRIDE_HEADER) {
        Some(list) => match first_listed_entry(list.as_str()) {
            Some(endpoint) => Ok(endpoint),
            None => Err(String::from_str(EMPTY_OVERRIDE_MESSAGE)),
        },
        None => {
            let mut message = String::from_str(NOT_IMPLEMENTED_PREFIX);
            message.append(host);
            message.append(":");
            message.append(port);
            Err(message)
        },
    }
}

proof fn lemma_header_value_ignores_name_case(
    a: Seq<(Seq<char>, Option<Seq<char>>)>,
    b: Seq<(Seq<char>, Option<Seq<char>>)>,
    key: Seq<char>,
)
    requires
        a.len() == b.len(),
        forall|i: int|
            0 <= i < a.len() ==> same_ignoring_ascii_case(#[trigger] a[i].0, b[i].0) && a[i].1
                == b[i].1,
    ensures
        header_value(a, key) == header_value(b, key),
    decreases a.len(),
{
    if a.len() > 0 {
        let x = a[0].0;
        let y = b[0].0;
        assert(same_ignoring_ascii_case(x, y));
        if same_ignoring_ascii_case(x, key) {
            assert forall|i: int| 0 <= i < y.len() implies ascii_fold(#[trigger] y[i]) == ascii_fold(
                key[i],
            ) by {
                assert(ascii_fold(x[i]) == ascii_fold(y[i]));
            }
        }
        if same_ignoring_ascii_case(y, key) {
            assert forall|i: int| 0 <= i < x.len() implies ascii_fold(#[trigger] x[i]) == ascii_fold(
                key[i],
            ) by {
                assert(ascii_fold(x[i]) == ascii_fold(y[i]));
            }
        }
        assert(same_ignoring_ascii_case(x, key) == same_ignoring_ascii_case(y, key));
        assert(a.drop_first().len() == b.drop_first().len());
        lemma_header_value_ignores_name_case(a.drop_first(), b.drop_first(), key);
    }
}

/// Header names are compared without regard to ASCII case: two header lists
/// that differ only in the case of their names lead to the same selection.
pub proof fn lemma_selection_ignores_name_case(
    host: Seq<char>,
    port: Seq<char>,
    a: Seq<(Seq<char>, Option<Seq<char>>)>,
    b: Seq<(Seq<char>, Option<Seq<char>>)>,
)
    requires
        a.len() == b.len(),
        forall|i: int|
            0 <= i < a.len() ==> same_ignoring_ascii_case(#[trigger] a[i].0, b[i].0) && a[i].1
                == b[i].1,
    ensures
        selection(host, port, a) == selection(host, port, b),
{
    lemma_header_value_ignores_name_case(a, b, OVERRIDE_HEADER@);
}

} // verus!

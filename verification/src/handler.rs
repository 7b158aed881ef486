//! The proxy's decisions: how a caller's parameters become a target URL or a
//! rejection, and how the outcome of the single outbound request becomes the
//! response handed back to the caller.
//!
//! The outbound request itself (the HTTP client, the 30-second timeout) runs
//! outside the library; its outcome reaches this module as plain values.

use vstd::prelude::*;
use vstd::string::StringExecFns;

use crate::query::pair_views;
use crate::query::path_of;
use crate::text::dec_of;
use crate::text::u16_to_string;
use crate::target::build_target;
use crate::target::target_base;
use crate::target::target_of;
use crate::target::url_accepts;
use crate::target::url_parse_error;

verus! {

/// What the single outbound GET produced, as the serving layer saw it.
pub enum FetchOutcome {
    /// A transport-level failure (DNS, connection, TLS, timeout): no response
    /// was obtained. The string is the client's description of the failure.
    Transport(String),
    /// The upstream answered with `status`; `body` is its text, or, when the
    /// body could not be read, the description of the read failure.
    Upstream { status: u16, body: Result<String, String> },
}

/// The response handed back to the original caller.
#[derive(Debug)]
pub struct ProxyResponse {
    /// 200 on success, 400 on a malformed target, 500 otherwise.
    pub status: u16,
    /// The body: the upstream's text on success, a diagnostic otherwise.
    pub body: String,
    /// The resolved target URL, echoed as the `Final-URL` response header
    /// whenever the target was successfully constructed.
    pub final_url: Option<String>,
}

/// A response as a plain triple: status, body, echoed target URL.
pub open spec fn response_view(r: ProxyResponse) -> (u16, Seq<char>, Option<Seq<char>>) {
    (
        r.status,
        r.body@,
        match r.final_url {
            Some(u) => Some(u@),
            None => None,
        },
    )
}

pub open spec fn result_view(r: Result<String, String>) -> Result<Seq<char>, Seq<char>> {
    match r {
        Ok(t) => Ok(t@),
        Err(e) => Err(e@),
    }
}

/// A success status in the upstream's answer: 2xx.
pub open spec fn is_success_status(status: u16) -> bool {
    200 <= status <= 299
}

/// The diagnostic for a transport-level failure.
pub open spec fn transport_msg(e: Seq<char>) -> Seq<char> {
    "Error occurred while requesting Binance API: "@ + e
}

/// The diagnostic for a body that could not be read after a success status.
pub open spec fn read_failure_msg(e: Seq<char>) -> Seq<char> {
    "Failed to read response body: "@ + e
}

/// The diagnostic for a non-success upstream status, citing the status code
/// in decimal and the upstream's body text (or a placeholder when that body
/// could not be read).
pub open spec fn upstream_error_msg(status: u16, body: Seq<char>) -> Seq<char> {
    "Request failed: Status="@ + dec_of(status as nat) + " Body="@ + body
}

/// What the outcome of the outbound request amounts to: the upstream's body
/// on a readable 2xx answer, and a diagnostic text otherwise.
pub open spec fn fetch_result(o: FetchOutcome) -> Result<Seq<char>, Seq<char>> {
    match o {
        FetchOutcome::Transport(e) => Err(transport_msg(e@)),
        FetchOutcome::Upstream { status, body } => {
            if is_success_status(status) {
                match body {
                    Ok(t) => Ok(t@),
                    Err(e) => Err(read_failure_msg(e@)),
                }
            } else {
                Err(
                    upstream_error_msg(
                        status,
                        match body {
                            Ok(b) => b@,
                            Err(_) => "Unknown error"@,
                        },
                    ),
                )
            }
        },
    }
}

/// An error body at the caller-facing boundary: the inner diagnostic wrapped
/// with the resolved target URL.
pub open spec fn wrapped_error(m: Seq<char>, u: Seq<char>) -> Seq<char> {
    "Error occurred: "@ + m + ". Final URL: "@ + u
}

/// The caller-facing response for an outcome of the outbound request, given
/// the resolved target URL `u`.
pub open spec fn respond_spec(u: Seq<char>, o: FetchOutcome) -> (u16, Seq<char>, Option<
    Seq<char>,
>) {
    match fetch_result(o) {
        Ok(t) => (200u16, t, Some(u)),
        Err(m) => (500u16, wrapped_error(m, u), Some(u)),
    }
}

/// The caller-facing response when the target URL could not be built.
pub open spec fn bad_url_response(q: Seq<(Seq<char>, Seq<char>)>) -> (u16, Seq<char>, Option<
    Seq<char>,
>) {
    (400u16, "Failed to build URL: "@ + url_parse_error(target_base(path_of(q))), None)
}

/// Classifies the outbound request's outcome exactly as `fetch_result` says:
/// the body of a readable 2xx answer passes through verbatim; everything
/// else becomes a diagnostic.
pub fn classify_outcome(o: FetchOutcome) -> (r: Result<String, String>)
    ensures
        result_view(r) == fetch_result(o),
{
    match o {
        FetchOutcome::Transport(e) => {
            let mut m: String = "Error occurred while requesting Binance API: ".to_owned();
            m.append(e.as_str());
            Err(m)
        },
        FetchOutcome::Upstream { status, body } => {
            if 200 <= status && status <= 299 {
                match body {
                    Ok(t) => Ok(t),
                    Err(e) => {
                        let mut m: String = "Failed to read response body: ".to_owned();
                        m.append(e.as_str());
                        Err(m)
                    },
                }
            } else {
                let b: String = match body {
                    Ok(b) => b,
                    Err(_) => "Unknown error".to_owned(),
                };
                let st = u16_to_string(status);
                let mut m: String = "Request failed: Status=".to_owned();
                m.append(st.as_str());
                m.append(" Body=");
                m.append(b.as_str());
                proof {
                    assert(m@ =~= upstream_error_msg(status, b@));
                }
                Err(m)
            }
        },
    }
}

/// Builds the target URL for the caller's parameters, or the 400 response
/// that rejects them. No network is touched: on success the caller of the
/// library performs the single outbound GET on the returned URL.
pub fn prepare_target(params: &Vec<(String, String)>) -> (r: Result<String, ProxyResponse>)
    ensures
        r is Ok <==> url_accepts(target_base(path_of(pair_views(params@)))),
        r matches Ok(t) ==> t@ == target_of(pair_views(params@)),
        r matches Err(resp) ==> response_view(resp) == bad_url_response(pair_views(params@)),
{
    match build_target(params) {
        Ok(t) => Ok(t),
        Err(e) => {
            let mut body: String = "Failed to build URL: ".to_owned();
            body.append(e.as_str());
            Err(ProxyResponse { status: 400, body, final_url: None })
        },
    }
}

/// Turns the outcome of the outbound request into the caller-facing
/// response: 200 with the upstream body verbatim on a readable 2xx answer,
/// 500 with a diagnostic wrapped around the target URL otherwise; the
/// resolved target URL is echoed in either case.
pub fn respond(final_url: String, o: FetchOutcome) -> (r: ProxyResponse)
    ensures
        response_view(r) == respond_spec(final_url@, o),
{
    match classify_outcome(o) {
        Ok(t) => ProxyResponse { status: 200, body: t, final_url: Some(final_url) },
        Err(m) => {
            let mut body: String = "Error occurred: ".to_owned();
            body.append(m.as_str());
            body.append(". Final URL: ");
            body.append(final_url.as_str());
            proof {
                assert(body@ =~= wrapped_error(m@, final_url@));
            }
            ProxyResponse { status: 500, body, final_url: Some(final_url) }
        },
    }
}

/// Status-translation law: a reachable upstream that answers with any
/// non-success status never has that status passed through — the caller
/// always sees 500, with a body that wraps the diagnostic citing the
/// upstream status and body around the target URL.
pub proof fn lemma_upstream_error_is_500(
    u: Seq<char>,
    status: u16,
    body: Result<String, String>,
)
    requires
        !is_success_status(status),
    ensures
        respond_spec(u, FetchOutcome::Upstream { status, body }).0 == 500,
        respond_spec(u, FetchOutcome::Upstream { status, body }).1 == wrapped_error(
            upstream_error_msg(
                status,
                match body {
                    Ok(b) => b@,
                    Err(_) => "Unknown error"@,
                },
            ),
            u,
        ),
{
}

/// Transport-failure law: when no response was obtained (timeout included),
/// the caller sees 500 and the body attributes the failure to the transport
/// error's text.
pub proof fn lemma_transport_failure_is_500(u: Seq<char>, e: String)
    ensures
        respond_spec(u, FetchOutcome::Transport(e)).0 == 500,
        respond_spec(u, FetchOutcome::Transport(e)).1 == wrapped_error(transport_msg(e@), u),
{
}

} // verus!


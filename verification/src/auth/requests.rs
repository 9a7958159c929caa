//! Requests to the edge: where they go, and what their responses mean.

use vstd::prelude::*;

use super::refresh::is_success;
use super::types::{failed_with, AuthUser, AuthedRequestError, EngineError, SignInResult};
use crate::edge_errors::{
    edge_response_outcome_unknown, error_line, says_outcome_unknown, workspace_error_message,
};
use crate::encoding::utf8_lossy;
use crate::json::parsed_json;
use crate::text::{
    decimal, decimal_digits, join, join2, join3, join4, joined, texts, trim_end_slashes,
    without_end_slashes,
};

verus! {

/// What came back for a request, and what its body gives when it is read as the
/// expected value.
#[derive(Debug)]
pub enum EdgeResponse<T> {
    /// The request could not be sent, for the given cause.
    Unreachable(String),
    /// The response had this status, and its body could not be read.
    BodyUnread { status: u16, cause: String },
    /// A whole response.
    Complete { status: u16, body: Vec<u8>, value: Result<T, String> },
}

/// The URL of a path at the edge.
pub fn edge_endpoint(edge_url: &str, path: &str) -> (r: String)
    ensures
        r@ == without_end_slashes(edge_url@) + path@,
{
    let edge = trim_end_slashes(edge_url);
    join2(edge.as_str(), path)
}

/// The path of an organization.
pub fn org_path(org_id: &str) -> (r: String)
    ensures
        r@ == "/auth/orgs/"@ + org_id@,
{
    join2("/auth/orgs/", org_id)
}

/// The path of an organization's roster.
pub fn members_path(org_id: &str) -> (r: String)
    ensures
        r@ == "/auth/orgs/"@ + org_id@ + "/members"@,
{
    join3("/auth/orgs/", org_id, "/members")
}

/// The path of one membership.
pub fn member_path(org_id: &str, membership_id: &str) -> (r: String)
    ensures
        r@ == "/auth/orgs/"@ + org_id@ + "/members/"@ + membership_id@,
{
    join4("/auth/orgs/", org_id, "/members/", membership_id)
}

/// The result is a failure of unknown outcome with the given message.
pub open spec fn ambiguous<T>(r: Result<T, AuthedRequestError>, message: Seq<char>) -> bool {
    r is Err && r->Err_0 is Ambiguous && r->Err_0->Ambiguous_0.text() == message
}

/// The result is a definite rejection with the given message.
pub open spec fn definite<T>(r: Result<T, AuthedRequestError>, message: Seq<char>) -> bool {
    r is Err && r->Err_0 is Definite && r->Err_0->Definite_0.text() == message
}

/// What an authenticated response means. Only a complete response without success
/// that does not say otherwise proves that the request was rejected.
pub fn classify_response<T>(response: EdgeResponse<T>) -> (r: Result<T, AuthedRequestError>)
    ensures
        match response {
            EdgeResponse::Unreachable(cause) => ambiguous(
                r,
                "the edge is unreachable: "@ + cause@,
            ),
            EdgeResponse::BodyUnread { status, cause } => ambiguous(
                r,
                "workspace request failed ("@ + decimal_digits(status as nat)
                    + "): could not read the response: "@ + cause@,
            ),
            EdgeResponse::Complete { status, body, value } => {
                let message = error_line(
                    "workspace request failed"@,
                    status,
                    parsed_json(body@),
                    utf8_lossy(body@),
                );
                if is_success(status) {
                    match value {
                        Ok(value) => r == Ok::<T, AuthedRequestError>(value),
                        Err(cause) => ambiguous(r, "malformed response: "@ + cause@),
                    }
                } else if says_outcome_unknown(parsed_json(body@)) {
                    ambiguous(r, message)
                } else {
                    definite(r, message)
                }
            },
        },
{
    match response {
        EdgeResponse::Unreachable(cause) => Err(
            AuthedRequestError::Ambiguous(
                EngineError::Other(join2("the edge is unreachable: ", cause.as_str())),
            ),
        ),
        EdgeResponse::BodyUnread { status, cause } => {
            let code = decimal(status as u64);
            Err(
                AuthedRequestError::Ambiguous(
                    EngineError::Other(
                        join4(
                            "workspace request failed (",
                            code.as_str(),
                            "): could not read the response: ",
                            cause.as_str(),
                        ),
                    ),
                ),
            )
        },
        EdgeResponse::Complete { status, body, value } => {
            if 200 <= status && status < 300 {
                return match value {
                    Ok(value) => Ok(value),
                    Err(cause) => Err(
                        AuthedRequestError::Ambiguous(
                            EngineError::Other(join2("malformed response: ", cause.as_str())),
                        ),
                    ),
                };
            }
            let failure = EngineError::Other(workspace_error_message(status, &body));
            if edge_response_outcome_unknown(&body) {
                Err(AuthedRequestError::Ambiguous(failure))
            } else {
                Err(AuthedRequestError::Definite(failure))
            }
        },
    }
}

/// The body of a code exchange.
#[derive(Debug)]
pub struct Exchange {
    pub id: String,
    pub email: String,
    pub first_name: Option<String>,
    pub last_name: Option<String>,
    pub access_token: String,
    pub refresh_token: String,
}

/// What came back for a code exchange.
#[derive(Debug)]
pub enum ExchangeResponse {
    Unreachable(String),
    Complete { status: u16, body: Result<Exchange, String> },
}

/// The names of a user that are there and not empty.
pub open spec fn given_names(first: Option<String>, last: Option<String>) -> Seq<Seq<char>> {
    let one = |name: Option<String>|
        if name is Some && name->0@.len() > 0 {
            seq![name->0@]
        } else {
            Seq::empty()
        };
    one(first) + one(last)
}

/// The name of a user: the given names with a space between; none where there are
/// none.
pub fn full_name(first: Option<String>, last: Option<String>) -> (r: Option<String>)
    ensures
        ({
            let name = joined(given_names(first, last), " "@);
            match r {
                Some(n) => n@ == name && name.len() > 0,
                None => name.len() == 0,
            }
        }),
{
    let mut names: Vec<String> = Vec::new();
    assert(texts(names@) =~= Seq::<Seq<char>>::empty());
    if let Some(name) = first {
        if !name.as_str().is_empty() {
            names.push(name);
            assert(texts(names@) =~= seq![name@]);
        }
    }
    if let Some(name) = last {
        if !name.as_str().is_empty() {
            let ghost before = texts(names@);
            names.push(name);
            assert(texts(names@) =~= before + seq![name@]);
        }
    }
    assert(texts(names@) =~= given_names(first, last));
    let name = join(&names, " ");
    if name.as_str().is_empty() {
        None
    } else {
        Some(name)
    }
}

/// What the response of a code exchange means.
pub fn read_exchange(response: ExchangeResponse) -> (r: Result<SignInResult, EngineError>)
    ensures
        match response {
            ExchangeResponse::Unreachable(cause) => failed_with(
                r,
                "the edge is unreachable: "@ + cause@,
            ),
            ExchangeResponse::Complete { status, body } => if !is_success(status) {
                failed_with(
                    r,
                    "sign-in failed during token exchange ("@ + decimal_digits(status as nat)
                        + ") — the code may have expired; start again"@,
                )
            } else {
                match body {
                    Err(cause) => failed_with(r, "malformed exchange response: "@ + cause@),
                    Ok(body) => {
                        let name = joined(given_names(body.first_name, body.last_name), " "@);
                        &&& r is Ok
                        &&& r->Ok_0.user.id == body.id
                        &&& r->Ok_0.user.email == body.email
                        &&& r->Ok_0.access_token == body.access_token
                        &&& r->Ok_0.refresh_token == body.refresh_token
                        &&& r->Ok_0.user.name is Some == (name.len() > 0)
                        &&& r->Ok_0.user.name is Some ==> r->Ok_0.user.name->0@ == name
                    },
                }
            },
        },
{
    match response {
        ExchangeResponse::Unreachable(cause) => Err(
            EngineError::Other(join2("the edge is unreachable: ", cause.as_str())),
        ),
        ExchangeResponse::Complete { status, body } => {
            if !(200 <= status && status < 300) {
                let code = decimal(status as u64);
                return Err(
                    EngineError::Other(
                        join3(
                            "sign-in failed during token exchange (",
                            code.as_str(),
                            ") — the code may have expired; start again",
                        ),
                    ),
                );
            }
            match body {
                Err(cause) => Err(
                    EngineError::Other(join2("malformed exchange response: ", cause.as_str())),
                ),
                Ok(body) => {
                    let name = full_name(body.first_name, body.last_name);
                    Ok(
                        SignInResult {
                            user: AuthUser { id: body.id, email: body.email, name },
                            access_token: body.access_token,
                            refresh_token: body.refresh_token,
                        },
                    )
                },
            }
        },
    }
}

} // verus!

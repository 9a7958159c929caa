//! Laws of requests to the edge and of the sign-in callback.

use vstd::prelude::*;
use vstd::utf8::encode_utf8;

use crate::auth::loopback::{
    callback_outcome, callback_response, head_complete, page, CallbackOutcome, CallbackRequest,
};
use crate::auth::requests::{
    classify_response, edge_endpoint, full_name, member_path, members_path, org_path,
    read_exchange, EdgeResponse, ExchangeResponse,
};
use crate::auth::types::{AuthedRequestError, EngineError, SignInResult};
use crate::edge_errors::{edge_response_outcome_unknown, workspace_error_message};
use crate::laws::sign_in::slashes_are_known;
use crate::laws::text::repeated;
use crate::text::{decimal, joined};

verus! {

/// A path at the edge is its address without the slashes at its end, and the path.
pub proof fn an_endpoint_has_one_slash(
    edge_url: &str,
    path: &str,
    r: String,
    edge: Seq<char>,
    slashes: nat,
)
    requires
        call_ensures(edge_endpoint, (edge_url, path), r),
        edge_url@ == edge + repeated('/', slashes),
        edge.len() > 0 ==> edge.last() != '/',
    ensures
        r@ == edge + path@,
{
    slashes_are_known(edge_url@, edge, slashes);
}

/// A membership is addressed below its roster, and a roster below its workspace.
pub proof fn paths_nest(
    org: &str,
    member: &str,
    workspace: String,
    roster: String,
    one: String,
)
    requires
        call_ensures(org_path, (org,), workspace),
        call_ensures(members_path, (org,), roster),
        call_ensures(member_path, (org, member), one),
    ensures
        workspace@ == "/auth/orgs/"@ + org@,
        roster@ == workspace@ + "/members"@,
        one@ == roster@ + "/"@ + member@,
{
    reveal_strlit("/members");
    reveal_strlit("/members/");
    reveal_strlit("/");
    assert(one@ =~= roster@ + "/"@ + member@);
}

/// Only a whole response without success, which does not say otherwise, is a definite
/// rejection; only a success that could be read is a success.
pub proof fn only_a_whole_rejection_is_definite<T>(
    response: EdgeResponse<T>,
    r: Result<T, AuthedRequestError>,
    bytes: &[u8],
    line: String,
    unknown: bool,
    code: String,
)
    requires
        call_ensures(classify_response::<T>, (response,), r),
        response matches EdgeResponse::Complete { status, body, value } ==> bytes@ == body@ && call_ensures(
            workspace_error_message,
            (status, bytes),
            line,
        ) && call_ensures(edge_response_outcome_unknown, (bytes,), unknown),
        response matches EdgeResponse::BodyUnread { status, cause } ==> call_ensures(
            decimal,
            (status as u64,),
            code,
        ),
    ensures
        response matches EdgeResponse::Unreachable(cause) ==> r is Err && r->Err_0 is Ambiguous
            && r->Err_0->Ambiguous_0.text() == "the edge is unreachable: "@ + cause@,
        response matches EdgeResponse::BodyUnread { status, cause } ==> r is Err
            && r->Err_0 is Ambiguous && r->Err_0->Ambiguous_0.text()
            == "workspace request failed ("@ + code@ + "): could not read the response: "@
            + cause@,
        response matches EdgeResponse::Complete { status, body, value } ==> {
            &&& 200 <= status <= 299 && value is Ok ==> r is Ok && r->Ok_0 == value->Ok_0
            &&& 200 <= status <= 299 && value is Err ==> r is Err && r->Err_0 is Ambiguous
                && r->Err_0->Ambiguous_0.text() == "malformed response: "@ + value->Err_0@
            &&& !(200 <= status <= 299) && unknown ==> r is Err && r->Err_0 is Ambiguous
                && r->Err_0->Ambiguous_0.text() == line@
            &&& !(200 <= status <= 299) && !unknown ==> r is Err && r->Err_0 is Definite
                && r->Err_0->Definite_0.text() == line@
        },
{
}

/// A failure is reported the same whether it is definite or not.
pub proof fn a_failure_keeps_its_words(failure: AuthedRequestError, r: EngineError)
    requires
        call_ensures(AuthedRequestError::into_engine_error, (failure,), r),
    ensures
        failure is Definite ==> r == failure->Definite_0,
        failure is Ambiguous ==> r == failure->Ambiguous_0,
{
}

/// A user is named by the names that they gave, first and then last, with one space
/// between.
pub proof fn a_name_is_first_then_last(first: Option<String>, last: Option<String>, r: Option<String>)
    requires
        call_ensures(full_name, (first, last), r),
    ensures
        ({
            let has_first = first is Some && first->0@.len() > 0;
            let has_last = last is Some && last->0@.len() > 0;
            &&& r is Some <==> has_first || has_last
            &&& has_first && has_last ==> r->0@ == first->0@ + " "@ + last->0@
            &&& has_first && !has_last ==> r->0@ == first->0@
            &&& !has_first && has_last ==> r->0@ == last->0@
        }),
{
    let has_first = first is Some && first->0@.len() > 0;
    let has_last = last is Some && last->0@.len() > 0;
    let names = crate::auth::requests::given_names(first, last);
    if has_first && has_last {
        assert(names =~= seq![first->0@, last->0@]);
        assert(names.drop_last() =~= seq![first->0@]);
        assert(names.drop_first() =~= seq![last->0@]);
        assert(seq![first->0@].drop_last() =~= Seq::<Seq<char>>::empty());
        assert(seq![last->0@].drop_first() =~= Seq::<Seq<char>>::empty());
        reveal_with_fuel(joined, 3);
    } else if has_first {
        assert(names =~= seq![first->0@]);
        reveal_with_fuel(joined, 2);
    } else if has_last {
        assert(names =~= seq![last->0@]);
        reveal_with_fuel(joined, 2);
    } else {
        assert(names =~= Seq::<Seq<char>>::empty());
    }
}

/// An exchange that succeeded gives the user and the tokens of its body.
pub proof fn an_exchange_gives_what_it_holds(
    response: ExchangeResponse,
    r: Result<SignInResult, EngineError>,
    code: String,
    name: Option<String>,
)
    requires
        call_ensures(read_exchange, (response,), r),
        response matches ExchangeResponse::Complete { status, body } ==> call_ensures(
            decimal,
            (status as u64,),
            code,
        ) && (body matches Ok(b) ==> call_ensures(full_name, (b.first_name, b.last_name), name)),
    ensures
        response matches ExchangeResponse::Unreachable(cause) ==> r is Err && r->Err_0.text()
            == "the edge is unreachable: "@ + cause@,
        response matches ExchangeResponse::Complete { status, body } ==> {
            &&& !(200 <= status <= 299) ==> r is Err && r->Err_0.text()
                == "sign-in failed during token exchange ("@ + code@
                + ") — the code may have expired; start again"@
            &&& 200 <= status <= 299 && body is Err ==> r is Err && r->Err_0.text()
                == "malformed exchange response: "@ + body->Err_0@
            &&& 200 <= status <= 299 && body is Ok ==> {
                &&& r is Ok
                &&& r->Ok_0.user.id == body->Ok_0.id
                &&& r->Ok_0.user.email == body->Ok_0.email
                &&& r->Ok_0.user.name is Some == name is Some
                &&& name is Some ==> r->Ok_0.user.name->0@ == name->0@
                &&& r->Ok_0.access_token == body->Ok_0.access_token
                &&& r->Ok_0.refresh_token == body->Ok_0.refresh_token
            }
        },
{
}

/// Reading a request stops at a blank line, or past sixteen kilobytes, and nowhere else.
pub proof fn a_head_ends_at_a_blank_line(buf: &[u8], r: bool)
    requires
        call_ensures(head_complete, (buf,), r),
    ensures
        r <==> buf@.len() > 16384 || exists|i: int|
            0 <= i <= buf@.len() - 4 && #[trigger] buf@[i] == 13 && buf@[i + 1] == 10 && buf@[i + 2]
                == 13 && buf@[i + 3] == 10,
{
    if exists|i: int|
        0 <= i <= buf@.len() - 4 && #[trigger] buf@[i] == 13 && buf@[i + 1] == 10 && buf@[i + 2]
            == 13 && buf@[i + 3] == 10 {
        let i = choose|i: int|
            0 <= i <= buf@.len() - 4 && #[trigger] buf@[i] == 13 && buf@[i + 1] == 10 && buf@[i + 2]
                == 13 && buf@[i + 3] == 10;
        assert(crate::auth::loopback::blank_line_at(buf@, i));
    }
}

/// A callback signs in exactly where everything that it needs succeeded, and says else
/// what failed first.
pub proof fn a_callback_says_what_failed_first(
    request: CallbackRequest,
    pending: bool,
    exchanged: bool,
    committed: bool,
    r: CallbackOutcome,
)
    requires
        call_ensures(callback_outcome, (&request, pending, exchanged, committed), r),
    ensures
        r == CallbackOutcome::SignedIn <==> request is Callback && pending && exchanged
            && committed,
        r == CallbackOutcome::NotFound <==> request is NotFound,
        r == CallbackOutcome::Invalid <==> request is Invalid || (request is Callback && !pending),
        r == CallbackOutcome::ExchangeFailed <==> request is Callback && pending && !exchanged,
        r == CallbackOutcome::Canceled <==> request is Callback && pending && exchanged
            && !committed,
{
}

/// A page of the callback server is a response of its own length, with its own status.
pub proof fn a_callback_page_says_its_outcome(
    outcome: CallbackOutcome,
    r: String,
    status: Seq<char>,
    message: &str,
    body: String,
    length: String,
)
    requires
        call_ensures(callback_response, (outcome,), r),
        match outcome {
            CallbackOutcome::NotFound => status == "404 Not Found"@ && message@ == "Not found."@,
            CallbackOutcome::Invalid => status == "400 Bad Request"@ && message@
                == "Invalid or expired sign-in link. Start again from Zeron."@,
            CallbackOutcome::ExchangeFailed => status == "502 Bad Gateway"@ && message@
                == "Sign-in failed during token exchange — check the Zeron logs."@,
            CallbackOutcome::Canceled => status == "409 Conflict"@ && message@
                == "This sign-in was canceled. Start again from Zeron if you still want to enable sync."@,
            CallbackOutcome::SignedIn => status == "200 OK"@ && message@
                == "Signed in. You can close this tab and return to Zeron."@,
        },
        call_ensures(page, (message,), body),
        encode_utf8(body@).len() <= usize::MAX,
        call_ensures(decimal, (encode_utf8(body@).len() as u64,), length),
    ensures
        body@ == "<html><body style='font-family:sans-serif;padding:2rem'>"@ + message@
            + "</body></html>"@,
        r@ == "HTTP/1.1 "@ + status
            + "\r\ncontent-type: text/html; charset=utf-8\r\ncontent-length: "@ + length@
            + "\r\nconnection: close\r\n\r\n"@ + body@,
{
}

} // verus!

//! The local request service's decision logic: route selection, the
//! Content-Length read bound, and the exact response for every request.
//! The surrounding program parses the wire, reads at most the limit this
//! module hands it, and writes the response bytes back out.

use vstd::prelude::*;
use vstd::string::StringExecFns;
use vstd::utf8::{decode_utf8, valid_utf8};
use crate::form::{form_value, parse_login};
use crate::text::{eq_ignore_case, parse_usize, str_eq, str_eq_ignore_case, wf_decimal, decimal_val};

verus! {

/// Most body bytes ever read for one request, whatever Content-Length
/// declares.
pub const BODY_CAPACITY: usize = 1024;

/// Highest number of simultaneous connections the listener accepts.
pub const MAX_CONNECTIONS: usize = 4;

/// TCP port the service listens on.
pub const HTTP_PORT: u16 = 8080;

/// Request method, as far as the routes care.
#[derive(Clone, Copy, PartialEq, Eq, Structural, Debug)]
pub enum Method {
    Get,
    Post,
    Put,
    Delete,
    Head,
    Other,
}

/// One request header, name and value.
pub struct Header {
    pub name: String,
    pub value: String,
}

/// A complete response: status line parts, optional content type, body.
pub struct Response {
    pub status: u16,
    pub reason: &'static str,
    pub content_type: Option<&'static str>,
    pub body: String,
}

/// What to do with a request after its head: answer at once, or read at
/// most `limit` body bytes first and then ask again.
pub enum RequestPlan {
    Respond(Response),
    ReadBody { limit: usize },
}

/// How the body read went: the bytes, or a read error.
pub enum BodyOutcome {
    ReadFailed,
    Bytes(Vec<u8>),
}

/// The served routes.
#[derive(Clone, Copy, PartialEq, Eq, Structural, Debug)]
pub enum Route {
    GetLogin,
    PostLogin,
    GetRoot,
    NotFound,
}

/// Which route a method and path select: the three served pairs, and
/// `NotFound` for every other pair.
pub open spec fn spec_route(m: Method, p: Seq<char>) -> Route {
    if m is Get && p == "/login"@ {
        Route::GetLogin
    } else if m is Post && p == "/login"@ {
        Route::PostLogin
    } else if m is Get && p == "/"@ {
        Route::GetRoot
    } else {
        Route::NotFound
    }
}

/// Route completeness: every (method, path) pair outside the three
/// served ones falls to `NotFound`, which `begin_request` answers 404.
pub proof fn lemma_route_completeness(m: Method, p: Seq<char>)
    ensures
        !(m is Get && p == "/login"@) && !(m is Post && p == "/login"@) && !(m is Get && p
            == "/"@) ==> spec_route(m, p) is NotFound,
{
}

/// Select the route for a method and path.
pub fn route(m: Method, path: &str) -> (r: Route)
    ensures
        r == spec_route(m, path@),
{
    let login = str_eq(path, "/login");
    let root = str_eq(path, "/");
    match m {
        Method::Get => {
            if login {
                Route::GetLogin
            } else if root {
                Route::GetRoot
            } else {
                Route::NotFound
            }
        },
        Method::Post => {
            if login {
                Route::PostLogin
            } else {
                Route::NotFound
            }
        },
        _ => Route::NotFound,
    }
}

/// The declared Content-Length of a header list: the first header whose
/// name is `Content-Length` up to ASCII case, its value read as a
/// decimal; zero when the header is missing or its value is not a
/// number that fits.
pub open spec fn spec_content_length(hs: Seq<Header>) -> int
    decreases hs.len(),
{
    if hs.len() == 0 {
        0
    } else if eq_ignore_case(hs[0].name@, "Content-Length"@) {
        if wf_decimal(hs[0].value@) && decimal_val(hs[0].value@) <= usize::MAX {
            decimal_val(hs[0].value@)
        } else {
            0
        }
    } else {
        spec_content_length(hs.drop_first())
    }
}

/// Read the declared Content-Length out of the headers.
pub fn content_length(headers: &Vec<Header>) -> (n: usize)
    ensures
        n == spec_content_length(headers@),
{
    let mut i: usize = 0;
    proof {
        assert(headers@.skip(0) =~= headers@);
    }
    while i < headers.len()
        invariant
            i <= headers@.len(),
            spec_content_length(headers@) == spec_content_length(headers@.skip(i as int)),
        decreases headers@.len() - i,
    {
        proof {
            assert(headers@.skip(i as int).drop_first() =~= headers@.skip(i as int + 1));
            assert(headers@.skip(i as int)[0] == headers@[i as int]);
        }
        let h = &headers[i];
        if str_eq_ignore_case(h.name.as_str(), "Content-Length") {
            return match parse_usize(h.value.as_str()) {
                Some(n) => n,
                None => 0,
            };
        }
        i = i + 1;
    }
    proof {
        assert(headers@.skip(i as int) =~= Seq::<Header>::empty());
    }
    0
}

/// The fixed login form page.
pub fn login_page() -> (r: &'static str)
    ensures
        r@ == login_page_text(),
{
    "<html><body><form method=\"post\" action=\"/login\"><input name=\"username\"><input name=\"password\" type=\"password\"><input type=\"submit\" value=\"Login\"></form></body></html>"
}

/// Text of the fixed login form page.
pub open spec fn login_page_text() -> Seq<char> {
    "<html><body><form method=\"post\" action=\"/login\"><input name=\"username\"><input name=\"password\" type=\"password\"><input type=\"submit\" value=\"Login\"></form></body></html>"@
}

/// Body of the successful-login echo page for the given values.
pub open spec fn login_echo_body(u: Seq<char>, p: Seq<char>) -> Seq<char> {
    "<html><body><h1>Login Successful</h1><p>Username: "@ + u + "</p><p>Password: "@ + p
        + "</p></body></html>"@
}

/// Decide a request from its head alone: every route but a login post
/// with a body is answered at once; a login post with a positive
/// declared Content-Length asks for a body read of at most
/// `min(Content-Length, BODY_CAPACITY)` bytes; a missing or zero
/// Content-Length is answered 400 with no body read asked for.
pub fn begin_request(m: Method, path: &str, headers: &Vec<Header>) -> (plan: RequestPlan)
    ensures
        ({
            let cl = spec_content_length(headers@);
            match spec_route(m, path@) {
                Route::GetLogin => plan matches RequestPlan::Respond(r) && r.status == 200
                    && r.reason@ == "OK"@ && (r.content_type matches Some(t) && t@
                    == "text/html"@) && r.body@ == login_page_text(),
                Route::PostLogin => if cl == 0 {
                    plan matches RequestPlan::Respond(r) && r.status == 400 && r.reason@
                        == "Bad Request"@ && r.content_type is None && r.body@
                        == "No form data provided"@
                } else {
                    plan matches RequestPlan::ReadBody { limit } && limit == (if cl
                        <= BODY_CAPACITY {
                        cl
                    } else {
                        BODY_CAPACITY as int
                    })
                },
                Route::GetRoot => plan matches RequestPlan::Respond(r) && r.status == 200
                    && r.reason@ == "OK"@ && (r.content_type matches Some(t) && t@
                    == "text/plain"@) && r.body@ == "Welcome to the root page"@,
                Route::NotFound => plan matches RequestPlan::Respond(r) && r.status == 404
                    && r.reason@ == "Not Found"@ && r.content_type is None && r.body@
                    == "Not Found"@,
            }
        }),
{
    match route(m, path) {
        Route::GetLogin => RequestPlan::Respond(
            Response {
                status: 200,
                reason: "OK",
                content_type: Some("text/html"),
                body: login_page().to_owned(),
            },
        ),
        Route::PostLogin => {
            let cl = content_length(headers);
            if cl == 0 {
                RequestPlan::Respond(
                    Response {
                        status: 400,
                        reason: "Bad Request",
                        content_type: None,
                        body: "No form data provided".to_owned(),
                    },
                )
            } else {
                let limit = if cl <= BODY_CAPACITY {
                    cl
                } else {
                    BODY_CAPACITY
                };
                RequestPlan::ReadBody { limit }
            }
        },
        Route::GetRoot => RequestPlan::Respond(
            Response {
                status: 200,
                reason: "OK",
                content_type: Some("text/plain"),
                body: "Welcome to the root page".to_owned(),
            },
        ),
        Route::NotFound => RequestPlan::Respond(
            Response {
                status: 404,
                reason: "Not Found",
                content_type: None,
                body: "Not Found".to_owned(),
            },
        ),
    }
}

/// Relies on core::str::from_utf8: succeeds exactly on the valid UTF-8
/// byte sequences and decodes the bytes to their character sequence.
#[verifier::external_body]
fn bytes_as_str(b: &Vec<u8>) -> (r: Option<&str>)
    ensures
        r is Some <==> valid_utf8(b@),
        r matches Some(s) ==> s@ == decode_utf8(b@),
{
    core::str::from_utf8(b.as_slice()).ok()
}

/// Answer a login post from its body read outcome: 500 on a read error,
/// 400 on a body that is not UTF-8, and otherwise 200 with the decoded
/// body's `username` and `password` values echoed verbatim.
pub fn post_login_response(outcome: BodyOutcome) -> (r: Response)
    ensures
        outcome is ReadFailed ==> r.status == 500 && r.reason@ == "Internal Server Error"@
            && r.body@ == "Error reading form data"@,
        outcome matches BodyOutcome::Bytes(b) ==> if !valid_utf8(b@) {
            r.status == 400 && r.reason@ == "Bad Request"@ && r.body@
                == "Invalid form data encoding"@
        } else {
            r.status == 200 && r.reason@ == "OK"@ && r.body@ == login_echo_body(
                form_value(decode_utf8(b@), "username"@),
                form_value(decode_utf8(b@), "password"@),
            )
        },
{
    match outcome {
        BodyOutcome::ReadFailed => Response {
            status: 500,
            reason: "Internal Server Error",
            content_type: None,
            body: "Error reading form data".to_owned(),
        },
        BodyOutcome::Bytes(b) => {
            match bytes_as_str(&b) {
                None => Response {
                    status: 400,
                    reason: "Bad Request",
                    content_type: None,
                    body: "Invalid form data encoding".to_owned(),
                },
                Some(s) => {
                    let (user, pass) = parse_login(s);
                    let mut body = "<html><body><h1>Login Successful</h1><p>Username: ".to_owned();
                    body.append(user.as_str());
                    body.append("</p><p>Password: ");
                    body.append(pass.as_str());
                    body.append("</p></body></html>");
                    proof {
                        assert(body@ =~= login_echo_body(user@, pass@));
                    }
                    Response {
                        status: 200,
                        reason: "OK",
                        content_type: Some("text/html"),
                        body,
                    }
                },
            }
        },
    }
}

} // verus!

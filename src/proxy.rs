//! Request handling for the HTTP front of the database: each request either
//! becomes one forwarded query, whose answer is then framed as the reply, or
//! is answered directly.
use vstd::prelude::*;

use vstd::string::StringSliceAdditionalSpecFns;

use crate::bytes::append_bytes;
use crate::json::{is_json_object, json_object_text, json_string, json_string_text};
use crate::route::{route_for_path, route_paths_distinct, Method, Route};

verus! {

/// An HTTP reply: status code and body bytes.
pub struct Reply {
    pub status: u16,
    pub body: Vec<u8>,
}

pub struct ReplyModel {
    pub status: u16,
    pub body: Seq<u8>,
}

impl View for Reply {
    type V = ReplyModel;

    open spec fn view(&self) -> ReplyModel {
        ReplyModel { status: self.status, body: self.body@ }
    }
}

/// What to do with a request: forward one query to the database client, or
/// reply at once.
pub enum Action {
    Forward { query: &'static str, input: Vec<u8> },
    Respond(Reply),
}

pub enum ActionModel {
    Forward { query: Seq<char>, input: Seq<u8> },
    Respond(ReplyModel),
}

impl View for Action {
    type V = ActionModel;

    open spec fn view(&self) -> ActionModel {
        match self {
            Action::Forward { query, input } => ActionModel::Forward { query: query@, input: input@ },
            Action::Respond(r) => ActionModel::Respond(r@),
        }
    }
}

/// A query handed to the database client.
pub struct CallModel {
    pub query: Seq<char>,
    pub input: Seq<u8>,
}

pub open spec fn empty_object() -> Seq<u8> {
    "{}".spec_bytes()
}

pub open spec fn healthy_body() -> Seq<u8> {
    "{\"status\":\"healthy\"}".spec_bytes()
}

pub open spec fn bare(status: u16) -> ReplyModel {
    ReplyModel { status, body: Seq::empty() }
}

/// The decision taken on a request to `route`: 405 for a method the route
/// is not served with, the health payload for the health check, 400 for a
/// body that a route reading its body cannot take as a JSON object, and
/// otherwise one query to the client.
pub open spec fn handle_spec(route: Route, method: Method, body: Seq<u8>) -> ActionModel {
    if method != route.method_spec() {
        ActionModel::Respond(bare(405))
    } else if route == Route::Health {
        ActionModel::Respond(ReplyModel { status: 200, body: healthy_body() })
    } else if !route.reads_body_spec() {
        ActionModel::Forward { query: route.path_spec(), input: empty_object() }
    } else if json_object_text(body) {
        ActionModel::Forward { query: route.path_spec(), input: body }
    } else {
        ActionModel::Respond(bare(400))
    }
}

/// The reply built from the database client's answer: the response wrapped
/// in a one-element array, or the error message under `"error"`. Both go out
/// with status 200.
pub open spec fn reply_spec(answer: Result<Seq<u8>, Seq<char>>) -> ReplyModel {
    match answer {
        Ok(raw) => ReplyModel { status: 200, body: "[".spec_bytes() + raw + "]".spec_bytes() },
        Err(msg) => ReplyModel {
            status: 200,
            body: "{\"error\":".spec_bytes() + json_string_text(msg) + "}".spec_bytes(),
        },
    }
}

/// A whole request: the queries it sends to the client and the reply it
/// gets, when the client gives `answer` to a forwarded query.
pub open spec fn exchange(
    route: Route,
    method: Method,
    body: Seq<u8>,
    answer: Result<Seq<u8>, Seq<char>>,
) -> (Seq<CallModel>, ReplyModel) {
    match handle_spec(route, method, body) {
        ActionModel::Forward { query, input } => (
            seq![CallModel { query, input }],
            reply_spec(answer),
        ),
        ActionModel::Respond(r) => (Seq::empty(), r),
    }
}

pub open spec fn answer_view(answer: Result<Vec<u8>, String>) -> Result<Seq<u8>, Seq<char>> {
    match answer {
        Ok(raw) => Ok(raw@),
        Err(msg) => Err(msg@),
    }
}

/// The bytes of `s`.
pub fn bytes_of(s: &str) -> (r: Vec<u8>)
    ensures
        r@ == s.spec_bytes(),
{
    let mut r: Vec<u8> = Vec::new();
    append_bytes(&mut r, s.as_bytes());
    assert(r@ =~= s.spec_bytes());
    r
}

/// Decides what to do with a request to `route` made with `method`.
pub fn handle(route: Route, method: Method, body: &[u8]) -> (r: Action)
    ensures
        r@ == handle_spec(route, method, body@),
{
    if method != route.method() {
        Action::Respond(Reply { status: 405, body: Vec::new() })
    } else if route == Route::Health {
        Action::Respond(Reply { status: 200, body: bytes_of("{\"status\":\"healthy\"}") })
    } else if !route.reads_body() {
        Action::Forward { query: route.path(), input: bytes_of("{}") }
    } else if is_json_object(body) {
        let mut input: Vec<u8> = Vec::new();
        append_bytes(&mut input, body);
        assert(input@ =~= body@);
        Action::Forward { query: route.path(), input }
    } else {
        Action::Respond(Reply { status: 400, body: Vec::new() })
    }
}

/// Decides what to do with a request for `path`: as `handle` for the route
/// served there, and 404 where no route is.
pub fn dispatch(path: &str, method: Method, body: &[u8]) -> (r: Action)
    ensures
        forall|rt: Route| rt.path_spec() == path@ ==> r@ == handle_spec(rt, method, body@),
        (forall|rt: Route| rt.path_spec() != path@) ==> r@ == ActionModel::Respond(bare(404)),
{
    match route_for_path(path) {
        Some(rt) => {
            let r = handle(rt, method, body);
            assert forall|other: Route| other.path_spec() == path@ implies other == rt by {
                route_paths_distinct(other, rt);
            }
            r
        },
        None => Action::Respond(Reply { status: 404, body: Vec::new() }),
    }
}

/// Frames the database client's answer to a forwarded query as the reply.
pub fn complete(answer: Result<Vec<u8>, String>) -> (r: Reply)
    ensures
        r@ == reply_spec(answer_view(answer)),
{
    let mut body: Vec<u8> = Vec::new();
    match answer {
        Ok(raw) => {
            append_bytes(&mut body, "[".as_bytes());
            append_bytes(&mut body, raw.as_slice());
            append_bytes(&mut body, "]".as_bytes());
        },
        Err(msg) => {
            append_bytes(&mut body, "{\"error\":".as_bytes());
            let quoted = json_string(msg.as_str());
            append_bytes(&mut body, quoted.as_slice());
            append_bytes(&mut body, "}".as_bytes());
        },
    }
    Reply { status: 200, body }
}

/// A request to a query route with a well-formed body makes exactly one call
/// to the client: it names the route's query and carries the body unchanged,
/// or an empty object where the route reads no body. A successful answer comes
/// back wrapped in a one-element array.
pub proof fn forwarded_once_and_wrapped(route: Route, body: Seq<u8>, raw: Seq<u8>)
    requires
        route != Route::Health,
        route.reads_body_spec() ==> json_object_text(body),
    ensures
        exchange(route, Method::Post, body, Ok(raw)).0 == seq![
            CallModel {
                query: route.path_spec(),
                input: if route.reads_body_spec() { body } else { empty_object() },
            },
        ],
        exchange(route, Method::Post, body, Ok(raw)).1 == (ReplyModel {
            status: 200,
            body: "[".spec_bytes() + raw + "]".spec_bytes(),
        }),
{
}

/// When the client reports a failure for a forwarded query, the reply has
/// status 200 and its body is an object whose `"error"` member is the client's
/// message.
pub proof fn failure_reported_in_body(route: Route, body: Seq<u8>, msg: Seq<char>)
    requires
        route != Route::Health,
        route.reads_body_spec() ==> json_object_text(body),
    ensures
        exchange(route, Method::Post, body, Err(msg)).1 == (ReplyModel {
            status: 200,
            body: "{\"error\":".spec_bytes() + json_string_text(msg) + "}".spec_bytes(),
        }),
{
}

/// A GET of the health route answers `{"status":"healthy"}` whatever the
/// body and whatever the client would answer, and calls the client not at all.
pub proof fn health_without_client(body: Seq<u8>, answer: Result<Seq<u8>, Seq<char>>)
    ensures
        exchange(Route::Health, Method::Get, body, answer).0 == Seq::<CallModel>::empty(),
        exchange(Route::Health, Method::Get, body, answer).1 == (ReplyModel {
            status: 200,
            body: healthy_body(),
        }),
{
}

/// The routes without parameters send the client an empty object, whatever
/// the request body holds, an empty body included.
pub proof fn parameterless_send_empty_object(
    route: Route,
    body: Seq<u8>,
    answer: Result<Seq<u8>, Seq<char>>,
)
    requires
        route == Route::GetUsers || route == Route::GetPosts,
    ensures
        exchange(route, Method::Post, body, answer).0 == seq![
            CallModel { query: route.path_spec(), input: empty_object() },
        ],
{
}

} // verus!

use vstd::prelude::*;
use crate::handler::{
    HandlerKind, HandlerResponse, HandlerResponseView, Request, RequestHandler, Response,
    attack_report, payload, record_request, report_attack, request_event, request_payload,
};
use crate::models::EventView;
use crate::pattern::{Pattern, regex_compiles, regex_is_match};
use crate::reporter::Category;
use crate::text::push_char;
use crate::utils::{generate_random_string, is_alphanumeric, random_in_range};

verus! {

/// The name under which events of this handler are recorded.
pub const HANDLER_NAME: &'static str = "wp-json";

/// The expression that selects this handler.
pub const PATTERN: &'static str = "wp-json";

/// The expression that recognises the user list endpoint (matched against the path).
pub const USERS_PATTERN: &'static str = "v2/users/";

/// The content type of every answer.
pub const CONTENT_TYPE: &'static str = "text/html;charset=UTF-8";

/// The pieces of one user of the user list, around its id and name.
pub const ENTRY_ID: &'static str = "{\"id\":";
pub const ENTRY_NAME: &'static str = ",\"name\":\"";
pub const ENTRY_LINK: &'static str = "\",\"url\":\"\",\"description\":\"\",\"link\":\"https://averygoodsite.com/author/";
pub const ENTRY_SLUG: &'static str = "/\",\"slug\":\"";
pub const ENTRY_SELF: &'static str = "\",\"meta\":[],\"_links\":{\"self\":[{\"href\":\"https://averygoodsite.com/wp-json/wp/v2/users/";
pub const ENTRY_END: &'static str = "\"}],\"collection\":[{\"href\":\"https://averygoodsite.com/wp-json/wp/v2/users\"}]}}";

/// The answer of an endpoint: the page, and what to record about it.
pub struct EndpointResponse {
    pub content: String,
    pub details: Option<String>,
}

/// One user of the user list, as the REST API writes it.
pub open spec fn user_entry(id: Seq<char>, name: Seq<char>) -> Seq<char> {
    ENTRY_ID@ + id + ENTRY_NAME@ + name + ENTRY_LINK@ + name + ENTRY_SLUG@ + name + ENTRY_SELF@ + id + ENTRY_END@
}

/// The user list with users 1, 6 and 2 named `u1`, `u2` and `u3`.
pub open spec fn users_content(u1: Seq<char>, u2: Seq<char>, u3: Seq<char>) -> Seq<char> {
    seq!['['] + user_entry(seq!['1'], u1) + seq![','] + user_entry(seq!['6'], u2) + seq![','] + user_entry(
        seq!['2'],
        u3,
    ) + seq![']']
}

/// What is recorded of a served user list: the names handed out.
pub open spec fn users_details(u1: Seq<char>, u2: Seq<char>, u3: Seq<char>) -> Seq<char> {
    "Usernames: "@ + u1 + seq![',', ' '] + u2 + seq![',', ' '] + u3
}

/// A made-up user name: 10 to 19 ASCII letters and digits.
pub open spec fn valid_username(u: Seq<char>) -> bool {
    &&& 10 <= u.len() < 20
    &&& forall|i: int| 0 <= i < u.len() ==> is_alphanumeric(#[trigger] u[i])
}

/// Whether `content` and `details` are an endpoint's answer: for the user
/// list, a list of three made-up users and their names; otherwise an empty
/// page with nothing to record.
pub open spec fn endpoint_answer(users: bool, content: Seq<char>, details: Option<Seq<char>>) -> bool {
    if users {
        exists|u1: Seq<char>, u2: Seq<char>, u3: Seq<char>|
            #![trigger users_content(u1, u2, u3)]
            valid_username(u1) && valid_username(u2) && valid_username(u3) && content == users_content(
                u1,
                u2,
                u3,
            ) && details == Some(users_details(u1, u2, u3))
    } else {
        content == Seq::<char>::empty() && details is None
    }
}

/// The categories under which a request to the REST API is reported.
pub open spec fn categories() -> Seq<Category> {
    seq![Category::Hacking, Category::WebAppAttack, Category::BruteForce]
}

/// Whether `r` answers a request to the REST API, with `users` the expression
/// that recognises the user list: the endpoint's answer as an HTML page, an
/// event with the request, its payload and the endpoint's details, and a
/// report of the source address.
pub open spec fn outcome_holds(req: Request, users: Seq<char>, r: HandlerResponseView) -> bool {
    &&& r.response.status == 200
    &&& r.response.content_type == Some(CONTENT_TYPE@)
    &&& r.report == attack_report(req, categories())
    &&& (r.event matches Some(e) && e == (EventView {
        payload: payload(req),
        details: e.details,
        ..request_event(HANDLER_NAME@, req)
    }) && endpoint_answer(regex_is_match(users, req.path@), r.response.body, e.details))
}

fn append_user_entry(s: &mut String, id: &str, name: &str)
    ensures
        final(s)@ == old(s)@ + user_entry(id@, name@),
{
    s.append(ENTRY_ID);
    s.append(id);
    s.append(ENTRY_NAME);
    s.append(name);
    s.append(ENTRY_LINK);
    s.append(name);
    s.append(ENTRY_SLUG);
    s.append(name);
    s.append(ENTRY_SELF);
    s.append(id);
    s.append(ENTRY_END);
}

fn random_username() -> (u: String)
    ensures
        valid_username(u@),
{
    let len = random_in_range(10, 20);
    generate_random_string(len)
}

/// The user list with users named `username1`, `username2` and
/// `username3`, and those names as the details to record.
pub fn users_response(username1: &str, username2: &str, username3: &str) -> (r: EndpointResponse)
    ensures
        r.content@ == users_content(username1@, username2@, username3@),
        r.details.deep_view() == Some(users_details(username1@, username2@, username3@)),
{
    let mut content = String::new();
    push_char(&mut content, '[');
    append_user_entry(&mut content, "1", username1);
    push_char(&mut content, ',');
    append_user_entry(&mut content, "6", username2);
    push_char(&mut content, ',');
    append_user_entry(&mut content, "2", username3);
    push_char(&mut content, ']');
    let mut details = String::from_str("Usernames: ");
    details.append(username1);
    push_char(&mut details, ',');
    push_char(&mut details, ' ');
    details.append(username2);
    push_char(&mut details, ',');
    push_char(&mut details, ' ');
    details.append(username3);
    proof {
        reveal_strlit("1");
        reveal_strlit("6");
        reveal_strlit("2");
        assert(content@ == users_content(username1@, username2@, username3@));
        assert(details@ == users_details(username1@, username2@, username3@));
    }
    EndpointResponse { content, details: Some(details) }
}

/// The user list endpoint: three users with made-up names.
pub fn get_users_response() -> (r: EndpointResponse)
    ensures
        endpoint_answer(true, r.content@, r.details.deep_view()),
{
    let username1 = random_username();
    let username2 = random_username();
    let username3 = random_username();
    let r = users_response(username1.as_str(), username2.as_str(), username3.as_str());
    assert(valid_username(username1@) && valid_username(username2@) && valid_username(username3@));
    r
}

/// Any other endpoint: an empty page with nothing to record.
pub fn get_default_response() -> (r: EndpointResponse)
    ensures
        endpoint_answer(false, r.content@, r.details.deep_view()),
{
    EndpointResponse { content: String::new(), details: None }
}

/// Answers a request to the REST API, with `users` the expression that
/// recognises the user list; records and reports the request.
pub fn handler(req: &Request, users: &Pattern) -> (r: HandlerResponse)
    ensures
        outcome_holds(*req, users@, r@),
{
    let endpoint_resp = if users.is_match(req.path.as_str()) {
        get_users_response()
    } else {
        get_default_response()
    };
    let event = record_request(HANDLER_NAME, req)
        .set_details(endpoint_resp.details)
        .set_payload(request_payload(req));
    let report = report_attack(req, vec![Category::Hacking, Category::WebAppAttack, Category::BruteForce]);
    HandlerResponse {
        http_response: Response {
            status: 200,
            content_type: Some(String::from_str(CONTENT_TYPE)),
            body: endpoint_resp.content,
        },
        handler_event: Some(event),
        report,
    }
}

/// The handler, selected by `PATTERN` and carrying `USERS_PATTERN`; `None`
/// where either expression does not compile.
pub fn register() -> (r: Option<RequestHandler>)
    ensures
        r is Some <==> regex_compiles(PATTERN@) && regex_compiles(USERS_PATTERN@),
        r matches Some(h) ==> (h.name@ == HANDLER_NAME@ && h.pattern@ == PATTERN@
            && (h.handler matches HandlerKind::WordpressJson(p) && p@ == USERS_PATTERN@)),
{
    let pattern = Pattern::compile(PATTERN);
    let users = Pattern::compile(USERS_PATTERN);
    match (pattern, users) {
        (Some(pattern), Some(users)) => Some(RequestHandler::new(HANDLER_NAME, pattern, HandlerKind::WordpressJson(users))),
        _ => None,
    }
}

} // verus!

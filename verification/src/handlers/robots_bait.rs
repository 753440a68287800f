use vstd::prelude::*;
use crate::handler::{
    HandlerKind, HandlerResponse, HandlerResponseView, Request, RequestHandler, attack_report,
    ok_response, payload, record_request, report_attack, request_event, request_payload,
};
use crate::models::EventView;
use crate::pattern::{Pattern, regex_compiles, regex_is_match};
use crate::reporter::Category;

verus! {

// A robots.txt that forbids one endpoint: whoever then visits the endpoint is
// a crawler that reads robots.txt to find targets.

/// The name under which events of this handler are recorded.
pub const HANDLER_NAME: &'static str = "robots-bait";

/// The expression that selects this handler.
pub const PATTERN: &'static str = "^/robots\\.txt|bb\\.php";

/// The expression that recognises a request for `robots.txt`.
pub const ROBOTS_PATTERN: &'static str = "^/robots\\.txt";

/// The robots.txt served.
pub const ROBOTS_CONTENT: &'static str = "User-Agent: *
Disallow: /bb.php";

/// The answer at the forbidden endpoint.
pub const ENDPOINT_CONTENT: &'static str = "400: Bad request";

/// The categories under which a visit to the forbidden endpoint is reported.
pub open spec fn categories() -> Seq<Category> {
    seq![Category::Hacking, Category::BadWebBot]
}

/// The answer to a request, with `robots` the expression that recognises a
/// request for robots.txt: that file, with nothing recorded; otherwise the
/// endpoint's answer, an event with the request and its payload, and a report
/// of the source address.
pub open spec fn outcome(req: Request, robots: Seq<char>) -> HandlerResponseView {
    if regex_is_match(robots, req.uri@) {
        HandlerResponseView { response: ok_response(ROBOTS_CONTENT@), event: None, report: None }
    } else {
        HandlerResponseView {
            response: ok_response(ENDPOINT_CONTENT@),
            event: Some(EventView { payload: payload(req), ..request_event(HANDLER_NAME@, req) }),
            report: attack_report(req, categories()),
        }
    }
}

/// Serves robots.txt, or records and reports a visit to the forbidden endpoint.
pub fn handler(req: &Request, robots: &Pattern) -> (r: HandlerResponse)
    ensures
        r@ == outcome(*req, robots@),
{
    if robots.is_match(req.uri.as_str()) {
        return HandlerResponse::new(ROBOTS_CONTENT);
    }
    HandlerResponse::new(ENDPOINT_CONTENT)
        .set_event(record_request(HANDLER_NAME, req).set_payload(request_payload(req)))
        .set_report(report_attack(req, vec![Category::Hacking, Category::BadWebBot]))
}

/// The handler, selected by `PATTERN` and carrying `ROBOTS_PATTERN`; `None`
/// where either expression does not compile.
pub fn register() -> (r: Option<RequestHandler>)
    ensures
        r is Some <==> regex_compiles(PATTERN@) && regex_compiles(ROBOTS_PATTERN@),
        r matches Some(h) ==> (h.name@ == HANDLER_NAME@ && h.pattern@ == PATTERN@
            && (h.handler matches HandlerKind::RobotsBait(p) && p@ == ROBOTS_PATTERN@)),
{
    let pattern = Pattern::compile(PATTERN);
    let robots = Pattern::compile(ROBOTS_PATTERN);
    match (pattern, robots) {
        (Some(pattern), Some(robots)) => Some(RequestHandler::new(HANDLER_NAME, pattern, HandlerKind::RobotsBait(robots))),
        _ => None,
    }
}

} // verus!

use vstd::prelude::*;
use crate::handler::{
    HandlerKind, HandlerResponse, HandlerResponseView, Request, RequestHandler, ResponseView,
    Response, attack_report, payload, record_request, report_attack, request_event, request_payload,
};
use crate::models::EventView;
use crate::pattern::{Pattern, regex_compiles};
use crate::reporter::Category;

verus! {

/// The name under which events of this handler are recorded.
pub const HANDLER_NAME: &'static str = "cgi-bin";

/// The expression that selects this handler.
pub const PATTERN: &'static str = "cgi-bin";

/// The content type of the (empty) answer.
pub const CONTENT_TYPE: &'static str = "text/plain;charset=UTF-8";

/// The categories under which a probe for CGI scripts is reported.
pub open spec fn categories() -> Seq<Category> {
    seq![Category::Hacking, Category::WebAppAttack, Category::BadWebBot]
}

/// The answer to a probe for CGI scripts: an empty plain text page, an event
/// with the request and its payload, and a report of the source address.
pub open spec fn outcome(req: Request) -> HandlerResponseView {
    HandlerResponseView {
        response: ResponseView { status: 200, content_type: Some(CONTENT_TYPE@), body: Seq::empty() },
        event: Some(EventView { payload: payload(req), ..request_event(HANDLER_NAME@, req) }),
        report: attack_report(req, categories()),
    }
}

/// Answers a probe for CGI scripts.
pub fn handler(req: &Request) -> (r: HandlerResponse)
    ensures
        r@ == outcome(*req),
{
    let event = record_request(HANDLER_NAME, req).set_payload(request_payload(req));
    let report = report_attack(req, vec![Category::Hacking, Category::WebAppAttack, Category::BadWebBot]);
    HandlerResponse {
        http_response: Response {
            status: 200,
            content_type: Some(String::from_str(CONTENT_TYPE)),
            body: String::new(),
        },
        handler_event: Some(event),
        report,
    }
}

/// The handler, selected by `PATTERN`; `None` where the expression does not compile.
pub fn register() -> (r: Option<RequestHandler>)
    ensures
        r is Some <==> regex_compiles(PATTERN@),
        r matches Some(h) ==> h.name@ == HANDLER_NAME@ && h.pattern@ == PATTERN@
            && h.handler is CgiBin,
{
    match Pattern::compile(PATTERN) {
        Some(pattern) => Some(RequestHandler::new(HANDLER_NAME, pattern, HandlerKind::CgiBin)),
        None => None,
    }
}

} // verus!

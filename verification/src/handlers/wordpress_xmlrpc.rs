use vstd::prelude::*;
use crate::handler::{
    HandlerKind, HandlerResponse, HandlerResponseView, Request, RequestHandler, Response,
    ResponseView, get_header_value, header_value, payload, request_payload,
};
use crate::models::{EventView, HandlerEvent, empty_event};
use crate::pattern::{Pattern, regex_compiles};

verus! {

/// The name under which events of this handler are recorded.
pub const HANDLER_NAME: &'static str = "wp-xmlrpc";

/// The expression that selects this handler.
pub const PATTERN: &'static str = "xmlrpc\\.php";

/// The content type of the (empty) answer.
pub const CONTENT_TYPE: &'static str = "text/plain;charset=UTF-8";

/// The answer to an XML-RPC call: an empty plain text page, and an event with
/// the `Host` header, the URI, the `X-Forwarded-For` header as the source
/// address and the payload as the information.
pub open spec fn outcome(req: Request) -> HandlerResponseView {
    HandlerResponseView {
        response: ResponseView { status: 200, content_type: Some(CONTENT_TYPE@), body: Seq::empty() },
        event: Some(EventView {
            host: header_value(req, "Host"@),
            uri: Some(req.uri@),
            src_ip: header_value(req, "X-Forwarded-For"@),
            info: payload(req),
            ..empty_event(HANDLER_NAME@)
        }),
        report: None,
    }
}

/// Answers an XML-RPC call and records it.
pub fn handler(req: &Request) -> (r: HandlerResponse)
    ensures
        r@ == outcome(*req),
{
    let event = HandlerEvent::new(HANDLER_NAME)
        .set_host(get_header_value(req, "Host"))
        .set_uri(req.uri.clone())
        .set_src_ip(get_header_value(req, "X-Forwarded-For"))
        .set_info(request_payload(req));
    HandlerResponse {
        http_response: Response {
            status: 200,
            content_type: Some(String::from_str(CONTENT_TYPE)),
            body: String::new(),
        },
        handler_event: Some(event),
        report: None,
    }
}

/// The handler, selected by `PATTERN`; `None` where the expression does not compile.
pub fn register() -> (r: Option<RequestHandler>)
    ensures
        r is Some <==> regex_compiles(PATTERN@),
        r matches Some(h) ==> h.name@ == HANDLER_NAME@ && h.pattern@ == PATTERN@
            && h.handler is WordpressXmlrpc,
{
    match Pattern::compile(PATTERN) {
        Some(pattern) => Some(RequestHandler::new(HANDLER_NAME, pattern, HandlerKind::WordpressXmlrpc)),
        None => None,
    }
}

} // verus!

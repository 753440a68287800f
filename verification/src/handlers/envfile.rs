use vstd::prelude::*;
use crate::handler::{HandlerKind, HandlerResponse, HandlerResponseView, Request, RequestHandler, header_value, ok_response};
use crate::models::{EventView, empty_event};
use crate::pattern::{Pattern, regex_compiles};

verus! {

/// The name under which events of this handler are recorded.
pub const HANDLER_NAME: &'static str = "envfile";

/// The expression that selects this handler.
pub const PATTERN: &'static str = "\\.env";

/// The content served to every request.
pub const RESP_CONTENT: &'static str = "HTTP_ADMINISTRATION_ENDPOINT = /data/xmlrpc.php
HTTP_ADMINISTRATION_ENDPOINT_SSL = /data/xmlrpc.php
HTTP_ADMINISTRATION_ENDPOINT_SSL_PORT = 443
HTTP_ADMINISTRATION_ENDPOINT_PORT = 80
HTTP_ADMINISTRATION_TOKEN = admin";

/// What is served for a request for an environment file: the content, and an event with the `Host` header, the
/// `X-Forwarded-For` header as the source address, and the URI.
pub open spec fn outcome(req: Request) -> HandlerResponseView {
    HandlerResponseView {
        response: ok_response(RESP_CONTENT@),
        event: Some(EventView {
            host: header_value(req, "Host"@),
            src_ip: header_value(req, "X-Forwarded-For"@),
            uri: Some(req.uri@),
            ..empty_event(HANDLER_NAME@)
        }),
        report: None,
    }
}

/// Serves the content and records the request.
pub fn handler(req: &Request) -> (r: HandlerResponse)
    ensures
        r@ == outcome(*req),
{
    HandlerResponse::new(RESP_CONTENT).set_event(
        crate::models::HandlerEvent::new(HANDLER_NAME)
            .set_host(crate::handler::get_header_value(req, "Host"))
            .set_src_ip(crate::handler::get_header_value(req, "X-Forwarded-For"))
            .set_uri(req.uri.clone()),
    )
}

/// The handler, selected by `PATTERN`; `None` where the expression does not compile.
pub fn register() -> (r: Option<RequestHandler>)
    ensures
        r is Some <==> regex_compiles(PATTERN@),
        r matches Some(h) ==> h.name@ == HANDLER_NAME@ && h.pattern@ == PATTERN@
            && h.handler is Envfile,
{
    match Pattern::compile(PATTERN) {
        Some(pattern) => Some(RequestHandler::new(HANDLER_NAME, pattern, HandlerKind::Envfile)),
        None => None,
    }
}

} // verus!

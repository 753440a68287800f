use vstd::prelude::*;
use crate::handler::{
    HandlerResponse, HandlerResponseView, NOT_FOUND_BODY, Request, Response, ResponseView, payload,
    record_request, request_event, request_payload,
};
use crate::models::EventView;

verus! {

/// The name under which events of this handler are recorded.
pub const HANDLER_NAME: &'static str = "default";

/// The answer to a request that no other handler takes: `404 Not Found`, and
/// an event with the request and its payload.
pub open spec fn outcome(req: Request) -> HandlerResponseView {
    HandlerResponseView {
        response: ResponseView { status: 404, content_type: None, body: NOT_FOUND_BODY@ },
        event: Some(EventView { payload: payload(req), ..request_event(HANDLER_NAME@, req) }),
        report: None,
    }
}

/// Answers `404 Not Found` and records the request.
pub fn handler(req: &Request) -> (r: HandlerResponse)
    ensures
        r@ == outcome(*req),
{
    let event = record_request(HANDLER_NAME, req).set_payload(request_payload(req));
    HandlerResponse {
        http_response: Response { status: 404, content_type: None, body: String::from_str(NOT_FOUND_BODY) },
        handler_event: Some(event),
        report: None,
    }
}

} // verus!

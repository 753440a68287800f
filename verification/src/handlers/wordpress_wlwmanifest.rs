use vstd::prelude::*;
use crate::handler::{
    HandlerKind, HandlerResponse, HandlerResponseView, Request, RequestHandler, Response,
    ResponseView, attack_report, record_request, report_attack, request_event,
};
use crate::pattern::{Pattern, regex_compiles};
use crate::reporter::Category;

verus! {

/// The name under which events of this handler are recorded.
pub const HANDLER_NAME: &'static str = "wp-wlwmanifest";

/// The expression that selects this handler.
pub const PATTERN: &'static str = "wp-includes/wlwmanifest\\.xml";

/// The content type of the manifest.
pub const CONTENT_TYPE: &'static str = "application/xml;charset=UTF-8";

/// The Windows Live Writer manifest of a WordPress site.
pub const RESP_CONTENT: &'static str = "<?xml version=\"1.0\" encoding=\"utf-8\" ?>

<manifest xmlns=\"http://schemas.microsoft.com/wlw/manifest/weblog\">

  <options>
    <clientType>WordPress</clientType>
	<supportsKeywords>Yes</supportsKeywords>
	<supportsGetTags>Yes</supportsGetTags>
  </options>

  <weblog>
    <serviceName>WordPress</serviceName>
    <imageUrl>images/wlw/wp-icon.png</imageUrl>
    <watermarkImageUrl>images/wlw/wp-watermark.png</watermarkImageUrl>
    <homepageLinkText>View site</homepageLinkText>
    <adminLinkText>Dashboard</adminLinkText>
    <adminUrl>
      <![CDATA[
			{blog-postapi-url}/../wp-admin/
		]]>
    </adminUrl>
    <postEditingUrl>
      <![CDATA[
			{blog-postapi-url}/../wp-admin/post.php?action=edit&post={post-id}
		]]>
    </postEditingUrl>
  </weblog>

  <buttons>
    <button>
      <id>0</id>
      <text>Manage Comments</text>
      <imageUrl>images/wlw/wp-comments.png</imageUrl>
      <clickUrl>
        <![CDATA[
				{blog-postapi-url}/../wp-admin/edit-comments.php
			]]>
      </clickUrl>
    </button>

  </buttons>

</manifest>
";

/// The categories under which a request for the manifest is reported.
pub open spec fn categories() -> Seq<Category> {
    seq![Category::Hacking, Category::WebAppAttack, Category::BadWebBot]
}

/// The answer to a request for the manifest: the manifest, an event with the
/// request, and a report of the source address.
pub open spec fn outcome(req: Request) -> HandlerResponseView {
    HandlerResponseView {
        response: ResponseView { status: 200, content_type: Some(CONTENT_TYPE@), body: RESP_CONTENT@ },
        event: Some(request_event(HANDLER_NAME@, req)),
        report: attack_report(req, categories()),
    }
}

/// Serves the manifest, records the request and reports its source.
pub fn handler(req: &Request) -> (r: HandlerResponse)
    ensures
        r@ == outcome(*req),
{
    let event = record_request(HANDLER_NAME, req);
    let report = report_attack(req, vec![Category::Hacking, Category::WebAppAttack, Category::BadWebBot]);
    HandlerResponse {
        http_response: Response {
            status: 200,
            content_type: Some(String::from_str(CONTENT_TYPE)),
            body: String::from_str(RESP_CONTENT),
        },
        handler_event: Some(event),
        report,
    }
}

/// The handler, selected by `PATTERN`; `None` where the expression does not compile.
pub fn register() -> (r: Option<RequestHandler>)
    ensures
        r is Some <==> regex_compiles(PATTERN@),
        r matches Some(h) ==> h.name@ == HANDLER_NAME@ && h.pattern@ == PATTERN@
            && h.handler is WordpressWlwmanifest,
{
    match Pattern::compile(PATTERN) {
        Some(pattern) => Some(RequestHandler::new(HANDLER_NAME, pattern, HandlerKind::WordpressWlwmanifest)),
        None => None,
    }
}

} // verus!

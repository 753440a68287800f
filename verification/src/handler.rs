use vstd::prelude::*;
use vstd::utf8::{decode_utf8, valid_utf8};
use ipnetwork::IpNetwork;
use crate::handlers::{
    cgi_bin, envfile, etc_passwd, robots_bait, wordpress_json, wordpress_wlwmanifest,
    wordpress_xmlrpc,
};
use crate::pattern::{Pattern, regex_compiles, regex_is_match};
use crate::models::{EventView, HandlerEvent, empty_event};
use crate::reporter::{Category, Report, ReportView};
use crate::text::{ascii_lower, eq_ignore_ascii_case, push_char, str_eq, str_eq_ignore_ascii_case, string_from_utf8};

verus! {

/// The parts of an HTTP request that the handlers read.
pub struct Request {
    /// The method, such as `GET`.
    pub method: String,
    /// The request URI as it was sent.
    pub uri: String,
    /// The path part of the URI.
    pub path: String,
    /// The headers in the order received: name and raw value.
    pub headers: Vec<(String, Vec<u8>)>,
    /// The raw body.
    pub body: Vec<u8>,
}

/// The HTTP response that a handler answers with.
pub struct Response {
    pub status: u16,
    pub content_type: Option<String>,
    pub body: String,
}

/// The abstract content of a response.
pub struct ResponseView {
    pub status: u16,
    pub content_type: Option<Seq<char>>,
    pub body: Seq<char>,
}

impl View for Response {
    type V = ResponseView;

    open spec fn view(&self) -> ResponseView {
        ResponseView { status: self.status, content_type: self.content_type.deep_view(), body: self.body@ }
    }
}

/// What a handler produces: the response, and optionally an event to record
/// and a report to send.
pub struct HandlerResponse {
    pub http_response: Response,
    pub handler_event: Option<HandlerEvent>,
    pub report: Option<Report>,
}

/// The abstract content of a handler's result.
pub struct HandlerResponseView {
    pub response: ResponseView,
    pub event: Option<EventView>,
    pub report: Option<ReportView>,
}

/// The view of an optional event.
pub open spec fn event_view(e: Option<HandlerEvent>) -> Option<EventView> {
    match e {
        Some(e) => Some(e@),
        None => None,
    }
}

/// The view of an optional report.
pub open spec fn report_view(r: Option<Report>) -> Option<ReportView> {
    match r {
        Some(r) => Some(r@),
        None => None,
    }
}

impl View for HandlerResponse {
    type V = HandlerResponseView;

    open spec fn view(&self) -> HandlerResponseView {
        HandlerResponseView {
            response: self.http_response@,
            event: event_view(self.handler_event),
            report: report_view(self.report),
        }
    }
}

/// A `200 OK` response with `body` and no content type.
pub open spec fn ok_response(body: Seq<char>) -> ResponseView {
    ResponseView { status: 200, content_type: None, body }
}

/// The body of the `404 Not Found` response.
pub const NOT_FOUND_BODY: &'static str = "404 - Not Found";

impl HandlerResponse {
    /// A `200 OK` response with `response_content`, with no event and no report.
    pub fn new(response_content: &str) -> (r: Self)
        ensures
            r@ == (HandlerResponseView { response: ok_response(response_content@), event: None, report: None }),
    {
        HandlerResponse {
            http_response: Response { status: 200, content_type: None, body: String::from_str(response_content) },
            handler_event: None,
            report: None,
        }
    }

    /// Attaches an event to record.
    pub fn set_event(self, event: HandlerEvent) -> (r: Self)
        ensures
            r@ == (HandlerResponseView { event: Some(event@), ..self@ }),
    {
        HandlerResponse { handler_event: Some(event), ..self }
    }

    /// Attaches a report to send, or none.
    pub fn set_report(self, report: Option<Report>) -> (r: Self)
        ensures
            r@ == (HandlerResponseView { report: report_view(report), ..self@ }),
    {
        HandlerResponse { report, ..self }
    }
}

/// The answer of the fallback handler: `404 Not Found`, nothing recorded.
pub open spec fn not_found_outcome() -> HandlerResponseView {
    HandlerResponseView {
        response: ResponseView { status: 404, content_type: None, body: NOT_FOUND_BODY@ },
        event: None,
        report: None,
    }
}

/// The fallback handler: answers `404 Not Found` and records nothing.
pub fn default_handler(_req: &Request) -> (r: HandlerResponse)
    ensures
        r@ == not_found_outcome(),
{
    HandlerResponse {
        http_response: Response { status: 404, content_type: None, body: String::from_str(NOT_FOUND_BODY) },
        handler_event: None,
        report: None,
    }
}

/// Whether a header value byte is visible ASCII or a tab.
pub open spec fn visible_ascii(b: u8) -> bool {
    b == 9 || (32 <= b && b < 127)
}

/// The text of a header value: its bytes as characters where all are visible
/// ASCII, and the empty string otherwise.
pub open spec fn header_text(value: Seq<u8>) -> Seq<char> {
    if forall|k: int| 0 <= k < value.len() ==> visible_ascii(#[trigger] value[k]) {
        Seq::new(value.len(), |k: int| value[k] as char)
    } else {
        Seq::empty()
    }
}

/// Whether header `i` has the name `name`, compared without ASCII case.
pub open spec fn header_named(headers: Seq<(String, Vec<u8>)>, i: int, name: Seq<char>) -> bool {
    eq_ignore_ascii_case(headers[i].0@, name)
}

/// Whether header `i` is the first one named `name`.
pub open spec fn first_header_named(headers: Seq<(String, Vec<u8>)>, i: int, name: Seq<char>) -> bool {
    &&& 0 <= i < headers.len()
    &&& header_named(headers, i, name)
    &&& forall|j: int| 0 <= j < i ==> !header_named(headers, j, name)
}

/// The value of the first header named `name`, as text; `None` where there is none.
pub open spec fn header_value(req: Request, name: Seq<char>) -> Option<Seq<char>> {
    if exists|i: int| 0 <= i < req.headers@.len() && header_named(req.headers@, i, name) {
        let i = choose|i: int| first_header_named(req.headers@, i, name);
        Some(header_text(req.headers@[i].1@))
    } else {
        None
    }
}

fn header_value_text(value: &Vec<u8>) -> (s: String)
    ensures
        s@ == header_text(value@),
{
    let mut i: usize = 0;
    while i < value.len()
        invariant
            0 <= i <= value.len(),
            forall|k: int| 0 <= k < i ==> visible_ascii(#[trigger] value@[k]),
        decreases value.len() - i,
    {
        let b = value[i];
        if !(b == 9 || (32 <= b && b < 127)) {
            return String::new();
        }
        i = i + 1;
    }
    let mut s = String::new();
    let mut j: usize = 0;
    while j < value.len()
        invariant
            0 <= j <= value.len(),
            s@ == Seq::new(j as nat, |k: int| value@[k] as char),
        decreases value.len() - j,
    {
        push_char(&mut s, value[j] as char);
        j = j + 1;
    }
    s
}

/// The value of the first header named `header` (compared without ASCII
/// case); a value that is not visible ASCII reads as the empty string.
pub fn get_header_value(req: &Request, header: &str) -> (res: Option<String>)
    ensures
        res.deep_view() == header_value(*req, header@),
{
    let mut i: usize = 0;
    while i < req.headers.len()
        invariant
            0 <= i <= req.headers.len(),
            forall|j: int| 0 <= j < i ==> !header_named(req.headers@, j, header@),
        decreases req.headers.len() - i,
    {
        if str_eq_ignore_ascii_case(req.headers[i].0.as_str(), header) {
            let text = header_value_text(&req.headers[i].1);
            proof {
                assert(first_header_named(req.headers@, i as int, header@));
                let c = choose|c: int| first_header_named(req.headers@, c, header@);
                if c < i {
                    assert(!header_named(req.headers@, c, header@));
                } else if c > i {
                    assert(!header_named(req.headers@, i as int, header@));
                }
            }
            return Some(text);
        }
        i = i + 1;
    }
    None
}

/// Declares `ipnetwork::IpNetwork`, which only `parse_network_address` handles.
#[verifier::external_type_specification]
#[verifier::external_body]
pub struct ExIpNetwork(IpNetwork);

/// The address of the IP network that `text` denotes (`"a.b.c.d"`, an IPv6
/// address, or either with a `/prefix`), written out as `IpAddr` displays
/// it; `None` where `text` denotes none.
pub uninterp spec fn network_address(text: Seq<char>) -> Option<Seq<char>>;

/// Parses `text` as an `IpNetwork` (its `FromStr`) and writes out the
/// network's address (`IpNetwork::ip`, then `to_string`).
#[verifier::external_body]
fn parse_network_address(text: &str) -> (res: Option<String>)
    ensures
        res.deep_view() == network_address(text@),
{
    match text.parse::<IpNetwork>() {
        Ok(net) => Some(net.ip().to_string()),
        Err(_) => None,
    }
}

/// The address that a request comes from: the `X-Forwarded-For` header, read
/// as an IP address; `None` where the header is missing or is no address.
pub open spec fn ip_address(req: Request) -> Option<Seq<char>> {
    match header_value(req, "X-Forwarded-For"@) {
        Some(v) => network_address(v),
        None => None,
    }
}

/// The source address of a request, from its `X-Forwarded-For` header.
pub fn get_ip_address(req: &Request) -> (res: Option<String>)
    ensures
        res.deep_view() == ip_address(*req),
{
    match get_header_value(req, "X-Forwarded-For") {
        Some(v) => parse_network_address(v.as_str()),
        None => None,
    }
}

/// Whether the request is a `POST` or a `PUT`.
pub open spec fn sends_payload(req: Request) -> bool {
    req.method@ == "POST"@ || req.method@ == "PUT"@
}

/// The body of a `POST` or `PUT` request as text; `None` for other methods
/// and for a body that is not valid UTF-8.
pub open spec fn payload(req: Request) -> Option<Seq<char>> {
    if sends_payload(req) && valid_utf8(req.body@) {
        Some(decode_utf8(req.body@))
    } else {
        None
    }
}

/// The body of a `POST` or `PUT` request, where it is valid UTF-8.
pub fn request_payload(req: &Request) -> (res: Option<String>)
    ensures
        res.deep_view() == payload(*req),
{
    if str_eq(req.method.as_str(), "POST") || str_eq(req.method.as_str(), "PUT") {
        string_from_utf8(req.body.clone())
    } else {
        None
    }
}

/// What an event records of every request: the handler, the `Host`,
/// `X-Forwarded-For` and `User-Agent` headers, the URI and the source address.
pub open spec fn request_event(handler: Seq<char>, req: Request) -> EventView {
    EventView {
        host: header_value(req, "Host"@),
        uri: Some(req.uri@),
        x_forwarded_for: header_value(req, "X-Forwarded-For"@),
        src_ip: ip_address(req),
        user_agent: header_value(req, "User-Agent"@),
        ..empty_event(handler)
    }
}

/// Records what every event holds of `req`, for the handler `handler`.
pub fn record_request(handler: &str, req: &Request) -> (e: HandlerEvent)
    ensures
        e@ == request_event(handler@, *req),
{
    HandlerEvent::new(handler)
        .set_host(get_header_value(req, "Host"))
        .set_uri(req.uri.clone())
        .set_x_forwarded_for(get_header_value(req, "X-Forwarded-For"))
        .set_src_ip(get_ip_address(req))
        .set_user_agent(get_header_value(req, "User-Agent"))
}

/// The comment of an attack report: the method and the URI.
pub open spec fn request_line(req: Request) -> Seq<char> {
    req.method@ + seq![' '] + req.uri@
}

/// The report about an attacking request: its source address, `categories`,
/// and the method and URI as the comment; `None` where the source address is
/// unknown.
pub open spec fn attack_report(req: Request, categories: Seq<Category>) -> Option<ReportView> {
    match ip_address(req) {
        Some(ip) => Some(ReportView { ip, categories: categories.to_set(), comment: Some(request_line(req)) }),
        None => None,
    }
}

/// Reports an attacking request under `categories`, where its source address
/// is known.
pub fn report_attack(req: &Request, categories: Vec<Category>) -> (r: Option<Report>)
    ensures
        report_view(r) == attack_report(*req, categories@),
{
    match get_ip_address(req) {
        Some(ip) => {
            let mut line = req.method.clone();
            push_char(&mut line, ' ');
            line.append(req.uri.as_str());
            let ghost cats = categories@;
            assert(line@ == request_line(*req));
            let r = Report::new(ip.as_str()).add_categories(categories).set_comment_text(line);
            assert(r@.categories =~= cats.to_set());

            Some(r)
        },
        None => None,
    }
}

/// Which handler answers a request. The handlers that look at the request
/// more closely carry the expressions they use.
pub enum HandlerKind {
    EtcPasswd,
    CgiBin,
    WordpressXmlrpc,
    Envfile,
    /// Carries the expression that recognises a request for `robots.txt`.
    RobotsBait(Pattern),
    /// Carries the expression that recognises the user list endpoint.
    WordpressJson(Pattern),
    WordpressWlwmanifest,
    /// The handler that records every request it answers with `404 Not Found`.
    Default,
    /// The fallback handler, which records nothing.
    NotFound,
}

/// A handler together with its name and the expression that selects it.
pub struct RequestHandler {
    pub name: String,
    pub pattern: Pattern,
    pub handler: HandlerKind,
}

impl RequestHandler {
    /// A handler named `name`, selected by `pattern`.
    pub fn new(name: &str, pattern: Pattern, handler: HandlerKind) -> (r: RequestHandler)
        ensures
            r.name@ == name@,
            r.pattern == pattern,
            r.handler == handler,
    {
        RequestHandler { name: String::from_str(name), pattern, handler }
    }
}

/// Whether `r` is what the handler `kind` answers to `req`.
pub open spec fn handler_outcome(kind: HandlerKind, req: Request, r: HandlerResponseView) -> bool {
    match kind {
        HandlerKind::EtcPasswd => r == etc_passwd::outcome(req),
        HandlerKind::CgiBin => r == cgi_bin::outcome(req),
        HandlerKind::WordpressXmlrpc => r == wordpress_xmlrpc::outcome(req),
        HandlerKind::Envfile => r == envfile::outcome(req),
        HandlerKind::RobotsBait(robots) => r == robots_bait::outcome(req, robots@),
        HandlerKind::WordpressJson(users) => wordpress_json::outcome_holds(req, users@, r),
        HandlerKind::WordpressWlwmanifest => r == wordpress_wlwmanifest::outcome(req),
        HandlerKind::Default => r == crate::handlers::default::outcome(req),
        HandlerKind::NotFound => r == not_found_outcome(),
    }
}

impl RequestHandler {
    /// Answers `req` with this handler.
    pub fn run(&self, req: &Request) -> (r: HandlerResponse)
        ensures
            handler_outcome(self.handler, *req, r@),
    {
        match &self.handler {
            HandlerKind::EtcPasswd => etc_passwd::handler(req),
            HandlerKind::CgiBin => cgi_bin::handler(req),
            HandlerKind::WordpressXmlrpc => wordpress_xmlrpc::handler(req),
            HandlerKind::Envfile => envfile::handler(req),
            HandlerKind::RobotsBait(robots) => robots_bait::handler(req, robots),
            HandlerKind::WordpressJson(users) => wordpress_json::handler(req, users),
            HandlerKind::WordpressWlwmanifest => wordpress_wlwmanifest::handler(req),
            HandlerKind::Default => crate::handlers::default::handler(req),
            HandlerKind::NotFound => default_handler(req),
        }
    }
}

/// Whether handler `i` is selected by `uri`.
pub open spec fn selects(handlers: Seq<RequestHandler>, i: int, uri: Seq<char>) -> bool {
    regex_is_match(handlers[i].pattern@, uri)
}

/// Whether handler `i` is the first one selected by `uri`.
pub open spec fn first_selecting(handlers: Seq<RequestHandler>, i: int, uri: Seq<char>) -> bool {
    &&& 0 <= i < handlers.len()
    &&& selects(handlers, i, uri)
    &&& forall|j: int| 0 <= j < i ==> !selects(handlers, j, uri)
}

/// The handler that answers a request for `uri`: the first of `handlers`
/// whose expression matches, or `default` where none does.
pub open spec fn chosen_handler(handlers: Seq<RequestHandler>, default: RequestHandler, uri: Seq<char>) -> RequestHandler {
    if exists|i: int| 0 <= i < handlers.len() && selects(handlers, i, uri) {
        handlers[choose|i: int| first_selecting(handlers, i, uri)]
    } else {
        default
    }
}

/// The position of the first of `handlers` whose expression matches `uri`.
pub fn select_handler(handlers: &Vec<RequestHandler>, uri: &str) -> (res: Option<usize>)
    ensures
        res matches Some(i) ==> first_selecting(handlers@, i as int, uri@),
        res is None ==> forall|i: int| 0 <= i < handlers@.len() ==> !selects(handlers@, i, uri@),
{
    let mut i: usize = 0;
    while i < handlers.len()
        invariant
            0 <= i <= handlers.len(),
            forall|j: int| 0 <= j < i ==> !selects(handlers@, j, uri@),
        decreases handlers.len() - i,
    {
        if handlers[i].pattern.is_match(uri) {
            return Some(i);
        }
        i = i + 1;
    }
    None
}

/// Answers a request with the first of `handlers` whose expression matches
/// its URI, or with `default` where none does.
pub fn request_dispatcher(handlers: &Vec<RequestHandler>, default: &RequestHandler, req: &Request) -> (r: HandlerResponse)
    ensures
        handler_outcome(chosen_handler(handlers@, *default, req.uri@).handler, *req, r@),
{
    match select_handler(handlers, req.uri.as_str()) {
        Some(i) => {
            proof {
                let c = choose|c: int| first_selecting(handlers@, c, req.uri@);
                if c < i {
                    assert(!selects(handlers@, c, req.uri@));
                } else if c > i {
                    assert(!selects(handlers@, i as int, req.uri@));
                }
            }
            handlers[i].run(req)
        },
        None => default.run(req),
    }
}

/// The name of the fallback handler.
pub const DEFAULT_HANDLER_NAME: &'static str = "default";

/// The expression of the fallback handler: the empty one.
pub const DEFAULT_PATTERN: &'static str = "";

/// The fallback handler, which answers `404 Not Found` and records nothing;
/// its expression is never consulted. `None` where the empty
/// expression does not compile.
pub fn default_request_handler() -> (r: Option<RequestHandler>)
    ensures
        r is Some <==> regex_compiles(DEFAULT_PATTERN@),
        r matches Some(h) ==> (h.name@ == DEFAULT_HANDLER_NAME@ && h.pattern@ == DEFAULT_PATTERN@
            && h.handler is NotFound),
{
    match Pattern::compile(DEFAULT_PATTERN) {
        Some(pattern) => Some(RequestHandler::new(DEFAULT_HANDLER_NAME, pattern, HandlerKind::NotFound)),
        None => None,
    }
}

/// The handlers tried in order for every request: the password file, CGI
/// scripts, XML-RPC and environment files. `None` where an expression does
/// not compile.
pub fn registered_handlers() -> (r: Option<Vec<RequestHandler>>)
    ensures
        r is Some <==> regex_compiles(etc_passwd::PATTERN@) && regex_compiles(cgi_bin::PATTERN@)
            && regex_compiles(wordpress_xmlrpc::PATTERN@) && regex_compiles(envfile::PATTERN@),
        r matches Some(hs) ==> (hs@.len() == 4
            && hs@[0].handler is EtcPasswd && hs@[0].pattern@ == etc_passwd::PATTERN@
            && hs@[0].name@ == etc_passwd::HANDLER_NAME@
            && hs@[1].handler is CgiBin && hs@[1].pattern@ == cgi_bin::PATTERN@
            && hs@[1].name@ == cgi_bin::HANDLER_NAME@
            && hs@[2].handler is WordpressXmlrpc && hs@[2].pattern@ == wordpress_xmlrpc::PATTERN@
            && hs@[2].name@ == wordpress_xmlrpc::HANDLER_NAME@
            && hs@[3].handler is Envfile && hs@[3].pattern@ == envfile::PATTERN@
            && hs@[3].name@ == envfile::HANDLER_NAME@),
{
    let a = etc_passwd::register();
    let b = cgi_bin::register();
    let c = wordpress_xmlrpc::register();
    let d = envfile::register();
    match (a, b, c, d) {
        (Some(a), Some(b), Some(c), Some(d)) => Some(vec![a, b, c, d]),
        _ => None,
    }
}

/// Every handler reports only requests whose source address is known: the
/// report names that address and has the method and URI as its comment.
pub proof fn lemma_reports_name_source(kind: HandlerKind, req: Request, r: HandlerResponseView)
    requires
        handler_outcome(kind, req, r),
        r.report is Some,
    ensures
        ip_address(req) == Some(r.report->0.ip),
        r.report->0.comment == Some(request_line(req)),
{
}

/// Every event that a handler records holds the request URI.
pub proof fn lemma_events_record_uri(kind: HandlerKind, req: Request, r: HandlerResponseView)
    requires
        handler_outcome(kind, req, r),
        r.event is Some,
    ensures
        r.event->0.uri == Some(req.uri@),
{
}

/// A body is recorded (as payload or information) only for a `POST` or `PUT`
/// request whose body is valid UTF-8, and then as its decoded text.
pub proof fn lemma_payload_only_for_post_and_put(kind: HandlerKind, req: Request, r: HandlerResponseView)
    requires
        handler_outcome(kind, req, r),
        r.event is Some,
        r.event->0.payload is Some || r.event->0.info is Some,
    ensures
        sends_payload(req),
        valid_utf8(req.body@),
        r.event->0.payload is Some ==> r.event->0.payload == Some(decode_utf8(req.body@)),
        r.event->0.info is Some ==> r.event->0.info == Some(decode_utf8(req.body@)),
{
}

proof fn lemma_first_header_exists(hs: Seq<(String, Vec<u8>)>, w: int, name: Seq<char>)
    requires
        0 <= w < hs.len(),
        header_named(hs, w, name),
    ensures
        exists|i: int| first_header_named(hs, i, name),
    decreases w,
{
    if exists|j: int| 0 <= j < w && header_named(hs, j, name) {
        let j = choose|j: int| 0 <= j < w && header_named(hs, j, name);
        lemma_first_header_exists(hs, j, name);
    } else {
        assert(first_header_named(hs, w, name));
    }
}

/// Header names are looked up without regard to ASCII case.
pub proof fn lemma_header_lookup_ignores_case(req: Request, a: Seq<char>, b: Seq<char>)
    requires
        eq_ignore_ascii_case(a, b),
    ensures
        header_value(req, a) == header_value(req, b),
{
    let hs = req.headers@;
    assert forall|i: int| 0 <= i < hs.len() implies header_named(hs, i, a) == header_named(hs, i, b) by {
        if header_named(hs, i, a) {
            assert forall|k: int| 0 <= k < hs[i].0@.len() implies ascii_lower(#[trigger] hs[i].0@[k]) == ascii_lower(b[k]) by {
                assert(ascii_lower(hs[i].0@[k]) == ascii_lower(a[k]));
                assert(ascii_lower(a[k]) == ascii_lower(b[k]));
            }
        }
        if header_named(hs, i, b) {
            assert forall|k: int| 0 <= k < hs[i].0@.len() implies ascii_lower(#[trigger] hs[i].0@[k]) == ascii_lower(a[k]) by {
                assert(ascii_lower(hs[i].0@[k]) == ascii_lower(b[k]));
                assert(ascii_lower(a[k]) == ascii_lower(b[k]));
            }
        }
    }
    assert forall|i: int| first_header_named(hs, i, a) == first_header_named(hs, i, b) by {
        if 0 <= i < hs.len() {
            assert forall|j: int| 0 <= j < i implies header_named(hs, j, a) == header_named(hs, j, b) by {}
        }
    }
    if exists|i: int| 0 <= i < hs.len() && header_named(hs, i, a) {
        let ia = choose|i: int| first_header_named(hs, i, a);
        let ib = choose|i: int| first_header_named(hs, i, b);
        let w = choose|i: int| 0 <= i < hs.len() && header_named(hs, i, a);
        lemma_first_header_exists(hs, w, a);
        assert(header_named(hs, w, b));
        lemma_first_header_exists(hs, w, b);
        assert(first_header_named(hs, ib, b));
        assert(first_header_named(hs, ib, a));
        assert(first_header_named(hs, ia, a));
        if ia < ib {
            assert(!header_named(hs, ia, b));
        } else if ib < ia {
            assert(!header_named(hs, ib, a));
        }
    }
}

/// A request is answered by the first handler whose expression matches its
/// URI, and by the fallback handler where none matches.
pub proof fn lemma_first_match_answers(handlers: Seq<RequestHandler>, default: RequestHandler, uri: Seq<char>, i: int)
    ensures
        first_selecting(handlers, i, uri) ==> chosen_handler(handlers, default, uri) == handlers[i],
        (forall|j: int| 0 <= j < handlers.len() ==> !selects(handlers, j, uri))
            ==> chosen_handler(handlers, default, uri) == default,
{
    if first_selecting(handlers, i, uri) {
        let c = choose|c: int| first_selecting(handlers, c, uri);
        if c < i {
            assert(!selects(handlers, c, uri));
        } else if c > i {
            assert(!selects(handlers, i, uri));
        }
    }
}

/// A header value made only of visible ASCII bytes (space to `~`) and tabs is
/// read as exactly those bytes, as characters; one with any other byte is read
/// as the empty string.
pub proof fn lemma_header_value_text(req: Request, name: Seq<char>, i: int)
    requires
        first_header_named(req.headers@, i, name),
    ensures
        (forall|k: int| 0 <= k < req.headers@[i].1@.len() ==> {
            let b = #[trigger] req.headers@[i].1@[k];
            b == 0x09 || (0x20 <= b && b <= 0x7e)
        }) ==> header_value(req, name) == Some(
            Seq::new(req.headers@[i].1@.len(), |k: int| req.headers@[i].1@[k] as char),
        ),
        (exists|k: int| 0 <= k < req.headers@[i].1@.len() && {
            let b = #[trigger] req.headers@[i].1@[k];
            !(b == 0x09 || (0x20 <= b && b <= 0x7e))
        }) ==> header_value(req, name) == Some(Seq::<char>::empty()),
{
    let c = choose|c: int| first_header_named(req.headers@, c, name);
    if c < i {
        assert(!header_named(req.headers@, c, name));
    } else if c > i {
        assert(!header_named(req.headers@, i, name));
    }
}

/// The report about an attacking request under the categories `cats`: its
/// source address, those categories, and `METHOD URI` as the comment; none
/// where the source address is unknown.
pub open spec fn expected_report(req: Request, cats: Set<Category>) -> Option<ReportView> {
    match ip_address(req) {
        Some(ip) => Some(ReportView { ip, categories: cats, comment: Some(req.method@ + " "@ + req.uri@) }),
        None => None,
    }
}

/// The reports of the handlers: CGI probes and manifest requests are reported
/// as hacking, a web application attack and a bad web bot; REST API requests
/// as hacking, a web application attack and brute force; visits to the bait
/// endpoint as hacking and a bad web bot; the other handlers report nothing.
pub proof fn lemma_handler_reports(kind: HandlerKind, req: Request, r: HandlerResponseView)
    requires
        handler_outcome(kind, req, r),
    ensures
        kind is CgiBin ==> r.report == expected_report(
            req,
            set![Category::Hacking, Category::WebAppAttack, Category::BadWebBot],
        ),
        kind is WordpressWlwmanifest ==> r.report == expected_report(
            req,
            set![Category::Hacking, Category::WebAppAttack, Category::BadWebBot],
        ),
        kind is WordpressJson ==> r.report == expected_report(
            req,
            set![Category::Hacking, Category::WebAppAttack, Category::BruteForce],
        ),
        kind matches HandlerKind::RobotsBait(robots) ==> r.report == if regex_is_match(robots@, req.uri@) {
            None
        } else {
            expected_report(req, set![Category::Hacking, Category::BadWebBot])
        },
        (kind is EtcPasswd || kind is Envfile || kind is WordpressXmlrpc || kind is Default || kind is NotFound)
            ==> r.report is None,
{
    reveal_strlit(" ");
    let three = seq![Category::Hacking, Category::WebAppAttack, Category::BadWebBot];
    assert(three.to_set() =~= set![Category::Hacking, Category::WebAppAttack, Category::BadWebBot]) by {
        assert(three[0] == Category::Hacking && three[1] == Category::WebAppAttack && three[2] == Category::BadWebBot);
    }
    let brute = seq![Category::Hacking, Category::WebAppAttack, Category::BruteForce];
    assert(brute.to_set() =~= set![Category::Hacking, Category::WebAppAttack, Category::BruteForce]) by {
        assert(brute[0] == Category::Hacking && brute[1] == Category::WebAppAttack && brute[2] == Category::BruteForce);
    }
    let two = seq![Category::Hacking, Category::BadWebBot];
    assert(two.to_set() =~= set![Category::Hacking, Category::BadWebBot]) by {
        assert(two[0] == Category::Hacking && two[1] == Category::BadWebBot);
    }
    assert(request_line(req) == req.method@ + " "@ + req.uri@);
}

/// The source address that the handlers record: those that report record the
/// address read from `X-Forwarded-For`, the same that a report names; the
/// password file, environment file and XML-RPC handlers record the header as
/// it was sent.
pub proof fn lemma_events_record_source(kind: HandlerKind, req: Request, r: HandlerResponseView)
    requires
        handler_outcome(kind, req, r),
        r.event is Some,
    ensures
        (kind is CgiBin || kind is Default || kind is RobotsBait || kind is WordpressJson
            || kind is WordpressWlwmanifest) ==> r.event->0.src_ip == ip_address(req),
        (kind is EtcPasswd || kind is Envfile || kind is WordpressXmlrpc) ==> r.event->0.src_ip
            == header_value(req, "X-Forwarded-For"@),
        r.report is Some ==> r.event->0.src_ip == Some(r.report->0.ip),
{
}

/// The name under which each handler records its events.
pub proof fn lemma_event_handler_names(kind: HandlerKind, req: Request, r: HandlerResponseView)
    requires
        handler_outcome(kind, req, r),
        r.event is Some,
    ensures
        kind is EtcPasswd ==> r.event->0.handler == "etc-passwd"@,
        kind is Envfile ==> r.event->0.handler == "envfile"@,
        kind is CgiBin ==> r.event->0.handler == "cgi-bin"@,
        kind is WordpressXmlrpc ==> r.event->0.handler == "wp-xmlrpc"@,
        kind is WordpressWlwmanifest ==> r.event->0.handler == "wp-wlwmanifest"@,
        kind is WordpressJson ==> r.event->0.handler == "wp-json"@,
        kind is RobotsBait ==> r.event->0.handler == "robots-bait"@,
        kind is Default ==> r.event->0.handler == "default"@,
        !(kind is NotFound),
{
}

/// The responses of the handlers: the bait files are served as `200 OK` with
/// their content and no content type; CGI probes and XML-RPC calls get an empty
/// plain text page, the manifest is served as XML and the REST API answers as
/// HTML, all with `200 OK`; robots.txt and the bait endpoint are served as
/// `200 OK`; the default and fallback handlers answer `404 Not Found`.
pub proof fn lemma_handler_responses(kind: HandlerKind, req: Request, r: HandlerResponseView)
    requires
        handler_outcome(kind, req, r),
    ensures
        kind is EtcPasswd ==> r.response == (ResponseView {
            status: 200,
            content_type: None,
            body: etc_passwd::RESP_CONTENT@,
        }),
        kind is Envfile ==> r.response == (ResponseView {
            status: 200,
            content_type: None,
            body: envfile::RESP_CONTENT@,
        }),
        (kind is CgiBin || kind is WordpressXmlrpc) ==> r.response == (ResponseView {
            status: 200,
            content_type: Some("text/plain;charset=UTF-8"@),
            body: Seq::empty(),
        }),
        kind is WordpressWlwmanifest ==> r.response == (ResponseView {
            status: 200,
            content_type: Some("application/xml;charset=UTF-8"@),
            body: wordpress_wlwmanifest::RESP_CONTENT@,
        }),
        kind is WordpressJson ==> r.response.status == 200 && r.response.content_type == Some(
            "text/html;charset=UTF-8"@,
        ),
        kind matches HandlerKind::RobotsBait(robots) ==> r.response == (ResponseView {
            status: 200,
            content_type: None,
            body: if regex_is_match(robots@, req.uri@) {
                robots_bait::ROBOTS_CONTENT@
            } else {
                robots_bait::ENDPOINT_CONTENT@
            },
        }),
        (kind is Default || kind is NotFound) ==> r.response == (ResponseView {
            status: 404,
            content_type: None,
            body: "404 - Not Found"@,
        }),
{
}

} // verus!

use lildevil::handler::{
    default_handler, default_request_handler, get_header_value, get_ip_address,
    registered_handlers, request_dispatcher, request_payload, select_handler, HandlerKind,
    HandlerResponse, Request,
};
use lildevil::handlers::{
    cgi_bin, envfile, etc_passwd, robots_bait, wordpress_json, wordpress_wlwmanifest,
    wordpress_xmlrpc,
};
use lildevil::models::HandlerEvent;
use lildevil::pattern::Pattern;
use lildevil::reporter::Category;
use lildevil::utils::generate_random_string;

fn request(method: &str, uri: &str, headers: &[(&str, &[u8])], body: &[u8]) -> Request {
    let path = uri.split('?').next().unwrap().to_string();
    Request {
        method: method.to_string(),
        uri: uri.to_string(),
        path,
        headers: headers.iter().map(|(n, v)| (n.to_string(), v.to_vec())).collect(),
        body: body.to_vec(),
    }
}

fn attacker(method: &str, uri: &str, body: &[u8]) -> Request {
    request(
        method,
        uri,
        &[
            ("host", b"example.org"),
            ("x-forwarded-for", b"203.0.113.5"),
            ("user-agent", b"zgrab/0.x"),
        ],
        body,
    )
}

fn event(r: &HandlerResponse) -> &HandlerEvent {
    r.handler_event.as_ref().expect("an event")
}

#[test]
fn header_lookup() {
    let req = request(
        "GET",
        "/",
        &[("host", b"a.example"), ("host", b"b.example"), ("x-bin", b"\x01x"), ("x-tab", b"a\tb")],
        b"",
    );
    assert_eq!(get_header_value(&req, "Host"), Some(String::from("a.example")));
    assert_eq!(get_header_value(&req, "HOST"), Some(String::from("a.example")));
    assert_eq!(get_header_value(&req, "X-Bin"), Some(String::new()));
    assert_eq!(get_header_value(&req, "x-tab"), Some(String::from("a\tb")));
    assert_eq!(get_header_value(&req, "User-Agent"), None);
}

#[test]
fn ip_address_from_forwarded_header() {
    let r = |v: &[u8]| request("GET", "/", &[("x-forwarded-for", v)], b"");
    assert_eq!(get_ip_address(&r(b"203.0.113.5")), Some(String::from("203.0.113.5")));
    assert_eq!(get_ip_address(&r(b"10.1.2.3/8")), Some(String::from("10.1.2.3")));
    assert_eq!(get_ip_address(&r(b"2001:db8::1")), Some(String::from("2001:db8::1")));
    assert_eq!(get_ip_address(&r(b"not an address")), None);
    assert_eq!(get_ip_address(&request("GET", "/", &[], b"")), None);
}

#[test]
fn payload_only_for_post_and_put() {
    assert_eq!(request_payload(&attacker("POST", "/", b"a=1")), Some(String::from("a=1")));
    assert_eq!(request_payload(&attacker("PUT", "/", b"x")), Some(String::from("x")));
    assert_eq!(request_payload(&attacker("GET", "/", b"a=1")), None);
    assert_eq!(request_payload(&attacker("POST", "/", b"\xff\xfe")), None);
    assert_eq!(
        request_payload(&attacker("POST", "/", "h\u{e9}".as_bytes())),
        Some(String::from("h\u{e9}"))
    );
}

#[test]
fn etc_passwd_serves_file() {
    let r = etc_passwd::handler(&attacker("GET", "/../../etc/passwd", b""));
    assert_eq!(r.http_response.status, 200);
    assert!(r.http_response.body.starts_with("root:$1$eaO8rFkv$"));
    assert!(r.http_response.body.ends_with("mysql:x:107:114:MySQL Server,,,:/nonexistent:/bin/false"));
    let e = event(&r);
    assert_eq!(e.handler, "etc-passwd");
    assert_eq!(e.host, Some(String::from("example.org")));
    assert_eq!(e.src_ip, Some(String::from("203.0.113.5")));
    assert_eq!(e.uri, Some(String::from("/../../etc/passwd")));
    assert_eq!(e.user_agent, None);
    assert!(r.report.is_none());
}

#[test]
fn envfile_serves_settings() {
    let r = envfile::handler(&attacker("GET", "/.env", b""));
    assert_eq!(r.http_response.body, envfile::RESP_CONTENT);
    assert!(r.http_response.body.contains("HTTP_ADMINISTRATION_TOKEN = admin"));
    assert_eq!(event(&r).handler, "envfile");
}

#[test]
fn cgi_bin_records_and_reports() {
    let r = cgi_bin::handler(&attacker("POST", "/cgi-bin/test.cgi", b"cmd=id"));
    assert_eq!(r.http_response.status, 200);
    assert_eq!(r.http_response.content_type, Some(String::from("text/plain;charset=UTF-8")));
    assert_eq!(r.http_response.body, "");
    let e = event(&r);
    assert_eq!(e.handler, "cgi-bin");
    assert_eq!(e.payload, Some(String::from("cmd=id")));
    assert_eq!(e.x_forwarded_for, Some(String::from("203.0.113.5")));
    assert_eq!(e.user_agent, Some(String::from("zgrab/0.x")));
    let rep = r.report.expect("a report");
    assert_eq!(rep.ip(), "203.0.113.5");
    assert_eq!(
        rep.categories(),
        &vec![Category::Hacking, Category::WebAppAttack, Category::BadWebBot]
    );
    assert_eq!(rep.comment(), &Some(String::from("POST /cgi-bin/test.cgi")));
}

#[test]
fn no_report_without_source_address() {
    let req = request("GET", "/cgi-bin/x", &[("host", b"h")], b"");
    let r = cgi_bin::handler(&req);
    assert!(r.report.is_none());
    assert_eq!(event(&r).src_ip, None);
}

#[test]
fn default_records_request() {
    let r = lildevil::handlers::default::handler(&attacker("PUT", "/x", b"data"));
    assert_eq!(r.http_response.status, 404);
    assert_eq!(r.http_response.body, "404 - Not Found");
    let e = event(&r);
    assert_eq!(e.handler, "default");
    assert_eq!(e.payload, Some(String::from("data")));
    assert!(r.report.is_none());
}

#[test]
fn fallback_records_nothing() {
    let r = default_handler(&attacker("GET", "/x", b""));
    assert_eq!(r.http_response.status, 404);
    assert_eq!(r.http_response.body, "404 - Not Found");
    assert!(r.handler_event.is_none());
    assert!(r.report.is_none());
}

#[test]
fn xmlrpc_records_payload_as_info() {
    let r = wordpress_xmlrpc::handler(&attacker("POST", "/xmlrpc.php", b"<methodCall/>"));
    assert_eq!(r.http_response.content_type, Some(String::from("text/plain;charset=UTF-8")));
    let e = event(&r);
    assert_eq!(e.handler, "wp-xmlrpc");
    assert_eq!(e.info, Some(String::from("<methodCall/>")));
    assert_eq!(e.payload, None);
    assert_eq!(e.src_ip, Some(String::from("203.0.113.5")));
    assert!(r.report.is_none());
}

#[test]
fn wlwmanifest_serves_manifest() {
    let r = wordpress_wlwmanifest::handler(&attacker("GET", "/wp-includes/wlwmanifest.xml", b""));
    assert_eq!(r.http_response.content_type, Some(String::from("application/xml;charset=UTF-8")));
    assert!(r.http_response.body.starts_with("<?xml version=\"1.0\" encoding=\"utf-8\" ?>"));
    assert!(r.http_response.body.contains("<serviceName>WordPress</serviceName>"));
    assert_eq!(event(&r).payload, None);
    assert_eq!(r.report.expect("a report").comment(), &Some(String::from("GET /wp-includes/wlwmanifest.xml")));
}

#[test]
fn robots_bait_serves_robots_and_catches_visitors() {
    let robots = Pattern::compile(robots_bait::ROBOTS_PATTERN).unwrap();
    let r = robots_bait::handler(&attacker("GET", "/robots.txt", b""), &robots);
    assert_eq!(r.http_response.body, "User-Agent: *\nDisallow: /bb.php");
    assert!(r.handler_event.is_none());
    assert!(r.report.is_none());
    let r = robots_bait::handler(&attacker("GET", "/bb.php", b""), &robots);
    assert_eq!(r.http_response.body, "400: Bad request");
    assert_eq!(event(&r).handler, "robots-bait");
    assert_eq!(
        r.report.expect("a report").categories(),
        &vec![Category::Hacking, Category::BadWebBot]
    );
}

#[test]
fn wordpress_json_lists_made_up_users() {
    let users = Pattern::compile(wordpress_json::USERS_PATTERN).unwrap();
    let r = wordpress_json::handler(&attacker("GET", "/wp-json/wp/v2/users/", b""), &users);
    assert_eq!(r.http_response.content_type, Some(String::from("text/html;charset=UTF-8")));
    let e = event(&r);
    let details = e.details.clone().expect("details");
    let names: Vec<&str> = details.strip_prefix("Usernames: ").unwrap().split(", ").collect();
    assert_eq!(names.len(), 3);
    for n in &names {
        assert!(n.len() >= 10 && n.len() < 20);
        assert!(n.chars().all(|c| c.is_ascii_alphanumeric()));
    }
    let expected = format!(
        "[{{\"id\":1,\"name\":\"{0}\",\"url\":\"\",\"description\":\"\",\"link\":\"https://averygoodsite.com/author/{0}/\",\"slug\":\"{0}\",\"meta\":[],\"_links\":{{\"self\":[{{\"href\":\"https://averygoodsite.com/wp-json/wp/v2/users/1\"}}],\"collection\":[{{\"href\":\"https://averygoodsite.com/wp-json/wp/v2/users\"}}]}}}},{{\"id\":6,\"name\":\"{1}\",\"url\":\"\",\"description\":\"\",\"link\":\"https://averygoodsite.com/author/{1}/\",\"slug\":\"{1}\",\"meta\":[],\"_links\":{{\"self\":[{{\"href\":\"https://averygoodsite.com/wp-json/wp/v2/users/6\"}}],\"collection\":[{{\"href\":\"https://averygoodsite.com/wp-json/wp/v2/users\"}}]}}}},{{\"id\":2,\"name\":\"{2}\",\"url\":\"\",\"description\":\"\",\"link\":\"https://averygoodsite.com/author/{2}/\",\"slug\":\"{2}\",\"meta\":[],\"_links\":{{\"self\":[{{\"href\":\"https://averygoodsite.com/wp-json/wp/v2/users/2\"}}],\"collection\":[{{\"href\":\"https://averygoodsite.com/wp-json/wp/v2/users\"}}]}}}}]",
        names[0], names[1], names[2]
    );
    assert_eq!(r.http_response.body, expected);
    assert_eq!(r.report.expect("a report").categories(), &vec![Category::Hacking, Category::WebAppAttack, Category::BruteForce]);
}

#[test]
fn wordpress_json_other_endpoints_are_empty() {
    let users = Pattern::compile(wordpress_json::USERS_PATTERN).unwrap();
    let r = wordpress_json::handler(&attacker("GET", "/wp-json/wp/v2/posts", b""), &users);
    assert_eq!(r.http_response.body, "");
    assert_eq!(event(&r).details, None);
    let d = wordpress_json::get_default_response();
    assert_eq!(d.content, "");
    assert!(d.details.is_none());
}

#[test]
fn patterns_compile_and_match() {
    assert!(Pattern::compile("(").is_none());
    let p = Pattern::compile(".*etc.*passwd").unwrap();
    assert!(p.is_match("/a/etc/x/passwd"));
    assert!(!p.is_match("/passwd/etc"));
    let robots = Pattern::compile(robots_bait::PATTERN).unwrap();
    assert!(robots.is_match("/robots.txt"));
    assert!(robots.is_match("/x/bb.php"));
    assert!(!robots.is_match("/x/robots.txt"));
}

#[test]
fn dispatcher_picks_first_match() {
    let handlers = registered_handlers().expect("patterns compile");
    assert_eq!(handlers.len(), 4);
    assert_eq!(handlers[0].name, "etc-passwd");
    assert_eq!(handlers[1].name, "cgi-bin");
    assert_eq!(handlers[2].name, "wp-xmlrpc");
    assert_eq!(handlers[3].name, "envfile");
    assert!(matches!(handlers[3].handler, HandlerKind::Envfile));
    let default = default_request_handler().expect("empty pattern compiles");
    assert_eq!(default.name, "default");

    assert_eq!(select_handler(&handlers, "/etc/passwd"), Some(0));
    assert_eq!(select_handler(&handlers, "/cgi-bin/etc/passwd"), Some(0));
    assert_eq!(select_handler(&handlers, "/cgi-bin/x.env"), Some(1));
    assert_eq!(select_handler(&handlers, "/xmlrpc.php"), Some(2));
    assert_eq!(select_handler(&handlers, "/.env"), Some(3));
    assert_eq!(select_handler(&handlers, "/index.html"), None);

    let r = request_dispatcher(&handlers, &default, &attacker("GET", "/.env", b""));
    assert_eq!(event(&r).handler, "envfile");
    let r = request_dispatcher(&handlers, &default, &attacker("GET", "/index.html", b""));
    assert_eq!(r.http_response.status, 404);
    assert!(r.handler_event.is_none());
}

#[test]
fn handlers_register_under_their_names() {
    assert_eq!(robots_bait::register().unwrap().name, "robots-bait");
    assert_eq!(wordpress_json::register().unwrap().name, "wp-json");
    assert_eq!(wordpress_wlwmanifest::register().unwrap().name, "wp-wlwmanifest");
    let h = robots_bait::register().unwrap();
    let r = h.run(&attacker("GET", "/robots.txt", b""));
    assert!(r.handler_event.is_none());
}

#[test]
fn handler_response_builders() {
    let r = HandlerResponse::new("hello");
    assert_eq!(r.http_response.status, 200);
    assert_eq!(r.http_response.body, "hello");
    assert!(r.handler_event.is_none());
    let r = r.set_event(HandlerEvent::new("x"));
    assert_eq!(event(&r).handler, "x");
    let r = r.set_report(None);
    assert!(r.report.is_none());
}

#[test]
fn event_setters() {
    let e = HandlerEvent::new("h")
        .set_host(Some(String::from("host")))
        .set_uri(String::from("/u"))
        .set_src_ip(Some(String::from("1.2.3.4")))
        .set_info(Some(String::from("i")))
        .set_user_agent(None)
        .set_x_forwarded_for(Some(String::from("x")))
        .set_payload(Some(String::from("p")))
        .set_details(Some(String::from("d")));
    assert_eq!(e.handler, "h");
    assert_eq!(e.host.as_deref(), Some("host"));
    assert_eq!(e.uri.as_deref(), Some("/u"));
    assert_eq!(e.src_ip.as_deref(), Some("1.2.3.4"));
    assert_eq!(e.info.as_deref(), Some("i"));
    assert_eq!(e.user_agent, None);
    assert_eq!(e.x_forwarded_for.as_deref(), Some("x"));
    assert_eq!(e.payload.as_deref(), Some("p"));
    assert_eq!(e.details.as_deref(), Some("d"));
}

#[test]
fn random_strings() {
    for len in 0..30 {
        let s = generate_random_string(len);
        assert_eq!(s.len(), len);
        assert!(s.chars().all(|c| c.is_ascii_alphanumeric()));
    }
}

#[test]
fn users_page_from_given_names() {
    let r = wordpress_json::users_response("aaaaaaaaaa", "bbbbbbbbbbb", "cccccccccccc");
    assert_eq!(r.details, Some(String::from("Usernames: aaaaaaaaaa, bbbbbbbbbbb, cccccccccccc")));
    assert!(r.content.starts_with("[{\"id\":1,\"name\":\"aaaaaaaaaa\",\"url\":\"\""));
    assert!(r.content.contains("{\"id\":6,\"name\":\"bbbbbbbbbbb\""));
    assert!(r.content.contains("\"slug\":\"cccccccccccc\""));
    assert!(r.content.ends_with("wp/v2/users/2\"}],\"collection\":[{\"href\":\"https://averygoodsite.com/wp-json/wp/v2/users\"}]}}]"));
}

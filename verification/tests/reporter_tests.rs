use lildevil::reporter::{
    category_codes, prepare_report, report_http_body, Category, Report, ReportTimestamps,
    REPORT_INTERVAL_NANOS,
};
use lildevil::text::{decimal_string, str_eq, str_eq_ignore_ascii_case};

const ALL: [Category; 23] = [
    Category::DNSCompromise,
    Category::DNSPoisoning,
    Category::FraudOrders,
    Category::DDoSAttack,
    Category::FTPBruteForce,
    Category::PingOfDeath,
    Category::Phishing,
    Category::FraudVoIP,
    Category::OpenProxy,
    Category::WebSpam,
    Category::EmailSpam,
    Category::BlogSpam,
    Category::VPNAddress,
    Category::PortScan,
    Category::Hacking,
    Category::SQLInjection,
    Category::Spoofing,
    Category::BruteForce,
    Category::BadWebBot,
    Category::ExploitedHost,
    Category::WebAppAttack,
    Category::SSHAttack,
    Category::IoTTargeted,
];

#[test]
fn category_codes_are_one_to_twenty_three() {
    for (i, c) in ALL.iter().enumerate() {
        assert_eq!(c.code(), i as u32 + 1);
    }
    assert_eq!(Category::Hacking.code(), 15);
    assert_eq!(Category::WebAppAttack.code(), 21);
    assert_eq!(Category::BadWebBot.code(), 19);
    assert_eq!(Category::BruteForce.code(), 18);
}

#[test]
fn new_report_is_empty() {
    let r = Report::new("192.0.2.7");
    assert_eq!(r.ip(), "192.0.2.7");
    assert!(r.categories().is_empty());
    assert!(r.comment().is_none());
}

#[test]
fn add_category_keeps_each_once() {
    let r = Report::new("192.0.2.7")
        .add_category(Category::Hacking)
        .add_category(Category::PortScan)
        .add_category(Category::Hacking);
    assert_eq!(r.categories(), &vec![Category::Hacking, Category::PortScan]);
}

#[test]
fn add_categories_adds_all() {
    let r = Report::new("192.0.2.7")
        .add_category(Category::BadWebBot)
        .add_categories(vec![Category::Hacking, Category::BadWebBot, Category::WebAppAttack]);
    assert_eq!(
        r.categories(),
        &vec![Category::BadWebBot, Category::Hacking, Category::WebAppAttack]
    );
}

#[test]
fn remove_category_removes() {
    let r = Report::new("192.0.2.7")
        .add_categories(vec![Category::Hacking, Category::PortScan, Category::SSHAttack])
        .remove_category(&Category::PortScan)
        .remove_category(&Category::Phishing);
    assert_eq!(r.categories(), &vec![Category::Hacking, Category::SSHAttack]);
    let r = r.add_category(Category::PortScan).remove_category(&Category::PortScan);
    assert_eq!(r.categories(), &vec![Category::Hacking, Category::SSHAttack]);
}

#[test]
fn comments_are_replaced() {
    let r = Report::new("192.0.2.7").set_comment_text(String::from("GET /x"));
    assert_eq!(r.comment(), &Some(String::from("GET /x")));
    let r = r.set_comment(None);
    assert_eq!(r.comment(), &None);
    let r = r.set_comment(Some(String::from("a")));
    assert_eq!(r.comment(), &Some(String::from("a")));
}

#[test]
fn codes_are_joined_with_commas() {
    assert_eq!(category_codes(&vec![]), "");
    assert_eq!(category_codes(&vec![Category::Hacking]), "15");
    assert_eq!(
        category_codes(&vec![Category::Hacking, Category::WebAppAttack, Category::DNSCompromise]),
        "15,21,1"
    );
}

#[test]
fn http_body_stamps_comment() {
    let r = Report::new("198.51.100.3")
        .add_categories(vec![Category::Hacking, Category::BadWebBot])
        .set_comment_text(String::from("GET /bb.php"));
    let body = report_http_body(&r, "2021-05-01T10:00:00+00:00");
    assert_eq!(body.ip, "198.51.100.3");
    assert_eq!(body.categories, "15,19");
    assert_eq!(
        body.comment,
        Some(String::from("[2021-05-01T10:00:00+00:00] 198.51.100.3 - GET /bb.php"))
    );
    let plain = report_http_body(&Report::new("198.51.100.3"), "t");
    assert_eq!(plain.comment, None);
    assert_eq!(plain.categories, "");
}

#[test]
fn reports_are_rate_limited_per_address() {
    let mut t = ReportTimestamps::new();
    assert!(t.check_and_record("a", 1_000));
    assert!(!t.check_and_record("a", 1_000));
    assert!(!t.check_and_record("a", 1_000 + REPORT_INTERVAL_NANOS - 1));
    assert!(t.check_and_record("b", 2_000));
    assert!(t.check_and_record("a", 1_000 + REPORT_INTERVAL_NANOS));
    assert!(!t.check_and_record("a", 1_000 + REPORT_INTERVAL_NANOS + 5));
    assert!(!t.check_and_record("b", 2_000 + REPORT_INTERVAL_NANOS - 1));
    // A clock reading before the last report counts as no time passed.
    assert!(!t.check_and_record("b", 0));
}

#[test]
fn prepare_report_holds_back_repeats() {
    let mut t = ReportTimestamps::new();
    let r = Report::new("203.0.113.9")
        .add_category(Category::PortScan)
        .set_comment_text(String::from("scan"));
    let first = prepare_report(&mut t, &r, 10, "T1");
    let first = first.expect("first report is sent");
    assert_eq!(first.comment, Some(String::from("[T1] 203.0.113.9 - scan")));
    assert_eq!(first.categories, "14");
    assert!(prepare_report(&mut t, &r, 10 + 60_000_000_000, "T2").is_none());
    assert!(prepare_report(&mut t, &r, 10 + REPORT_INTERVAL_NANOS, "T3").is_some());
}

#[test]
fn interval_is_fifteen_minutes() {
    assert_eq!(REPORT_INTERVAL_NANOS, 15 * 60 * 1_000_000_000);
}

#[test]
fn decimal_text() {
    assert_eq!(decimal_string(0), "0");
    assert_eq!(decimal_string(7), "7");
    assert_eq!(decimal_string(23), "23");
    assert_eq!(decimal_string(4294967295), "4294967295");
}

#[test]
fn string_comparisons() {
    assert!(str_eq("POST", "POST"));
    assert!(!str_eq("POST", "post"));
    assert!(str_eq_ignore_ascii_case("X-Forwarded-For", "x-forwarded-for"));
    assert!(!str_eq_ignore_ascii_case("Host", "Hos"));
    assert!(!str_eq_ignore_ascii_case("Host", "Hosx"));
}

#[test]
fn comment_and_categories_are_independent() {
    let a = Report::new("192.0.2.1")
        .set_comment_text(String::from("c"))
        .add_category(Category::Spoofing);
    let b = Report::new("192.0.2.1")
        .add_category(Category::Spoofing)
        .set_comment_text(String::from("c"));
    assert_eq!(a.categories(), b.categories());
    assert_eq!(a.comment(), b.comment());
}

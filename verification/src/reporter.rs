use vstd::prelude::*;
use crate::text::{decimal, decimal_string, push_char};

verus! {

/// The abuse categories that a report can name, numbered 1 to 23 in this order.
#[derive(Debug, Clone, Copy, PartialEq, Eq, Hash, Structural)]
pub enum Category {
    DNSCompromise,
    DNSPoisoning,
    FraudOrders,
    DDoSAttack,
    FTPBruteForce,
    PingOfDeath,
    Phishing,
    FraudVoIP,
    OpenProxy,
    WebSpam,
    EmailSpam,
    BlogSpam,
    VPNAddress,
    PortScan,
    Hacking,
    SQLInjection,
    Spoofing,
    BruteForce,
    BadWebBot,
    ExploitedHost,
    WebAppAttack,
    SSHAttack,
    IoTTargeted,
}

/// The number under which a category is reported.
pub open spec fn category_code(c: Category) -> nat {
    match c {
        Category::DNSCompromise => 1,
        Category::DNSPoisoning => 2,
        Category::FraudOrders => 3,
        Category::DDoSAttack => 4,
        Category::FTPBruteForce => 5,
        Category::PingOfDeath => 6,
        Category::Phishing => 7,
        Category::FraudVoIP => 8,
        Category::OpenProxy => 9,
        Category::WebSpam => 10,
        Category::EmailSpam => 11,
        Category::BlogSpam => 12,
        Category::VPNAddress => 13,
        Category::PortScan => 14,
        Category::Hacking => 15,
        Category::SQLInjection => 16,
        Category::Spoofing => 17,
        Category::BruteForce => 18,
        Category::BadWebBot => 19,
        Category::ExploitedHost => 20,
        Category::WebAppAttack => 21,
        Category::SSHAttack => 22,
        Category::IoTTargeted => 23,
    }
}

impl Category {
    /// The number under which this category is reported.
    pub fn code(&self) -> (n: u32)
        ensures
            n == category_code(*self),
    {
        match self {
            Category::DNSCompromise => 1,
            Category::DNSPoisoning => 2,
            Category::FraudOrders => 3,
            Category::DDoSAttack => 4,
            Category::FTPBruteForce => 5,
            Category::PingOfDeath => 6,
            Category::Phishing => 7,
            Category::FraudVoIP => 8,
            Category::OpenProxy => 9,
            Category::WebSpam => 10,
            Category::EmailSpam => 11,
            Category::BlogSpam => 12,
            Category::VPNAddress => 13,
            Category::PortScan => 14,
            Category::Hacking => 15,
            Category::SQLInjection => 16,
            Category::Spoofing => 17,
            Category::BruteForce => 18,
            Category::BadWebBot => 19,
            Category::ExploitedHost => 20,
            Category::WebAppAttack => 21,
            Category::SSHAttack => 22,
            Category::IoTTargeted => 23,
        }
    }
}

/// Every category has a code from 1 to 23, and no two categories share one.
pub proof fn lemma_category_codes_distinct(a: Category, b: Category)
    ensures
        1 <= category_code(a) <= 23,
        category_code(a) == category_code(b) ==> a == b,
{
}

/// Where to send abuse reports, and with which key.
pub struct ReporterConfig {
    pub api_key: String,
    pub endpoint: String,
}

/// The abstract content of a report.
pub struct ReportView {
    pub ip: Seq<char>,
    pub categories: Set<Category>,
    pub comment: Option<Seq<char>>,
}

/// A report about one address: the categories of abuse seen, and a comment.
pub struct Report {
    ip: String,
    categories: Vec<Category>,
    comment: Option<String>,
}

impl View for Report {
    type V = ReportView;

    closed spec fn view(&self) -> ReportView {
        ReportView {
            ip: self.ip@,
            categories: self.categories@.to_set(),
            comment: self.comment.deep_view(),
        }
    }
}

/// The view of a report with `comment` as its comment.
pub open spec fn with_comment(v: ReportView, comment: Option<Seq<char>>) -> ReportView {
    ReportView { ip: v.ip, categories: v.categories, comment }
}

/// The view of a report with `c` among its categories.
pub open spec fn with_category(v: ReportView, c: Category) -> ReportView {
    ReportView { ip: v.ip, categories: v.categories.insert(c), comment: v.comment }
}

/// The view of a report with all of `cs` among its categories.
pub open spec fn with_categories(v: ReportView, cs: Seq<Category>) -> ReportView {
    ReportView { ip: v.ip, categories: v.categories.union(cs.to_set()), comment: v.comment }
}

/// The view of a report without `c` among its categories.
pub open spec fn without_category(v: ReportView, c: Category) -> ReportView {
    ReportView { ip: v.ip, categories: v.categories.remove(c), comment: v.comment }
}

/// Adding a category that a report names already changes nothing.
pub proof fn lemma_add_category_idempotent(v: ReportView, c: Category)
    ensures
        with_category(with_category(v, c), c) == with_category(v, c),
        with_category(v, c).categories.contains(c),
{
    assert(with_category(with_category(v, c), c).categories =~= with_category(v, c).categories);
}

/// Removing a category just added leaves the report as removing it alone does.
pub proof fn lemma_remove_undoes_add(v: ReportView, c: Category)
    ensures
        without_category(with_category(v, c), c) == without_category(v, c),
        !without_category(v, c).categories.contains(c),
{
    assert(without_category(with_category(v, c), c).categories =~= without_category(v, c).categories);
}

/// Adding a list of categories is adding them one after another.
pub proof fn lemma_add_categories_one_by_one(v: ReportView, cs: Seq<Category>, c: Category)
    ensures
        with_categories(v, cs.push(c)) == with_category(with_categories(v, cs), c),
        with_categories(v, Seq::empty()) == v,
{
    cs.lemma_push_to_set_commute(c);
    assert(with_categories(v, cs.push(c)).categories =~= with_category(with_categories(v, cs), c).categories);
    assert(Seq::<Category>::empty().to_set() =~= Set::<Category>::empty());
    assert(with_categories(v, Seq::empty()).categories =~= v.categories);
}

/// The comment does not depend on the categories, nor they on it.
pub proof fn lemma_comment_and_categories_independent(v: ReportView, c: Category, comment: Option<Seq<char>>)
    ensures
        with_comment(with_category(v, c), comment) == with_category(with_comment(v, comment), c),
        with_comment(without_category(v, c), comment) == without_category(with_comment(v, comment), c),
{
}

fn contains_category(v: &Vec<Category>, c: Category) -> (res: bool)
    ensures
        res == v@.contains(c),
{
    let mut i: usize = 0;
    while i < v.len()
        invariant
            0 <= i <= v.len(),
            forall|j: int| 0 <= j < i ==> v@[j] != c,
        decreases v.len() - i,
    {
        if v[i] == c {
            return true;
        }
        i = i + 1;
    }
    false
}

impl Report {
    /// The categories of a report never repeat.
    #[verifier::type_invariant]
    closed spec fn categories_unique(self) -> bool {
        self.categories@.no_duplicates()
    }

    /// A report about `ip` with no categories and no comment.
    pub fn new(ip: &str) -> (r: Report)
        ensures
            r@.ip == ip@,
            r@.categories == Set::<Category>::empty(),
            r@.comment is None,
    {
        let r = Report { ip: String::from_str(ip), categories: Vec::new(), comment: None };
        assert(r.categories@.to_set() =~= Set::<Category>::empty());
        r
    }

    /// The address that the report is about.
    pub fn ip(&self) -> (s: &String)
        ensures
            s@ == self@.ip,
    {
        &self.ip
    }

    /// The categories of the report, each once.
    pub fn categories(&self) -> (cs: &Vec<Category>)
        ensures
            cs@.to_set() == self@.categories,
            cs@.no_duplicates(),
    {
        proof { use_type_invariant(self); }
        &self.categories
    }

    /// The comment of the report.
    pub fn comment(&self) -> (c: &Option<String>)
        ensures
            c.deep_view() == self@.comment,
    {
        &self.comment
    }

    /// Replaces the comment.
    pub fn set_comment(self, comment: Option<String>) -> (r: Self)
        ensures
            r@ == with_comment(self@, comment.deep_view()),
    {
        proof { use_type_invariant(&self); }
        Report { ip: self.ip, categories: self.categories, comment }
    }

    /// Sets the comment to `comment`.
    pub fn set_comment_text(self, comment: String) -> (r: Self)
        ensures
            r@ == with_comment(self@, Some(comment@)),
    {
        proof { use_type_invariant(&self); }
        Report { ip: self.ip, categories: self.categories, comment: Some(comment) }
    }

    /// Adds a category; one that is there already stays there once.
    pub fn add_category(self, category: Category) -> (r: Self)
        ensures
            r@ == with_category(self@, category),
    {
        proof { use_type_invariant(&self); }
        let ghost old_cats = self.categories@;
        let mut categories = self.categories;
        if !contains_category(&categories, category) {
            categories.push(category);
            proof {
                assert(categories@ == old_cats.push(category));
                old_cats.lemma_push_to_set_commute(category);
                assert(categories@.no_duplicates()) by {
                    assert forall|i: int, j: int|
                        0 <= i < categories@.len() && 0 <= j < categories@.len() && i != j
                        implies categories@[i] != categories@[j] by {
                        if i == old_cats.len() as int {
                            assert(old_cats.contains(old_cats[j]));
                        } else if j == old_cats.len() as int {
                            assert(old_cats.contains(old_cats[i]));
                        }
                    }
                }
            }
        } else {
            assert(old_cats.to_set() =~= old_cats.to_set().insert(category));
        }
        Report { ip: self.ip, categories, comment: self.comment }
    }

    /// Adds each of `categories`.
    pub fn add_categories(self, categories: Vec<Category>) -> (r: Self)
        ensures
            r@ == with_categories(self@, categories@),
    {
        let mut r = self;
        let mut i: usize = 0;
        assert(categories@.take(0).to_set() =~= Set::<Category>::empty());
        assert(self@.categories.union(Set::<Category>::empty()) =~= self@.categories);
        while i < categories.len()
            invariant
                0 <= i <= categories.len(),
                r@ == with_categories(self@, categories@.take(i as int)),
            decreases categories.len() - i,
        {
            r = r.add_category(categories[i]);
            proof {
                assert(categories@.take(i + 1) == categories@.take(i as int).push(categories@[i as int]));
                categories@.take(i as int).lemma_push_to_set_commute(categories@[i as int]);
                assert(r@.categories =~= self@.categories.union(categories@.take(i + 1).to_set()));
            }
            i = i + 1;
        }
        assert(categories@.take(categories.len() as int) == categories@);
        r
    }

    /// Removes a category, if the report names it.
    pub fn remove_category(self, category: &Category) -> (r: Self)
        ensures
            r@ == without_category(self@, *category),
    {
        proof { use_type_invariant(&self); }
        let ghost old_cats = self.categories@;
        let mut kept: Vec<Category> = Vec::new();
        let mut i: usize = 0;
        while i < self.categories.len()
            invariant
                0 <= i <= self.categories.len(),
                old_cats == self.categories@,
                old_cats.no_duplicates(),
                kept@.no_duplicates(),
                kept@.to_set() =~= old_cats.take(i as int).to_set().remove(*category),
                forall|x: Category| kept@.contains(x) ==> old_cats.take(i as int).contains(x),
            decreases self.categories.len() - i,
        {
            let c = self.categories[i];
            proof {
                assert(old_cats.take(i + 1) == old_cats.take(i as int).push(c));
                old_cats.take(i as int).lemma_push_to_set_commute(c);
                assert(!old_cats.take(i as int).contains(c)) by {
                    if old_cats.take(i as int).contains(c) {
                        let k = choose|k: int| 0 <= k < i && old_cats.take(i as int)[k] == c;
                        assert(old_cats[k] == old_cats[i as int]);
                    }
                }
            }
            if c != *category {
                let ghost before = kept@;
                kept.push(c);
                proof {
                    assert(kept@ == before.push(c));
                    assert(!before.contains(c));
                    assert(kept@.no_duplicates()) by {
                        assert forall|a: int, b: int|
                            0 <= a < kept@.len() && 0 <= b < kept@.len() && a != b
                            implies kept@[a] != kept@[b] by {
                            if a == before.len() as int {
                                assert(before.contains(before[b]));
                            } else if b == before.len() as int {
                                assert(before.contains(before[a]));
                            }
                        }
                    }
                    before.lemma_push_to_set_commute(c);
                    assert forall|x: Category| kept@.contains(x) implies old_cats.take(i + 1).contains(x) by {
                        if x == c {
                            assert(old_cats.take(i + 1)[i as int] == c);
                        } else {
                            assert(before.contains(x));
                            let k = choose|k: int| 0 <= k < i && old_cats.take(i as int)[k] == x;
                            assert(old_cats.take(i + 1)[k] == x);
                        }
                    }
                }
            } else {
                proof {
                    assert forall|x: Category| kept@.contains(x) implies old_cats.take(i + 1).contains(x) by {
                        let k = choose|k: int| 0 <= k < i && old_cats.take(i as int)[k] == x;
                        assert(old_cats.take(i + 1)[k] == x);
                    }
                }
            }
            i = i + 1;
        }
        assert(old_cats.take(old_cats.len() as int) == old_cats);
        Report { ip: self.ip, categories: kept, comment: self.comment }
    }
}

/// The report codes of `cs`, in order, separated by commas.
pub open spec fn category_codes_text(cs: Seq<Category>) -> Seq<char>
    decreases cs.len(),
{
    if cs.len() == 0 {
        Seq::empty()
    } else if cs.len() == 1 {
        decimal(category_code(cs[0]))
    } else {
        category_codes_text(cs.drop_last()) + seq![','] + decimal(category_code(cs.last()))
    }
}

/// The comment as it is sent: `[timestamp] ip - comment`.
pub open spec fn sent_comment(timestamp: Seq<char>, ip: Seq<char>, comment: Seq<char>) -> Seq<char> {
    seq!['['] + timestamp + seq![']', ' '] + ip + seq![' ', '-', ' '] + comment
}

/// The body of the request that submits a report.
pub struct ReportHttpBody {
    pub ip: String,
    pub categories: String,
    pub comment: Option<String>,
}

/// Whether `body` submits the report `r` at the time written as `timestamp`:
/// the address, the codes of the report's categories (each once, in some
/// order), and the comment stamped with the time and the address.
pub open spec fn body_submits(body: ReportHttpBody, r: ReportView, timestamp: Seq<char>) -> bool {
    &&& body.ip@ == r.ip
    &&& exists|order: Seq<Category>|
        #![trigger category_codes_text(order)]
        order.no_duplicates() && order.to_set() == r.categories
            && body.categories@ == category_codes_text(order)
    &&& body.comment.deep_view() == match r.comment {
        Some(c) => Some(sent_comment(timestamp, r.ip, c)),
        None => None,
    }
}

/// The codes of `cs` separated by commas.
pub fn category_codes(cs: &Vec<Category>) -> (text: String)
    ensures
        text@ == category_codes_text(cs@),
{
    let mut text = String::new();
    let mut i: usize = 0;
    assert(cs@.take(0) == Seq::<Category>::empty());
    while i < cs.len()
        invariant
            0 <= i <= cs.len(),
            text@ == category_codes_text(cs@.take(i as int)),
        decreases cs.len() - i,
    {
        let code = decimal_string(cs[i].code());
        proof {
            assert(cs@.take(i + 1).drop_last() == cs@.take(i as int));
            assert(cs@.take(i + 1).last() == cs@[i as int]);
        }
        if i > 0 {
            push_char(&mut text, ',');
        } else {
            assert(cs@.take(1)[0] == cs@[0]);
        }
        text.append(code.as_str());
        i = i + 1;
    }
    assert(cs@.take(cs.len() as int) == cs@);
    text
}

/// Builds the body that submits `report`, with its comment stamped with
/// `timestamp` and the address.
pub fn report_http_body(report: &Report, timestamp: &str) -> (body: ReportHttpBody)
    ensures
        body_submits(body, report@, timestamp@),
{
    let cs = report.categories();
    let categories = category_codes(cs);
    let comment = match report.comment() {
        Some(c) => {
            let mut text = String::new();
            push_char(&mut text, '[');
            text.append(timestamp);
            push_char(&mut text, ']');
            push_char(&mut text, ' ');
            text.append(report.ip().as_str());
            push_char(&mut text, ' ');
            push_char(&mut text, '-');
            push_char(&mut text, ' ');
            text.append(c.as_str());
            assert(text@ == sent_comment(timestamp@, report@.ip, c@));
            Some(text)
        },
        None => None,
    };
    let body = ReportHttpBody { ip: report.ip().clone(), categories, comment };
    assert(category_codes_text(cs@) == body.categories@);
    body
}

/// The shortest time between two reports about one address, in nanoseconds
/// (15 minutes).
pub const REPORT_INTERVAL_NANOS: u64 = 900_000_000_000;

/// The time from `last` to `now`; zero where `now` is earlier (as
/// `Instant::duration_since` saturates).
pub open spec fn elapsed(now: u64, last: u64) -> int {
    if now >= last {
        now - last
    } else {
        0
    }
}

/// Whether a report about `ip` at time `now` is held back because the last
/// report about it, as `last_sent` records, is less than the interval ago.
pub open spec fn rate_limited(last_sent: Map<Seq<char>, u64>, ip: Seq<char>, now: u64) -> bool {
    last_sent.contains_key(ip) && elapsed(now, last_sent[ip]) < REPORT_INTERVAL_NANOS
}

/// The map that a list of (address, time) entries stands for.
pub open spec fn entries_map(s: Seq<(String, u64)>) -> Map<Seq<char>, u64>
    decreases s.len(),
{
    if s.len() == 0 {
        Map::empty()
    } else {
        entries_map(s.drop_last()).insert(s.last().0@, s.last().1)
    }
}

/// No address occurs twice in the entries.
pub open spec fn unique_addresses(s: Seq<(String, u64)>) -> bool {
    forall|i: int, j: int| 0 <= i < s.len() && 0 <= j < s.len() && i != j ==> s[i].0@ != s[j].0@
}

proof fn lemma_entries_map_lookup(s: Seq<(String, u64)>, k: Seq<char>)
    requires
        unique_addresses(s),
    ensures
        entries_map(s).contains_key(k) <==> exists|i: int| 0 <= i < s.len() && s[i].0@ == k,
        forall|i: int| 0 <= i < s.len() && s[i].0@ == k ==> entries_map(s)[k] == s[i].1,
    decreases s.len(),
{
    if s.len() > 0 {
        let d = s.drop_last();
        assert(unique_addresses(d));
        lemma_entries_map_lookup(d, k);
        if entries_map(s).contains_key(k) && s.last().0@ != k {
            let i = choose|i: int| 0 <= i < d.len() && d[i].0@ == k;
            assert(s[i].0@ == k);
        }
        if exists|i: int| 0 <= i < s.len() && s[i].0@ == k {
            let i = choose|i: int| 0 <= i < s.len() && s[i].0@ == k;
            if i < d.len() {
                assert(d[i].0@ == k);
            }
        }
    }
}

proof fn lemma_entries_map_update(s: Seq<(String, u64)>, i: int, e: (String, u64))
    requires
        unique_addresses(s),
        0 <= i < s.len(),
        e.0@ == s[i].0@,
    ensures
        entries_map(s.update(i, e)) =~= entries_map(s).insert(e.0@, e.1),
        unique_addresses(s.update(i, e)),
    decreases s.len(),
{
    let t = s.update(i, e);
    let d = s.drop_last();
    if i == s.len() - 1 {
        assert(t.drop_last() == d);
    } else {
        assert(t.drop_last() == d.update(i, e));
        assert(unique_addresses(d));
        lemma_entries_map_update(d, i, e);
        assert(s.last().0@ != e.0@);
    }
}

/// When each address was last reported.
pub struct ReportTimestamps {
    entries: Vec<(String, u64)>,
}

impl View for ReportTimestamps {
    type V = Map<Seq<char>, u64>;

    closed spec fn view(&self) -> Map<Seq<char>, u64> {
        entries_map(self.entries@)
    }
}

impl ReportTimestamps {
    /// Each address has one entry at most.
    pub closed spec fn wf(&self) -> bool {
        unique_addresses(self.entries@)
    }

    /// No address reported yet.
    pub fn new() -> (t: Self)
        ensures
            t.wf(),
            t@ == Map::<Seq<char>, u64>::empty(),
    {
        ReportTimestamps { entries: Vec::new() }
    }

    /// Decides whether a report about `ip` at time `now` is sent, and if it
    /// is, records `now` as the time it was last reported.
    pub fn check_and_record(&mut self, ip: &str, now: u64) -> (send: bool)
        requires
            old(self).wf(),
        ensures
            final(self).wf(),
            send == !rate_limited(old(self)@, ip@, now),
            send ==> final(self)@ == old(self)@.insert(ip@, now),
            !send ==> final(self)@ == old(self)@,
    {
        let key = String::from_str(ip);
        let mut i: usize = 0;
        let n = self.entries.len();
        while i < n
            invariant
                n == self.entries.len(),
                0 <= i <= n,
                key@ == ip@,
                unique_addresses(self.entries@),
                self.entries@ == old(self).entries@,
                forall|j: int| 0 <= j < i ==> self.entries@[j].0@ != ip@,
            decreases n - i,
        {
            if self.entries[i].0 == key {
                proof { lemma_entries_map_lookup(self.entries@, ip@); }
                let last = self.entries[i].1;
                let waited: u64 = if now >= last { now - last } else { 0 };
                if waited >= REPORT_INTERVAL_NANOS {
                    proof { lemma_entries_map_update(self.entries@, i as int, (key, now)); }
                    self.entries.set(i, (key, now));
                    return true;
                } else {
                    return false;
                }
            }
            i = i + 1;
        }
        proof { lemma_entries_map_lookup(self.entries@, ip@); }
        let ghost before = self.entries@;
        self.entries.push((key, now));
        assert(self.entries@.drop_last() == before);
        assert(unique_addresses(self.entries@)) by {
            assert forall|a: int, b: int|
                0 <= a < self.entries@.len() && 0 <= b < self.entries@.len() && a != b
                implies self.entries@[a].0@ != self.entries@[b].0@ by {
                if a < before.len() && b < before.len() {
                    assert(before[a] == self.entries@[a] && before[b] == self.entries@[b]);
                } else if a < before.len() {
                    assert(before[a] == self.entries@[a]);
                } else {
                    assert(before[b] == self.entries@[b]);
                }
            }
        }
        true
    }
}

/// Handles one report in the reporter's loop: `None` where it is held back
/// because its address was reported less than the interval before `now`;
/// otherwise records `now` for the address and gives the body to submit.
pub fn prepare_report(timestamps: &mut ReportTimestamps, report: &Report, now: u64, timestamp: &str)
    -> (body: Option<ReportHttpBody>)
    requires
        old(timestamps).wf(),
    ensures
        final(timestamps).wf(),
        body is None <==> rate_limited(old(timestamps)@, report@.ip, now),
        body is None ==> final(timestamps)@ == old(timestamps)@,
        body matches Some(b) ==> final(timestamps)@ == old(timestamps)@.insert(report@.ip, now)
            && body_submits(b, report@, timestamp@),
{
    if timestamps.check_and_record(report.ip().as_str(), now) {
        Some(report_http_body(report, timestamp))
    } else {
        None
    }
}

/// The first report about an address is never held back.
pub proof fn lemma_first_report_sent(last_sent: Map<Seq<char>, u64>, ip: Seq<char>, now: u64)
    requires
        !last_sent.contains_key(ip),
    ensures
        !rate_limited(last_sent, ip, now),
{
}

/// After a report about `ip` is sent at `now`, every report about `ip` in the
/// following interval is held back.
pub proof fn lemma_held_back_within_interval(last_sent: Map<Seq<char>, u64>, ip: Seq<char>, now: u64, later: u64)
    requires
        now <= later,
        later - now < REPORT_INTERVAL_NANOS,
    ensures
        rate_limited(last_sent.insert(ip, now), ip, later),
{
}

/// Once the interval has passed, a report about the same address is sent again.
pub proof fn lemma_sent_after_interval(last_sent: Map<Seq<char>, u64>, ip: Seq<char>, now: u64, later: u64)
    requires
        now <= later,
        later - now >= REPORT_INTERVAL_NANOS,
    ensures
        !rate_limited(last_sent.insert(ip, now), ip, later),
{
}

/// Sending a report about one address does not change whether reports about
/// another address are held back.
pub proof fn lemma_other_addresses_unaffected(
    last_sent: Map<Seq<char>, u64>,
    ip: Seq<char>,
    other: Seq<char>,
    now: u64,
    later: u64,
)
    requires
        ip != other,
    ensures
        rate_limited(last_sent.insert(ip, now), other, later) == rate_limited(last_sent, other, later),
{
}

/// The record of last sent reports after the reporter has handled `events`
/// (address and time of each report, in order) from an empty record: a report
/// that is not held back records its time.
pub open spec fn record_after(events: Seq<(Seq<char>, u64)>) -> Map<Seq<char>, u64>
    decreases events.len(),
{
    if events.len() == 0 {
        Map::empty()
    } else {
        let m = record_after(events.drop_last());
        let (ip, now) = events.last();
        if rate_limited(m, ip, now) {
            m
        } else {
            m.insert(ip, now)
        }
    }
}

/// Whether the `i`th of `events` is sent rather than held back.
pub open spec fn sent(events: Seq<(Seq<char>, u64)>, i: int) -> bool {
    !rate_limited(record_after(events.take(i)), events[i].0, events[i].1)
}

/// Whether the times of `events` never decrease.
pub open spec fn times_ordered(events: Seq<(Seq<char>, u64)>) -> bool {
    forall|a: int, b: int| 0 <= a <= b < events.len() ==> events[a].1 <= events[b].1
}

proof fn lemma_record_after_prefix(events: Seq<(Seq<char>, u64)>, k: int)
    requires
        times_ordered(events),
        0 <= k <= events.len(),
    ensures
        forall|ip: Seq<char>| #[trigger] record_after(events.take(k)).contains_key(ip) ==> exists|j: int|
            0 <= j < k && sent(events, j) && events[j].0 == ip && record_after(events.take(k))[ip] == events[j].1,
        forall|j: int| 0 <= j < k && sent(events, j) ==> record_after(events.take(k)).contains_key(#[trigger] events[j].0)
            && record_after(events.take(k))[events[j].0] >= events[j].1,
    decreases k,
{
    if k > 0 {
        lemma_record_after_prefix(events, k - 1);
        let t = events.take(k);
        assert(t.drop_last() == events.take(k - 1));
        assert(t.last() == events[k - 1]);
        let m = record_after(events.take(k - 1));
        let (ip, now) = events[k - 1];
        assert forall|x: Seq<char>| #[trigger] record_after(events.take(k)).contains_key(x) implies exists|j: int|
            0 <= j < k && sent(events, j) && events[j].0 == x && record_after(events.take(k))[x] == events[j].1 by {
            if sent(events, k - 1) && x == ip {
                assert(record_after(events.take(k))[x] == events[k - 1].1);
            } else {
                assert(m.contains_key(x));
                let j = choose|j: int| 0 <= j < k - 1 && sent(events, j) && events[j].0 == x && m[x] == events[j].1;
                assert(0 <= j < k && sent(events, j) && events[j].0 == x && record_after(events.take(k))[x] == events[j].1);
            }
        }
        assert forall|j: int| 0 <= j < k && sent(events, j) implies record_after(events.take(k)).contains_key(#[trigger] events[j].0)
            && record_after(events.take(k))[events[j].0] >= events[j].1 by {
            if j == k - 1 {
            } else if sent(events, k - 1) && events[j].0 == ip {
                assert(events[j].1 <= events[k - 1].1);
            } else {
                assert(m.contains_key(events[j].0));
            }
        }
    }
}

/// Over a whole run of reports whose times never decrease, a report is sent
/// exactly when no earlier report about the same address was sent less than
/// the interval before it; reports about other addresses play no part.
pub proof fn lemma_rate_limit_over_run(events: Seq<(Seq<char>, u64)>, i: int)
    requires
        times_ordered(events),
        0 <= i < events.len(),
    ensures
        sent(events, i) <==> !exists|j: int|
            0 <= j < i && sent(events, j) && events[j].0 == events[i].0 && events[i].1 - events[j].1
                < REPORT_INTERVAL_NANOS,
{
    lemma_record_after_prefix(events, i);
    let m = record_after(events.take(i));
    let (ip, now) = events[i];
    if exists|j: int|
        0 <= j < i && sent(events, j) && events[j].0 == ip && now - events[j].1 < REPORT_INTERVAL_NANOS {
        let j = choose|j: int|
            0 <= j < i && sent(events, j) && events[j].0 == ip && now - events[j].1 < REPORT_INTERVAL_NANOS;
        assert(m.contains_key(events[j].0));
        let j2 = choose|j2: int| 0 <= j2 < i && sent(events, j2) && events[j2].0 == ip && m[ip] == events[j2].1;
        assert(events[j2].1 <= now);
    }
    if rate_limited(m, ip, now) {
        let j = choose|j: int| 0 <= j < i && sent(events, j) && events[j].0 == ip && m[ip] == events[j].1;
        assert(events[j].1 <= now);
    }
}

/// One more report extends the run as `prepare_report` handles it: where the
/// record stands for the run so far, the report is sent exactly when
/// `prepare_report` gives a body, and the record it leaves stands for the
/// longer run.
pub proof fn lemma_run_step(events: Seq<(Seq<char>, u64)>, ip: Seq<char>, now: u64)
    ensures
        sent(events.push((ip, now)), events.len() as int) == !rate_limited(record_after(events), ip, now),
        record_after(events.push((ip, now))) == if rate_limited(record_after(events), ip, now) {
            record_after(events)
        } else {
            record_after(events).insert(ip, now)
        },
{
    let e = events.push((ip, now));
    assert(e.take(events.len() as int) == events);
    assert(e.drop_last() == events);
}

} // verus!

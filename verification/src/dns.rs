//! The DNS filter: what becomes of a query for a domain, by the blocklist and
//! by what the name itself looks like.

use crate::entropy::{entropy_exceeds, exceeds, is_uniform, lemma_uniform_never_exceeds};
use crate::error::InitializationError;
use crate::reporter::{PostRequest, Reporter};
use crate::text::{
    chars_of, lemma_occurs_in_longer, matches_at, occurs_at, occurs_in, slice_has_substring,
};
use vstd::prelude::*;

verus! {

/// The longest domain, in characters, that is not suspicious for its length.
pub const MAX_DOMAIN_CHARS: usize = 63;

/// The entropy bound, in bits per character, is `ENTROPY_BOUND_NUM /
/// ENTROPY_BOUND_DEN`: four and a half.
pub const ENTROPY_BOUND_NUM: u32 = 9;

pub const ENTROPY_BOUND_DEN: u32 = 2;

/// What becomes of a query.
#[derive(Debug, Clone, Copy, PartialEq, Eq, Structural)]
pub enum DNSResult {
    Allowed,
    Blocked,
    Suspicious,
}

/// One DNS query with the verdict it was given. The verdict is assigned when
/// the query is classified and never revised.
#[derive(Debug, Clone)]
pub struct DNSQuery {
    pub query_id: String,
    pub domain: String,
    pub record_type: String,
    pub timestamp: String,
    pub source_ip: String,
    pub result: DNSResult,
}

/// Where the label that ends before position `end` begins: just after the
/// last dot before `end`, or at 0 where there is none.
pub open spec fn label_start(domain: Seq<char>, end: int) -> int
    decreases end,
{
    if end <= 0 {
        0
    } else if domain[end - 1] == '.' {
        end
    } else {
        label_start(domain, end - 1)
    }
}

/// The registrable base of a domain: its last two labels with the dot
/// between them. A domain of a single label has none.
pub open spec fn base_domain(domain: Seq<char>) -> Option<Seq<char>> {
    let last = label_start(domain, domain.len() as int);
    if last == 0 {
        None
    } else {
        Some(domain.subrange(label_start(domain, last - 1), domain.len() as int))
    }
}

/// The domain is on the blocklist, itself or by its registrable base.
pub open spec fn listed(blocklist: Set<Seq<char>>, domain: Seq<char>) -> bool {
    ||| blocklist.contains(domain)
    ||| (base_domain(domain) matches Some(base) && blocklist.contains(base))
}

/// The name itself is alarming: it holds a double hyphen or the prefix of an
/// internationalised label (which may imitate another name), it is longer
/// than 63 characters, or its entropy is above four and a half bits per
/// character.
pub open spec fn looks_suspicious(domain: Seq<char>) -> bool {
    ||| occurs_in(domain, "--"@)
    ||| occurs_in(domain, ".xn--"@)
    ||| domain.len() > MAX_DOMAIN_CHARS
    ||| entropy_exceeds(domain, ENTROPY_BOUND_NUM as nat, ENTROPY_BOUND_DEN as nat)
}

/// The verdict on a domain. The blocklist is asked first, then the name.
pub open spec fn verdict(blocklist: Set<Seq<char>>, domain: Seq<char>) -> DNSResult {
    if listed(blocklist, domain) {
        DNSResult::Blocked
    } else if looks_suspicious(domain) {
        DNSResult::Suspicious
    } else {
        DNSResult::Allowed
    }
}

/// The kind under which a query is reported: by the verdict that makes it
/// worth a report.
pub open spec fn threat_kind(result: DNSResult) -> Seq<char> {
    match result {
        DNSResult::Blocked => "blocked_domain"@,
        DNSResult::Suspicious => "suspicious_domain"@,
        DNSResult::Allowed => Seq::<char>::empty(),
    }
}

/// The texts of a list of names.
pub open spec fn texts(names: Seq<String>) -> Seq<Seq<char>> {
    names.map_values(|name: String| name@)
}

/// The set of domains that a feed names. Order and repetition in the feed do
/// not count.
pub open spec fn names(feed: Seq<String>) -> Set<Seq<char>> {
    texts(feed).to_set()
}

/// The domains that the agent blocks before any feed has been read.
pub open spec fn builtin_blocklist() -> Set<Seq<char>> {
    set![
        "malwaresite.com"@,
        "phishingdomain.net"@,
        "suspicious-download.xyz"@,
        "trojan-c2.ru"@,
    ]
}

/// A domain has a registrable base exactly if it holds a dot.
pub proof fn lemma_base_needs_dot(domain: Seq<char>)
    ensures
        base_domain(domain) is Some <==> domain.contains('.'),
{
    lemma_label_start(domain, domain.len() as int);
}

/// The label before `end` begins within the text, after a dot or at 0, and
/// holds no dot itself.
pub proof fn lemma_label_start(domain: Seq<char>, end: int)
    requires
        0 <= end <= domain.len(),
    ensures
        0 <= label_start(domain, end) <= end,
        label_start(domain, end) > 0 ==> domain[label_start(domain, end) - 1] == '.',
        forall|i: int| label_start(domain, end) <= i < end ==> domain[i] != '.',
    decreases end,
{
    if end > 0 && domain[end - 1] != '.' {
        lemma_label_start(domain, end - 1);
    }
}

/// A domain that is on the blocklist, itself or by its registrable base, is
/// blocked, whatever it looks like.
pub proof fn lemma_listed_is_blocked(blocklist: Set<Seq<char>>, domain: Seq<char>)
    requires
        blocklist.contains(domain) || (base_domain(domain) matches Some(base) && blocklist.contains(
            base,
        )),
    ensures
        verdict(blocklist, domain) == DNSResult::Blocked,
{
}

/// A domain whose entropy is above four and a half bits per character, and
/// which is not on the blocklist, is suspicious.
pub proof fn lemma_high_entropy_is_suspicious(blocklist: Set<Seq<char>>, domain: Seq<char>)
    requires
        entropy_exceeds(domain, ENTROPY_BOUND_NUM as nat, ENTROPY_BOUND_DEN as nat),
        !listed(blocklist, domain),
    ensures
        verdict(blocklist, domain) == DNSResult::Suspicious,
{
}

/// A domain of one repeated character, of at most 63 characters and not on
/// the blocklist, is allowed, unless the character is a hyphen and stands
/// twice: its entropy is zero.
pub proof fn lemma_uniform_is_allowed(blocklist: Set<Seq<char>>, domain: Seq<char>)
    requires
        is_uniform(domain),
        domain.len() <= MAX_DOMAIN_CHARS,
        !listed(blocklist, domain),
        !occurs_in(domain, "--"@),
    ensures
        verdict(blocklist, domain) == DNSResult::Allowed,
{
    lemma_uniform_never_exceeds(domain, 9, 2);
    if occurs_in(domain, ".xn--"@) {
        reveal_strlit(".xn--");
        reveal_strlit("--");
        assert(".xn--"@.subrange(3, 5) =~= "--"@);
        assert(occurs_at(".xn--"@, "--"@, 3));
        lemma_occurs_in_longer(domain, ".xn--"@, "--"@);
    }
}

/// The filter of DNS queries. Its blocklist holds no domain twice.
pub struct DNSFilter {
    device_id: String,
    blocklist: Vec<String>,
    enabled: bool,
    doh_provider: String,
}

impl DNSFilter {
    #[verifier::type_invariant]
    spec fn distinct(self) -> bool {
        texts(self.blocklist@).no_duplicates()
    }

    pub closed spec fn device_view(&self) -> Seq<char> {
        self.device_id@
    }

    pub closed spec fn enabled(&self) -> bool {
        self.enabled
    }

    pub closed spec fn doh_provider_view(&self) -> Seq<char> {
        self.doh_provider@
    }

    /// The set of domains on the blocklist.
    pub closed spec fn blocklist_view(&self) -> Set<Seq<char>> {
        names(self.blocklist@)
    }

    /// `after` is `before` with the blocklist replaced by the domains that
    /// `feed` names, and nothing else changed.
    pub open spec fn refreshes(before: DNSFilter, feed: Set<Seq<char>>, after: DNSFilter) -> bool {
        &&& after.blocklist_view() == feed
        &&& after.device_view() == before.device_view()
        &&& after.enabled() == before.enabled()
        &&& after.doh_provider_view() == before.doh_provider_view()
    }

    /// A running filter for the device `device_id`, with an empty blocklist.
    pub fn new(device_id: &str) -> (made: Result<Self, InitializationError>)
        ensures
            made matches Ok(filter) && {
                &&& filter.device_view() == device_id@
                &&& filter.enabled()
                &&& filter.blocklist_view() == Set::<Seq<char>>::empty()
                &&& filter.doh_provider_view() == "https://dns.google/dns-query"@
            },
    {
        let blocklist: Vec<String> = Vec::new();
        assert(texts(blocklist@) =~= Seq::<Seq<char>>::empty());
        assert(names(blocklist@) =~= Set::<Seq<char>>::empty());
        Ok(
            DNSFilter {
                device_id: String::from_str(device_id),
                blocklist,
                enabled: true,
                doh_provider: String::from_str("https://dns.google/dns-query"),
            },
        )
    }

    pub fn device_id(&self) -> (id: &str)
        ensures
            id@ == self.device_view(),
    {
        self.device_id.as_str()
    }

    pub fn is_enabled(&self) -> (on: bool)
        ensures
            on == self.enabled(),
    {
        self.enabled
    }

    /// The resolver that the filter's queries go through.
    pub fn doh_provider(&self) -> (url: &str)
        ensures
            url@ == self.doh_provider_view(),
    {
        self.doh_provider.as_str()
    }

    /// How many domains the blocklist holds.
    pub fn blocklist_len(&self) -> (count: usize)
        ensures
            count == self.blocklist_view().len(),
    {
        proof {
            use_type_invariant(self);
            texts(self.blocklist@).unique_seq_to_set();
        }
        self.blocklist.len()
    }

    /// Replaces the blocklist by the domains that `feed` names. The new list
    /// is complete before it takes the place of the old one, so that no
    /// query is ever judged by a part of it.
    pub fn refresh_blocklist(&mut self, feed: &Vec<String>)
        ensures
            Self::refreshes(*old(self), names(feed@), *final(self)),
    {
        let fresh = distinct_names(feed);
        self.blocklist = fresh;
    }

    /// Replaces the blocklist by the built-in list of known phishing and
    /// malware domains.
    pub fn update_blocklist(&mut self)
        ensures
            Self::refreshes(*old(self), builtin_blocklist(), *final(self)),
    {
        let mut feed: Vec<String> = Vec::new();
        feed.push(String::from_str("malwaresite.com"));
        feed.push(String::from_str("phishingdomain.net"));
        feed.push(String::from_str("suspicious-download.xyz"));
        feed.push(String::from_str("trojan-c2.ru"));
        proof {
            let t = texts(feed@);
            assert(t[0] == "malwaresite.com"@);
            assert(t[1] == "phishingdomain.net"@);
            assert(t[2] == "suspicious-download.xyz"@);
            assert(t[3] == "trojan-c2.ru"@);
            assert(names(feed@) =~= builtin_blocklist());
        }
        self.refresh_blocklist(&feed);
    }

    /// Whether the blocklist holds the part of `domain` from position `from`
    /// to its end.
    fn holds_from(&self, domain: &[char], from: usize) -> (held: bool)
        requires
            from <= domain@.len(),
        ensures
            held == self.blocklist_view().contains(domain@.subrange(from as int, domain@.len() as int)),
    {
        let ghost wanted = domain@.subrange(from as int, domain@.len() as int);
        let mut i: usize = 0;
        while i < self.blocklist.len()
            invariant
                i <= self.blocklist@.len(),
                from <= domain@.len(),
                wanted == domain@.subrange(from as int, domain@.len() as int),
                forall|j: int| 0 <= j < i ==> texts(self.blocklist@)[j] != wanted,
            decreases self.blocklist.len() - i,
        {
            let entry = chars_of(self.blocklist[i].as_str());
            if entry.len() == domain.len() - from && matches_at(domain, entry.as_slice(), from) {
                assert(texts(self.blocklist@)[i as int] == wanted);
                assert(texts(self.blocklist@).contains(wanted));
                return true;
            }
            assert(texts(self.blocklist@)[i as int] == entry@);
            i += 1;
        }
        false
    }

    /// Whether `domain` is on the blocklist, itself or by its registrable
    /// base.
    pub fn is_blocked(&self, domain: &str) -> (blocked: bool)
        ensures
            blocked == listed(self.blocklist_view(), domain@),
    {
        let chars = chars_of(domain);
        let chars = chars.as_slice();
        assert(chars@.subrange(0, chars@.len() as int) =~= chars@);
        if self.holds_from(chars, 0) {
            return true;
        }
        let last: usize = start_of_label(chars, chars.len());
        if last == 0 {
            return false;
        }
        let first: usize = start_of_label(chars, last - 1);
        self.holds_from(chars, first)
    }

    /// Whether the name `domain` itself is alarming.
    pub fn is_suspicious(&self, domain: &str) -> (alarming: bool)
        ensures
            alarming == looks_suspicious(domain@),
    {
        let chars = chars_of(domain);
        let chars = chars.as_slice();
        if slice_has_substring(chars, "--") || slice_has_substring(chars, ".xn--") {
            return true;
        }
        if chars.len() > MAX_DOMAIN_CHARS {
            return true;
        }
        exceeds(chars, ENTROPY_BOUND_NUM, ENTROPY_BOUND_DEN)
    }

    /// The verdict on `domain`.
    pub fn classify(&self, domain: &str) -> (result: DNSResult)
        ensures
            result == verdict(self.blocklist_view(), domain@),
    {
        if self.is_blocked(domain) {
            DNSResult::Blocked
        } else if self.is_suspicious(domain) {
            DNSResult::Suspicious
        } else {
            DNSResult::Allowed
        }
    }

    /// The verdict on the domain that `query` asks for.
    pub fn filter_query(&self, query: &DNSQuery) -> (result: DNSResult)
        ensures
            result == verdict(self.blocklist_view(), query.domain@),
    {
        self.classify(query.domain.as_str())
    }

    /// Judges `query` and prepares the report that its verdict calls for: one
    /// report, naming the domain, for a blocked or suspicious query, and none
    /// for an allowed one.
    pub fn process_query(&self, reporter: &Reporter, query: &DNSQuery) -> (judged: (
        DNSResult,
        Option<PostRequest>,
    ))
        ensures
            judged.0 == verdict(self.blocklist_view(), query.domain@),
            judged.1 is Some <==> judged.0 != DNSResult::Allowed,
            judged.1 matches Some(request) ==> reporter.posts_threat(
                &request,
                self.device_view(),
                query.domain@,
                threat_kind(judged.0),
            ),
    {
        let result = self.filter_query(query);
        let request = match result {
            DNSResult::Allowed => None,
            DNSResult::Blocked => Some(
                reporter.report_threat(
                    self.device_id.as_str(),
                    query.domain.as_str(),
                    "blocked_domain",
                ),
            ),
            DNSResult::Suspicious => Some(
                reporter.report_threat(
                    self.device_id.as_str(),
                    query.domain.as_str(),
                    "suspicious_domain",
                ),
            ),
        };
        (result, request)
    }

    /// Stops the filter. Stopping a stopped filter changes nothing.
    pub fn stop(&mut self)
        ensures
            !final(self).enabled(),
            final(self).device_view() == old(self).device_view(),
            final(self).blocklist_view() == old(self).blocklist_view(),
            final(self).doh_provider_view() == old(self).doh_provider_view(),
    {
        proof {
            use_type_invariant(&*self);
        }
        self.enabled = false;
    }

    /// Refreshing twice from feeds that name the same domains leaves the
    /// blocklist, and with it every verdict, as it was after the first time.
    pub proof fn lemma_refresh_idempotent(
        start: DNSFilter,
        once: DNSFilter,
        twice: DNSFilter,
        feed: Set<Seq<char>>,
        domain: Seq<char>,
    )
        requires
            Self::refreshes(start, feed, once),
            Self::refreshes(once, feed, twice),
        ensures
            twice.blocklist_view() == once.blocklist_view(),
            verdict(twice.blocklist_view(), domain) == verdict(once.blocklist_view(), domain),
    {
    }
}

/// Where the label of `domain` that ends before position `end` begins.
pub fn start_of_label(domain: &[char], end: usize) -> (start: usize)
    requires
        end <= domain@.len(),
    ensures
        start == label_start(domain@, end as int),
        start <= end,
{
    let mut i: usize = end;
    while i > 0 && domain[i - 1] != '.'
        invariant
            i <= end,
            end <= domain@.len(),
            label_start(domain@, end as int) == label_start(domain@, i as int),
        decreases i,
    {
        i -= 1;
    }
    i
}

/// The names of `feed`, each once, in the order in which they first occur.
pub fn distinct_names(feed: &Vec<String>) -> (fresh: Vec<String>)
    ensures
        texts(fresh@).no_duplicates(),
        names(fresh@) == names(feed@),
{
    let mut fresh: Vec<String> = Vec::new();
    let mut i: usize = 0;
    assert(texts(fresh@) =~= Seq::<Seq<char>>::empty());
    while i < feed.len()
        invariant
            i <= feed@.len(),
            texts(fresh@).no_duplicates(),
            forall|d: Seq<char>|
                texts(fresh@).contains(d) <==> texts(feed@.take(i as int)).contains(d),
        decreases feed.len() - i,
    {
        let name = &feed[i];
        let ghost before = texts(fresh@);
        let ghost seen = texts(feed@.take(i as int));
        let known = name_among(&fresh, name);
        if !known {
            fresh.push(name.clone());
            assert(texts(fresh@) =~= before.push(name@));
        }
        proof {
            let now = texts(fresh@);
            let next = texts(feed@.take(i + 1));
            assert(next =~= seen.push(name@));
            assert forall|d: Seq<char>| now.contains(d) <==> next.contains(d) by {
                if next.contains(d) {
                    let k = choose|k: int| 0 <= k < next.len() && next[k] == d;
                    if k < seen.len() {
                        assert(seen[k] == d);
                        assert(seen.contains(d));
                        assert(before.contains(d));
                        let m = choose|m: int| 0 <= m < before.len() && before[m] == d;
                        assert(now[m] == d);
                    } else {
                        assert(d == name@);
                        if known {
                            assert(before.contains(d));
                        } else {
                            assert(now[now.len() - 1] == d);
                        }
                    }
                }
                if now.contains(d) {
                    let k = choose|k: int| 0 <= k < now.len() && now[k] == d;
                    if k < before.len() {
                        assert(before[k] == d);
                        assert(before.contains(d));
                        assert(seen.contains(d));
                        let m = choose|m: int| 0 <= m < seen.len() && seen[m] == d;
                        assert(next[m] == d);
                    } else {
                        assert(d == name@);
                        assert(next[next.len() - 1] == d);
                    }
                }
            }
        }
        i += 1;
    }
    proof {
        assert(feed@.take(i as int) =~= feed@);
        assert(names(fresh@) =~= names(feed@));
    }
    fresh
}

/// Whether `name` is among `list`.
fn name_among(list: &Vec<String>, name: &String) -> (found: bool)
    ensures
        found == texts(list@).contains(name@),
{
    let mut i: usize = 0;
    while i < list.len()
        invariant
            i <= list@.len(),
            forall|j: int| 0 <= j < i ==> texts(list@)[j] != name@,
        decreases list.len() - i,
    {
        if list[i] == *name {
            assert(texts(list@)[i as int] == name@);
            return true;
        }
        i += 1;
    }
    false
}

} // verus!

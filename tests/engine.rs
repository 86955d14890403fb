use subdomain_scan::address::{IpAddress, WildcardSet};
use subdomain_scan::cdn::{occurs, CdnSignatures};
use subdomain_scan::classify::{address_stage, classify, Finding, LookupFailure, LookupOutcome};
use subdomain_scan::context::AppContext;
use subdomain_scan::error::InitError;
use subdomain_scan::names::{baseline_name, candidate_name};
use subdomain_scan::pool::{probe_passes, select_resolvers, ProbeResult, ResolverPool};
use subdomain_scan::scan::Scan;
use subdomain_scan::wordlist::{keeps_line, wordlist_load};

fn strings(v: &[&str]) -> Vec<String> {
    v.iter().map(|s| s.to_string()).collect()
}

fn v4(a: u8, b: u8, c: u8, d: u8) -> IpAddress {
    IpAddress::V4(u32::from_be_bytes([a, b, c, d]))
}

fn probe(label: &str, handle: u32, answered: bool, elapsed_ms: u64) -> ProbeResult<u32> {
    ProbeResult { label: label.to_string(), handle, answered, elapsed_ms }
}

/// A stub network: the addresses and canonical names each candidate has.
struct Stub {
    addresses: Vec<(String, Vec<IpAddress>)>,
    canonical: Vec<(String, Vec<String>)>,
}

impl Stub {
    fn addresses_of(&self, name: &str) -> Result<Vec<IpAddress>, LookupFailure> {
        for (n, a) in &self.addresses {
            if n == name {
                return Ok(a.clone());
            }
        }
        Err(LookupFailure::NoRecords)
    }

    fn canonical_of(&self, name: &str) -> Result<Vec<String>, LookupFailure> {
        for (n, c) in &self.canonical {
            if n == name {
                return Ok(c.clone());
            }
        }
        Err(LookupFailure::NoRecords)
    }
}

struct Run {
    findings: Vec<Finding>,
    outcomes: usize,
    progress: usize,
    canonical_lookups: usize,
    found_any: bool,
    slots: Vec<(usize, u32)>,
}

/// Drives a scan against the stub, completing the newest launched lookup
/// first so that outcomes arrive out of wordlist order.
fn run(domain: &str, lines: &[&str], window: usize, stub: &Stub, baseline: Result<Vec<IpAddress>, LookupFailure>) -> Run {
    let probes = vec![probe("a", 0, true, 10), probe("b", 1, true, 20), probe("c", 2, true, 30)];
    let (ctx, _labels) = AppContext::build(domain.to_string(), &strings(lines), window, probes).unwrap();
    let wildcard = ctx.detect_wildcard(baseline);
    let (mut scan, pool, cdn) = ctx.into_scan();
    let mut pending = Vec::new();
    let mut r = Run { findings: Vec::new(), outcomes: 0, progress: 0, canonical_lookups: 0, found_any: false, slots: Vec::new() };
    while !scan.is_done() {
        while let Some(task) = scan.next_task(&pool) {
            assert!(scan.in_flight() <= window);
            r.slots.push((task.index, *pool.get(task.slot)));
            pending.push(task);
        }
        let task = pending.pop().unwrap();
        let stage = address_stage(task.name.clone(), stub.addresses_of(&task.name), &wildcard);
        let canonical = if stage.needs_canonical_lookup() {
            r.canonical_lookups += 1;
            stub.canonical_of(&task.name)
        } else {
            Err(LookupFailure::Other)
        };
        let outcome = stage.finish(canonical, &cdn);
        r.outcomes += 1;
        scan.record(&outcome);
        if let Some(f) = outcome.into_finding() {
            r.findings.push(f);
        }
    }
    r.progress = scan.progress();
    r.found_any = scan.found_any();
    r
}

fn example_stub(wild_extra: bool) -> Stub {
    let mut addresses = vec![
        ("www.example.com".to_string(), vec![v4(93, 184, 216, 34)]),
        ("mail.example.com".to_string(), vec![v4(93, 184, 216, 35)]),
    ];
    if wild_extra {
        addresses.push(("doesnotexist123.example.com".to_string(), vec![v4(10, 0, 0, 1)]));
    }
    Stub {
        addresses,
        canonical: vec![("www.example.com".to_string(), vec!["d111.cloudfront.net.".to_string()])],
    }
}

fn finding<'a>(r: &'a Run, name: &str) -> Option<&'a Finding> {
    r.findings.iter().find(|f| f.name == name)
}

#[test]
fn wordlist_with_entries_loads() {
    let lines = strings(&["# comment", "", "  www  ", "\tmail", "#api", "dev"]);
    let words = wordlist_load(&lines);
    assert_eq!(words, strings(&["www", "mail", "dev"]));
}

#[test]
fn wordlist_without_entries_loads_empty() {
    assert!(wordlist_load(&strings(&[])).is_empty());
    assert!(wordlist_load(&strings(&["# a", "   ", "", "  # b"])).is_empty());
}

#[test]
fn wordlist_without_entries_fails_initialization() {
    let probes = vec![probe("a", 0, true, 10)];
    let r = AppContext::build("example.com".to_string(), &strings(&["# a", "   ", ""]), 10, probes);
    assert_eq!(r.err(), Some(InitError::EmptyWordlist));
    let r = AppContext::<u32>::build("example.com".to_string(), &strings(&[]), 10, Vec::new());
    assert_eq!(r.err(), Some(InitError::EmptyWordlist));
}

#[test]
fn filtered_wordlist_loads_unchanged() {
    let words = wordlist_load(&strings(&[" www", "# x", "mail ", "www"]));
    assert_eq!(words, strings(&["www", "mail", "www"]));
    assert_eq!(wordlist_load(&words), words);
}

#[test]
fn lines_are_trimmed() {
    assert_eq!(wordlist_load(&strings(&["  a b  ", " x", "\u{3000}y\u{a0}\r"])), strings(&["a b", "x", "y"]));
    assert!(keeps_line("www"));
    assert!(!keeps_line(""));
    assert!(!keeps_line("#www"));
    assert!(keeps_line("w#w"));
}

#[test]
fn candidate_and_baseline_names() {
    assert_eq!(candidate_name("www", "example.com"), "www.example.com");
    assert_eq!(baseline_name("example.com"), "this-is-fake-wildcard-test-999.example.com");
}

#[test]
fn substring_search() {
    assert!(occurs("cloudfront.net", "d111.cloudfront.net."));
    assert!(occurs("", "abc"));
    assert!(occurs("", ""));
    assert!(!occurs("abc", "ab"));
    assert!(!occurs("cloudfront.net", "cloudfront.ne"));
    assert!(occurs("akamai.net", "xakamai.netx"));
}

#[test]
fn cdn_classification() {
    let cdn = CdnSignatures::builtin();
    assert!(cdn.fronts("something.cloudfront.net"));
    assert!(!cdn.fronts("something.example.org"));
    assert!(cdn.fronts_any(&strings(&["a.example.org", "b.fastly.net"])));
    assert!(!cdn.fronts_any(&strings(&[])));
    let own = CdnSignatures::new(strings(&["edge.test"]));
    assert!(own.fronts("x.edge.test"));
    assert!(!own.fronts("x.cloudfront.net"));
}

#[test]
fn probe_latency_limit() {
    assert!(probe_passes(true, 0));
    assert!(probe_passes(true, 150));
    assert!(!probe_passes(true, 151));
    assert!(!probe_passes(false, 10));
}

#[test]
fn selection_keeps_passing_resolvers_in_order() {
    let probes = vec![probe("slow", 0, true, 400), probe("ok1", 1, true, 20), probe("down", 2, false, 5), probe("ok2", 3, true, 150)];
    let (pool, labels) = select_resolvers(probes).unwrap();
    assert_eq!(labels, strings(&["ok1", "ok2"]));
    assert_eq!(pool.size(), 2);
    assert_eq!(*pool.get(0), 1);
    assert_eq!(*pool.get(1), 3);
}

#[test]
fn all_resolvers_timing_out_fails_initialization() {
    let probes = vec![probe("a", 0, false, 1000), probe("b", 1, false, 1000), probe("c", 2, false, 1000)];
    assert_eq!(select_resolvers(probes).err(), Some(InitError::NoUsableResolver));
    let probes = vec![probe("a", 0, false, 1000), probe("b", 1, false, 1000)];
    let r = AppContext::build("example.com".to_string(), &strings(&["www"]), 10, probes);
    assert_eq!(r.err().map(|e| e), Some(InitError::NoUsableResolver));
}

#[test]
fn empty_wordlist_is_reported_before_resolvers() {
    let r = AppContext::<u32>::build("example.com".to_string(), &strings(&["#"]), 10, Vec::new());
    assert_eq!(r.err(), Some(InitError::EmptyWordlist));
}

#[test]
fn round_robin_assignment() {
    let pool = ResolverPool::new(vec![100u32, 200, 300]).ok().unwrap();
    let expected = [100, 200, 300, 100, 200, 300, 100, 200, 300];
    for i in 0..9usize {
        assert_eq!(*pool.for_task(i), expected[i]);
        assert_eq!(pool.slot_for(i), i % 3);
    }
    assert!(ResolverPool::<u32>::new(Vec::new()).is_err());
}

#[test]
fn round_robin_during_scan() {
    let words: Vec<String> = (0..9).map(|i| format!("w{}", i)).collect();
    let lines: Vec<&str> = words.iter().map(|s| s.as_str()).collect();
    let r = run("example.com", &lines, 4, &Stub { addresses: Vec::new(), canonical: Vec::new() }, Err(LookupFailure::NoRecords));
    let mut slots = r.slots.clone();
    slots.sort();
    assert_eq!(slots, vec![(0, 0), (1, 1), (2, 2), (3, 0), (4, 1), (5, 2), (6, 0), (7, 1), (8, 2)]);
}

#[test]
fn wildcard_set_from_baseline() {
    let w = WildcardSet::from_baseline::<LookupFailure>(Ok(vec![v4(1, 2, 3, 4)]));
    assert!(w.contains(&v4(1, 2, 3, 4)));
    assert!(!w.contains(&v4(1, 2, 3, 5)));
    assert!(w.intersects(&vec![v4(9, 9, 9, 9), v4(1, 2, 3, 4)]));
    assert!(!w.intersects(&vec![]));
    let none = WildcardSet::from_baseline(Err(LookupFailure::TimedOut));
    assert!(!none.contains(&v4(1, 2, 3, 4)));
    assert!(!WildcardSet::empty().intersects(&vec![IpAddress::V6(1)]));
}

#[test]
fn wildcard_hit_is_suppressed_even_with_cdn_name() {
    let w = WildcardSet::from_baseline::<LookupFailure>(Ok(vec![v4(1, 2, 3, 4)]));
    let cdn = CdnSignatures::builtin();
    let o = classify("x.example.com".to_string(), Ok(vec![v4(1, 2, 3, 4)]), Ok(strings(&["x.cloudfront.net"])), &w, &cdn);
    assert!(o.is_wildcard);
    assert!(!o.is_cdn);
    assert!(!o.is_reportable());
    assert!(o.into_finding().is_none());
}

#[test]
fn wildcard_hit_skips_canonical_lookup() {
    let w = WildcardSet::from_baseline::<LookupFailure>(Ok(vec![v4(1, 2, 3, 4)]));
    let stage = address_stage("x.example.com".to_string(), Ok(vec![v4(5, 5, 5, 5), v4(1, 2, 3, 4)]), &w);
    assert!(stage.is_wildcard);
    assert!(!stage.needs_canonical_lookup());
    let stage = address_stage("y.example.com".to_string(), Ok(vec![v4(5, 5, 5, 5)]), &w);
    assert!(stage.needs_canonical_lookup());
}

#[test]
fn failed_lookup_is_not_reported() {
    let w = WildcardSet::empty();
    let cdn = CdnSignatures::builtin();
    for e in [LookupFailure::NoRecords, LookupFailure::TimedOut, LookupFailure::Other] {
        let o = classify("x.example.com".to_string(), Err(e), Ok(strings(&["x.cloudfront.net"])), &w, &cdn);
        assert!(!o.is_wildcard);
        assert!(!o.is_reportable());
        assert!(o.into_finding().is_none());
    }
}

#[test]
fn failed_canonical_lookup_means_no_cdn() {
    let w = WildcardSet::empty();
    let cdn = CdnSignatures::builtin();
    let o = classify("x.example.com".to_string(), Ok(vec![v4(5, 5, 5, 5)]), Err(LookupFailure::TimedOut), &w, &cdn);
    assert!(!o.is_cdn);
    let f = o.into_finding().unwrap();
    assert_eq!(f.name, "x.example.com");
    assert_eq!(f.addresses, vec![v4(5, 5, 5, 5)]);
}

#[test]
fn outcome_fields_are_kept() {
    let o = LookupOutcome { name: "a.b".to_string(), addresses: Ok(vec![v4(1, 1, 1, 1)]), is_wildcard: false, is_cdn: true };
    let f = o.into_finding().unwrap();
    assert!(f.is_cdn);
    assert_eq!(f.name, "a.b");
}

#[test]
fn end_to_end_without_wildcard() {
    let r = run("example.com", &["www", "mail", "doesnotexist123"], 50, &example_stub(false), Err(LookupFailure::NoRecords));
    assert_eq!(r.findings.len(), 2);
    let www = finding(&r, "www.example.com").unwrap();
    assert_eq!(www.addresses, vec![v4(93, 184, 216, 34)]);
    assert!(www.is_cdn);
    let mail = finding(&r, "mail.example.com").unwrap();
    assert_eq!(mail.addresses, vec![v4(93, 184, 216, 35)]);
    assert!(!mail.is_cdn);
    assert!(finding(&r, "doesnotexist123.example.com").is_none());
    assert_eq!(r.progress, 3);
    assert_eq!(r.outcomes, 3);
    assert!(r.found_any);
}

#[test]
fn end_to_end_with_wildcard() {
    let r = run("example.com", &["www", "mail", "doesnotexist123"], 50, &example_stub(true), Ok(vec![v4(10, 0, 0, 1)]));
    assert!(finding(&r, "doesnotexist123.example.com").is_none());
    assert!(finding(&r, "www.example.com").unwrap().is_cdn);
    assert!(!finding(&r, "mail.example.com").unwrap().is_cdn);
    assert_eq!(r.findings.len(), 2);
    assert_eq!(r.canonical_lookups, 2);
    assert_eq!(r.progress, 3);
}

#[test]
fn outcome_count_is_independent_of_window() {
    let lines = ["a", "# c", "b", "", "c", "d", "e"];
    for window in [1usize, 2, 3, 5, 100] {
        let r = run("example.org", &lines, window, &Stub { addresses: Vec::new(), canonical: Vec::new() }, Err(LookupFailure::NoRecords));
        assert_eq!(r.outcomes, 5);
        assert_eq!(r.progress, 5);
        assert!(!r.found_any);
        assert!(r.findings.is_empty());
    }
}

#[test]
fn scan_respects_window() {
    let pool = ResolverPool::new(vec![7u8]).ok().unwrap();
    let mut scan = Scan::new("d.org".to_string(), strings(&["a", "b", "c"]), 2);
    assert_eq!(scan.total(), 3);
    let t0 = scan.next_task(&pool).unwrap();
    let t1 = scan.next_task(&pool).unwrap();
    assert!(scan.next_task(&pool).is_none());
    assert_eq!((t0.index, t0.name.as_str(), t0.slot), (0, "a.d.org", 0));
    assert_eq!((t1.index, t1.name.as_str()), (1, "b.d.org"));
    let ok = LookupOutcome { name: t1.name.clone(), addresses: Ok(vec![v4(1, 1, 1, 1)]), is_wildcard: false, is_cdn: false };
    assert!(scan.record(&ok));
    assert_eq!(scan.in_flight(), 1);
    let t2 = scan.next_task(&pool).unwrap();
    assert_eq!(t2.name, "c.d.org");
    assert!(scan.next_task(&pool).is_none());
    assert!(!scan.is_done());
    assert!(scan.found_any());
}

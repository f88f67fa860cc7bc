use stratum_proxy::addr::IpRep;
use stratum_proxy::addr::ResolvedAddr;
use stratum_proxy::resolver::ResolveError;
use stratum_proxy::resolver::ResolveStep;
use stratum_proxy::resolver::UpstreamResolver;

fn upstream(a: u8, b: u8, c: u8, d: u8) -> ResolvedAddr {
    ResolvedAddr { ip: IpRep::V4 { a, b, c, d }, port: 443 }
}

#[test]
fn literal_host_bypasses_dns() {
    let mut r = UpstreamResolver::new(String::from("203.0.113.5"));
    match r.begin() {
        ResolveStep::Ready(a) => assert_eq!(a, upstream(203, 0, 113, 5)),
        ResolveStep::NeedLookup { .. } => panic!("a literal host must not be looked up"),
    }
    assert_eq!(r.lookups, 0);
}

#[test]
fn name_host_needs_one_lookup_of_host_and_port() {
    let mut r = UpstreamResolver::new(String::from("example-stratum.test"));
    match r.begin() {
        ResolveStep::Ready(_) => panic!("a name must be looked up"),
        ResolveStep::NeedLookup { domain } => assert_eq!(domain, "example-stratum.test:443"),
    }
    assert_eq!(r.lookups, 0);
}

#[test]
fn lookup_answer_is_cached_and_counted_once() {
    let mut r = UpstreamResolver::new(String::from("example-stratum.test"));
    let mut lookups_triggered: u32 = 0;
    for _ in 0..2 {
        match r.begin() {
            ResolveStep::Ready(a) => {
                assert_eq!(a, upstream(198, 51, 100, 7));
            }
            ResolveStep::NeedLookup { domain } => {
                assert_eq!(domain, "example-stratum.test:443");
                lookups_triggered += 1;
                let log = r.complete_lookup(Some(upstream(198, 51, 100, 7))).unwrap();
                assert_eq!(
                    log.render(),
                    "Successfully resolved example-stratum.test:443 to 198.51.100.7:443"
                );
            }
        }
    }
    assert_eq!(lookups_triggered, 1);
    assert_eq!(r.lookups, 1);
    assert_eq!(r.address(), upstream(198, 51, 100, 7));
    assert_eq!(r.address(), upstream(198, 51, 100, 7));
    assert_eq!(r.lookups, 1);
}

#[test]
fn empty_lookup_answer_is_a_resolution_error() {
    let mut r = UpstreamResolver::new(String::from("nowhere.test"));
    match r.begin() {
        ResolveStep::Ready(_) => panic!("a name must be looked up"),
        ResolveStep::NeedLookup { .. } => {}
    }
    let e = r.complete_lookup(None).unwrap_err();
    assert_eq!(e, ResolveError::DnsNoAddresses);
    assert_eq!(r.lookups, 1);
}

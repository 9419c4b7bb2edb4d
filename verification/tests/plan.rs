use zkp2p_tlsn::domain::Provider;
use zkp2p_tlsn::plan::compute_disclosure_plan;
use zkp2p_tlsn::plan::PlanError;

const SENT: &[u8] = b"GET /api/transfers/9 HTTP/1.1\r\nhost: wise.com\r\naccept: */*\r\n\r\n";
const RECEIVED: &[u8] =
    b"HTTP/1.1 200 OK\r\n\r\n{\"id\":9,\"state\":\"DONE\",\"targetAmount\":3.25,\"targetCurrency\":\"EUR\"}";

#[test]
fn test_disclosure_plan_ranges() {
    let plan = compute_disclosure_plan(&SENT.to_vec(), &RECEIVED.to_vec(), &Provider::Wise).unwrap();
    let (hs, he) = plan.host_range;
    assert_eq!(&SENT[hs..he], b"host: wise.com");
    assert_eq!(plan.field_ranges.len(), 4);
    for (start, end) in &plan.field_ranges {
        assert!(start < end && *end <= RECEIVED.len());
    }
    let (s0, e0) = plan.field_ranges[0];
    assert_eq!(&RECEIVED[s0..e0], b"\"id\":9");
}

#[test]
fn test_disclosure_plan_agrees_across_derivations() {
    // Commit-time and reveal-time planning are the same computation on the
    // same transcript bytes, so the two range sets agree byte for byte.
    let commit = compute_disclosure_plan(&SENT.to_vec(), &RECEIVED.to_vec(), &Provider::Wise).unwrap();
    let reveal = compute_disclosure_plan(&SENT.to_vec(), &RECEIVED.to_vec(), &Provider::Wise).unwrap();
    assert_eq!(commit.host_range, reveal.host_range);
    assert_eq!(commit.field_ranges, reveal.field_ranges);
}

#[test]
fn test_disclosure_plan_requires_host_binding() {
    let sent = b"GET /api HTTP/1.1\r\naccept: */*\r\n\r\n".to_vec();
    let r = compute_disclosure_plan(&sent, &RECEIVED.to_vec(), &Provider::Wise);
    assert!(matches!(r, Err(PlanError::HostHeaderMissing)));
}

#[test]
fn test_disclosure_plan_empty_registry_yields_empty_fields() {
    let plan =
        compute_disclosure_plan(&SENT.to_vec(), &RECEIVED.to_vec(), &Provider::PayPal).unwrap();
    assert_eq!(plan.field_ranges, Vec::<(usize, usize)>::new());
}

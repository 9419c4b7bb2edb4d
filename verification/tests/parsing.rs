use zkp2p_tlsn::domain::Provider;

fn pos_of(hay: &[u8], needle: &str) -> usize {
    let n = needle.as_bytes();
    (0..=hay.len() - n.len()).find(|&i| &hay[i..i + n.len()] == n).unwrap()
}

#[test]
fn test_parse_response_data_with_crlf_delimiter() {
    let raw = b"HTTP/1.1 200 OK\r\ncontent-type: application/json\r\n\r\n{\"a\":1}".to_vec();
    let (header, body) = zkp2p_tlsn::text_parser::parse_response_data(&raw);
    assert_eq!(header, b"HTTP/1.1 200 OK\r\ncontent-type: application/json\r\n\r\n".to_vec());
    assert_eq!(body, b"{\"a\":1}".to_vec());

    let (header2, body2) = zkp2p_tlsn::http::parse_response_data(&raw);
    assert_eq!(header2, header);
    assert_eq!(body2, body);
}

#[test]
fn test_parse_response_data_with_lf_delimiter() {
    let raw = b"HTTP/1.1 200 OK\n\nbody".to_vec();
    let (header, body) = zkp2p_tlsn::text_parser::parse_response_data(&raw);
    assert_eq!(header, b"HTTP/1.1 200 OK\n\n".to_vec());
    assert_eq!(body, b"body".to_vec());
}

#[test]
fn test_parse_response_data_without_delimiter_modes_differ() {
    // The two call sites keep reciprocal fallbacks: the provider-driven
    // resolver treats the whole buffer as body, the named resolver treats
    // it as header.
    let raw = b"no delimiter anywhere".to_vec();
    let (header, body) = zkp2p_tlsn::text_parser::parse_response_data(&raw);
    assert_eq!(header, Vec::<u8>::new());
    assert_eq!(body, raw);

    let (header2, body2) = zkp2p_tlsn::http::parse_response_data(&raw);
    assert_eq!(header2, raw);
    assert_eq!(body2, Vec::<u8>::new());
}

#[test]
fn test_find_field_ranges_wise_end_to_end() {
    // A received buffer whose body carries four of the six Wise fields.
    // The combined state+date pattern has no match here and must not
    // appear in the result.
    let header = "HTTP/1.1 200 OK\r\ncontent-type: application/json\r\n\r\n";
    let body = "{\"id\":12345,\"state\":\"OUTGOING_PAYMENT_SENT\",\"targetAmount\":10.50,\"targetCurrency\":\"USD\"}";
    let raw = format!("{}{}", header, body).into_bytes();
    let h = header.len();

    let named = zkp2p_tlsn::http::find_field_ranges(&raw);
    assert_eq!(named.len(), 4);

    let expected = [
        ("\"id\":12345", "paymentId"),
        ("\"state\":\"OUTGOING_PAYMENT_SENT\"", "state"),
        ("\"targetAmount\":10.50", "targetAmount"),
        ("\"targetCurrency\":\"USD\"", "targetCurrency"),
    ];
    for (k, (text, name)) in expected.iter().enumerate() {
        let (start, end, got_name) = &named[k];
        assert_eq!(got_name, name);
        assert_eq!(*start, h + pos_of(body.as_bytes(), text));
        assert_eq!(*end - *start, text.len());
        assert_eq!(&raw[*start..*end], text.as_bytes());
    }

    // The provider-driven resolver returns the same spans, unnamed.
    let unnamed = zkp2p_tlsn::text_parser::find_field_ranges(&raw, &Provider::Wise);
    assert_eq!(unnamed.len(), 4);
    for (k, (start, end)) in unnamed.iter().enumerate() {
        assert_eq!((*start, *end), (named[k].0, named[k].1));
    }
}

#[test]
fn test_find_field_ranges_empty_registry_is_not_an_error() {
    let raw = b"HTTP/1.1 200 OK\r\n\r\n{\"id\":12345}".to_vec();
    let ranges = zkp2p_tlsn::text_parser::find_field_ranges(&raw, &Provider::PayPal);
    assert_eq!(ranges, Vec::<(usize, usize)>::new());
}

#[test]
fn test_find_field_ranges_deterministic() {
    let raw = b"HTTP/1.1 200 OK\r\n\r\n{\"id\":7,\"state\":\"DONE\"}".to_vec();
    let first = zkp2p_tlsn::text_parser::find_field_ranges(&raw, &Provider::Wise);
    let second = zkp2p_tlsn::text_parser::find_field_ranges(&raw, &Provider::Wise);
    assert_eq!(first, second);
    assert_eq!(first.len(), 2);
}

#[test]
fn test_find_host_header_range_exact_span() {
    let sent = b"GET /api HTTP/1.1\r\nhost: wise.com\r\naccept: */*\r\n\r\n".to_vec();
    let (start, end) = zkp2p_tlsn::text_parser::find_host_header_range(&sent).unwrap();
    let h = pos_of(&sent, "host: wise.com");
    assert_eq!(start, h);
    assert_eq!(end, h + "host: wise.com".len());
    assert_eq!(&sent[start..end], b"host: wise.com");
}

#[test]
fn test_find_host_header_range_absent() {
    let sent = b"GET /api HTTP/1.1\r\naccept: */*\r\n\r\n".to_vec();
    assert_eq!(zkp2p_tlsn::text_parser::find_host_header_range(&sent), None);
    assert_eq!(zkp2p_tlsn::http::find_host_header_range(&sent), None);
}

#[test]
fn test_leftmost_match_skips_ill_shaped_occurrences() {
    // The first occurrence of the key has no digit value; the match is the
    // leftmost occurrence where the whole shape matches.
    let raw = b"HTTP/1.1 200 OK\r\n\r\n{\"id\":x,\"id\":5}".to_vec();
    let named = zkp2p_tlsn::http::find_field_ranges(&raw);
    assert_eq!(named.len(), 1);
    let (start, end, name) = &named[0];
    assert_eq!(name, "paymentId");
    assert_eq!(&raw[*start..*end], b"\"id\":5");
}

#[test]
fn test_split_takes_leftmost_delimiter() {
    let raw = b"a\n\nb\r\n\r\nc".to_vec();
    let (header, body) = zkp2p_tlsn::text_parser::parse_response_data(&raw);
    assert_eq!(header, b"a\n\n".to_vec());
    assert_eq!(body, b"b\r\n\r\nc".to_vec());
}

#[test]
fn test_host_header_is_case_sensitive() {
    let sent = b"GET / HTTP/1.1\r\nHost: wise.com\r\n\r\n".to_vec();
    assert_eq!(zkp2p_tlsn::text_parser::find_host_header_range(&sent), None);
}

#[test]
fn test_request_headers() {
    let extra = vec![("Cookie", "session=abc"), ("X-Access-Token", "tok")];
    let headers = zkp2p_tlsn::http::request_headers("wise.com", "agent/1.0", &extra);
    let expected: Vec<(String, String)> = [
        ("Host", "wise.com"),
        ("Accept", "*/*"),
        ("Accept-Encoding", "identity"),
        ("Connection", "close"),
        ("User-Agent", "agent/1.0"),
        ("Cookie", "session=abc"),
        ("X-Access-Token", "tok"),
    ]
    .iter()
    .map(|(k, v)| (k.to_string(), v.to_string()))
    .collect();
    assert_eq!(headers, expected);
}

#[test]
fn test_field_match_requires_value_shape() {
    // A key without a value of the right shape is not a match: the digits
    // are required, and a quoted value may not be empty.
    let raw = b"HTTP/1.1 200 OK\r\n\r\n{\"id\":x,\"state\":\"\",\"targetCurrency\":\"EUR\"}".to_vec();
    let named = zkp2p_tlsn::http::find_field_ranges(&raw);
    assert_eq!(named.len(), 1);
    assert_eq!(named[0].2, "targetCurrency");
}

use zkp2p_tlsn::chunked::decode_chunked;
use zkp2p_tlsn::chunked::ChunkedError;

#[test]
fn test_decode_chunked_round_trip() {
    let raw = b"7\r\nHello, \r\n6\r\nWorld!\r\n0\r\n\r\n".to_vec();
    assert_eq!(decode_chunked(&raw).unwrap(), b"Hello, World!".to_vec());
}

#[test]
fn test_decode_chunked_ignores_extension() {
    let raw = b"5;name=value\r\nhello\r\n0\r\n\r\n".to_vec();
    assert_eq!(decode_chunked(&raw).unwrap(), b"hello".to_vec());
}

#[test]
fn test_decode_chunked_hex_sizes() {
    let raw = b"A\r\n0123456789\r\n0\r\n\r\n".to_vec();
    assert_eq!(decode_chunked(&raw).unwrap(), b"0123456789".to_vec());
    let raw2 = b"a\r\n0123456789\r\n0\r\n\r\n".to_vec();
    assert_eq!(decode_chunked(&raw2).unwrap(), b"0123456789".to_vec());
}

#[test]
fn test_decode_chunked_accepts_leading_zeros() {
    let raw = b"0005\r\nhello\r\n0\r\n\r\n".to_vec();
    assert_eq!(decode_chunked(&raw).unwrap(), b"hello".to_vec());
}

#[test]
fn test_decode_chunked_non_hex_size_token_fails() {
    let raw = b"xyz\r\ndata\r\n0\r\n\r\n".to_vec();
    assert_eq!(decode_chunked(&raw), Err(ChunkedError::InvalidSizeToken));
}

#[test]
fn test_decode_chunked_size_exceeding_input_fails() {
    let raw = b"ff\r\nshort\r\n0\r\n\r\n".to_vec();
    assert_eq!(decode_chunked(&raw), Err(ChunkedError::ChunkExceedsInput));
}

#[test]
fn test_decode_chunked_empty_size_token_fails() {
    let raw = b";ext\r\ndata\r\n0\r\n\r\n".to_vec();
    assert_eq!(decode_chunked(&raw), Err(ChunkedError::EmptySizeToken));
}

#[test]
fn test_decode_chunked_missing_size_line_fails() {
    let raw = b"5".to_vec();
    assert_eq!(decode_chunked(&raw), Err(ChunkedError::MissingSizeLine));
}

#[test]
fn test_decode_chunked_missing_delimiter_fails() {
    // Five data bytes not followed by CRLF.
    let raw = b"5\r\nhelloXX0\r\n\r\n".to_vec();
    assert_eq!(decode_chunked(&raw), Err(ChunkedError::MissingChunkDelimiter));
}

#[test]
fn test_decode_chunked_bounded_chunk_count() {
    let mut long = Vec::new();
    for _ in 0..1000 {
        long.extend_from_slice(b"1\r\na\r\n");
    }
    long.extend_from_slice(b"0\r\n\r\n");
    assert_eq!(decode_chunked(&long), Err(ChunkedError::TooManyChunks));

    let mut ok = Vec::new();
    for _ in 0..999 {
        ok.extend_from_slice(b"1\r\na\r\n");
    }
    ok.extend_from_slice(b"0\r\n\r\n");
    assert_eq!(decode_chunked(&ok).unwrap().len(), 999);
}

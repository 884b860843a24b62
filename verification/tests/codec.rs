use bytes::BufMut;
use http_tunnel::codec::{
    ends_with, find_subsequence, starts_with, status_line_bytes, DecodeError, HttpCodec,
    TunnelResult, MAX_HTTP_CONNECT_SIZE,
};
use http_tunnel::error::{ErrorKind, IoError};

fn buffer_of(bytes: &[u8]) -> bytes::BytesMut {
    let mut buffer = bytes::BytesMut::with_capacity(bytes.len());
    buffer.put(bytes);
    buffer
}

#[test]
fn test_decode_valid_request() -> Result<(), DecodeError> {
    let http_req = b"CONNECT google.com:80 HTTP/1.1\r\n";
    let mut codec = HttpCodec {};
    let mut buffer = bytes::BytesMut::with_capacity(http_req.len());
    buffer.put(&http_req[..]);

    assert_eq!(codec.decode(&mut buffer)?.unwrap(), "google.com:80");
    Ok(())
}

#[test]
fn test_decode_valid_request_2() -> Result<(), DecodeError> {
    let http_req = b"CONNECT google.com:80 HTTP/1.1\r\nHost: google.com:80\r\nUser-Agent: curl/7.64.0\r\nProxy-Connection: Keep-Alive\r\n\r\n";
    let mut codec = HttpCodec {};
    let mut buffer = bytes::BytesMut::with_capacity(http_req.len());
    buffer.put(&http_req[..]);

    assert_eq!(codec.decode(&mut buffer)?.unwrap(), "google.com:80");
    Ok(())
}

#[test]
fn test_decode_invalid_request() {
    let http_req = b"CONNEC google.com:80 HTTP/1.1\r\n"; // CONNEC vs CONNECT
    let mut codec = HttpCodec {};
    let mut buffer = bytes::BytesMut::with_capacity(http_req.len());
    buffer.put(&http_req[..]);

    if let Err(DecodeError::IO(e)) = codec.decode(&mut buffer) {
        assert_eq!(e.kind(), ErrorKind::InvalidData);
    } else {
        panic!("Shoud not happen")
    }
}

#[test]
fn test_decode_large_request() {
    let http_req = b"CONNECT {}:80 HTTP/1.1\r\n";
    let mut codec = HttpCodec {};
    let mut buffer = bytes::BytesMut::new();
    for _ in 0..48 {
        buffer.put(&http_req[..]);
    }

    if let Err(DecodeError::IO(e)) = codec.decode(&mut buffer) {
        assert_eq!(e.kind(), ErrorKind::InvalidData);
    } else {
        panic!("Should not happen")
    }
}

#[test]
fn test_encode_200() -> Result<(), IoError> {
    let mut codec = HttpCodec {};
    let mut buffer = bytes::BytesMut::new();
    codec.encode(TunnelResult::Established, &mut buffer)?;
    assert_eq!(buffer, b"HTTP/1.1 200 OK\r\n\r\n"[..]);
    Ok(())
}

#[test]
fn decode_leaves_the_buffer_as_it_was() {
    let http_req = b"CONNECT example.com:443 HTTP/1.1\r\nHost: example.com\r\n\r\n";
    let mut codec = HttpCodec {};
    let mut buffer = buffer_of(http_req);
    let target = codec.decode(&mut buffer).unwrap();
    assert_eq!(target.as_deref(), Some("example.com:443"));
    assert_eq!(&buffer[..], &http_req[..]);
}

#[test]
fn decode_waits_for_the_end_of_a_line() {
    let mut codec = HttpCodec {};
    for held in [
        &b""[..],
        &b"C"[..],
        &b"CONNECT google.com:80 HTTP/1.1"[..],
        &b"CONNECT google.com:80 HTTP/1.1\r"[..],
        &b"CONNECT google.com:80 HTTP/1.1\n"[..],
        &b"GET / HTTP/1.1"[..],
    ] {
        let mut buffer = buffer_of(held);
        assert!(matches!(codec.decode(&mut buffer), Ok(None)));
    }
}

#[test]
fn decode_waits_however_long_an_unfinished_line_is() {
    let mut codec = HttpCodec {};
    let mut buffer = buffer_of(&vec![b'a'; 4096]);
    assert!(matches!(codec.decode(&mut buffer), Ok(None)));
}

#[test]
fn decode_is_incremental() {
    let mut codec = HttpCodec {};
    let mut buffer = bytes::BytesMut::new();
    buffer.put(&b"CONNECT goo"[..]);
    assert!(matches!(codec.decode(&mut buffer), Ok(None)));
    buffer.put(&b"gle.com:80 HTTP"[..]);
    assert!(matches!(codec.decode(&mut buffer), Ok(None)));
    buffer.put(&b"/1.1\r\n"[..]);
    assert_eq!(codec.decode(&mut buffer).unwrap().unwrap(), "google.com:80");
}

#[test]
fn decode_refuses_a_frame_at_the_limit() {
    let mut codec = HttpCodec {};
    let line = b"CONNECT a:1 HTTP/1.1\r\n";
    let mut at_limit = line.to_vec();
    at_limit.extend(std::iter::repeat(b'x').take(MAX_HTTP_CONNECT_SIZE - line.len() - 2));
    at_limit.extend_from_slice(b"\r\n");
    assert_eq!(at_limit.len(), 1024);
    let mut buffer = buffer_of(&at_limit);
    match codec.decode(&mut buffer) {
        Err(DecodeError::IO(fault)) => {
            assert_eq!(fault, IoError::FrameTooLarge(1024));
            assert_eq!(fault.kind(), ErrorKind::InvalidData);
            assert_eq!(fault.message(), "HTTP frame too large");
        }
        other => panic!("unexpected: {:?}", other),
    }

    let mut under_limit = line.to_vec();
    under_limit.extend(std::iter::repeat(b'x').take(MAX_HTTP_CONNECT_SIZE - line.len() - 3));
    under_limit.extend_from_slice(b"\r\n");
    assert_eq!(under_limit.len(), 1023);
    let mut buffer = buffer_of(&under_limit);
    assert_eq!(codec.decode(&mut buffer).unwrap().unwrap(), "a:1");
}

#[test]
fn decode_refuses_a_line_without_the_request_suffix() {
    let mut codec = HttpCodec {};
    for held in [
        &b"CONNECT google.com:80\r\n"[..],
        &b"CONNECT google.com:80 HTTP/1.0\r\n"[..],
        &b"CONNECT HTTP/1.1\r\n"[..],
        &b"connect google.com:80 HTTP/1.1\r\n"[..],
        &b"\r\n"[..],
    ] {
        let mut buffer = buffer_of(held);
        match codec.decode(&mut buffer) {
            Err(DecodeError::IO(fault)) => {
                assert_eq!(fault, IoError::InvalidRequest);
                assert_eq!(fault.kind(), ErrorKind::InvalidData);
            }
            other => panic!("unexpected: {:?}", other),
        }
    }
}

#[test]
fn decode_takes_the_first_request_suffix() {
    let mut codec = HttpCodec {};
    let mut buffer = buffer_of(b"CONNECT a:1 HTTP/1.1\r\nX: b HTTP/1.1\r\n");
    assert_eq!(codec.decode(&mut buffer).unwrap().unwrap(), "a:1");
    let mut buffer = buffer_of(b"CONNECT  HTTP/1.1\r\n");
    assert_eq!(codec.decode(&mut buffer).unwrap().unwrap(), "");
}

#[test]
fn decode_refuses_a_target_that_is_not_utf8() {
    let mut codec = HttpCodec {};
    let mut buffer = buffer_of(b"CONNECT \xff\xfe:80 HTTP/1.1\r\n");
    assert!(matches!(codec.decode(&mut buffer), Err(DecodeError::UTF8(_))));
}

#[test]
fn decode_keeps_a_target_that_is_utf8() {
    let mut codec = HttpCodec {};
    let mut buffer = buffer_of("CONNECT b\u{fc}cher.example:80 HTTP/1.1\r\n".as_bytes());
    assert_eq!(codec.decode(&mut buffer).unwrap().unwrap(), "b\u{fc}cher.example:80");
}

#[test]
fn encode_follows_the_table() {
    let table: [(TunnelResult, &[u8]); 5] = [
        (TunnelResult::Established, b"HTTP/1.1 200 OK\r\n\r\n"),
        (TunnelResult::BadRequest, b"HTTP/1.1 400 BAD_REQUEST\r\n\r\n"),
        (TunnelResult::Forbidden, b"HTTP/1.1 403 FORBIDDEN\r\n\r\n"),
        (TunnelResult::Timeout, b"HTTP/1.1 408 Timeout\r\n\r\n"),
        (TunnelResult::ServerError, b"HTTP/1.1 500 SERVER_ERROR\r\n\r\n"),
    ];
    let mut codec = HttpCodec {};
    for (outcome, line) in table {
        let mut buffer = bytes::BytesMut::new();
        codec.encode(outcome, &mut buffer).unwrap();
        assert_eq!(&buffer[..], line);
        assert_eq!(status_line_bytes(outcome), line);
    }
}

#[test]
fn encode_gives_codes_and_reasons() {
    assert_eq!(TunnelResult::Established.code(), 200);
    assert_eq!(TunnelResult::BadRequest.code(), 400);
    assert_eq!(TunnelResult::Forbidden.code(), 403);
    assert_eq!(TunnelResult::Timeout.code(), 408);
    assert_eq!(TunnelResult::ServerError.code(), 500);
    assert_eq!(TunnelResult::Established.reason(), "OK");
    assert_eq!(TunnelResult::BadRequest.reason(), "BAD_REQUEST");
    assert_eq!(TunnelResult::Timeout.reason(), "Timeout");
    assert_eq!(TunnelResult::ServerError.reason(), "SERVER_ERROR");
}

#[test]
fn encode_appends_to_what_the_buffer_holds() {
    let mut codec = HttpCodec {};
    let mut buffer = buffer_of(b"abc");
    codec.encode(TunnelResult::Timeout, &mut buffer).unwrap();
    assert_eq!(&buffer[..], &b"abcHTTP/1.1 408 Timeout\r\n\r\n"[..]);
}

#[test]
fn encode_twice_gives_the_same_bytes() {
    let mut codec = HttpCodec {};
    for outcome in [
        TunnelResult::Established,
        TunnelResult::BadRequest,
        TunnelResult::Forbidden,
        TunnelResult::Timeout,
        TunnelResult::ServerError,
    ] {
        let mut first = bytes::BytesMut::new();
        let mut second = bytes::BytesMut::with_capacity(64);
        codec.encode(outcome, &mut first).unwrap();
        codec.encode(outcome, &mut second).unwrap();
        assert_eq!(first, second);
    }
}

#[test]
fn find_subsequence_finds_the_first_place() {
    assert_eq!(find_subsequence(b"abcabc", b"bc"), Some(1));
    assert_eq!(find_subsequence(b"abcabc", b"abcabc"), Some(0));
    assert_eq!(find_subsequence(b"abcabc", b"c"), Some(2));
    assert_eq!(find_subsequence(b"abcabc", b"cb"), None);
    assert_eq!(find_subsequence(b"abc", b"abcd"), None);
    assert_eq!(find_subsequence(b"", b"a"), None);
    assert_eq!(find_subsequence(b"abc", b""), Some(0));
    assert_eq!(find_subsequence(b"", b""), Some(0));
    assert_eq!(find_subsequence(b"aab", b"ab"), Some(1));
}

#[test]
fn starts_with_and_ends_with_compare_bytes() {
    assert!(starts_with(b"CONNECT x", b"CONNECT "));
    assert!(!starts_with(b"CONNEC x", b"CONNECT "));
    assert!(!starts_with(b"CON", b"CONNECT "));
    assert!(starts_with(b"abc", b""));
    assert!(ends_with(b"line\r\n", b"\r\n"));
    assert!(!ends_with(b"line\r", b"\r\n"));
    assert!(!ends_with(b"\n", b"\r\n"));
    assert!(ends_with(b"", b""));
}

#[test]
fn faults_have_kinds_and_messages() {
    assert_eq!(IoError::InvalidRequest.kind(), ErrorKind::InvalidData);
    assert_eq!(IoError::InvalidRequest.message(), "Invalid HTTP request");
    assert_eq!(IoError::WriteFailed.kind(), ErrorKind::Other);
    assert_eq!(IoError::MissingPort.kind(), ErrorKind::InvalidInput);
    assert_eq!(IoError::InvalidPort.kind(), ErrorKind::InvalidInput);
    assert_eq!(IoError::LookupFailed.kind(), ErrorKind::Other);
    assert_eq!(IoError::NoAddress.kind(), ErrorKind::AddrNotAvailable);
    assert_eq!(IoError::InvalidCertificate.kind(), ErrorKind::InvalidInput);
    assert_eq!(IoError::InvalidCertificate.message(), "invalid certificate");
    assert_eq!(IoError::InvalidKey.kind(), ErrorKind::InvalidInput);
    assert_eq!(IoError::InvalidKey.message(), "invalid key");
}

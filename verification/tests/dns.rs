use http_tunnel::dns::{HostPort, Lookup, SimpleDnsResolver, SocketAddress};
use http_tunnel::error::{ErrorKind, IoError};

fn v4(a: u8, b: u8, c: u8, d: u8, port: u16) -> SocketAddress {
    SocketAddress::V4 { octets: [a, b, c, d], port }
}

#[test]
fn test_dns_resolve_ok() -> Result<(), IoError> {
    let mut dns_r = SimpleDnsResolver::new();
    let found = Lookup::Candidates(vec![v4(142, 250, 74, 46, 80)]);
    let res = dns_r.resolve("google.com:80", &found)?;
    assert_eq!(res, v4(142, 250, 74, 46, 80));
    Ok(())
}

#[test]
fn test_dns_resolve_error_missing_port() {
    let mut dns_r = SimpleDnsResolver::new();
    // Note: missing port
    match dns_r.resolve("google.com", &Lookup::Failed) {
        Ok(_) => panic!("Unexpected!"),
        Err(e) => {
            assert_eq!(e.kind(), ErrorKind::InvalidInput);
        }
    }
}

#[test]
fn test_dns_resolve_error_unknown_url() {
    let mut dns_r = SimpleDnsResolver::new();
    match dns_r.resolve("http://fooooooooooooooooooooooooooo.com:80", &Lookup::Failed) {
        Ok(_) => panic!("Unexpected!"),
        Err(e) => {
            assert_eq!(e, IoError::LookupFailed);
        }
    }
}

#[test]
fn resolve_refuses_a_missing_port_whatever_was_found() {
    let mut dns_r = SimpleDnsResolver::new();
    let found = Lookup::Candidates(vec![v4(127, 0, 0, 1, 80)]);
    assert_eq!(dns_r.resolve("localhost", &found), Err(IoError::MissingPort));
    assert_eq!(dns_r.resolve("", &found), Err(IoError::MissingPort));
}

#[test]
fn resolve_takes_the_first_candidate() {
    let mut dns_r = SimpleDnsResolver::new();
    let v6 = SocketAddress::V6 { octets: [0; 16], port: 8080, flowinfo: 0, scope_id: 0 };
    let found = Lookup::Candidates(vec![v6, v4(10, 0, 0, 1, 8080), v4(10, 0, 0, 2, 8080)]);
    assert_eq!(dns_r.resolve("example.org:8080", &found), Ok(v6));
}

#[test]
fn resolve_without_candidates_has_no_address() {
    let mut dns_r = SimpleDnsResolver::new();
    let res = dns_r.resolve("example.org:8080", &Lookup::Candidates(vec![]));
    assert_eq!(res, Err(IoError::NoAddress));
    assert_eq!(IoError::NoAddress.kind(), ErrorKind::AddrNotAvailable);
}

#[test]
fn parse_target_splits_at_the_last_colon() {
    assert_eq!(
        SimpleDnsResolver::parse_target("google.com:80"),
        Ok(HostPort { host_len: 10, port: 80 })
    );
    assert_eq!(
        SimpleDnsResolver::parse_target("[::1]:8443"),
        Ok(HostPort { host_len: 5, port: 8443 })
    );
    assert_eq!(SimpleDnsResolver::parse_target(":0"), Ok(HostPort { host_len: 0, port: 0 }));
    assert_eq!(
        SimpleDnsResolver::parse_target("h:65535"),
        Ok(HostPort { host_len: 1, port: 65535 })
    );
    assert_eq!(
        SimpleDnsResolver::parse_target("h:+0080"),
        Ok(HostPort { host_len: 1, port: 80 })
    );
    assert_eq!(
        SimpleDnsResolver::parse_target("b\u{fc}cher.example:80"),
        Ok(HostPort { host_len: 15, port: 80 })
    );
}

#[test]
fn parse_target_refuses_what_is_no_port() {
    for target in ["h:", "h:+", "h:-1", "h:65536", "h:99999999999999999999", "h:8a", "h: 80", "h:80 ", "a:b:c"] {
        assert_eq!(SimpleDnsResolver::parse_target(target), Err(IoError::InvalidPort), "{}", target);
    }
    assert_eq!(SimpleDnsResolver::parse_target("google.com"), Err(IoError::MissingPort));
}

#[test]
fn parse_target_agrees_with_integer_parsing() {
    for port in ["0", "7", "080", "65535", "65536", "+1", "++1", "", "1e3", "000000000000000000001"] {
        let target = format!("host:{}", port);
        let expected = port.parse::<u16>().ok();
        let parsed = SimpleDnsResolver::parse_target(&target).ok().map(|parts| parts.port);
        assert_eq!(parsed, expected, "{}", target);
    }
}

use udp_relay::{
    frame, parse_header, DropReason, Frame, IdAllocator, Role, Route, SessionTable, SourceAddr,
    UdpRelay,
};

const LISTENER: u64 = 0;
const RESOLVER: u64 = 1;

fn relay(role: Role, capacity: usize) -> UdpRelay {
    UdpRelay::new(role, LISTENER, RESOLVER, 2, capacity)
}

fn client(n: u8) -> SourceAddr {
    SourceAddr::v4([127, 0, 0, n], 40000 + n as u16)
}

fn socks5_ping(frag: u8) -> Vec<u8> {
    let mut d = vec![0, 0, frag, 1, 93, 184, 216, 34, 0x1f, 0x90];
    d.extend_from_slice(b"PING");
    d
}

#[test]
fn socks5_ipv4_ping_yields_header_and_payload() {
    let mut r = relay(Role::Client, 4);
    let d = socks5_ping(0);
    let start = match r.frame(&d) {
        Ok(Frame::Plain { start }) => start,
        other => panic!("unexpected frame {:?}", other),
    };
    assert_eq!(start, 3);
    let q = r.handle_request(client(1), &d[start..]).unwrap();
    assert_eq!(q.header.atyp, 1);
    assert_eq!(q.header.host, vec![93, 184, 216, 34]);
    assert_eq!(q.header.port, 8080);
    assert_eq!(q.header.len, 7);
    assert!(q.deliver);
    assert!(q.created);
    assert_eq!(&d[start + q.header.len..], b"PING");
}

#[test]
fn socks5_fragment_is_dropped() {
    let d = socks5_ping(1);
    assert_eq!(frame(Role::Client, &d), Err(DropReason::Fragmented));
}

#[test]
fn two_byte_datagram_is_too_short() {
    assert_eq!(frame(Role::Client, &[0, 0]), Err(DropReason::TooShort));
    assert_eq!(frame(Role::Server, &[1, 2]), Err(DropReason::TooShort));
}

#[test]
fn server_hands_datagram_to_cipher() {
    assert_eq!(frame(Role::Server, &[1, 2, 3]), Ok(Frame::Encrypted));
}

#[test]
fn decrypt_failure_changes_nothing() {
    let mut r = relay(Role::Server, 4);
    assert_eq!(r.handle_decrypted(client(1), None).unwrap_err(), DropReason::DecryptFailed);
    assert_eq!(r.session_of(&client(1)), None);
    assert_eq!(r.session_addr(2), None);
}

#[test]
fn decrypted_datagram_creates_session() {
    let mut r = relay(Role::Server, 4);
    let plain = socks5_ping(0)[3..].to_vec();
    let q = r.handle_decrypted(client(1), Some(&plain)).unwrap();
    assert_eq!(q.id, 2);
    assert!(q.created);
    assert_eq!(r.session_of(&client(1)), Some(2));
}

#[test]
fn decrypted_datagram_with_bad_header_is_dropped() {
    let mut r = relay(Role::Server, 4);
    assert_eq!(r.frame(&[7, 7, 7, 7]), Ok(Frame::Encrypted));
    assert_eq!(r.handle_decrypted(client(1), Some(&[7, 7, 7])).unwrap_err(), DropReason::InvalidHeader);
    assert_eq!(r.session_of(&client(1)), None);
}

#[test]
fn distinct_sources_get_distinct_ids() {
    let mut r = relay(Role::Client, 4);
    let d = &socks5_ping(0)[3..];
    let a = r.handle_request(client(1), d).unwrap();
    let b = r.handle_request(client(2), d).unwrap();
    assert_ne!(a.id, b.id);
    let again = r.handle_request(client(1), d).unwrap();
    assert_eq!(again.id, a.id);
    assert!(!again.created);
}

#[test]
fn indices_agree_after_insert_and_remove() {
    let mut t = SessionTable::new(10, 3);
    t.insert(10, client(1));
    t.insert(12, client(2));
    assert_eq!(t.lookup_by_id(12), Some(client(2)));
    assert_eq!(t.lookup_by_addr(&client(2)), Some(12));
    assert_eq!(t.remove(10), Some(client(1)));
    assert_eq!(t.lookup_by_id(10), None);
    assert!(!t.contains_addr(&client(1)));
    assert_eq!(t.lookup_by_addr(&client(2)), Some(12));
    assert_eq!(t.remove(10), None);
}

#[test]
fn live_id_is_not_reissued() {
    let mut r = relay(Role::Client, 2);
    let d = &socks5_ping(0)[3..];
    let a = r.handle_request(client(1), d).unwrap();
    let b = r.handle_request(client(2), d).unwrap();
    assert_eq!((a.id, b.id), (2, 3));
    assert_eq!(r.handle_request(client(3), d).unwrap_err(), DropReason::NoFreeId);
    assert_eq!(r.destroy(a.id), Some(client(1)));
    let c = r.handle_request(client(3), d).unwrap();
    assert_eq!(c.id, a.id);
    assert_eq!(r.session_of(&client(2)), Some(b.id));
}

#[test]
fn destroying_twice_is_harmless() {
    let mut r = relay(Role::Client, 4);
    let q = r.handle_request(client(1), &socks5_ping(0)[3..]).unwrap();
    assert_eq!(r.destroy(q.id), Some(client(1)));
    assert_eq!(r.destroy(q.id), None);
    assert_eq!(r.session_addr(q.id), None);
    assert_eq!(r.session_of(&client(1)), None);
    assert_eq!(r.ready(q.id, false), Route::Stale);
}

#[test]
fn ready_routes_by_identifier() {
    let mut r = relay(Role::Client, 4);
    let q = r.handle_request(client(1), &socks5_ping(0)[3..]).unwrap();
    assert_eq!(r.ready(LISTENER, false), Route::Receive);
    assert_eq!(r.ready(LISTENER, true), Route::ListenerFault);
    assert_eq!(r.ready(RESOLVER, false), Route::Resolver);
    assert_eq!(r.ready(q.id, false), Route::Session { id: q.id });
    assert_eq!(r.ready(99, false), Route::Stale);
}

#[test]
fn header_without_payload_is_not_delivered() {
    let mut r = relay(Role::Client, 4);
    let q = r.handle_request(client(1), &[1, 10, 0, 0, 1, 0, 53]).unwrap();
    assert!(!q.deliver);
    assert!(q.created);
    assert_eq!(q.header.port, 53);
}

#[test]
fn invalid_header_is_dropped() {
    let mut r = relay(Role::Client, 4);
    assert_eq!(r.handle_request(client(1), &[9, 1, 2, 3]).unwrap_err(), DropReason::InvalidHeader);
    assert_eq!(r.handle_request(client(1), &[1, 1, 2, 3, 4, 0]).unwrap_err(), DropReason::InvalidHeader);
    assert_eq!(r.handle_request(client(1), &[]).unwrap_err(), DropReason::InvalidHeader);
    assert_eq!(r.session_of(&client(1)), None);
}

#[test]
fn domain_header_is_parsed() {
    let mut d = vec![3, 11];
    d.extend_from_slice(b"example.com");
    d.extend_from_slice(&[0x01, 0xbb, 0xaa]);
    let h = parse_header(&d).unwrap();
    assert_eq!(h.atyp, 3);
    assert_eq!(h.host, b"example.com".to_vec());
    assert_eq!(h.port, 443);
    assert_eq!(h.len, 15);
    assert!(parse_header(&d[..14]).is_none());
    assert!(parse_header(&[3]).is_none());
}

#[test]
fn ipv6_header_is_parsed() {
    let mut d = vec![4];
    d.extend_from_slice(&[0x20, 0x01, 0x0d, 0xb8, 0, 0, 0, 0, 0, 0, 0, 0, 0, 0, 0, 1]);
    d.extend_from_slice(&[0, 80]);
    let h = parse_header(&d).unwrap();
    assert_eq!(h.atyp, 4);
    assert_eq!(h.host.len(), 16);
    assert_eq!(h.host[0], 0x20);
    assert_eq!(h.port, 80);
    assert_eq!(h.len, 19);
}

#[test]
fn allocator_hands_out_lowest_free_id() {
    let mut a = IdAllocator::new(5, 3);
    assert_eq!(a.allocate(), Some(5));
    assert_eq!(a.allocate(), Some(6));
    assert_eq!(a.allocate(), Some(7));
    assert_eq!(a.allocate(), None);
    a.free(6);
    a.free(6);
    a.free(100);
    assert!(!a.is_used(6));
    assert!(a.is_used(7));
    assert_eq!(a.allocate(), Some(6));
}

#[test]
fn source_addresses_compare_by_value() {
    let a = SourceAddr::v4([10, 0, 0, 1], 80);
    assert_eq!(a.ip, 0x0a000001);
    assert!(a.same(&SourceAddr::v4([10, 0, 0, 1], 80)));
    assert!(!a.same(&SourceAddr::v4([10, 0, 0, 1], 81)));
    assert!(!SourceAddr::v6(0x0a000001, 80).same(&a));
}

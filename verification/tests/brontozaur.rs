use brontozaur::addr::{
    DecodeError, InetAddr, InetSocketAddr, InetSocketAddrExt, PartialSocketAddr, TorPubkey,
    Transport, ADDR_FORMAT_IPV4, ADDR_FORMAT_IPV6, ADDR_FORMAT_ONION_V3, TRANSPORT_TCP,
    TRANSPORT_UDP,
};
use brontozaur::ceremony::{Act, ActBuilder, ACT_ONE_LENGTH, ACT_THREE_LENGTH};

/// A valid Tor v3 public key (a well-formed ed25519 point).
const VALID_TOR_KEY: [u8; 32] = [
    215, 90, 152, 1, 130, 177, 10, 183, 213, 75, 254, 211, 201, 100, 7, 58, 14, 225, 114, 243,
    218, 166, 35, 37, 175, 2, 26, 104, 247, 7, 81, 26,
];

/// 32 bytes that are not a valid ed25519 point (y = 2 is off the curve).
const INVALID_TOR_KEY: [u8; 32] = [
    2, 0, 0, 0, 0, 0, 0, 0, 0, 0, 0, 0, 0, 0, 0, 0, 0, 0, 0, 0, 0, 0, 0, 0, 0, 0, 0, 0, 0, 0, 0,
    0,
];

fn tor_key() -> TorPubkey {
    TorPubkey::from_bytes(VALID_TOR_KEY.to_vec()).unwrap()
}

// Bookkeeping of a partial fill.
#[test]
fn partial_fill() {
    let mut builder = ActBuilder::new(Act::One(Vec::new()));

    let input = [1, 2, 3];
    let bytes_read = builder.fill(&input);
    assert_eq!(builder.target_len(), ACT_ONE_LENGTH);
    assert_eq!(builder.write_pos(), 3);
    assert!(!builder.is_finished());
    assert_eq!(bytes_read, input.len());
}

// Bookkeeping of an exact fill.
#[test]
fn exact_fill() {
    let mut builder = ActBuilder::new(Act::One(Vec::new()));

    let input = [0; ACT_ONE_LENGTH];
    let bytes_read = builder.fill(&input);
    assert_eq!(builder.target_len(), ACT_ONE_LENGTH);
    assert_eq!(builder.write_pos(), ACT_ONE_LENGTH);
    assert!(builder.is_finished());
    assert_eq!(builder.finalize().as_vec().as_slice(), &input[..]);
    assert_eq!(bytes_read, input.len());
}

// Bookkeeping of an overfill: the extra byte is not consumed.
#[test]
fn over_fill() {
    let mut builder = ActBuilder::new(Act::One(Vec::new()));

    let input = [0; ACT_ONE_LENGTH + 1];
    let bytes_read = builder.fill(&input);

    assert_eq!(builder.target_len(), ACT_ONE_LENGTH);
    assert_eq!(builder.write_pos(), ACT_ONE_LENGTH);
    assert!(builder.is_finished());
    assert_eq!(builder.finalize().as_vec().as_slice(), &input[..ACT_ONE_LENGTH]);
    assert_eq!(bytes_read, ACT_ONE_LENGTH);
}

// An overfill with distinct bytes keeps exactly the first fifty of them.
#[test]
fn over_fill_keeps_prefix() {
    let mut builder = ActBuilder::new(Act::One(Vec::new()));
    let mut input = Vec::new();
    for i in 0..(ACT_ONE_LENGTH + 1) {
        input.push(i as u8);
    }
    let bytes_read = builder.fill(&input);
    assert_eq!(bytes_read, ACT_ONE_LENGTH);
    assert!(builder.is_finished());
    assert_eq!(builder.finalize().as_vec().as_slice(), &input[..ACT_ONE_LENGTH]);
}

// Feeding 3 bytes then the remaining 47 completes the buffer with the
// concatenation of both fills, in order.
#[test]
fn fill_in_two_chunks() {
    let mut builder = ActBuilder::new(Act::One(Vec::new()));
    let first = [7, 8, 9];
    assert_eq!(builder.fill(&first), 3);
    assert_eq!(builder.write_pos(), 3);
    assert!(!builder.is_finished());

    let second = [1; 47];
    assert_eq!(builder.fill(&second), 47);
    assert!(builder.is_finished());

    let mut expected = first.to_vec();
    expected.extend_from_slice(&second);
    assert_eq!(builder.finalize().as_vec().as_slice(), &expected[..]);
}

// A builder for the third act has the longer target.
#[test]
fn act_three_target() {
    let mut builder = ActBuilder::new(Act::Three(Vec::new()));
    assert_eq!(builder.target_len(), ACT_THREE_LENGTH);
    let input = [5; ACT_THREE_LENGTH];
    assert_eq!(builder.fill(&input), ACT_THREE_LENGTH);
    let act = builder.finalize();
    assert_eq!(act.len(), ACT_THREE_LENGTH);
    assert_eq!(act.as_vec().as_slice(), &input[..]);
}

// Round-trip of a bare IPv4 address, and its exact wire layout.
#[test]
fn roundtrip_ipv4_bare() {
    let a = InetAddr::IPv4(vec![127, 0, 0, 1]);
    let u = a.to_uniform_addr();
    assert_eq!(u.addr_format, ADDR_FORMAT_IPV4);
    assert_eq!(u.addr.len(), 33);
    assert!(u.addr[..29].iter().all(|b| *b == 0));
    assert_eq!(&u.addr[29..], &[127, 0, 0, 1]);
    assert_eq!(u.port, None);
    assert_eq!(u.transport, None);
    assert_eq!(InetAddr::from_uniform_addr(u.clone()), Ok(a.clone()));
    assert_eq!(InetAddr::from_uniform_addr_lossy(u), Ok(a));
}

// Round-trip of a bare IPv6 address, and its exact wire layout.
#[test]
fn roundtrip_ipv6_bare() {
    let bytes: Vec<u8> = (1..=16).collect();
    let a = InetAddr::IPv6(bytes.clone());
    let u = a.to_uniform_addr();
    assert_eq!(u.addr_format, ADDR_FORMAT_IPV6);
    assert!(u.addr[..17].iter().all(|b| *b == 0));
    assert_eq!(&u.addr[17..], &bytes[..]);
    assert_eq!(InetAddr::from_uniform_addr(u), Ok(a));
}

// Round-trip of a bare Tor identity, and its exact wire layout.
#[test]
fn roundtrip_tor_bare() {
    let a = InetAddr::Tor(tor_key());
    let u = a.to_uniform_addr();
    assert_eq!(u.addr_format, ADDR_FORMAT_ONION_V3);
    assert_eq!(u.addr[0], 0);
    assert_eq!(&u.addr[1..], &VALID_TOR_KEY[..]);
    assert_eq!(InetAddr::from_uniform_addr(u), Ok(a));
}

// Round-trip of IP socket addresses carrying a port.
#[test]
fn roundtrip_sockets() {
    let v4 = InetSocketAddr::IPv4(vec![192, 168, 0, 1], 8080);
    let u4 = v4.to_uniform_addr();
    assert_eq!(u4.port, Some(8080));
    assert_eq!(InetSocketAddr::from_uniform_addr(u4.clone()), Ok(v4.clone()));
    assert_eq!(InetSocketAddr::from_uniform_addr_lossy(u4), Ok(v4));

    let v6 = InetSocketAddr::IPv6((100..116).collect(), 65535);
    let u6 = v6.to_uniform_addr();
    assert_eq!(InetSocketAddr::from_uniform_addr(u6), Ok(v6));

    let tor = InetSocketAddr::Tor(tor_key());
    let ut = tor.to_uniform_addr();
    assert_eq!(ut.port, None);
    assert_eq!(InetSocketAddr::from_uniform_addr(ut), Ok(tor));
}

// Round-trip of addresses with an optional port, in both shapes.
#[test]
fn roundtrip_partial() {
    let with_port = PartialSocketAddr::IPv4(vec![10, 0, 0, 7], Some(1234));
    let u = with_port.to_uniform_addr();
    assert_eq!(u.port, Some(1234));
    assert_eq!(PartialSocketAddr::from_uniform_addr(u), Ok(with_port));

    let without = PartialSocketAddr::IPv6((7..23).collect(), None);
    let u = without.to_uniform_addr();
    assert_eq!(u.port, None);
    assert_eq!(PartialSocketAddr::from_uniform_addr(u), Ok(without));

    let tor = PartialSocketAddr::Tor(tor_key());
    let u = tor.to_uniform_addr();
    assert_eq!(PartialSocketAddr::from_uniform_addr(u), Ok(tor));
}

// Round-trip of transport-annotated socket addresses.
#[test]
fn roundtrip_ext() {
    let tcp = InetSocketAddrExt(Transport::Tcp, InetSocketAddr::IPv4(vec![1, 2, 3, 4], 9735));
    let u = tcp.to_uniform_addr();
    assert_eq!(u.transport, Some(TRANSPORT_TCP));
    assert_eq!(u.port, Some(9735));
    assert_eq!(InetSocketAddrExt::from_uniform_addr(u), Ok(tcp));

    let quic = InetSocketAddrExt(
        Transport::Quic,
        InetSocketAddr::IPv6((30..46).collect(), 443),
    );
    let u = quic.to_uniform_addr();
    assert_eq!(InetSocketAddrExt::from_uniform_addr(u), Ok(quic));
}

// A record carrying a transport tag: the strict decoder for a shape lacking
// transport reports excess, the lossy decoder succeeds and drops the tag.
#[test]
fn strict_rejects_lossy_drops_transport() {
    let sock = InetSocketAddr::IPv4(vec![8, 8, 8, 8], 53);
    let mut u = sock.to_uniform_addr();
    u.transport = Some(TRANSPORT_UDP);
    assert_eq!(
        InetSocketAddr::from_uniform_addr(u.clone()),
        Err(DecodeError::ExcessiveData)
    );
    assert_eq!(InetSocketAddr::from_uniform_addr_lossy(u.clone()), Ok(sock));

    assert_eq!(
        PartialSocketAddr::from_uniform_addr(u.clone()),
        Err(DecodeError::ExcessiveData)
    );
    assert!(PartialSocketAddr::from_uniform_addr_lossy(u).is_ok());
}

// A bare address rejects a port strictly and drops it lossily.
#[test]
fn bare_addr_rejects_port() {
    let a = InetAddr::IPv4(vec![127, 0, 0, 1]);
    let mut u = a.to_uniform_addr();
    u.port = Some(80);
    assert_eq!(
        InetAddr::from_uniform_addr(u.clone()),
        Err(DecodeError::ExcessiveData)
    );
    assert_eq!(InetAddr::from_uniform_addr_lossy(u), Ok(a));
}

// An IP socket record without a port is insufficient.
#[test]
fn socket_requires_port() {
    let mut u = InetSocketAddr::IPv4(vec![9, 9, 9, 9], 1).to_uniform_addr();
    u.port = None;
    assert_eq!(
        InetSocketAddr::from_uniform_addr(u.clone()),
        Err(DecodeError::InsufficientData)
    );
    assert_eq!(
        InetSocketAddr::from_uniform_addr_lossy(u),
        Err(DecodeError::InsufficientData)
    );
}

// A record with a port but no transport tag cannot decode into the
// transport-annotated shape.
#[test]
fn ext_requires_transport() {
    let u = InetSocketAddr::IPv4(vec![9, 9, 9, 9], 1).to_uniform_addr();
    assert_eq!(
        InetSocketAddrExt::from_uniform_addr(u),
        Err(DecodeError::InsufficientData)
    );
}

// A transport tag without a port is never silently accepted.
#[test]
fn ext_tag_without_port() {
    let mut u = InetSocketAddr::IPv4(vec![9, 9, 9, 9], 1).to_uniform_addr();
    u.port = None;
    u.transport = Some(TRANSPORT_TCP);
    assert_eq!(
        InetSocketAddrExt::from_uniform_addr(u),
        Err(DecodeError::InsufficientData)
    );

    let mut u = InetAddr::Tor(tor_key()).to_uniform_addr();
    u.transport = Some(TRANSPORT_TCP);
    assert_eq!(
        InetSocketAddrExt::from_uniform_addr(u.clone()),
        Err(DecodeError::InsufficientData)
    );
    u.port = Some(80);
    assert_eq!(
        InetSocketAddrExt::from_uniform_addr(u),
        Err(DecodeError::ExcessiveData)
    );
}

// Unrecognised format tags are rejected; the Tor v2 tag is among them.
#[test]
fn unsupported_format() {
    let mut u = InetAddr::IPv4(vec![1, 1, 1, 1]).to_uniform_addr();
    u.addr_format = 2;
    assert_eq!(
        InetAddr::from_uniform_addr(u.clone()),
        Err(DecodeError::UnsupportedAddrFormat)
    );
    u.addr_format = 9;
    assert_eq!(
        InetAddr::from_uniform_addr_lossy(u.clone()),
        Err(DecodeError::UnsupportedAddrFormat)
    );
    assert_eq!(
        PartialSocketAddr::from_uniform_addr(u),
        Err(DecodeError::UnsupportedAddrFormat)
    );
}

// A transport tag outside the known set is rejected.
#[test]
fn unknown_transport() {
    let mut u = InetSocketAddr::IPv4(vec![4, 4, 4, 4], 4000).to_uniform_addr();
    u.transport = Some(9);
    assert_eq!(
        InetSocketAddrExt::from_uniform_addr(u),
        Err(DecodeError::UnknownTransport)
    );
}

// Key validation: the wrong length and an off-curve point are both rejected,
// a genuine key is accepted and keeps its bytes.
#[test]
fn tor_key_validation() {
    assert_eq!(
        TorPubkey::from_bytes(vec![0; 31]),
        Err(DecodeError::InvalidPubkey)
    );
    assert_eq!(
        TorPubkey::from_bytes(INVALID_TOR_KEY.to_vec()),
        Err(DecodeError::InvalidPubkey)
    );
    let key = tor_key();
    assert_eq!(key.as_bytes().as_slice(), &VALID_TOR_KEY[..]);
}

// A Tor record whose key bytes are off the curve fails to decode.
#[test]
fn invalid_pubkey_in_record() {
    let mut u = InetAddr::Tor(tor_key()).to_uniform_addr();
    u.addr = vec![0];
    u.addr.extend_from_slice(&INVALID_TOR_KEY);
    assert_eq!(
        InetAddr::from_uniform_addr(u.clone()),
        Err(DecodeError::InvalidPubkey)
    );
    assert_eq!(
        InetSocketAddr::from_uniform_addr_lossy(u),
        Err(DecodeError::InvalidPubkey)
    );
}

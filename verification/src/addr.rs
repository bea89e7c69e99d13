//! Uniform fixed-width codec for endpoint addresses.
//!
//! Every endpoint address — an IPv4 or IPv6 host, or a Tor v3 identity key —
//! is representable as a [`UniformAddr`]: a format tag, a fixed 33-byte raw
//! address slot (right-aligned, zero-padded on the left), an optional port
//! and an optional transport tag. Each address type converts to a record
//! with `to_uniform_addr` and back with `from_uniform_addr` (strict: fields
//! the target cannot carry are an error) or `from_uniform_addr_lossy`
//! (such fields are silently dropped).

use vstd::prelude::*;

verus! {

/// Length of the raw address slot: sized for the largest variant, a Tor v3
/// public key plus one reserved zero byte.
pub const ADDR_LEN: usize = 33;

/// Length of a Tor v3 (ed25519) public key.
pub const TOR_PUBLIC_KEY_LENGTH: usize = 32;

/// Format tag of an IPv4 host address.
pub const ADDR_FORMAT_IPV4: u8 = 0;
/// Format tag of an IPv6 host address.
pub const ADDR_FORMAT_IPV6: u8 = 1;
/// Format tag of a Tor v3 onion identity.
pub const ADDR_FORMAT_ONION_V3: u8 = 3;

/// Wire tag of the TCP transport.
pub const TRANSPORT_TCP: u8 = 1;
/// Wire tag of the UDP transport.
pub const TRANSPORT_UDP: u8 = 2;
/// Wire tag of the multipath-TCP transport.
pub const TRANSPORT_MTCP: u8 = 3;
/// Wire tag of the QUIC transport.
pub const TRANSPORT_QUIC: u8 = 4;

/// Why a uniform address record could not be decoded into a given
/// address type.
#[derive(Clone, Copy, Debug, PartialEq, Eq, Structural)]
pub enum DecodeError {
    /// The record carries a port or transport field that the target
    /// address type cannot represent.
    ExcessiveData,
    /// A field the target address type requires (a port, when a transport
    /// tag is expected) is absent.
    InsufficientData,
    /// The format tag is outside the set this codec recognises.
    UnsupportedAddrFormat,
    /// The transport tag is outside the known set.
    UnknownTransport,
    /// The Tor v3 key bytes fail validation.
    InvalidPubkey,
}

/// Transport protocol that can annotate a socket address.
#[derive(Clone, Copy, Debug, PartialEq, Eq, Structural)]
pub enum Transport {
    Tcp,
    Udp,
    Mtcp,
    Quic,
}

/// Wire tag of a transport protocol.
pub open spec fn spec_transport_tag(t: Transport) -> u8 {
    match t {
        Transport::Tcp => TRANSPORT_TCP,
        Transport::Udp => TRANSPORT_UDP,
        Transport::Mtcp => TRANSPORT_MTCP,
        Transport::Quic => TRANSPORT_QUIC,
    }
}

/// Transport protocol denoted by a wire tag, if the tag is known.
pub open spec fn spec_transport_of(tag: u8) -> Option<Transport> {
    if tag == TRANSPORT_TCP {
        Some(Transport::Tcp)
    } else if tag == TRANSPORT_UDP {
        Some(Transport::Udp)
    } else if tag == TRANSPORT_MTCP {
        Some(Transport::Mtcp)
    } else if tag == TRANSPORT_QUIC {
        Some(Transport::Quic)
    } else {
        None
    }
}

/// Executable counterpart of [`spec_transport_tag`].
pub fn transport_tag(t: Transport) -> (r: u8)
    ensures
        r == spec_transport_tag(t),
{
    match t {
        Transport::Tcp => TRANSPORT_TCP,
        Transport::Udp => TRANSPORT_UDP,
        Transport::Mtcp => TRANSPORT_MTCP,
        Transport::Quic => TRANSPORT_QUIC,
    }
}

/// Executable counterpart of [`spec_transport_of`].
pub fn transport_of(tag: u8) -> (r: Option<Transport>)
    ensures
        r == spec_transport_of(tag),
{
    if tag == TRANSPORT_TCP {
        Some(Transport::Tcp)
    } else if tag == TRANSPORT_UDP {
        Some(Transport::Udp)
    } else if tag == TRANSPORT_MTCP {
        Some(Transport::Mtcp)
    } else if tag == TRANSPORT_QUIC {
        Some(Transport::Quic)
    } else {
        None
    }
}

/// Whether 32 bytes form a valid Tor v3 (ed25519) public key; the answer is
/// a function of the bytes alone.
pub uninterp spec fn is_valid_tor_key(bytes: Seq<u8>) -> bool;

/// Relies on torut's `TorPublicKeyV3::from_bytes`, which accepts exactly the
/// 32-byte strings that decompress as ed25519 curve points — a deterministic
/// function of the bytes alone.
#[verifier::external_body]
fn tor_key_is_valid(bytes: &Vec<u8>) -> (r: bool)
    requires
        bytes@.len() == TOR_PUBLIC_KEY_LENGTH,
    ensures
        r == is_valid_tor_key(bytes@),
{
    let mut buf = [0u8; torut::onion::TORV3_PUBLIC_KEY_LENGTH];
    buf.copy_from_slice(&bytes[..]);
    torut::onion::TorPublicKeyV3::from_bytes(&buf).is_ok()
}

/// A validated Tor v3 identity key: 32 bytes that passed ed25519 point
/// validation at construction.
#[derive(Clone, Debug, PartialEq, Eq)]
pub struct TorPubkey {
    bytes: Vec<u8>,
}

impl View for TorPubkey {
    type V = Seq<u8>;

    closed spec fn view(&self) -> Seq<u8> {
        self.bytes@
    }
}

impl TorPubkey {
    /// A key is well formed when it has exactly 32 bytes that validate.
    pub open spec fn wf(&self) -> bool {
        self@.len() == TOR_PUBLIC_KEY_LENGTH && is_valid_tor_key(self@)
    }

    /// Validates `bytes` as a Tor v3 public key; succeeds exactly on valid
    /// 32-byte keys and reports `InvalidPubkey` otherwise.
    pub fn from_bytes(bytes: Vec<u8>) -> (r: Result<TorPubkey, DecodeError>)
        ensures
            r is Ok <==> (bytes@.len() == TOR_PUBLIC_KEY_LENGTH && is_valid_tor_key(bytes@)),
            r matches Ok(k) ==> k@ == bytes@ && k.wf(),
            r matches Err(e) ==> e == DecodeError::InvalidPubkey,
    {
        if bytes.len() != TOR_PUBLIC_KEY_LENGTH {
            return Err(DecodeError::InvalidPubkey);
        }
        if tor_key_is_valid(&bytes) {
            Ok(TorPubkey { bytes })
        } else {
            Err(DecodeError::InvalidPubkey)
        }
    }

    /// The key bytes.
    pub fn as_bytes(&self) -> (r: &Vec<u8>)
        ensures
            r@ == self@,
    {
        &self.bytes
    }
}

/// Mathematical image of a [`UniformAddr`] record.
pub ghost struct UniformAddrV {
    pub addr_format: u8,
    pub addr: Seq<u8>,
    pub port: Option<u16>,
    pub transport: Option<u8>,
}

/// Mathematical image of an [`InetAddr`]: the meaningful address bytes of
/// each variant (4, 16 or 32 of them).
pub ghost enum InetAddrV {
    Ipv4(Seq<u8>),
    Ipv6(Seq<u8>),
    Tor(Seq<u8>),
}

/// Mathematical image of a [`PartialSocketAddr`].
pub ghost enum PartialSocketAddrV {
    Ipv4(Seq<u8>, Option<u16>),
    Ipv6(Seq<u8>, Option<u16>),
    Tor(Seq<u8>),
}

/// Mathematical image of an [`InetSocketAddr`].
pub ghost enum InetSocketAddrV {
    Ipv4(Seq<u8>, u16),
    Ipv6(Seq<u8>, u16),
    Tor(Seq<u8>),
}

/// Mathematical image of an [`InetSocketAddrExt`].
pub ghost struct InetSocketAddrExtV {
    pub transport: Transport,
    pub addr: InetSocketAddrV,
}

/// The raw 33-byte slot holding `b` right-aligned, zero-padded on the left.
pub open spec fn zero_padded(b: Seq<u8>) -> Seq<u8> {
    Seq::new(
        ADDR_LEN as nat,
        |i: int|
            {
                let pad = ADDR_LEN as int - b.len() as int;
                if i < pad {
                    0u8
                } else {
                    b[i - pad]
                }
            },
    )
}

/// Lifts a decode result to the mathematical level, where the laws of the
/// codec are stated.
pub open spec fn view_result<T: View>(r: Result<T, DecodeError>) -> Result<T::V, DecodeError> {
    match r {
        Ok(x) => Ok(x@),
        Err(e) => Err(e),
    }
}

impl InetAddrV {
    /// The meaningful address bytes.
    pub open spec fn addr_bytes(self) -> Seq<u8> {
        match self {
            InetAddrV::Ipv4(b) => b,
            InetAddrV::Ipv6(b) => b,
            InetAddrV::Tor(b) => b,
        }
    }

    /// The format tag of the variant.
    pub open spec fn format_tag(self) -> u8 {
        match self {
            InetAddrV::Ipv4(_) => ADDR_FORMAT_IPV4,
            InetAddrV::Ipv6(_) => ADDR_FORMAT_IPV6,
            InetAddrV::Tor(_) => ADDR_FORMAT_ONION_V3,
        }
    }

    /// Each variant carries its fixed number of address bytes.
    pub open spec fn len_ok(self) -> bool {
        match self {
            InetAddrV::Ipv4(b) => b.len() == 4,
            InetAddrV::Ipv6(b) => b.len() == 16,
            InetAddrV::Tor(b) => b.len() == TOR_PUBLIC_KEY_LENGTH,
        }
    }

    /// Well-formed: right byte count, and a Tor key must validate.
    pub open spec fn wf(self) -> bool {
        &&& self.len_ok()
        &&& (self matches InetAddrV::Tor(b) ==> is_valid_tor_key(b))
    }

    /// The uniform record encoding this bare address: no port, no transport.
    pub open spec fn to_uniform(self) -> UniformAddrV {
        UniformAddrV {
            addr_format: self.format_tag(),
            addr: zero_padded(self.addr_bytes()),
            port: None,
            transport: None,
        }
    }
}

impl PartialSocketAddrV {
    /// The bare address part.
    pub open spec fn address(self) -> InetAddrV {
        match self {
            PartialSocketAddrV::Ipv4(b, _) => InetAddrV::Ipv4(b),
            PartialSocketAddrV::Ipv6(b, _) => InetAddrV::Ipv6(b),
            PartialSocketAddrV::Tor(b) => InetAddrV::Tor(b),
        }
    }

    /// The port, if the variant carries one.
    pub open spec fn port(self) -> Option<u16> {
        match self {
            PartialSocketAddrV::Ipv4(_, p) => p,
            PartialSocketAddrV::Ipv6(_, p) => p,
            PartialSocketAddrV::Tor(_) => None,
        }
    }

    /// Well-formed: the address part is.
    pub open spec fn wf(self) -> bool {
        self.address().wf()
    }

    /// The uniform record encoding this address: optional port, no transport.
    pub open spec fn to_uniform(self) -> UniformAddrV {
        UniformAddrV {
            addr_format: self.address().format_tag(),
            addr: zero_padded(self.address().addr_bytes()),
            port: self.port(),
            transport: None,
        }
    }
}

impl InetSocketAddrV {
    /// The bare address part.
    pub open spec fn address(self) -> InetAddrV {
        match self {
            InetSocketAddrV::Ipv4(b, _) => InetAddrV::Ipv4(b),
            InetSocketAddrV::Ipv6(b, _) => InetAddrV::Ipv6(b),
            InetSocketAddrV::Tor(b) => InetAddrV::Tor(b),
        }
    }

    /// The port: IP sockets always carry one, a Tor identity never does.
    pub open spec fn port(self) -> Option<u16> {
        match self {
            InetSocketAddrV::Ipv4(_, p) => Some(p),
            InetSocketAddrV::Ipv6(_, p) => Some(p),
            InetSocketAddrV::Tor(_) => None,
        }
    }

    /// Well-formed: the address part is.
    pub open spec fn wf(self) -> bool {
        self.address().wf()
    }

    /// The uniform record encoding this socket address: no transport.
    pub open spec fn to_uniform(self) -> UniformAddrV {
        UniformAddrV {
            addr_format: self.address().format_tag(),
            addr: zero_padded(self.address().addr_bytes()),
            port: self.port(),
            transport: None,
        }
    }
}

impl InetSocketAddrExtV {
    /// Well-formed: a transport tag requires a port, so the inner socket
    /// address must be an IP socket, never a bare Tor identity.
    pub open spec fn wf(self) -> bool {
        &&& self.addr.wf()
        &&& !(self.addr is Tor)
    }

    /// The uniform record encoding this address: port and transport present.
    pub open spec fn to_uniform(self) -> UniformAddrV {
        UniformAddrV {
            addr_format: self.addr.address().format_tag(),
            addr: zero_padded(self.addr.address().addr_bytes()),
            port: self.addr.port(),
            transport: Some(spec_transport_tag(self.transport)),
        }
    }
}

/// Lossy decoding of a bare address: the port and transport fields are
/// ignored; the format tag selects the meaningful sub-range of the raw slot.
pub open spec fn spec_inet_addr_lossy(u: UniformAddrV) -> Result<InetAddrV, DecodeError> {
    if u.addr_format == ADDR_FORMAT_IPV4 {
        Ok(InetAddrV::Ipv4(u.addr.subrange(29, 33)))
    } else if u.addr_format == ADDR_FORMAT_IPV6 {
        Ok(InetAddrV::Ipv6(u.addr.subrange(17, 33)))
    } else if u.addr_format == ADDR_FORMAT_ONION_V3 {
        if is_valid_tor_key(u.addr.subrange(1, 33)) {
            Ok(InetAddrV::Tor(u.addr.subrange(1, 33)))
        } else {
            Err(DecodeError::InvalidPubkey)
        }
    } else {
        Err(DecodeError::UnsupportedAddrFormat)
    }
}

/// Strict decoding of a bare address: a port or transport field is excess.
pub open spec fn spec_inet_addr_strict(u: UniformAddrV) -> Result<InetAddrV, DecodeError> {
    if u.port is Some || u.transport is Some {
        Err(DecodeError::ExcessiveData)
    } else {
        spec_inet_addr_lossy(u)
    }
}

/// Lossy decoding of a socket address: IP formats require the port; a Tor
/// record's port is dropped; the transport field is ignored.
pub open spec fn spec_inet_socket_addr_lossy(u: UniformAddrV) -> Result<
    InetSocketAddrV,
    DecodeError,
> {
    if u.addr_format == ADDR_FORMAT_IPV4 {
        match u.port {
            Some(p) => Ok(InetSocketAddrV::Ipv4(u.addr.subrange(29, 33), p)),
            None => Err(DecodeError::InsufficientData),
        }
    } else if u.addr_format == ADDR_FORMAT_IPV6 {
        match u.port {
            Some(p) => Ok(InetSocketAddrV::Ipv6(u.addr.subrange(17, 33), p)),
            None => Err(DecodeError::InsufficientData),
        }
    } else if u.addr_format == ADDR_FORMAT_ONION_V3 {
        if is_valid_tor_key(u.addr.subrange(1, 33)) {
            Ok(InetSocketAddrV::Tor(u.addr.subrange(1, 33)))
        } else {
            Err(DecodeError::InvalidPubkey)
        }
    } else {
        Err(DecodeError::UnsupportedAddrFormat)
    }
}

/// Strict decoding of a socket address: a transport field is excess, and so
/// is a port on a Tor record, whose target variant carries none.
pub open spec fn spec_inet_socket_addr_strict(u: UniformAddrV) -> Result<
    InetSocketAddrV,
    DecodeError,
> {
    if u.transport is Some {
        Err(DecodeError::ExcessiveData)
    } else if u.addr_format == ADDR_FORMAT_ONION_V3 && u.port is Some {
        Err(DecodeError::ExcessiveData)
    } else {
        spec_inet_socket_addr_lossy(u)
    }
}

/// An [`InetAddrV`] seen as an address without port.
pub open spec fn spec_partial_of_addr(a: InetAddrV) -> PartialSocketAddrV {
    match a {
        InetAddrV::Ipv4(b) => PartialSocketAddrV::Ipv4(b, None),
        InetAddrV::Ipv6(b) => PartialSocketAddrV::Ipv6(b, None),
        InetAddrV::Tor(b) => PartialSocketAddrV::Tor(b),
    }
}

/// An [`InetSocketAddrV`] seen as an address with optional port.
pub open spec fn spec_partial_of_socket(a: InetSocketAddrV) -> PartialSocketAddrV {
    match a {
        InetSocketAddrV::Ipv4(b, p) => PartialSocketAddrV::Ipv4(b, Some(p)),
        InetSocketAddrV::Ipv6(b, p) => PartialSocketAddrV::Ipv6(b, Some(p)),
        InetSocketAddrV::Tor(b) => PartialSocketAddrV::Tor(b),
    }
}

/// Lossy decoding of an address with optional port: with a port present the
/// record decodes as a socket address, without one as a bare address.
pub open spec fn spec_partial_socket_addr_lossy(u: UniformAddrV) -> Result<
    PartialSocketAddrV,
    DecodeError,
> {
    if u.port is Some {
        match spec_inet_socket_addr_lossy(u) {
            Ok(a) => Ok(spec_partial_of_socket(a)),
            Err(e) => Err(e),
        }
    } else {
        match spec_inet_addr_lossy(u) {
            Ok(a) => Ok(spec_partial_of_addr(a)),
            Err(e) => Err(e),
        }
    }
}

/// Strict decoding of an address with optional port: a transport field is
/// excess, and so is a port on a Tor record.
pub open spec fn spec_partial_socket_addr_strict(u: UniformAddrV) -> Result<
    PartialSocketAddrV,
    DecodeError,
> {
    if u.transport is Some {
        Err(DecodeError::ExcessiveData)
    } else if u.addr_format == ADDR_FORMAT_ONION_V3 && u.port is Some {
        Err(DecodeError::ExcessiveData)
    } else {
        spec_partial_socket_addr_lossy(u)
    }
}

/// Decoding of a socket address with transport. The transport tag is
/// required, must be known, and — because a tag is only meaningful together
/// with a port — the record must carry a port that its address variant can
/// represent, which rules Tor records out.
pub open spec fn spec_ext_socket_addr(u: UniformAddrV) -> Result<
    InetSocketAddrExtV,
    DecodeError,
> {
    match u.transport {
        Some(tag) => match spec_inet_socket_addr_lossy(u) {
            Ok(a) => match spec_transport_of(tag) {
                Some(t) => if a is Tor {
                    if u.port is Some {
                        Err(DecodeError::ExcessiveData)
                    } else {
                        Err(DecodeError::InsufficientData)
                    }
                } else {
                    Ok(InetSocketAddrExtV { transport: t, addr: a })
                },
                None => Err(DecodeError::UnknownTransport),
            },
            Err(e) => Err(e),
        },
        None => Err(DecodeError::InsufficientData),
    }
}

/// Uniform wire-level address record: format tag, fixed-width raw address
/// slot, optional port, optional transport tag.
#[derive(Clone, Debug, PartialEq, Eq)]
pub struct UniformAddr {
    pub addr_format: u8,
    pub addr: Vec<u8>,
    pub port: Option<u16>,
    pub transport: Option<u8>,
}

impl View for UniformAddr {
    type V = UniformAddrV;

    open spec fn view(&self) -> UniformAddrV {
        UniformAddrV {
            addr_format: self.addr_format,
            addr: self.addr@,
            port: self.port,
            transport: self.transport,
        }
    }
}

impl UniformAddr {
    /// The raw slot always occupies exactly [`ADDR_LEN`] bytes.
    pub open spec fn wf(&self) -> bool {
        self.addr@.len() == ADDR_LEN
    }
}

/// Endpoint host address: IPv4 or IPv6 bytes, or a validated Tor identity.
#[derive(Clone, Debug, PartialEq, Eq)]
pub enum InetAddr {
    IPv4(Vec<u8>),
    IPv6(Vec<u8>),
    Tor(TorPubkey),
}

impl View for InetAddr {
    type V = InetAddrV;

    open spec fn view(&self) -> InetAddrV {
        match self {
            InetAddr::IPv4(b) => InetAddrV::Ipv4(b@),
            InetAddr::IPv6(b) => InetAddrV::Ipv6(b@),
            InetAddr::Tor(k) => InetAddrV::Tor(k@),
        }
    }
}

/// Endpoint address with an optional port.
#[derive(Clone, Debug, PartialEq, Eq)]
pub enum PartialSocketAddr {
    IPv4(Vec<u8>, Option<u16>),
    IPv6(Vec<u8>, Option<u16>),
    Tor(TorPubkey),
}

impl View for PartialSocketAddr {
    type V = PartialSocketAddrV;

    open spec fn view(&self) -> PartialSocketAddrV {
        match self {
            PartialSocketAddr::IPv4(b, p) => PartialSocketAddrV::Ipv4(b@, *p),
            PartialSocketAddr::IPv6(b, p) => PartialSocketAddrV::Ipv6(b@, *p),
            PartialSocketAddr::Tor(k) => PartialSocketAddrV::Tor(k@),
        }
    }
}

/// Endpoint socket address: an IP host with its port, or a Tor identity
/// (whose rendezvous needs no explicit port).
#[derive(Clone, Debug, PartialEq, Eq)]
pub enum InetSocketAddr {
    IPv4(Vec<u8>, u16),
    IPv6(Vec<u8>, u16),
    Tor(TorPubkey),
}

impl View for InetSocketAddr {
    type V = InetSocketAddrV;

    open spec fn view(&self) -> InetSocketAddrV {
        match self {
            InetSocketAddr::IPv4(b, p) => InetSocketAddrV::Ipv4(b@, *p),
            InetSocketAddr::IPv6(b, p) => InetSocketAddrV::Ipv6(b@, *p),
            InetSocketAddr::Tor(k) => InetSocketAddrV::Tor(k@),
        }
    }
}

/// Socket address annotated with its transport protocol.
#[derive(Clone, Debug, PartialEq, Eq)]
pub struct InetSocketAddrExt(pub Transport, pub InetSocketAddr);

impl View for InetSocketAddrExt {
    type V = InetSocketAddrExtV;

    open spec fn view(&self) -> InetSocketAddrExtV {
        InetSocketAddrExtV { transport: self.0, addr: self.1@ }
    }
}

/// Copies `src[start..end]` into a fresh vector.
fn copy_range(src: &Vec<u8>, start: usize, end: usize) -> (r: Vec<u8>)
    requires
        start <= end,
        end <= src@.len(),
    ensures
        r@ == src@.subrange(start as int, end as int),
{
    let mut r: Vec<u8> = Vec::new();
    let mut i = start;
    while i < end
        invariant
            start <= i <= end,
            end <= src@.len(),
            r@ == src@.subrange(start as int, i as int),
        decreases end - i,
    {
        r.push(src[i]);
        proof {
            assert(src@.subrange(start as int, i + 1) =~= src@.subrange(start as int, i as int)
                + seq![src@[i as int]]);
        }
        i = i + 1;
    }
    r
}

/// Builds the raw 33-byte slot: `bytes` right-aligned behind leading zeros.
fn zero_pad(bytes: &Vec<u8>) -> (r: Vec<u8>)
    requires
        bytes@.len() <= ADDR_LEN,
    ensures
        r@ == zero_padded(bytes@),
{
    let pad = ADDR_LEN - bytes.len();
    let mut r: Vec<u8> = Vec::new();
    let mut i: usize = 0;
    while i < ADDR_LEN
        invariant
            i <= ADDR_LEN,
            pad as int == ADDR_LEN as int - bytes@.len() as int,
            r@ == zero_padded(bytes@).subrange(0, i as int),
        decreases ADDR_LEN - i,
    {
        let b = if i < pad {
            0u8
        } else {
            bytes[i - pad]
        };
        proof {
            assert(b == zero_padded(bytes@)[i as int]);
            assert(zero_padded(bytes@).subrange(0, i + 1) =~= zero_padded(bytes@).subrange(
                0,
                i as int,
            ) + seq![zero_padded(bytes@)[i as int]]);
        }
        r.push(b);
        i = i + 1;
    }
    proof {
        assert(zero_padded(bytes@).subrange(0, ADDR_LEN as int) =~= zero_padded(bytes@));
    }
    r
}

/// Extracts and validates the Tor key held in bytes 1..33 of a raw slot.
pub fn tor_from_raw_addr(raw: &Vec<u8>) -> (r: Result<TorPubkey, DecodeError>)
    requires
        raw@.len() == ADDR_LEN,
    ensures
        r is Ok <==> is_valid_tor_key(raw@.subrange(1, 33)),
        r matches Ok(k) ==> k@ == raw@.subrange(1, 33) && k.wf(),
        r matches Err(e) ==> e == DecodeError::InvalidPubkey,
{
    let key = copy_range(raw, 1, ADDR_LEN);
    TorPubkey::from_bytes(key)
}

impl InetAddr {
    /// Executable counterpart of [`InetAddrV::len_ok`].
    pub open spec fn len_ok(&self) -> bool {
        self@.len_ok()
    }

    /// Well-formed: see [`InetAddrV::wf`].
    pub open spec fn wf(&self) -> bool {
        self@.wf()
    }

    /// The format tag identifying the variant on the wire.
    pub fn addr_format(&self) -> (t: u8)
        ensures
            t == self@.format_tag(),
    {
        match self {
            InetAddr::IPv4(_) => ADDR_FORMAT_IPV4,
            InetAddr::IPv6(_) => ADDR_FORMAT_IPV6,
            InetAddr::Tor(_) => ADDR_FORMAT_ONION_V3,
        }
    }

    /// The raw 33-byte address slot for this address.
    pub fn addr(&self) -> (r: Vec<u8>)
        requires
            self.len_ok(),
        ensures
            r@ == zero_padded(self@.addr_bytes()),
    {
        match self {
            InetAddr::IPv4(b) => zero_pad(b),
            InetAddr::IPv6(b) => zero_pad(b),
            InetAddr::Tor(k) => zero_pad(k.as_bytes()),
        }
    }

    /// A bare address never carries a port.
    pub fn port(&self) -> (r: Option<u16>)
        ensures
            r is None,
    {
        None
    }

    /// A bare address never carries a transport tag.
    pub fn transport(&self) -> (r: Option<Transport>)
        ensures
            r is None,
    {
        None
    }

    /// Encodes this address as a uniform record; deterministic and total.
    pub fn to_uniform_addr(&self) -> (u: UniformAddr)
        requires
            self.len_ok(),
        ensures
            u@ == self@.to_uniform(),
            u.wf(),
    {
        UniformAddr {
            addr_format: self.addr_format(),
            addr: self.addr(),
            port: self.port(),
            transport: None,
        }
    }

    /// Strict decoding: fails with `ExcessiveData` if the record carries a
    /// port or a transport tag, which a bare address cannot represent.
    pub fn from_uniform_addr(addr: UniformAddr) -> (r: Result<InetAddr, DecodeError>)
        requires
            addr.wf(),
        ensures
            view_result(r) == spec_inet_addr_strict(addr@),
    {
        if addr.port.is_some() || addr.transport.is_some() {
            return Err(DecodeError::ExcessiveData);
        }
        Self::from_uniform_addr_lossy(addr)
    }

    /// Lossy decoding: ports and transport tags are silently dropped.
    pub fn from_uniform_addr_lossy(addr: UniformAddr) -> (r: Result<InetAddr, DecodeError>)
        requires
            addr.wf(),
        ensures
            view_result(r) == spec_inet_addr_lossy(addr@),
    {
        if addr.addr_format == ADDR_FORMAT_IPV4 {
            Ok(InetAddr::IPv4(copy_range(&addr.addr, 29, 33)))
        } else if addr.addr_format == ADDR_FORMAT_IPV6 {
            Ok(InetAddr::IPv6(copy_range(&addr.addr, 17, 33)))
        } else if addr.addr_format == ADDR_FORMAT_ONION_V3 {
            match tor_from_raw_addr(&addr.addr) {
                Ok(k) => Ok(InetAddr::Tor(k)),
                Err(e) => Err(e),
            }
        } else {
            Err(DecodeError::UnsupportedAddrFormat)
        }
    }
}

impl InetSocketAddr {
    /// Executable counterpart of the view's length condition.
    pub open spec fn len_ok(&self) -> bool {
        self@.address().len_ok()
    }

    /// Well-formed: see [`InetSocketAddrV::wf`].
    pub open spec fn wf(&self) -> bool {
        self@.wf()
    }

    /// The format tag identifying the variant on the wire.
    pub fn addr_format(&self) -> (t: u8)
        ensures
            t == self@.address().format_tag(),
    {
        match self {
            InetSocketAddr::IPv4(_, _) => ADDR_FORMAT_IPV4,
            InetSocketAddr::IPv6(_, _) => ADDR_FORMAT_IPV6,
            InetSocketAddr::Tor(_) => ADDR_FORMAT_ONION_V3,
        }
    }

    /// The raw 33-byte address slot for this address.
    pub fn addr(&self) -> (r: Vec<u8>)
        requires
            self.len_ok(),
        ensures
            r@ == zero_padded(self@.address().addr_bytes()),
    {
        match self {
            InetSocketAddr::IPv4(b, _) => zero_pad(b),
            InetSocketAddr::IPv6(b, _) => zero_pad(b),
            InetSocketAddr::Tor(k) => zero_pad(k.as_bytes()),
        }
    }

    /// The port: IP sockets carry one, a Tor identity does not.
    pub fn port(&self) -> (r: Option<u16>)
        ensures
            r == self@.port(),
    {
        match self {
            InetSocketAddr::IPv4(_, p) => Some(*p),
            InetSocketAddr::IPv6(_, p) => Some(*p),
            InetSocketAddr::Tor(_) => None,
        }
    }

    /// A socket address without transport annotation carries no tag.
    pub fn transport(&self) -> (r: Option<Transport>)
        ensures
            r is None,
    {
        None
    }

    /// Encodes this socket address as a uniform record; deterministic and
    /// total.
    pub fn to_uniform_addr(&self) -> (u: UniformAddr)
        requires
            self.len_ok(),
        ensures
            u@ == self@.to_uniform(),
            u.wf(),
    {
        UniformAddr {
            addr_format: self.addr_format(),
            addr: self.addr(),
            port: self.port(),
            transport: None,
        }
    }

    /// Strict decoding: a transport tag is excess, and so is a port on a Tor
    /// record, whose target variant carries none.
    pub fn from_uniform_addr(addr: UniformAddr) -> (r: Result<InetSocketAddr, DecodeError>)
        requires
            addr.wf(),
        ensures
            view_result(r) == spec_inet_socket_addr_strict(addr@),
    {
        if addr.transport.is_some() {
            return Err(DecodeError::ExcessiveData);
        }
        if addr.addr_format == ADDR_FORMAT_ONION_V3 && addr.port.is_some() {
            return Err(DecodeError::ExcessiveData);
        }
        Self::from_uniform_addr_lossy(addr)
    }

    /// Lossy decoding: the transport tag is dropped; IP formats still require
    /// their port, a Tor record's port is dropped.
    pub fn from_uniform_addr_lossy(addr: UniformAddr) -> (r: Result<InetSocketAddr, DecodeError>)
        requires
            addr.wf(),
        ensures
            view_result(r) == spec_inet_socket_addr_lossy(addr@),
    {
        if addr.addr_format == ADDR_FORMAT_IPV4 {
            match addr.port {
                Some(p) => Ok(InetSocketAddr::IPv4(copy_range(&addr.addr, 29, 33), p)),
                None => Err(DecodeError::InsufficientData),
            }
        } else if addr.addr_format == ADDR_FORMAT_IPV6 {
            match addr.port {
                Some(p) => Ok(InetSocketAddr::IPv6(copy_range(&addr.addr, 17, 33), p)),
                None => Err(DecodeError::InsufficientData),
            }
        } else if addr.addr_format == ADDR_FORMAT_ONION_V3 {
            match tor_from_raw_addr(&addr.addr) {
                Ok(k) => Ok(InetSocketAddr::Tor(k)),
                Err(e) => Err(e),
            }
        } else {
            Err(DecodeError::UnsupportedAddrFormat)
        }
    }
}

impl PartialSocketAddr {
    /// Executable counterpart of the view's length condition.
    pub open spec fn len_ok(&self) -> bool {
        self@.address().len_ok()
    }

    /// Well-formed: see [`PartialSocketAddrV::wf`].
    pub open spec fn wf(&self) -> bool {
        self@.wf()
    }

    /// A bare address seen as an address without port.
    pub fn from_inet_addr(addr: InetAddr) -> (r: PartialSocketAddr)
        ensures
            r@ == spec_partial_of_addr(addr@),
    {
        match addr {
            InetAddr::IPv4(b) => PartialSocketAddr::IPv4(b, None),
            InetAddr::IPv6(b) => PartialSocketAddr::IPv6(b, None),
            InetAddr::Tor(k) => PartialSocketAddr::Tor(k),
        }
    }

    /// A socket address seen as an address with optional port.
    pub fn from_socket_addr(addr: InetSocketAddr) -> (r: PartialSocketAddr)
        ensures
            r@ == spec_partial_of_socket(addr@),
    {
        match addr {
            InetSocketAddr::IPv4(b, p) => PartialSocketAddr::IPv4(b, Some(p)),
            InetSocketAddr::IPv6(b, p) => PartialSocketAddr::IPv6(b, Some(p)),
            InetSocketAddr::Tor(k) => PartialSocketAddr::Tor(k),
        }
    }

    /// The format tag identifying the variant on the wire.
    pub fn addr_format(&self) -> (t: u8)
        ensures
            t == self@.address().format_tag(),
    {
        match self {
            PartialSocketAddr::IPv4(_, _) => ADDR_FORMAT_IPV4,
            PartialSocketAddr::IPv6(_, _) => ADDR_FORMAT_IPV6,
            PartialSocketAddr::Tor(_) => ADDR_FORMAT_ONION_V3,
        }
    }

    /// The raw 33-byte address slot for this address.
    pub fn addr(&self) -> (r: Vec<u8>)
        requires
            self.len_ok(),
        ensures
            r@ == zero_padded(self@.address().addr_bytes()),
    {
        match self {
            PartialSocketAddr::IPv4(b, _) => zero_pad(b),
            PartialSocketAddr::IPv6(b, _) => zero_pad(b),
            PartialSocketAddr::Tor(k) => zero_pad(k.as_bytes()),
        }
    }

    /// The port, if this address carries one.
    pub fn port(&self) -> (r: Option<u16>)
        ensures
            r == self@.port(),
    {
        match self {
            PartialSocketAddr::IPv4(_, p) => *p,
            PartialSocketAddr::IPv6(_, p) => *p,
            PartialSocketAddr::Tor(_) => None,
        }
    }

    /// An address with optional port never carries a transport tag.
    pub fn transport(&self) -> (r: Option<Transport>)
        ensures
            r is None,
    {
        None
    }

    /// Encodes this address as a uniform record; deterministic and total.
    pub fn to_uniform_addr(&self) -> (u: UniformAddr)
        requires
            self.len_ok(),
        ensures
            u@ == self@.to_uniform(),
            u.wf(),
    {
        UniformAddr {
            addr_format: self.addr_format(),
            addr: self.addr(),
            port: self.port(),
            transport: None,
        }
    }

    /// Strict decoding: a transport tag is excess, and so is a port on a Tor
    /// record, whose target variant carries none.
    pub fn from_uniform_addr(addr: UniformAddr) -> (r: Result<PartialSocketAddr, DecodeError>)
        requires
            addr.wf(),
        ensures
            view_result(r) == spec_partial_socket_addr_strict(addr@),
    {
        if addr.transport.is_some() {
            return Err(DecodeError::ExcessiveData);
        }
        if addr.addr_format == ADDR_FORMAT_ONION_V3 && addr.port.is_some() {
            return Err(DecodeError::ExcessiveData);
        }
        Self::from_uniform_addr_lossy(addr)
    }

    /// Lossy decoding: with a port present the record decodes as a socket
    /// address, without one as a bare address; transport tags are dropped.
    pub fn from_uniform_addr_lossy(addr: UniformAddr) -> (r: Result<
        PartialSocketAddr,
        DecodeError,
    >)
        requires
            addr.wf(),
        ensures
            view_result(r) == spec_partial_socket_addr_lossy(addr@),
    {
        if addr.port.is_some() {
            match InetSocketAddr::from_uniform_addr_lossy(addr) {
                Ok(a) => Ok(Self::from_socket_addr(a)),
                Err(e) => Err(e),
            }
        } else {
            match InetAddr::from_uniform_addr_lossy(addr) {
                Ok(a) => Ok(Self::from_inet_addr(a)),
                Err(e) => Err(e),
            }
        }
    }
}

impl InetSocketAddrExt {
    /// Executable counterpart of the view's length condition.
    pub open spec fn len_ok(&self) -> bool {
        self@.addr.address().len_ok()
    }

    /// Well-formed: see [`InetSocketAddrExtV::wf`].
    pub open spec fn wf(&self) -> bool {
        self@.wf()
    }

    /// The format tag identifying the variant on the wire.
    pub fn addr_format(&self) -> (t: u8)
        ensures
            t == self@.addr.address().format_tag(),
    {
        self.1.addr_format()
    }

    /// The raw 33-byte address slot for this address.
    pub fn addr(&self) -> (r: Vec<u8>)
        requires
            self.len_ok(),
        ensures
            r@ == zero_padded(self@.addr.address().addr_bytes()),
    {
        self.1.addr()
    }

    /// The port of the inner socket address.
    pub fn port(&self) -> (r: Option<u16>)
        ensures
            r == self@.addr.port(),
    {
        self.1.port()
    }

    /// The transport annotation, always present on this type.
    pub fn transport(&self) -> (r: Option<Transport>)
        ensures
            r == Some(self@.transport),
    {
        Some(self.0)
    }

    /// Encodes this address as a uniform record; deterministic and total.
    pub fn to_uniform_addr(&self) -> (u: UniformAddr)
        requires
            self.len_ok(),
        ensures
            u@ == self@.to_uniform(),
            u.wf(),
    {
        UniformAddr {
            addr_format: self.addr_format(),
            addr: self.addr(),
            port: self.port(),
            transport: Some(transport_tag(self.0)),
        }
    }

    /// Strict decoding; for this shape there is nothing to drop, so it
    /// coincides with the lossy decoding.
    pub fn from_uniform_addr(addr: UniformAddr) -> (r: Result<InetSocketAddrExt, DecodeError>)
        requires
            addr.wf(),
        ensures
            view_result(r) == spec_ext_socket_addr(addr@),
    {
        Self::from_uniform_addr_lossy(addr)
    }

    /// Decoding of a socket address with transport: the tag is required and
    /// must be known, and the record must carry a port its variant can
    /// represent — a transport tag is only meaningful together with a port.
    pub fn from_uniform_addr_lossy(addr: UniformAddr) -> (r: Result<
        InetSocketAddrExt,
        DecodeError,
    >)
        requires
            addr.wf(),
        ensures
            view_result(r) == spec_ext_socket_addr(addr@),
    {
        let port = addr.port;
        match addr.transport {
            Some(tag) => match InetSocketAddr::from_uniform_addr_lossy(addr) {
                Ok(a) => match transport_of(tag) {
                    Some(t) => match a {
                        InetSocketAddr::Tor(_) => if port.is_some() {
                            Err(DecodeError::ExcessiveData)
                        } else {
                            Err(DecodeError::InsufficientData)
                        },
                        _ => Ok(InetSocketAddrExt(t, a)),
                    },
                    None => Err(DecodeError::UnknownTransport),
                },
                Err(e) => Err(e),
            },
            None => Err(DecodeError::InsufficientData),
        }
    }
}

/// Round-trip law: strict decoding inverts encoding on every well-formed
/// bare address.
pub proof fn lemma_inet_addr_roundtrip(a: InetAddrV)
    ensures
        a.wf() ==> spec_inet_addr_strict(a.to_uniform()) == Ok::<InetAddrV, DecodeError>(a),
{
    if a.wf() {
        match a {
            InetAddrV::Ipv4(b) => {
                assert(zero_padded(b).subrange(29, 33) =~= b);
            },
            InetAddrV::Ipv6(b) => {
                assert(zero_padded(b).subrange(17, 33) =~= b);
            },
            InetAddrV::Tor(b) => {
                assert(zero_padded(b).subrange(1, 33) =~= b);
            },
        }
    }
}

/// Round-trip law: strict decoding inverts encoding on every well-formed
/// socket address.
pub proof fn lemma_inet_socket_addr_roundtrip(a: InetSocketAddrV)
    ensures
        a.wf() ==> spec_inet_socket_addr_strict(a.to_uniform()) == Ok::<
            InetSocketAddrV,
            DecodeError,
        >(a),
{
    if a.wf() {
        match a {
            InetSocketAddrV::Ipv4(b, _) => {
                assert(zero_padded(b).subrange(29, 33) =~= b);
            },
            InetSocketAddrV::Ipv6(b, _) => {
                assert(zero_padded(b).subrange(17, 33) =~= b);
            },
            InetSocketAddrV::Tor(b) => {
                assert(zero_padded(b).subrange(1, 33) =~= b);
            },
        }
    }
}

/// Round-trip law: strict decoding inverts encoding on every well-formed
/// address with optional port.
pub proof fn lemma_partial_socket_addr_roundtrip(a: PartialSocketAddrV)
    ensures
        a.wf() ==> spec_partial_socket_addr_strict(a.to_uniform()) == Ok::<
            PartialSocketAddrV,
            DecodeError,
        >(a),
{
    if a.wf() {
        match a {
            PartialSocketAddrV::Ipv4(b, _) => {
                assert(zero_padded(b).subrange(29, 33) =~= b);
            },
            PartialSocketAddrV::Ipv6(b, _) => {
                assert(zero_padded(b).subrange(17, 33) =~= b);
            },
            PartialSocketAddrV::Tor(b) => {
                assert(zero_padded(b).subrange(1, 33) =~= b);
            },
        }
    }
}

/// Round-trip law: decoding inverts encoding on every well-formed socket
/// address with transport annotation.
pub proof fn lemma_ext_socket_addr_roundtrip(a: InetSocketAddrExtV)
    ensures
        a.wf() ==> spec_ext_socket_addr(a.to_uniform()) == Ok::<
            InetSocketAddrExtV,
            DecodeError,
        >(a),
{
    if a.wf() {
        assert(spec_transport_of(spec_transport_tag(a.transport)) == Some(a.transport));
        match a.addr {
            InetSocketAddrV::Ipv4(b, _) => {
                assert(zero_padded(b).subrange(29, 33) =~= b);
            },
            InetSocketAddrV::Ipv6(b, _) => {
                assert(zero_padded(b).subrange(17, 33) =~= b);
            },
            InetSocketAddrV::Tor(_) => {},
        }
    }
}

/// Strict-vs-lossy law for bare addresses: a record carrying a transport tag
/// (or a port) is rejected by the strict decoder as excess, while the lossy
/// decoder ignores both fields entirely — it decodes the record exactly as it
/// would with them absent, succeeding whenever the format is recognised and,
/// for a Tor record, the key validates.
pub proof fn lemma_strict_vs_lossy_inet_addr(u: UniformAddrV)
    ensures
        u.port is Some || u.transport is Some ==> spec_inet_addr_strict(u) == Err::<
            InetAddrV,
            DecodeError,
        >(DecodeError::ExcessiveData),
        spec_inet_addr_lossy(u) == spec_inet_addr_lossy(
            UniformAddrV { port: None, transport: None, ..u },
        ),
        spec_inet_addr_lossy(u) is Ok <==> (u.addr_format == ADDR_FORMAT_IPV4
            || u.addr_format == ADDR_FORMAT_IPV6 || (u.addr_format == ADDR_FORMAT_ONION_V3
            && is_valid_tor_key(u.addr.subrange(1, 33)))),
{
}

/// Strict-vs-lossy law for socket addresses: a record carrying a transport
/// tag is rejected by the strict decoder as excess, while the lossy decoder
/// drops the tag — it decodes the record exactly as it would with the tag
/// absent, succeeding whenever the format is recognised, the key validates
/// for a Tor record, and the port is present for an IP record.
pub proof fn lemma_strict_vs_lossy_inet_socket_addr(u: UniformAddrV)
    ensures
        u.transport is Some ==> spec_inet_socket_addr_strict(u) == Err::<
            InetSocketAddrV,
            DecodeError,
        >(DecodeError::ExcessiveData),
        spec_inet_socket_addr_lossy(u) == spec_inet_socket_addr_lossy(
            UniformAddrV { transport: None, ..u },
        ),
        spec_inet_socket_addr_lossy(u) is Ok <==> ((u.addr_format == ADDR_FORMAT_IPV4
            || u.addr_format == ADDR_FORMAT_IPV6) && u.port is Some || (u.addr_format
            == ADDR_FORMAT_ONION_V3 && is_valid_tor_key(u.addr.subrange(1, 33)))),
{
}

/// Strict-vs-lossy law for addresses with optional port: a record carrying a
/// transport tag is rejected by the strict decoder as excess, while the lossy
/// decoder drops the tag and decodes the record exactly as it would with the
/// tag absent.
pub proof fn lemma_strict_vs_lossy_partial_socket_addr(u: UniformAddrV)
    ensures
        u.transport is Some ==> spec_partial_socket_addr_strict(u) == Err::<
            PartialSocketAddrV,
            DecodeError,
        >(DecodeError::ExcessiveData),
        spec_partial_socket_addr_lossy(u) == spec_partial_socket_addr_lossy(
            UniformAddrV { transport: None, ..u },
        ),
{
}

} // verus!

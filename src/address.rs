//! Socket addresses and the SOCKS5-style target address frame.
use vstd::prelude::*;
use crate::utf8::{is_utf8, utf8_valid};

verus! {

/// Tag of an IPv4 address frame.
pub const ATYP_IPV4: u8 = 1;

/// Tag of a domain-name address frame.
pub const ATYP_DOMAIN: u8 = 3;

/// Tag of an IPv6 address frame.
pub const ATYP_IPV6: u8 = 4;

/// An IP socket address: the address octets in network order and a port.
#[derive(Debug, PartialEq, Eq)]
pub enum SockAddr {
    V4(Vec<u8>, u16),
    V6(Vec<u8>, u16),
}

pub ghost enum SockAddrView {
    V4(Seq<u8>, u16),
    V6(Seq<u8>, u16),
}

impl View for SockAddr {
    type V = SockAddrView;

    open spec fn view(&self) -> SockAddrView {
        match self {
            SockAddr::V4(o, p) => SockAddrView::V4(o@, *p),
            SockAddr::V6(o, p) => SockAddrView::V6(o@, *p),
        }
    }
}

impl SockAddrView {
    /// An IPv4 address has four octets, an IPv6 address sixteen.
    pub open spec fn wf(self) -> bool {
        match self {
            SockAddrView::V4(o, _) => o.len() == 4,
            SockAddrView::V6(o, _) => o.len() == 16,
        }
    }

    pub open spec fn port(self) -> u16 {
        match self {
            SockAddrView::V4(_, p) => p,
            SockAddrView::V6(_, p) => p,
        }
    }

    pub open spec fn is_v4(self) -> bool {
        self is V4
    }
}

impl SockAddr {
    pub fn port(&self) -> (r: u16)
        ensures
            r == self@.port(),
    {
        match self {
            SockAddr::V4(_, p) => *p,
            SockAddr::V6(_, p) => *p,
        }
    }

    pub fn is_ipv4(&self) -> (r: bool)
        ensures
            r == self@.is_v4(),
    {
        matches!(self, SockAddr::V4(..))
    }

    /// The unspecified address of the same family, port 0: where an endpoint
    /// that talks to `self` binds so that the system picks a port.
    pub fn unspecified_like(&self) -> (r: SockAddr)
        ensures
            r@.wf(),
            r@.is_v4() == self@.is_v4(),
            r@.port() == 0,
            r@.is_v4() ==> r@ == SockAddrView::V4(seq![0u8; 4], 0),
            !r@.is_v4() ==> r@ == SockAddrView::V6(Seq::new(16, |i: int| 0u8), 0),
    {
        match self {
            SockAddr::V4(..) => {
                let o = vec![0u8; 4];
                proof {
                    assert(o@ =~= seq![0u8; 4]);
                }
                SockAddr::V4(o, 0)
            },
            SockAddr::V6(..) => {
                let o = vec![0u8; 16];
                proof {
                    assert(o@ =~= Seq::new(16, |i: int| 0u8));
                }
                SockAddr::V6(o, 0)
            },
        }
    }
}

/// A target address as read from a client: an IP socket address, or a
/// host name (its bytes) and a port.
#[derive(Debug, PartialEq, Eq)]
pub enum Address {
    SocketAddress(SockAddr),
    DomainNameAddress(Vec<u8>, u16),
}

pub ghost enum AddressView {
    Socket(SockAddrView),
    Domain(Seq<u8>, u16),
}

impl View for Address {
    type V = AddressView;

    open spec fn view(&self) -> AddressView {
        match self {
            Address::SocketAddress(s) => AddressView::Socket(s@),
            Address::DomainNameAddress(n, p) => AddressView::Domain(n@, *p),
        }
    }
}

/// The two bytes of a port, most significant first.
pub open spec fn port_bytes(p: u16) -> Seq<u8> {
    seq![(p / 256) as u8, (p % 256) as u8]
}

/// The port held by two bytes, most significant first.
pub open spec fn port_from(hi: u8, lo: u8) -> u16 {
    (hi as int * 256 + lo as int) as u16
}

impl AddressView {
    /// An address can be framed: IP octets of the right length, a name of at
    /// most 255 bytes of well-formed UTF-8.
    pub open spec fn encodable(self) -> bool {
        match self {
            AddressView::Socket(s) => s.wf(),
            AddressView::Domain(n, _) => n.len() <= 255 && utf8_valid(n),
        }
    }
}

/// The frame of an address: a type byte, the address bytes (for a name,
/// preceded by its length) and the port, big-endian.
pub open spec fn encode_spec(a: AddressView) -> Seq<u8> {
    match a {
        AddressView::Socket(SockAddrView::V4(o, p)) => seq![ATYP_IPV4] + o + port_bytes(p),
        AddressView::Socket(SockAddrView::V6(o, p)) => seq![ATYP_IPV6] + o + port_bytes(p),
        AddressView::Domain(n, p) => seq![ATYP_DOMAIN, n.len() as u8] + n + port_bytes(p),
    }
}

/// Why a byte sequence does not start with an address frame.
#[derive(Clone, Copy, Debug, PartialEq, Eq)]
pub enum DecodeError {
    /// The type byte is none of the known tags; it is carried.
    UnknownAddressType(u8),
    /// The input ends inside the frame; the length the frame needs is carried.
    Truncated(usize),
    /// The host name of a domain frame is not well-formed UTF-8.
    InvalidHostName,
}

/// The length of the frame that `s` starts with, read from its first bytes
/// (`None` for an unknown type byte).
pub open spec fn frame_len(s: Seq<u8>) -> Option<nat>
    recommends
        s.len() >= 1,
{
    if s[0] == ATYP_IPV4 {
        Some(7)
    } else if s[0] == ATYP_IPV6 {
        Some(19)
    } else if s[0] == ATYP_DOMAIN {
        if s.len() >= 2 {
            Some(4 + s[1] as nat)
        } else {
            Some(2)
        }
    } else {
        None
    }
}

/// What decoding `s` gives: the address and the number of bytes it took, or
/// the error.
pub open spec fn decode_spec(s: Seq<u8>) -> Result<(AddressView, nat), DecodeError> {
    if s.len() == 0 {
        Err(DecodeError::Truncated(1))
    } else {
        match frame_len(s) {
            None => Err(DecodeError::UnknownAddressType(s[0])),
            Some(n) => if s.len() < n {
                Err(DecodeError::Truncated(n as usize))
            } else {
                let port = port_from(s[n - 2], s[n - 1]);
                if s[0] == ATYP_IPV4 {
                    Ok((AddressView::Socket(SockAddrView::V4(s.subrange(1, 5), port)), n))
                } else if s[0] == ATYP_IPV6 {
                    Ok((AddressView::Socket(SockAddrView::V6(s.subrange(1, 17), port)), n))
                } else if utf8_valid(s.subrange(2, n - 2)) {
                    Ok((AddressView::Domain(s.subrange(2, n - 2), port), n))
                } else {
                    Err(DecodeError::InvalidHostName)
                }
            },
        }
    }
}

fn push_port(out: &mut Vec<u8>, p: u16)
    ensures
        final(out)@ == old(out)@ + port_bytes(p),
{
    out.push((p / 256) as u8);
    out.push((p % 256) as u8);
    proof {
        assert(final(out)@ =~= old(out)@ + port_bytes(p));
    }
}

fn push_all(out: &mut Vec<u8>, bytes: &Vec<u8>)
    ensures
        final(out)@ == old(out)@ + bytes@,
{
    let mut i: usize = 0;
    while i < bytes.len()
        invariant
            i <= bytes@.len(),
            out@ == old(out)@ + bytes@.subrange(0, i as int),
        decreases bytes@.len() - i,
    {
        out.push(bytes[i]);
        i = i + 1;
        proof {
            assert(out@ =~= old(out)@ + bytes@.subrange(0, i as int));
        }
    }
    proof {
        assert(bytes@.subrange(0, i as int) =~= bytes@);
    }
}

fn copy_range(buf: &[u8], start: usize, end: usize) -> (r: Vec<u8>)
    requires
        start <= end <= buf@.len(),
    ensures
        r@ == buf@.subrange(start as int, end as int),
{
    let mut r: Vec<u8> = Vec::new();
    let mut i: usize = start;
    while i < end
        invariant
            start <= i <= end <= buf@.len(),
            r@ == buf@.subrange(start as int, i as int),
        decreases end - i,
    {
        r.push(buf[i]);
        i = i + 1;
        proof {
            assert(r@ =~= buf@.subrange(start as int, i as int));
        }
    }
    r
}

impl Address {
    /// Appends the frame of this address to `out`.
    pub fn write_to(&self, out: &mut Vec<u8>)
        requires
            self@.encodable(),
        ensures
            final(out)@ == old(out)@ + encode_spec(self@),
    {
        match self {
            Address::SocketAddress(SockAddr::V4(o, p)) => {
                out.push(ATYP_IPV4);
                push_all(out, o);
                push_port(out, *p);
            },
            Address::SocketAddress(SockAddr::V6(o, p)) => {
                out.push(ATYP_IPV6);
                push_all(out, o);
                push_port(out, *p);
            },
            Address::DomainNameAddress(n, p) => {
                out.push(ATYP_DOMAIN);
                out.push(n.len() as u8);
                push_all(out, n);
                push_port(out, *p);
            },
        }
        proof {
            let a = self@;
            match a {
                AddressView::Socket(SockAddrView::V4(o, p)) => {
                    assert(encode_spec(a) =~= seq![ATYP_IPV4] + o + port_bytes(p));
                },
                AddressView::Socket(SockAddrView::V6(o, p)) => {
                    assert(encode_spec(a) =~= seq![ATYP_IPV6] + o + port_bytes(p));
                },
                AddressView::Domain(n, p) => {
                    assert(encode_spec(a) =~= seq![ATYP_DOMAIN, n.len() as u8] + n + port_bytes(p));
                },
            }
        }
    }

    /// The frame of this address.
    pub fn encode(&self) -> (r: Vec<u8>)
        requires
            self@.encodable(),
        ensures
            r@ == encode_spec(self@),
    {
        let mut out: Vec<u8> = Vec::new();
        self.write_to(&mut out);
        proof {
            assert(out@ =~= encode_spec(self@));
        }
        out
    }

    /// Reads the address frame at the start of `buf`; on success returns the
    /// address and the number of bytes the frame took. Bytes after the frame
    /// are not looked at.
    pub fn read_from(buf: &[u8]) -> (r: Result<(Address, usize), DecodeError>)
        ensures
            match (r, decode_spec(buf@)) {
                (Ok((a, n)), Ok((av, m))) => a@ == av && n == m,
                (Err(e), Err(f)) => e == f,
                _ => false,
            },
    {
        if buf.len() == 0 {
            return Err(DecodeError::Truncated(1));
        }
        let t = buf[0];
        let n: usize = if t == ATYP_IPV4 {
            7
        } else if t == ATYP_IPV6 {
            19
        } else if t == ATYP_DOMAIN {
            if buf.len() >= 2 {
                4 + buf[1] as usize
            } else {
                2
            }
        } else {
            return Err(DecodeError::UnknownAddressType(t));
        };
        if buf.len() < n {
            return Err(DecodeError::Truncated(n));
        }
        let hi = buf[n - 2];
        let lo = buf[n - 1];
        let port: u16 = hi as u16 * 256 + lo as u16;
        let a = if t == ATYP_IPV4 {
            Address::SocketAddress(SockAddr::V4(copy_range(buf, 1, 5), port))
        } else if t == ATYP_IPV6 {
            Address::SocketAddress(SockAddr::V6(copy_range(buf, 1, 17), port))
        } else {
            let name = copy_range(buf, 2, n - 2);
            if !is_utf8(name.as_slice()) {
                return Err(DecodeError::InvalidHostName);
            }
            Address::DomainNameAddress(name, port)
        };
        Ok((a, n))
    }
}

impl SockAddr {
    /// A copy of this address.
    pub fn clone_addr(&self) -> (r: SockAddr)
        ensures
            r@ == self@,
    {
        match self {
            SockAddr::V4(o, p) => SockAddr::V4(copy_bytes(o), *p),
            SockAddr::V6(o, p) => SockAddr::V6(copy_bytes(o), *p),
        }
    }
}

pub(crate) fn copy_bytes(v: &Vec<u8>) -> (r: Vec<u8>)
    ensures
        r@ == v@,
{
    let mut r: Vec<u8> = Vec::new();
    let mut i: usize = 0;
    while i < v.len()
        invariant
            i <= v@.len(),
            r@ == v@.subrange(0, i as int),
        decreases v@.len() - i,
    {
        r.push(v[i]);
        i = i + 1;
        proof {
            assert(r@ =~= v@.subrange(0, i as int));
        }
    }
    proof {
        assert(r@ =~= v@);
    }
    r
}

impl Address {
    /// A copy of this address.
    pub fn clone_address(&self) -> (r: Address)
        ensures
            r@ == self@,
    {
        match self {
            Address::SocketAddress(s) => Address::SocketAddress(s.clone_addr()),
            Address::DomainNameAddress(n, p) => Address::DomainNameAddress(copy_bytes(n), *p),
        }
    }
}

/// Decoding the frame of an encodable address, whatever follows it, gives
/// back that address and the frame's length.
pub proof fn lemma_address_round_trip(a: AddressView, rest: Seq<u8>)
    requires
        a.encodable(),
    ensures
        decode_spec(encode_spec(a) + rest) == Ok::<(AddressView, nat), DecodeError>(
            (a, encode_spec(a).len()),
        ),
{
    let e = encode_spec(a);
    let s = e + rest;
    match a {
        AddressView::Socket(SockAddrView::V4(o, p)) => {
            assert(s[0] == ATYP_IPV4);
            assert(s.subrange(1, 5) =~= o);
            assert(port_from(s[5], s[6]) == p);
        },
        AddressView::Socket(SockAddrView::V6(o, p)) => {
            assert(s[0] == ATYP_IPV6);
            assert(s.subrange(1, 17) =~= o);
            assert(port_from(s[17], s[18]) == p);
        },
        AddressView::Domain(n, p) => {
            let k = n.len() as int;
            assert(s[0] == ATYP_DOMAIN);
            assert(s[1] == n.len() as u8);
            assert(s.subrange(2, 2 + k) =~= n);
            assert(s[2 + k] == (p / 256) as u8);
            assert(s[3 + k] == (p % 256) as u8);
            assert(port_from(s[2 + k], s[3 + k]) == p);
        },
    }
}

/// A frame with an unknown type byte is refused on that byte alone: nothing
/// after it is read.
pub proof fn lemma_unknown_type_stops_at_first_byte(s: Seq<u8>, t: Seq<u8>)
    requires
        s.len() >= 1,
        t.len() >= 1,
        s[0] == t[0],
        frame_len(s) is None,
    ensures
        decode_spec(s) == decode_spec(t),
        decode_spec(s) == Err::<(AddressView, nat), DecodeError>(
            DecodeError::UnknownAddressType(s[0]),
        ),
{
}

/// A frame cut short is refused, naming the length the frame needs, which
/// its first two bytes fix.
pub proof fn lemma_truncated_frame(a: AddressView, k: nat)
    requires
        a.encodable(),
        2 <= k < encode_spec(a).len(),
    ensures
        decode_spec(encode_spec(a).subrange(0, k as int)) matches Err(DecodeError::Truncated(n))
            && n == encode_spec(a).len(),
{
    let e = encode_spec(a);
    let s = e.subrange(0, k as int);
    assert(s[0] == e[0]);
    match a {
        AddressView::Domain(n, p) => {
            assert(s[1] == e[1]);
        },
        _ => {},
    }
}

} // verus!

//! The wire codec: the byte layout of a CONNECT request (address-type
//! tag, address bytes, big-endian port behind the fixed header), its
//! encoder on the client side, its decoder on the server side, and the
//! proof that the two are inverse.

use vstd::prelude::*;
use crate::utils::Addr;
use crate::utils::Buffer;
use crate::utils::ClientError;
use crate::utils::SocketAddress;
use crate::utils::host_of;
use crate::utils::host_port_error;
use crate::utils::parse_host_port;
use crate::utils::port_of;
use crate::utils::SOCKS_ADDR_DOMAINNAME;
use crate::utils::SOCKS_ADDR_IPV4;
use crate::utils::SOCKS_ADDR_IPV6;
use crate::utils::SOCKS_COMMAND_CONNECT;
use crate::utils::SOCKS_RSV;
use crate::utils::SOCKS_VER;
use crate::server::Socks5ServerError;

verus! {

/// The two big-endian bytes of a 16-bit value.
pub open spec fn be16_bytes(p: u16) -> Seq<u8> {
    seq![(p / 256) as u8, (p % 256) as u8]
}

/// The 16-bit value two big-endian bytes denote.
pub open spec fn be16(hi: u8, lo: u8) -> u16 {
    (hi * 256 + lo) as u16
}

/// The address part of a request: address-type tag, address bytes,
/// then the port, as the wire carries them.
pub open spec fn spec_encode_dest(a: Addr) -> Seq<u8> {
    match a {
        Addr::SocketAddr(SocketAddress::V4(ip, port)) => seq![SOCKS_ADDR_IPV4] + ip@
            + be16_bytes(port),
        Addr::SocketAddr(SocketAddress::V6(ip, port)) => seq![SOCKS_ADDR_IPV6] + ip@
            + be16_bytes(port),
        Addr::HostnamePort(v) => seq![SOCKS_ADDR_DOMAINNAME, host_of(v@).len() as u8] + host_of(v@)
            + be16_bytes(port_of(v@) as u16),
    }
}

/// A whole CONNECT request: version, command, reserved byte, then the
/// encoded destination.
pub open spec fn spec_encode_request(a: Addr) -> Seq<u8> {
    seq![SOCKS_VER, SOCKS_COMMAND_CONNECT, SOCKS_RSV] + spec_encode_dest(a)
}

/// Appends the two big-endian bytes of `p`.
pub fn push_be16(request: &mut Buffer, p: u16)
    ensures
        final(request)@ == old(request)@ + be16_bytes(p),
{
    request.push((p / 256) as u8);
    request.push((p % 256) as u8);
    proof {
        assert(old(request)@.push((p / 256) as u8).push((p % 256) as u8)
            =~= old(request)@ + be16_bytes(p));
    }
}

/// Appends the encoded destination to a request under construction.
///
/// A numeric address always encodes; a hostname destination encodes
/// exactly when its text is a well-formed `host:port`, and otherwise
/// fails with the text's defect, leaving the buffer untouched.
pub fn encode_dest(request: &mut Buffer, dest: &Addr) -> (r: Result<(), ClientError>)
    ensures
        match *dest {
            Addr::SocketAddr(_) => r is Ok,
            Addr::HostnamePort(v) => match host_port_error(v@) {
                None => r is Ok,
                Some(e) => r == Err::<(), ClientError>(e),
            },
        },
        r is Ok ==> final(request)@ == old(request)@ + spec_encode_dest(*dest),
        r is Err ==> final(request)@ == old(request)@,
{
    match dest {
        Addr::SocketAddr(sa) => {
            match sa {
                SocketAddress::V4(ip, port) => {
                    request.push(SOCKS_ADDR_IPV4);
                    request.extend(ip.as_slice());
                    push_be16(request, *port);
                    proof {
                        assert((old(request)@.push(SOCKS_ADDR_IPV4) + ip@) + be16_bytes(*port)
                            =~= old(request)@ + spec_encode_dest(*dest));
                    }
                },
                SocketAddress::V6(ip, port) => {
                    request.push(SOCKS_ADDR_IPV6);
                    request.extend(ip.as_slice());
                    push_be16(request, *port);
                    proof {
                        assert((old(request)@.push(SOCKS_ADDR_IPV6) + ip@) + be16_bytes(*port)
                            =~= old(request)@ + spec_encode_dest(*dest));
                    }
                },
            }
            Ok(())
        },
        Addr::HostnamePort(v) => {
            match parse_host_port(v.as_slice()) {
                Err(e) => Err(e),
                Ok((host, port)) => {
                    request.push(SOCKS_ADDR_DOMAINNAME);
                    request.push(host.len() as u8);
                    request.extend(host.as_slice());
                    push_be16(request, port);
                    proof {
                        assert(((old(request)@.push(SOCKS_ADDR_DOMAINNAME).push(
                            host_of(v@).len() as u8,
                        ) + host@) + be16_bytes(port)) =~= old(request)@ + spec_encode_dest(*dest));
                    }
                    Ok(())
                },
            }
        },
    }
}

/// Encodes a whole CONNECT request for `dest`.
///
/// For a well-formed destination the bytes are exactly
/// `spec_encode_request(dest)`; a malformed hostname destination fails
/// locally, before anything could be sent.
pub fn encode_connect_request(dest: &Addr) -> (r: Result<Vec<u8>, ClientError>)
    ensures
        match *dest {
            Addr::SocketAddr(_) => r matches Ok(msg) && msg@ == spec_encode_request(*dest),
            Addr::HostnamePort(v) => match host_port_error(v@) {
                None => r matches Ok(msg) && msg@ == spec_encode_request(*dest),
                Some(e) => r == Err::<Vec<u8>, ClientError>(e),
            },
        },
{
    let mut request = Buffer::from(Vec::new());
    request.push(SOCKS_VER);
    request.push(SOCKS_COMMAND_CONNECT);
    request.push(SOCKS_RSV);
    match encode_dest(&mut request, dest) {
        Err(e) => Err(e),
        Ok(()) => {
            proof {
                assert(Seq::<u8>::empty().push(SOCKS_VER).push(SOCKS_COMMAND_CONNECT).push(
                    SOCKS_RSV,
                ) + spec_encode_dest(*dest) =~= spec_encode_request(*dest));
            }
            Ok(request.content())
        },
    }
}

/// A destination as the server decodes it: numeric, or a domain name
/// still to be resolved together with its port.
#[derive(Debug, Clone, PartialEq, Eq)]
pub enum DecodedDest {
    Ip(SocketAddress),
    Domain(Vec<u8>, u16),
}

impl DecodedDest {
    /// The address-type tag this destination travels under.
    pub open spec fn atyp_spec(&self) -> u8 {
        match self {
            DecodedDest::Ip(SocketAddress::V4(_, _)) => SOCKS_ADDR_IPV4,
            DecodedDest::Ip(SocketAddress::V6(_, _)) => SOCKS_ADDR_IPV6,
            DecodedDest::Domain(_, _) => SOCKS_ADDR_DOMAINNAME,
        }
    }

    /// The raw address bytes: octets for a numeric address, the name's
    /// bytes for a domain.
    pub open spec fn addr_bytes_spec(&self) -> Seq<u8> {
        match self {
            DecodedDest::Ip(SocketAddress::V4(ip, _)) => ip@,
            DecodedDest::Ip(SocketAddress::V6(ip, _)) => ip@,
            DecodedDest::Domain(host, _) => host@,
        }
    }

    pub open spec fn port_spec(&self) -> u16 {
        match self {
            DecodedDest::Ip(SocketAddress::V4(_, p)) => *p,
            DecodedDest::Ip(SocketAddress::V6(_, p)) => *p,
            DecodedDest::Domain(_, p) => *p,
        }
    }
}

/// What decoding a whole CONNECT request yields: the address-type tag,
/// the raw address bytes and the port, or the failure the bytes force.
/// A short message reads as a transport failure, since on a live
/// stream it never finishes arriving.
pub open spec fn spec_decode_request(s: Seq<u8>) -> Result<(u8, Seq<u8>, u16), Socks5ServerError> {
    if s.len() < 4 {
        Err(Socks5ServerError::IoError)
    } else if s[0] != SOCKS_VER || s[2] != SOCKS_RSV {
        Err(Socks5ServerError::UnknownProtocol)
    } else if s[1] != SOCKS_COMMAND_CONNECT {
        Err(Socks5ServerError::UnsupportedCommand(s[1]))
    } else if s[3] == SOCKS_ADDR_IPV4 {
        if s.len() == 10 {
            Ok((SOCKS_ADDR_IPV4, s.subrange(4, 8), be16(s[8], s[9])))
        } else {
            Err(Socks5ServerError::IoError)
        }
    } else if s[3] == SOCKS_ADDR_IPV6 {
        if s.len() == 22 {
            Ok((SOCKS_ADDR_IPV6, s.subrange(4, 20), be16(s[20], s[21])))
        } else {
            Err(Socks5ServerError::IoError)
        }
    } else if s[3] == SOCKS_ADDR_DOMAINNAME {
        if s.len() >= 5 && s.len() == 7 + s[4] {
            Ok((SOCKS_ADDR_DOMAINNAME, s.subrange(5, 5 + s[4]), be16(s[s.len() - 2], s[s.len() - 1])))
        } else {
            Err(Socks5ServerError::IoError)
        }
    } else {
        Err(Socks5ServerError::UnknownAddrType(s[3]))
    }
}

/// Law: encoding any well-formed destination as a CONNECT request and
/// decoding the bytes yields the same address and port back: the
/// octets and port of a numeric address, or the host bytes and the
/// numeric port value of a `host:port` destination.
pub proof fn lemma_request_round_trip(a: Addr)
    requires
        a.wf(),
    ensures
        match a {
            Addr::SocketAddr(SocketAddress::V4(ip, port)) => spec_decode_request(
                spec_encode_request(a),
            ) == Ok::<(u8, Seq<u8>, u16), Socks5ServerError>((SOCKS_ADDR_IPV4, ip@, port)),
            Addr::SocketAddr(SocketAddress::V6(ip, port)) => spec_decode_request(
                spec_encode_request(a),
            ) == Ok::<(u8, Seq<u8>, u16), Socks5ServerError>((SOCKS_ADDR_IPV6, ip@, port)),
            Addr::HostnamePort(v) => spec_decode_request(spec_encode_request(a)) == Ok::<
                (u8, Seq<u8>, u16),
                Socks5ServerError,
            >((SOCKS_ADDR_DOMAINNAME, host_of(v@), port_of(v@) as u16)),
        },
{
    let s = spec_encode_request(a);
    match a {
        Addr::SocketAddr(SocketAddress::V4(ip, port)) => {
            assert(s.len() == 10);
            assert(s.subrange(4, 8) =~= ip@);
            assert(be16(s[8], s[9]) == port);
        },
        Addr::SocketAddr(SocketAddress::V6(ip, port)) => {
            assert(s.len() == 22);
            assert(s.subrange(4, 20) =~= ip@);
            assert(be16(s[20], s[21]) == port);
        },
        Addr::HostnamePort(v) => {
            crate::utils::lemma_valid_host_port_bounds(v@);
            let host = host_of(v@);
            let p = port_of(v@) as u16;
            assert(s.len() == 7 + host.len());
            assert(s[4] == host.len() as u8);
            assert(s.len() == 7 + s[4]);
            assert(s.subrange(5, 5 + s[4]) =~= host);
            assert(be16(s[s.len() - 2], s[s.len() - 1]) == p);
        },
    }
}

/// Reads the two big-endian port bytes at `at`.
fn read_be16(msg: &[u8], at: usize) -> (p: u16)
    requires
        at + 2 <= msg@.len(),
    ensures
        p == be16(msg@[at as int], msg@[at as int + 1]),
{
    (msg[at] as u16) * 256 + (msg[at + 1] as u16)
}

/// Decodes a whole CONNECT request, exactly as `spec_decode_request`
/// reads it.
pub fn decode_connect_request(msg: &[u8]) -> (r: Result<DecodedDest, Socks5ServerError>)
    ensures
        match spec_decode_request(msg@) {
            Ok((atyp, addr, port)) => r matches Ok(d) && d.atyp_spec() == atyp
                && d.addr_bytes_spec() == addr && d.port_spec() == port,
            Err(e) => r == Err::<DecodedDest, Socks5ServerError>(e),
        },
{
    if msg.len() < 4 {
        return Err(Socks5ServerError::IoError);
    }
    if msg[0] != SOCKS_VER || msg[2] != SOCKS_RSV {
        return Err(Socks5ServerError::UnknownProtocol);
    }
    if msg[1] != SOCKS_COMMAND_CONNECT {
        return Err(Socks5ServerError::UnsupportedCommand(msg[1]));
    }
    let atyp = msg[3];
    if atyp == SOCKS_ADDR_IPV4 {
        if msg.len() != 10 {
            return Err(Socks5ServerError::IoError);
        }
        let ip: [u8; 4] = [msg[4], msg[5], msg[6], msg[7]];
        let port = read_be16(msg, 8);
        proof {
            assert(ip@ =~= msg@.subrange(4, 8));
        }
        Ok(DecodedDest::Ip(SocketAddress::V4(ip, port)))
    } else if atyp == SOCKS_ADDR_IPV6 {
        if msg.len() != 22 {
            return Err(Socks5ServerError::IoError);
        }
        let ip: [u8; 16] = [
            msg[4],
            msg[5],
            msg[6],
            msg[7],
            msg[8],
            msg[9],
            msg[10],
            msg[11],
            msg[12],
            msg[13],
            msg[14],
            msg[15],
            msg[16],
            msg[17],
            msg[18],
            msg[19],
        ];
        let port = read_be16(msg, 20);
        proof {
            assert(ip@ =~= msg@.subrange(4, 20));
        }
        Ok(DecodedDest::Ip(SocketAddress::V6(ip, port)))
    } else if atyp == SOCKS_ADDR_DOMAINNAME {
        if msg.len() < 5 {
            return Err(Socks5ServerError::IoError);
        }
        let len = msg[4] as usize;
        if msg.len() != 7 + len {
            return Err(Socks5ServerError::IoError);
        }
        let host = vstd::slice::slice_to_vec(vstd::slice::slice_subrange(msg, 5, 5 + len));
        let port = read_be16(msg, 5 + len);
        Ok(DecodedDest::Domain(host, port))
    } else {
        Err(Socks5ServerError::UnknownAddrType(atyp))
    }
}

/// The shape of the address-plus-port field an address-type tag
/// announces: a fixed-size numeric address, or a length-prefixed
/// domain name.
#[derive(Debug, Clone, Copy, PartialEq, Eq, Structural)]
pub enum AddrTail {
    Ipv4,
    Ipv6,
    Domain,
}

/// The tail shape for an address-type tag, or `None` for a tag this
/// implementation does not know.
pub open spec fn spec_addr_tail(atyp: u8) -> Option<AddrTail> {
    if atyp == SOCKS_ADDR_IPV4 {
        Some(AddrTail::Ipv4)
    } else if atyp == SOCKS_ADDR_IPV6 {
        Some(AddrTail::Ipv6)
    } else if atyp == SOCKS_ADDR_DOMAINNAME {
        Some(AddrTail::Domain)
    } else {
        None
    }
}

pub fn addr_tail(atyp: u8) -> (r: Option<AddrTail>)
    ensures
        r == spec_addr_tail(atyp),
{
    if atyp == SOCKS_ADDR_IPV4 {
        Some(AddrTail::Ipv4)
    } else if atyp == SOCKS_ADDR_IPV6 {
        Some(AddrTail::Ipv6)
    } else if atyp == SOCKS_ADDR_DOMAINNAME {
        Some(AddrTail::Domain)
    } else {
        None
    }
}

impl AddrTail {
    /// The byte count of address plus port when it is fixed: six for
    /// IPv4, eighteen for IPv6; a domain tail is length-prefixed
    /// instead.
    pub fn fixed_len(&self) -> (r: Option<u16>)
        ensures
            match self {
                AddrTail::Ipv4 => r == Some(6u16),
                AddrTail::Ipv6 => r == Some(18u16),
                AddrTail::Domain => r == None::<u16>,
            },
    {
        match self {
            AddrTail::Ipv4 => Some(6),
            AddrTail::Ipv6 => Some(18),
            AddrTail::Domain => None,
        }
    }

    /// The bytes still to read after the length byte of a domain tail:
    /// the name itself and the two port bytes.
    pub fn domain_rest(len: u8) -> (r: u16)
        ensures
            r == len + 2,
    {
        (len as u16) + 2
    }
}

} // verus!

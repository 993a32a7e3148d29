//! Shared protocol values: the fixed wire constants, authentication
//! methods, the reply-code taxonomy, the client-side error taxonomy,
//! and a small append-only byte buffer used by the codec.

use vstd::prelude::*;

verus! {

/// Protocol version byte of every SOCKS5 message.
pub const SOCKS_VER: u8 = 0x05;

/// Reserved byte; always zero on the wire.
pub const SOCKS_RSV: u8 = 0x00;

/// Command byte of a CONNECT request (the only supported command).
pub const SOCKS_COMMAND_CONNECT: u8 = 0x01;

/// Address-type tag for a 4-byte IPv4 address.
pub const SOCKS_ADDR_IPV4: u8 = 0x01;

/// Address-type tag for a 16-byte IPv6 address.
pub const SOCKS_ADDR_IPV6: u8 = 0x04;

/// Address-type tag for a length-prefixed domain name.
pub const SOCKS_ADDR_DOMAINNAME: u8 = 0x03;

/// An authentication method, as negotiated during the handshake.
///
/// Only `NoAuth` can complete authentication; `UserPass` is recognized
/// at the negotiation level but its payload exchange is deliberately
/// unimplemented; `NoAvailable` is only ever a signal from the peer
/// meaning "no mutually acceptable method".
#[derive(Debug, Clone, PartialEq, Eq)]
pub enum AuthMethod {
    NoAuth,
    UserPass(Option<(String, String)>),
    NoAvailable,
}

impl AuthMethod {
    /// The 1-byte wire code of this method.
    pub open spec fn code_spec(&self) -> u8 {
        match self {
            AuthMethod::NoAuth => 0x00,
            AuthMethod::UserPass(_) => 0x02,
            AuthMethod::NoAvailable => 0xFF,
        }
    }

    pub fn to_code(&self) -> (code: u8)
        ensures
            code == self.code_spec(),
    {
        match self {
            AuthMethod::NoAuth => 0x00,
            AuthMethod::UserPass(_) => 0x02,
            AuthMethod::NoAvailable => 0xFF,
        }
    }

    /// The method a wire code stands for, or `None` for a code this
    /// implementation does not recognize.
    pub open spec fn spec_from_code(code: u8) -> Option<AuthMethod> {
        if code == 0x00 {
            Some(AuthMethod::NoAuth)
        } else if code == 0x02 {
            Some(AuthMethod::UserPass(None))
        } else if code == 0xFF {
            Some(AuthMethod::NoAvailable)
        } else {
            None
        }
    }

    pub fn from_code(code: u8) -> (r: Result<AuthMethod, ClientError>)
        ensures
            match AuthMethod::spec_from_code(code) {
                Some(m) => r == Ok::<AuthMethod, ClientError>(m),
                None => r == Err::<AuthMethod, ClientError>(ClientError::UnsupportedMethodCode(code)),
            },
    {
        if code == 0x00 {
            Ok(AuthMethod::NoAuth)
        } else if code == 0x02 {
            Ok(AuthMethod::UserPass(None))
        } else if code == 0xFF {
            Ok(AuthMethod::NoAvailable)
        } else {
            Err(ClientError::UnsupportedMethodCode(code))
        }
    }
}

/// The reply-code space of a CONNECT reply: nine wire values plus a
/// catch-all for any byte outside them.
#[allow(non_camel_case_types)]
#[derive(Debug, Clone, Copy, PartialEq, Eq, Structural)]
pub enum SocksError {
    SUCCESS,
    FAIL,
    DENY,
    NETWORK,
    HOST,
    CONNECTION,
    TTL,
    COMMAND,
    ADDRESS,
    OTHER,
}

impl SocksError {
    /// The 1-byte wire value of this reply code.
    pub open spec fn code_spec(&self) -> u8 {
        match self {
            SocksError::SUCCESS => 0x00,
            SocksError::FAIL => 0x01,
            SocksError::DENY => 0x02,
            SocksError::NETWORK => 0x03,
            SocksError::HOST => 0x04,
            SocksError::CONNECTION => 0x05,
            SocksError::TTL => 0x06,
            SocksError::COMMAND => 0x07,
            SocksError::ADDRESS => 0x08,
            SocksError::OTHER => 0x09,
        }
    }

    pub fn to_code(&self) -> (code: u8)
        ensures
            code == self.code_spec(),
    {
        match self {
            SocksError::SUCCESS => 0x00,
            SocksError::FAIL => 0x01,
            SocksError::DENY => 0x02,
            SocksError::NETWORK => 0x03,
            SocksError::HOST => 0x04,
            SocksError::CONNECTION => 0x05,
            SocksError::TTL => 0x06,
            SocksError::COMMAND => 0x07,
            SocksError::ADDRESS => 0x08,
            SocksError::OTHER => 0x09,
        }
    }

    /// The reply code a wire byte decodes to; every byte outside the
    /// nine assigned values falls to the catch-all.
    pub open spec fn spec_from_code(code: u8) -> SocksError {
        if code == 0x00 {
            SocksError::SUCCESS
        } else if code == 0x01 {
            SocksError::FAIL
        } else if code == 0x02 {
            SocksError::DENY
        } else if code == 0x03 {
            SocksError::NETWORK
        } else if code == 0x04 {
            SocksError::HOST
        } else if code == 0x05 {
            SocksError::CONNECTION
        } else if code == 0x06 {
            SocksError::TTL
        } else if code == 0x07 {
            SocksError::COMMAND
        } else if code == 0x08 {
            SocksError::ADDRESS
        } else {
            SocksError::OTHER
        }
    }

    pub fn from_code(code: u8) -> (r: SocksError)
        ensures
            r == SocksError::spec_from_code(code),
    {
        if code == 0x00 {
            SocksError::SUCCESS
        } else if code == 0x01 {
            SocksError::FAIL
        } else if code == 0x02 {
            SocksError::DENY
        } else if code == 0x03 {
            SocksError::NETWORK
        } else if code == 0x04 {
            SocksError::HOST
        } else if code == 0x05 {
            SocksError::CONNECTION
        } else if code == 0x06 {
            SocksError::TTL
        } else if code == 0x07 {
            SocksError::COMMAND
        } else if code == 0x08 {
            SocksError::ADDRESS
        } else {
            SocksError::OTHER
        }
    }
}

/// Law: encoding any reply code and decoding the byte gives the same
/// code back, and a byte outside the nine assigned values always
/// decodes to the catch-all.
pub proof fn lemma_reply_code_round_trip(e: SocksError, stray: u8)
    requires
        stray > 0x08,
    ensures
        SocksError::spec_from_code(e.code_spec()) == e,
        SocksError::spec_from_code(stray) == SocksError::OTHER,
{
}

/// A failure of the client role, one named condition per distinct way
/// a connection attempt can go wrong before the tunnel exists.
#[derive(Debug, Clone, PartialEq, Eq)]
pub enum ClientError {
    /// The peer spoke something other than SOCKS5 (wrong version or
    /// reserved byte, or it selected a method the client never offered).
    UnsupportedProtocol,
    /// The peer selected a method code this implementation does not know.
    UnsupportedMethodCode(u8),
    /// The peer reported that no offered method is acceptable.
    NoAcceptableMethod,
    /// The negotiated method needs an authentication exchange that is
    /// deliberately not implemented.
    AuthNotImplemented,
    /// A hostname destination is not of the shape `host:port`.
    BadHostnamePort,
    /// A hostname destination names a host longer than 255 bytes.
    HostnameTooLong,
    /// A hostname destination carries a port that is not a number
    /// between 0 and 65535.
    BadPort,
    /// The reply carried an address type this implementation does not know.
    UnknownAddrType(u8),
    /// The server rejected the command with this reply code.
    Rejected(SocksError),
}

/// A numeric socket address: four or sixteen address bytes and a port.
#[derive(Debug, Clone, PartialEq, Eq)]
pub enum SocketAddress {
    V4([u8; 4], u16),
    V6([u8; 16], u16),
}

/// A destination for a CONNECT command: either an already numeric
/// socket address, or the bytes of a `host:port` string whose host the
/// proxy is to resolve.
#[derive(Debug, Clone, PartialEq, Eq)]
pub enum Addr {
    SocketAddr(SocketAddress),
    HostnamePort(Vec<u8>),
}

impl Addr {
    /// A destination the codec can encode: numeric addresses always,
    /// hostname destinations exactly when their text is a well-formed
    /// `host:port`.
    pub open spec fn wf(&self) -> bool {
        match self {
            Addr::SocketAddr(_) => true,
            Addr::HostnamePort(v) => valid_host_port(v@),
        }
    }
}

/// `s[i]` exists and is the only colon in `s`.
pub open spec fn only_colon_at(s: Seq<u8>, i: int) -> bool {
    &&& 0 <= i < s.len()
    &&& s[i] == 0x3Au8
    &&& forall|j: int| 0 <= j < s.len() && j != i ==> s[j] != 0x3Au8
}

/// `s` holds exactly one colon.
pub open spec fn single_colon(s: Seq<u8>) -> bool {
    exists|i: int| only_colon_at(s, i)
}

/// The position of the colon of a single-colon string.
pub open spec fn colon_pos(s: Seq<u8>) -> int {
    choose|i: int| only_colon_at(s, i)
}

/// An ASCII decimal digit.
pub open spec fn is_digit(b: u8) -> bool {
    0x30 <= b <= 0x39
}

pub open spec fn all_digits(s: Seq<u8>) -> bool {
    forall|i: int| 0 <= i < s.len() ==> is_digit(#[trigger] s[i])
}

/// The number an ASCII digit string denotes, most significant first.
pub open spec fn digits_val(s: Seq<u8>) -> int
    decreases s.len(),
{
    if s.len() == 0 {
        0
    } else {
        digits_val(s.drop_last()) * 10 + (s.last() - 0x30)
    }
}

/// The host part of a single-colon `host:port` string.
pub open spec fn host_of(s: Seq<u8>) -> Seq<u8> {
    s.subrange(0, colon_pos(s))
}

/// The digits after the colon of a single-colon `host:port` string.
pub open spec fn port_digits(s: Seq<u8>) -> Seq<u8> {
    s.subrange(colon_pos(s) + 1, s.len() as int)
}

/// The port value of a single-colon `host:port` string.
pub open spec fn port_of(s: Seq<u8>) -> int {
    digits_val(port_digits(s))
}

/// Why the bytes `s` fail to be a well-formed `host:port`, or `None`
/// if they are one: exactly one colon separating a non-empty host of
/// at most 255 bytes from a non-empty all-digit port of at most 65535.
pub open spec fn host_port_error(s: Seq<u8>) -> Option<ClientError> {
    if !single_colon(s) {
        Some(ClientError::BadHostnamePort)
    } else if colon_pos(s) == 0 {
        Some(ClientError::BadHostnamePort)
    } else if colon_pos(s) > 255 {
        Some(ClientError::HostnameTooLong)
    } else if port_digits(s).len() == 0 || !all_digits(port_digits(s)) || port_of(s) > 65535 {
        Some(ClientError::BadPort)
    } else {
        None
    }
}

pub open spec fn valid_host_port(s: Seq<u8>) -> bool {
    host_port_error(s) is None
}

proof fn lemma_digits_val_nonneg(s: Seq<u8>)
    requires
        all_digits(s),
    ensures
        digits_val(s) >= 0,
    decreases s.len(),
{
    if s.len() > 0 {
        assert forall|i: int| 0 <= i < s.drop_last().len() implies is_digit(#[trigger] s.drop_last()[i]) by {
            assert(s.drop_last()[i] == s[i]);
        }
        lemma_digits_val_nonneg(s.drop_last());
        assert(is_digit(s[s.len() - 1]));
    }
}

/// The value of a digit string is at least the value of any prefix.
proof fn lemma_digits_val_prefix_le(s: Seq<u8>, i: int)
    requires
        all_digits(s),
        0 <= i <= s.len(),
    ensures
        digits_val(s.take(i)) <= digits_val(s),
    decreases s.len() - i,
{
    if i < s.len() {
        assert forall|j: int| 0 <= j < s.take(i).len() implies is_digit(#[trigger] s.take(i)[j]) by {
            assert(s.take(i)[j] == s[j]);
        }
        lemma_digits_val_nonneg(s.take(i));
        assert(s.take(i + 1).drop_last() =~= s.take(i));
        assert(s.take(i + 1).last() == s[i]);
        assert(is_digit(s[i]));
        assert(digits_val(s.take(i + 1)) == digits_val(s.take(i)) * 10 + (s[i] - 0x30));
        lemma_digits_val_prefix_le(s, i + 1);
    } else {
        assert(s.take(i) =~= s);
    }
}

/// Bounds every well-formed `host:port` obeys: the host is 1 to 255
/// bytes, and the port value fits in 16 bits.
pub proof fn lemma_valid_host_port_bounds(s: Seq<u8>)
    requires
        valid_host_port(s),
    ensures
        single_colon(s),
        1 <= colon_pos(s) <= 255,
        host_of(s).len() == colon_pos(s),
        1 <= port_digits(s).len(),
        0 <= port_of(s) <= 65535,
{
    lemma_digits_val_nonneg(port_digits(s));
}

/// Splits the bytes of a `host:port` string, validating its shape:
/// exactly one colon, a non-empty host of at most 255 bytes, and a
/// numeric port up to 65535.
pub fn parse_host_port(s: &[u8]) -> (r: Result<(Vec<u8>, u16), ClientError>)
    ensures
        match host_port_error(s@) {
            Some(e) => r == Err::<(Vec<u8>, u16), ClientError>(e),
            None => (r matches Ok((host, port))
                && host@ == host_of(s@) && port == port_of(s@)),
        },
{
    let n: usize = s.len();
    let mut i: usize = 0;
    let mut colon: usize = 0;
    let mut count: usize = 0;
    let ghost mut second: int = 0;
    while i < n
        invariant
            n == s@.len(),
            i <= n,
            count == 0 ==> forall|j: int| 0 <= j < i ==> s@[j] != 0x3Au8,
            count == 1 ==> colon < i && s@[colon as int] == 0x3Au8
                && forall|j: int| 0 <= j < i && j != colon ==> s@[j] != 0x3Au8,
            count >= 2 ==> 0 <= colon < second < i && s@[colon as int] == 0x3Au8
                && s@[second] == 0x3Au8,
        decreases n - i,
    {
        if s[i] == 0x3A {
            if count == 0 {
                colon = i;
            } else if count == 1 {
                proof {
                    second = i as int;
                }
            }
            if count < 2 {
                count = count + 1;
            }
        }
        i = i + 1;
    }
    if count == 0 {
        proof {
            assert forall|k: int| !only_colon_at(s@, k) by {
                if 0 <= k < s@.len() {
                    assert(s@[k] != 0x3Au8);
                }
            }
        }
        return Err(ClientError::BadHostnamePort);
    }
    if count >= 2 {
        proof {
            assert forall|k: int| !only_colon_at(s@, k) by {
                if only_colon_at(s@, k) {
                    if k != colon {
                        assert(s@[colon as int] != 0x3Au8);
                    } else {
                        assert(s@[second] != 0x3Au8);
                    }
                }
            }
        }
        return Err(ClientError::BadHostnamePort);
    }
    proof {
        assert(only_colon_at(s@, colon as int));
        assert(single_colon(s@));
        if colon_pos(s@) != colon {
            assert(only_colon_at(s@, colon_pos(s@)));
            assert(false);
        }
    }
    if colon == 0 {
        return Err(ClientError::BadHostnamePort);
    }
    if colon > 255 {
        return Err(ClientError::HostnameTooLong);
    }
    if colon + 1 == n {
        proof {
            assert(port_digits(s@).len() == 0);
        }
        return Err(ClientError::BadPort);
    }
    let mut acc: u32 = 0;
    let mut k: usize = colon + 1;
    while k < n
        invariant
            n == s@.len(),
            0 < colon <= 255,
            colon < n,
            colon + 1 <= k <= n,
            single_colon(s@),
            colon_pos(s@) == colon,
            all_digits(s@.subrange(colon + 1, k as int)),
            acc == digits_val(s@.subrange(colon + 1, k as int)),
            acc <= 65535,
        decreases n - k,
    {
        let b = s[k];
        if b < 0x30 || b > 0x39 {
            proof {
                assert(port_digits(s@)[k - colon - 1] == s@[k as int]);
                assert(!all_digits(port_digits(s@)));
            }
            return Err(ClientError::BadPort);
        }
        let d: u32 = (b - 0x30) as u32;
        let next: u32 = acc * 10 + d;
        proof {
            let pre = s@.subrange(colon + 1, k as int);
            let ext = s@.subrange(colon + 1, k + 1);
            assert(ext.drop_last() =~= pre);
            assert(ext.last() == s@[k as int]);
            assert(digits_val(ext) == digits_val(pre) * 10 + (s@[k as int] - 0x30));
            assert forall|j: int| 0 <= j < ext.len() implies is_digit(#[trigger] ext[j]) by {
                if j < pre.len() {
                    assert(ext[j] == pre[j]);
                }
            }
        }
        if next > 65535 {
            proof {
                let pd = port_digits(s@);
                if all_digits(pd) && digits_val(pd) <= 65535 {
                    assert(pd.take(k + 1 - colon - 1) =~= s@.subrange(colon + 1, k + 1));
                    lemma_digits_val_prefix_le(pd, k + 1 - colon - 1);
                    assert(false);
                }
            }
            return Err(ClientError::BadPort);
        }
        acc = next;
        k = k + 1;
    }
    proof {
        assert(s@.subrange(colon + 1, n as int) =~= port_digits(s@));
    }
    let host = vstd::slice::slice_to_vec(vstd::slice::slice_subrange(s, 0, colon));
    Ok((host, acc as u16))
}

/// An append-only byte buffer: the codec's output grows at its end and
/// is handed out whole.
pub struct Buffer {
    buffer: Vec<u8>,
}

impl View for Buffer {
    type V = Seq<u8>;

    closed spec fn view(&self) -> Seq<u8> {
        self.buffer@
    }
}

impl Buffer {
    /// Starts a buffer holding the given bytes.
    pub fn from(buffer: Vec<u8>) -> (r: Buffer)
        ensures
            r@ == buffer@,
    {
        Buffer { buffer }
    }

    /// Hands out everything written so far.
    pub fn content(self) -> (r: Vec<u8>)
        ensures
            r@ == self@,
    {
        self.buffer
    }

    /// Appends one byte.
    pub fn push(&mut self, byte: u8)
        ensures
            final(self)@ == old(self)@.push(byte),
    {
        self.buffer.push(byte);
    }

    /// Appends a whole slice.
    pub fn extend(&mut self, slice: &[u8])
        ensures
            final(self)@ == old(self)@ + slice@,
    {
        let mut i: usize = 0;
        while i < slice.len()
            invariant
                i <= slice@.len(),
                self@ == old(self)@ + slice@.subrange(0, i as int),
            decreases slice@.len() - i,
        {
            self.buffer.push(slice[i]);
            proof {
                assert(old(self)@ + slice@.subrange(0, i + 1)
                    =~= (old(self)@ + slice@.subrange(0, i as int)).push(slice@[i as int]));
            }
            i = i + 1;
        }
        proof {
            assert(slice@.subrange(0, slice@.len() as int) =~= slice@);
        }
    }
}

} // verus!

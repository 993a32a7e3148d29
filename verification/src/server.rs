//! The server role's decisions: greeting parsing, method selection,
//! the authentication gate, command-request checks, reply encoding,
//! and the mapping from local failures to wire reply codes.

use vstd::prelude::*;
use crate::utils::AuthMethod;
use crate::utils::ClientError;
use crate::utils::SocksError;
use crate::utils::SOCKS_ADDR_IPV4;
use crate::utils::SOCKS_COMMAND_CONNECT;
use crate::utils::SOCKS_RSV;
use crate::utils::SOCKS_VER;

verus! {

/// A failure of the server role while handling one connection, one
/// named condition per distinct way the connection can go wrong.
#[derive(Debug, Clone, PartialEq, Eq)]
pub enum Socks5ServerError {
    /// The peer spoke something other than SOCKS5 (wrong version or
    /// reserved byte).
    UnknownProtocol,
    /// No offered method matches the configured one, or the configured
    /// method needs an authentication exchange that is deliberately
    /// not implemented.
    UnsupportedAuth,
    /// The request carried a command other than CONNECT.
    UnsupportedCommand(u8),
    /// The request carried an address type this implementation does
    /// not know.
    UnknownAddrType(u8),
    /// A domain-name destination is not valid text.
    InvalidHost,
    /// Resolving this domain-name destination found no usable address.
    DnsError(Vec<u8>),
    /// Opening the outbound connection to the destination failed.
    ConnectFailed,
    /// The transport failed underneath the protocol exchange.
    IoError,
}

impl Socks5ServerError {
    /// The best-match reply code sent to the client before the
    /// connection is dropped: resolution failure maps to
    /// host-unreachable, an unsupported command and an unknown address
    /// type to their own codes, an outbound connect failure to
    /// network-unreachable, and everything else to a general failure.
    pub open spec fn reply_code_spec(&self) -> SocksError {
        match self {
            Socks5ServerError::DnsError(_) => SocksError::HOST,
            Socks5ServerError::UnsupportedCommand(_) => SocksError::COMMAND,
            Socks5ServerError::UnknownAddrType(_) => SocksError::ADDRESS,
            Socks5ServerError::ConnectFailed => SocksError::NETWORK,
            _ => SocksError::FAIL,
        }
    }

    pub fn reply_code(&self) -> (r: SocksError)
        ensures
            r == self.reply_code_spec(),
    {
        match self {
            Socks5ServerError::DnsError(_) => SocksError::HOST,
            Socks5ServerError::UnsupportedCommand(_) => SocksError::COMMAND,
            Socks5ServerError::UnknownAddrType(_) => SocksError::ADDRESS,
            Socks5ServerError::ConnectFailed => SocksError::NETWORK,
            _ => SocksError::FAIL,
        }
    }
}

/// True when some offered method code is the configured method's code.
pub open spec fn selected(configured: AuthMethod, offered: Seq<u8>) -> bool {
    exists|i: int| 0 <= i < offered.len() && offered[i] == configured.code_spec()
}

/// An accepted connection, before any byte is exchanged.
#[derive(Debug)]
pub struct PendingHandshake;

/// A connection whose method negotiation succeeded.
#[derive(Debug)]
pub struct PendingAuthenticate;

/// An authenticated connection, waiting for its command request.
#[derive(Debug)]
pub struct PendingCommand;

impl PendingHandshake {
    /// Reads the greeting header: the count of offered methods, or a
    /// protocol failure for a non-SOCKS5 version byte.
    pub fn greeting_header(&self, header: &[u8; 2]) -> (r: Result<u8, Socks5ServerError>)
        ensures
            header@[0] == SOCKS_VER ==> r == Ok::<u8, Socks5ServerError>(header@[1]),
            header@[0] != SOCKS_VER ==> r == Err::<u8, Socks5ServerError>(
                Socks5ServerError::UnknownProtocol,
            ),
    {
        if header[0] != SOCKS_VER {
            return Err(Socks5ServerError::UnknownProtocol);
        }
        Ok(header[1])
    }

    /// Scans the offered method codes for the configured method and,
    /// on a match, advances and yields the selection bytes to echo.
    pub fn handshake(self, auth: &AuthMethod, offered: &[u8]) -> (r: Result<
        (PendingAuthenticate, Vec<u8>),
        Socks5ServerError,
    >)
        ensures
            selected(*auth, offered@) ==> (r matches Ok((_, reply)) && reply@ == seq![
                SOCKS_VER,
                auth.code_spec(),
            ]),
            !selected(*auth, offered@) ==> r == Err::<
                (PendingAuthenticate, Vec<u8>),
                Socks5ServerError,
            >(Socks5ServerError::UnsupportedAuth),
    {
        let code = auth.to_code();
        let mut matched = false;
        let mut i: usize = 0;
        while i < offered.len()
            invariant
                i <= offered@.len(),
                code == auth.code_spec(),
                matched <==> exists|j: int| 0 <= j < i && offered@[j] == code,
            decreases offered@.len() - i,
        {
            if offered[i] == code {
                matched = true;
                proof {
                    assert(offered@[i as int] == code);
                }
            }
            i = i + 1;
        }
        if !matched {
            return Err(Socks5ServerError::UnsupportedAuth);
        }
        let mut reply: Vec<u8> = Vec::new();
        reply.push(SOCKS_VER);
        reply.push(code);
        proof {
            assert(reply@ =~= seq![SOCKS_VER, auth.code_spec()]);
        }
        Ok((PendingAuthenticate, reply))
    }
}

impl PendingAuthenticate {
    /// Completes authentication: immediate for no-auth; every other
    /// configured method is rejected as unsupported at this step.
    pub fn authenticate(self, auth: &AuthMethod) -> (r: Result<PendingCommand, Socks5ServerError>)
        ensures
            auth matches AuthMethod::NoAuth ==> r is Ok,
            !(auth matches AuthMethod::NoAuth) ==> r == Err::<PendingCommand, Socks5ServerError>(
                Socks5ServerError::UnsupportedAuth,
            ),
    {
        match auth {
            AuthMethod::NoAuth => Ok(PendingCommand),
            _ => Err(Socks5ServerError::UnsupportedAuth),
        }
    }
}

impl PendingCommand {
    /// Checks the fixed request header, yielding the address type: a
    /// wrong version or reserved byte aborts, and any command other
    /// than CONNECT is refused under its own byte.
    pub fn request_header(&self, header: &[u8; 4]) -> (r: Result<u8, Socks5ServerError>)
        ensures
            header@[0] != SOCKS_VER || header@[2] != SOCKS_RSV ==> r == Err::<
                u8,
                Socks5ServerError,
            >(Socks5ServerError::UnknownProtocol),
            header@[0] == SOCKS_VER && header@[2] == SOCKS_RSV && header@[1]
                != SOCKS_COMMAND_CONNECT ==> r == Err::<u8, Socks5ServerError>(
                Socks5ServerError::UnsupportedCommand(header@[1]),
            ),
            header@[0] == SOCKS_VER && header@[2] == SOCKS_RSV && header@[1]
                == SOCKS_COMMAND_CONNECT ==> r == Ok::<u8, Socks5ServerError>(header@[3]),
    {
        if header[0] != SOCKS_VER || header[2] != SOCKS_RSV {
            return Err(Socks5ServerError::UnknownProtocol);
        }
        if header[1] != SOCKS_COMMAND_CONNECT {
            return Err(Socks5ServerError::UnsupportedCommand(header[1]));
        }
        Ok(header[3])
    }
}

/// The fixed 10-byte command reply: version, the reply code, the
/// reserved byte, and a placeholder IPv4 bound address of `0.0.0.0:0`
/// (the server does not report its true locally bound address).
pub open spec fn spec_reply(code: SocksError) -> Seq<u8> {
    seq![SOCKS_VER, code.code_spec(), SOCKS_RSV, SOCKS_ADDR_IPV4, 0u8, 0u8, 0u8, 0u8, 0u8, 0u8]
}

pub fn encode_reply(code: &SocksError) -> (r: Vec<u8>)
    ensures
        r@ == spec_reply(*code),
{
    let mut reply: Vec<u8> = Vec::new();
    reply.push(SOCKS_VER);
    reply.push(code.to_code());
    reply.push(SOCKS_RSV);
    reply.push(SOCKS_ADDR_IPV4);
    reply.push(0);
    reply.push(0);
    reply.push(0);
    reply.push(0);
    reply.push(0);
    reply.push(0);
    proof {
        assert(reply@ =~= spec_reply(*code));
    }
    reply
}

/// Law: when the client offers exactly the method the server is
/// configured with, negotiation completes on both sides: the server
/// finds the method among the offered codes and echoes it, and the
/// client accepts the echoed selection. (Offering `NoAvailable` is
/// excluded: it is a failure signal from a peer, never an intent.)
pub proof fn lemma_handshake_agreement(m: AuthMethod)
    requires
        !(m matches AuthMethod::NoAvailable),
    ensures
        selected(m, seq![m.code_spec()]),
        crate::client::handshake_outcome(m, SOCKS_VER, m.code_spec()) == Ok::<(), ClientError>(()),
{
    assert(seq![m.code_spec()][0] == m.code_spec());
}

/// Law: when the offered and configured methods differ in wire code,
/// negotiation fails on both sides with an unsupported-method
/// condition: the server finds no match among the offered codes, and
/// a client told "no acceptable method" gives up with a refusal.
pub proof fn lemma_handshake_mismatch(client_m: AuthMethod, server_m: AuthMethod)
    requires
        client_m.code_spec() != server_m.code_spec(),
    ensures
        !selected(server_m, seq![client_m.code_spec()]),
        crate::client::handshake_outcome(client_m, SOCKS_VER, 0xFF) == Err::<(), ClientError>(
            ClientError::NoAcceptableMethod,
        ),
{
    assert(seq![client_m.code_spec()][0] == client_m.code_spec());
    assert forall|i: int| !(0 <= i < 1 && seq![client_m.code_spec()][i] == server_m.code_spec())
        by {
        if 0 <= i < 1 {
            assert(seq![client_m.code_spec()][i] == client_m.code_spec());
        }
    }
}

} // verus!

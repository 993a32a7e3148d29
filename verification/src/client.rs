//! The client role's state machine, one consuming phase type per step:
//! greeting and method confirmation, the (no-auth only) authentication
//! gate, and the CONNECT request with its reply handling. Each phase
//! value must be spent to reach the next phase, so steps can neither
//! be skipped nor replayed.
//!
//! The phases decide; the surrounding transport writes the byte
//! strings they produce and hands back the byte strings they examine.

use vstd::prelude::*;
use crate::codec::encode_connect_request;
use crate::codec::spec_addr_tail;
use crate::codec::spec_encode_request;
use crate::utils::Addr;
use crate::utils::AuthMethod;
use crate::utils::ClientError;
use crate::utils::SocksError;
use crate::utils::host_port_error;
use crate::utils::SOCKS_RSV;
use crate::utils::SOCKS_VER;

verus! {

/// A fresh connection to the proxy, before any byte is exchanged.
#[derive(Debug)]
pub struct PendingHandshake;

/// A connection whose method negotiation succeeded.
#[derive(Debug)]
pub struct PendingAuthenticate;

/// An authenticated connection, ready for the CONNECT request.
#[derive(Debug)]
pub struct PendingConnect;

/// A negotiated tunnel: from here on the stream carries application
/// traffic.
#[derive(Debug)]
pub struct Established;

/// How the client judges the server's 2-byte method selection when it
/// offered `method`: a wrong version byte or a selection other than
/// the offer aborts, an unknown code is refused, and the peer's
/// "no acceptable method" signal is a refusal of its own kind.
pub open spec fn handshake_outcome(method: AuthMethod, ver: u8, code: u8) -> Result<
    (),
    ClientError,
> {
    if ver != SOCKS_VER {
        Err(ClientError::UnsupportedProtocol)
    } else {
        match AuthMethod::spec_from_code(code) {
            None => Err(ClientError::UnsupportedMethodCode(code)),
            Some(m) => if (m matches AuthMethod::NoAvailable) {
                Err(ClientError::NoAcceptableMethod)
            } else if m.code_spec() != method.code_spec() {
                Err(ClientError::UnsupportedProtocol)
            } else {
                Ok(())
            },
        }
    }
}

impl PendingHandshake {
    /// The greeting to send: version, a method count of one, and the
    /// single offered method's code.
    pub fn greeting(&self, method: &AuthMethod) -> (msg: Vec<u8>)
        ensures
            msg@ == seq![SOCKS_VER, 1u8, method.code_spec()],
    {
        let mut msg: Vec<u8> = Vec::new();
        msg.push(SOCKS_VER);
        msg.push(1);
        msg.push(method.to_code());
        proof {
            assert(msg@ =~= seq![SOCKS_VER, 1u8, method.code_spec()]);
        }
        msg
    }

    /// Checks the server's method selection against the offered
    /// method, advancing exactly when the server selected it.
    pub fn handshake(self, method: &AuthMethod, selection: &[u8; 2]) -> (r: Result<
        PendingAuthenticate,
        ClientError,
    >)
        ensures
            match handshake_outcome(*method, selection@[0], selection@[1]) {
                Ok(_) => r is Ok,
                Err(e) => r == Err::<PendingAuthenticate, ClientError>(e),
            },
    {
        let ver = selection[0];
        let code = selection[1];
        if ver != SOCKS_VER {
            return Err(ClientError::UnsupportedProtocol);
        }
        let m = match AuthMethod::from_code(code) {
            Ok(m) => m,
            Err(e) => {
                return Err(e);
            },
        };
        if let AuthMethod::NoAvailable = m {
            return Err(ClientError::NoAcceptableMethod);
        }
        if m.to_code() != method.to_code() {
            return Err(ClientError::UnsupportedProtocol);
        }
        Ok(PendingAuthenticate)
    }
}

impl PendingAuthenticate {
    /// Completes authentication: immediate for no-auth; every other
    /// method is an explicit unimplemented failure, distinct from a
    /// protocol violation.
    pub fn authenticate(self, method: &AuthMethod) -> (r: Result<PendingConnect, ClientError>)
        ensures
            method matches AuthMethod::NoAuth ==> r is Ok,
            !(method matches AuthMethod::NoAuth) ==> r == Err::<PendingConnect, ClientError>(
                ClientError::AuthNotImplemented,
            ),
    {
        match method {
            AuthMethod::NoAuth => Ok(PendingConnect),
            _ => Err(ClientError::AuthNotImplemented),
        }
    }
}

impl PendingConnect {
    /// The CONNECT request bytes for `dest`; a malformed hostname
    /// destination fails here, locally, before anything is sent.
    pub fn request(&self, dest: &Addr) -> (r: Result<Vec<u8>, ClientError>)
        ensures
            match *dest {
                Addr::SocketAddr(_) => r matches Ok(msg) && msg@ == spec_encode_request(*dest),
                Addr::HostnamePort(v) => match host_port_error(v@) {
                    None => r matches Ok(msg) && msg@ == spec_encode_request(*dest),
                    Some(e) => r == Err::<Vec<u8>, ClientError>(e),
                },
            },
    {
        encode_connect_request(dest)
    }

    /// Splits the fixed reply header into its reply code and address
    /// type, rejecting a non-SOCKS5 header outright.
    pub fn reply_header(&self, header: &[u8; 4]) -> (r: Result<(SocksError, u8), ClientError>)
        ensures
            header@[0] != SOCKS_VER || header@[2] != SOCKS_RSV ==> r == Err::<
                (SocksError, u8),
                ClientError,
            >(ClientError::UnsupportedProtocol),
            header@[0] == SOCKS_VER && header@[2] == SOCKS_RSV ==> r == Ok::<
                (SocksError, u8),
                ClientError,
            >((SocksError::spec_from_code(header@[1]), header@[3])),
    {
        if header[0] != SOCKS_VER || header[2] != SOCKS_RSV {
            return Err(ClientError::UnsupportedProtocol);
        }
        Ok((SocksError::from_code(header[1]), header[3]))
    }

    /// Settles the attempt once the reply's address field has been
    /// drained: the tunnel exists exactly when the server reported
    /// success and the reply's address type was readable; a failure
    /// code surfaces as a typed rejection carrying that code.
    pub fn connect(self, code: &SocksError, atyp: u8) -> (r: Result<Established, ClientError>)
        ensures
            *code != SocksError::SUCCESS ==> r == Err::<Established, ClientError>(
                ClientError::Rejected(*code),
            ),
            *code == SocksError::SUCCESS && spec_addr_tail(atyp) is Some ==> r is Ok,
            *code == SocksError::SUCCESS && spec_addr_tail(atyp) is None ==> r == Err::<
                Established,
                ClientError,
            >(ClientError::UnknownAddrType(atyp)),
    {
        if *code == SocksError::SUCCESS {
            match crate::codec::addr_tail(atyp) {
                Some(_) => Ok(Established),
                None => Err(ClientError::UnknownAddrType(atyp)),
            }
        } else {
            Err(ClientError::Rejected(*code))
        }
    }
}

} // verus!

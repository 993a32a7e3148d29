use socks5::client;
use socks5::codec::decode_connect_request;
use socks5::codec::DecodedDest;
use socks5::server;
use socks5::server::encode_reply;
use socks5::server::Socks5ServerError;
use socks5::utils::Addr;
use socks5::utils::AuthMethod;
use socks5::utils::ClientError;
use socks5::utils::SocketAddress;
use socks5::utils::SocksError;

#[test]
fn auth_method_codes_round_trip() {
    assert_eq!(AuthMethod::NoAuth.to_code(), 0x00);
    assert_eq!(AuthMethod::UserPass(None).to_code(), 0x02);
    assert_eq!(AuthMethod::NoAvailable.to_code(), 0xff);
    assert_eq!(AuthMethod::from_code(0x00), Ok(AuthMethod::NoAuth));
    assert_eq!(AuthMethod::from_code(0x02), Ok(AuthMethod::UserPass(None)));
    assert_eq!(AuthMethod::from_code(0xff), Ok(AuthMethod::NoAvailable));
    assert_eq!(
        AuthMethod::from_code(0x01),
        Err(ClientError::UnsupportedMethodCode(0x01))
    );
}

#[test]
fn reply_codes_round_trip() {
    let all = [
        (SocksError::SUCCESS, 0x00),
        (SocksError::FAIL, 0x01),
        (SocksError::DENY, 0x02),
        (SocksError::NETWORK, 0x03),
        (SocksError::HOST, 0x04),
        (SocksError::CONNECTION, 0x05),
        (SocksError::TTL, 0x06),
        (SocksError::COMMAND, 0x07),
        (SocksError::ADDRESS, 0x08),
    ];
    for (code, byte) in all {
        assert_eq!(code.to_code(), byte);
        assert_eq!(SocksError::from_code(byte), code);
    }
    // every unassigned byte decodes to the catch-all, without panicking
    for byte in 0x09..=0xff_u16 {
        assert_eq!(SocksError::from_code(byte as u8), SocksError::OTHER);
    }
}

#[test]
fn handshake_agreement_completes() {
    let method = AuthMethod::NoAuth;

    // client sends its greeting, offering exactly one method
    let greeting = client::PendingHandshake.greeting(&method);
    assert_eq!(greeting, vec![0x05, 0x01, 0x00]);

    // server reads the header and the offered codes, then selects
    let nmethods = server::PendingHandshake
        .greeting_header(&[greeting[0], greeting[1]])
        .unwrap();
    assert_eq!(nmethods, 1);
    let (srv, selection) = server::PendingHandshake
        .handshake(&method, &greeting[2..])
        .unwrap();
    assert_eq!(selection, vec![0x05, 0x00]);

    // client accepts the echoed selection; both sides are authenticated
    let cli = client::PendingHandshake
        .handshake(&method, &[selection[0], selection[1]])
        .unwrap();
    assert!(cli.authenticate(&method).is_ok());
    assert!(srv.authenticate(&method).is_ok());
}

#[test]
fn handshake_mismatch_fails_both_sides() {
    let client_m = AuthMethod::NoAuth;
    let server_m = AuthMethod::UserPass(None);

    let greeting = client::PendingHandshake.greeting(&client_m);
    let selected = server::PendingHandshake.handshake(&server_m, &greeting[2..]);
    assert_eq!(selected.unwrap_err(), Socks5ServerError::UnsupportedAuth);

    // a client told "no acceptable method" refuses as well
    let refused = client::PendingHandshake.handshake(&client_m, &[0x05, 0xff]);
    assert_eq!(refused.unwrap_err(), ClientError::NoAcceptableMethod);
}

#[test]
fn handshake_rejects_protocol_violations() {
    // wrong version byte in the selection
    let r = client::PendingHandshake.handshake(&AuthMethod::NoAuth, &[0x04, 0x00]);
    assert_eq!(r.unwrap_err(), ClientError::UnsupportedProtocol);
    // server selected a method the client never offered
    let r = client::PendingHandshake.handshake(&AuthMethod::NoAuth, &[0x05, 0x02]);
    assert_eq!(r.unwrap_err(), ClientError::UnsupportedProtocol);
    // server selected a code outside the protocol
    let r = client::PendingHandshake.handshake(&AuthMethod::NoAuth, &[0x05, 0x33]);
    assert_eq!(r.unwrap_err(), ClientError::UnsupportedMethodCode(0x33));
    // wrong version byte in the greeting, server side
    let r = server::PendingHandshake.greeting_header(&[0x04, 0x01]);
    assert_eq!(r.unwrap_err(), Socks5ServerError::UnknownProtocol);
}

#[test]
fn authenticate_is_noauth_only() {
    let r = client::PendingAuthenticate.authenticate(&AuthMethod::UserPass(None));
    assert_eq!(r.unwrap_err(), ClientError::AuthNotImplemented);
    let r = server::PendingAuthenticate.authenticate(&AuthMethod::UserPass(None));
    assert_eq!(r.unwrap_err(), Socks5ServerError::UnsupportedAuth);
}

#[test]
fn connect_scenario_succeeds() {
    let method = AuthMethod::NoAuth;

    // negotiation, as bytes exchanged between the two state machines
    let greeting = client::PendingHandshake.greeting(&method);
    server::PendingHandshake
        .greeting_header(&[greeting[0], greeting[1]])
        .unwrap();
    let (srv, selection) = server::PendingHandshake
        .handshake(&method, &greeting[2..])
        .unwrap();
    let cli = client::PendingHandshake
        .handshake(&method, &[selection[0], selection[1]])
        .unwrap();
    let cli = cli.authenticate(&method).unwrap();
    let srv = srv.authenticate(&method).unwrap();

    // client requests CONNECT to an already numeric destination
    let dest = Addr::SocketAddr(SocketAddress::V4([93, 184, 216, 34], 80));
    let request = cli.request(&dest).unwrap();

    // server checks the header and decodes the destination
    let atyp = srv
        .request_header(&[request[0], request[1], request[2], request[3]])
        .unwrap();
    assert_eq!(atyp, 0x01);
    let decoded = decode_connect_request(&request).unwrap();
    assert_eq!(
        decoded,
        DecodedDest::Ip(SocketAddress::V4([93, 184, 216, 34], 80))
    );

    // the outbound connection opens; the server reports success
    let reply = encode_reply(&SocksError::SUCCESS);
    assert_eq!(reply, vec![0x05, 0x00, 0x00, 0x01, 0, 0, 0, 0, 0, 0]);

    // the client reads the reply, drains the bound address, and owns
    // the tunnel
    let (code, reply_atyp) = cli
        .reply_header(&[reply[0], reply[1], reply[2], reply[3]])
        .unwrap();
    assert_eq!(code, SocksError::SUCCESS);
    assert_eq!(reply[4..].len(), 6);
    assert!(cli.connect(&code, reply_atyp).is_ok());
}

#[test]
fn connect_scenario_host_unreachable() {
    // the server decoded a hostname destination but resolution failed
    let request =
        socks5::codec::encode_connect_request(&Addr::HostnamePort(b"nowhere.invalid:80".to_vec()))
            .unwrap();
    let decoded = decode_connect_request(&request).unwrap();
    let host = match decoded {
        DecodedDest::Domain(host, port) => {
            assert_eq!(port, 80);
            host
        }
        other => panic!("expected a domain destination, got {:?}", other),
    };
    let failure = Socks5ServerError::DnsError(host);

    // the best-match reply code is host-unreachable
    let code = failure.reply_code();
    assert_eq!(code, SocksError::HOST);
    let reply = encode_reply(&code);
    assert_eq!(reply[..2], [0x05, 0x04]);

    // the client surfaces a typed rejection carrying that code
    let cli = client::PendingConnect;
    let (code, atyp) = cli
        .reply_header(&[reply[0], reply[1], reply[2], reply[3]])
        .unwrap();
    assert_eq!(
        cli.connect(&code, atyp).unwrap_err(),
        ClientError::Rejected(SocksError::HOST)
    );
}

#[test]
fn unsupported_command_gets_its_own_code() {
    // a BIND request: the header check refuses the command byte
    let err = server::PendingCommand
        .request_header(&[0x05, 0x02, 0x00, 0x01])
        .unwrap_err();
    assert_eq!(err, Socks5ServerError::UnsupportedCommand(0x02));
    let reply = encode_reply(&err.reply_code());
    assert_eq!(reply, vec![0x05, 0x07, 0x00, 0x01, 0, 0, 0, 0, 0, 0]);
}

#[test]
fn reply_codes_for_failures() {
    assert_eq!(
        Socks5ServerError::DnsError(b"h".to_vec()).reply_code(),
        SocksError::HOST
    );
    assert_eq!(
        Socks5ServerError::UnsupportedCommand(2).reply_code(),
        SocksError::COMMAND
    );
    assert_eq!(
        Socks5ServerError::UnknownAddrType(9).reply_code(),
        SocksError::ADDRESS
    );
    assert_eq!(Socks5ServerError::ConnectFailed.reply_code(), SocksError::NETWORK);
    assert_eq!(Socks5ServerError::UnknownProtocol.reply_code(), SocksError::FAIL);
    assert_eq!(Socks5ServerError::UnsupportedAuth.reply_code(), SocksError::FAIL);
    assert_eq!(Socks5ServerError::InvalidHost.reply_code(), SocksError::FAIL);
    assert_eq!(Socks5ServerError::IoError.reply_code(), SocksError::FAIL);
}

#[test]
fn client_rejects_bad_reply_header() {
    let r = client::PendingConnect.reply_header(&[0x04, 0x00, 0x00, 0x01]);
    assert_eq!(r.unwrap_err(), ClientError::UnsupportedProtocol);
    let r = client::PendingConnect.reply_header(&[0x05, 0x00, 0x01, 0x01]);
    assert_eq!(r.unwrap_err(), ClientError::UnsupportedProtocol);
    // a success code with an unreadable address type aborts
    let r = client::PendingConnect.connect(&SocksError::SUCCESS, 0x02);
    assert_eq!(r.unwrap_err(), ClientError::UnknownAddrType(0x02));
}

//! Handshake scenarios: OPTIONS discovery, STARTUP replies, and the
//! authentication sub-protocol.

use cdrs::authenticators::{Authenticator, Credentials, NoneAuthenticator, PasswordAuthenticator};
use cdrs::client::CDRS;
use cdrs::compression::Compression;
use cdrs::error::Error;
use cdrs::frame::{Frame, Opcode, Request, ResponseBody};
use cdrs::transport::Transport;

fn supported_reply() -> Frame {
    Frame {
        opcode: Opcode::Supported,
        body: ResponseBody::Supported(vec![(
            "COMPRESSION".to_string(),
            vec!["lz4".to_string(), "snappy".to_string()],
        )]),
    }
}

fn authenticate_reply(name: &str) -> Frame {
    Frame {
        opcode: Opcode::Authenticate,
        body: ResponseBody::Authenticate(Some(name.to_string())),
    }
}

fn ready_reply() -> Frame {
    Frame { opcode: Opcode::Ready, body: ResponseBody::Other }
}

const PASSWORD_AUTHENTICATOR: &str = "org.apache.cassandra.auth.PasswordAuthenticator";

fn password_auth() -> PasswordAuthenticator {
    PasswordAuthenticator::new(&Credentials {
        username: "cassandra".to_string(),
        password: "secret".to_string(),
    })
}

#[test]
fn discover_options_returns_the_supported_mapping() {
    let transport = Transport::open(vec![supported_reply()]);
    let mut cdrs = CDRS::new(transport, NoneAuthenticator);
    let options = cdrs.get_options().expect("OPTIONS should succeed");
    assert_eq!(options.len(), 1);
    assert_eq!(options[0].0, "COMPRESSION");
    assert_eq!(options[0].1, vec!["lz4".to_string(), "snappy".to_string()]);
    // no state mutated: the selector is still the initial one
    assert_eq!(cdrs.compressor, Compression::NoCompression);
    assert!(!cdrs.transport.closed);
    // exactly one OPTIONS request went out
    assert_eq!(cdrs.transport.requests.len(), 1);
    assert!(matches!(cdrs.transport.requests[0], Request::Options));
}

#[test]
fn get_options_with_no_reply_is_an_io_error() {
    let transport = Transport::open(vec![]);
    let mut cdrs = CDRS::new(transport, NoneAuthenticator);
    match cdrs.get_options() {
        Err(Error::Io(_)) => {}
        other => panic!("expected an I/O error, got {:?}", other.map(|_| ())),
    }
}

#[test]
fn start_on_ready_yields_a_started_session() {
    let transport = Transport::open(vec![ready_reply()]);
    let cdrs = CDRS::new(transport, NoneAuthenticator);
    let session = cdrs.start(Compression::NoCompression).map_err(|(_, e)| e).expect("READY");
    assert_eq!(session.compressor, Compression::NoCompression);
    // the STARTUP went out with no wire name, since no compression is active
    assert_eq!(session.cdrs.transport.requests.len(), 1);
    match &session.cdrs.transport.requests[0] {
        Request::Startup { compression } => assert_eq!(*compression, None),
        other => panic!("expected STARTUP, got {:?}", other),
    }
}

#[test]
fn start_sends_the_selected_wire_name() {
    let transport = Transport::open(vec![ready_reply()]);
    let cdrs = CDRS::new(transport, NoneAuthenticator);
    let session = cdrs.start(Compression::Lz4).map_err(|(_, e)| e).expect("READY");
    assert_eq!(session.compressor, Compression::Lz4);
    match &session.cdrs.transport.requests[0] {
        Request::Startup { compression } => assert_eq!(compression.as_deref(), Some("lz4")),
        other => panic!("expected STARTUP, got {:?}", other),
    }
}

#[test]
fn wire_names_of_the_selectors() {
    assert_eq!(Compression::NoCompression.into_string(), None);
    assert_eq!(Compression::Lz4.into_string(), Some("lz4".to_string()));
    assert_eq!(Compression::Snappy.into_string(), Some("snappy".to_string()));
}

#[test]
fn matching_authenticator_sends_one_auth_response_with_its_token() {
    let transport =
        Transport::open(vec![authenticate_reply(PASSWORD_AUTHENTICATOR), ready_reply()]);
    let auth = password_auth();
    let expected_token = auth.get_auth_token();
    let cdrs = CDRS::new(transport, auth);
    let session = cdrs.start(Compression::NoCompression).map_err(|(_, e)| e).expect("AUTH");
    let requests = &session.cdrs.transport.requests;
    assert_eq!(requests.len(), 2);
    assert!(matches!(requests[0], Request::Startup { .. }));
    match &requests[1] {
        Request::AuthResponse { token } => assert_eq!(*token, expected_token),
        other => panic!("expected AUTH_RESPONSE, got {:?}", other),
    }
}

#[test]
fn any_reply_to_auth_response_yields_a_started_session() {
    // the second reply's opcode is not inspected: even an ERROR-tagged
    // envelope completes the handshake
    let error_reply = Frame { opcode: Opcode::Error, body: ResponseBody::Other };
    let transport =
        Transport::open(vec![authenticate_reply(PASSWORD_AUTHENTICATOR), error_reply]);
    let cdrs = CDRS::new(transport, password_auth());
    let session = cdrs.start(Compression::Snappy).map_err(|(_, e)| e).expect("AUTH");
    assert_eq!(session.compressor, Compression::Snappy);
    assert_eq!(session.cdrs.transport.requests.len(), 2);
}

#[test]
fn missing_authenticator_name_fails_without_auth_response() {
    let transport = Transport::open(vec![authenticate_reply(PASSWORD_AUTHENTICATOR)]);
    let cdrs = CDRS::new(transport, NoneAuthenticator);
    match cdrs.start(Compression::NoCompression) {
        Err((cdrs, Error::AuthenticatorNotProvided)) => {
            // the not-found-class error came before any token exchange
            assert!(Error::AuthenticatorNotProvided.not_found());
            assert_eq!(cdrs.transport.requests.len(), 1);
            assert!(matches!(cdrs.transport.requests[0], Request::Startup { .. }));
            assert!(!cdrs.transport.closed);
        }
        Err((_, other)) => panic!("expected AuthenticatorNotProvided, got {:?}", other),
        Ok(_) => panic!("the handshake must not succeed without an authenticator name"),
    }
}

#[test]
fn differing_authenticator_name_fails_naming_both() {
    let transport =
        Transport::open(vec![authenticate_reply("org.apache.cassandra.auth.DifferentAuthenticator")]);
    let cdrs = CDRS::new(transport, password_auth());
    match cdrs.start(Compression::NoCompression) {
        Err((cdrs, Error::AuthenticatorMismatch { server, client })) => {
            assert_eq!(server, "org.apache.cassandra.auth.DifferentAuthenticator");
            assert_eq!(client, PASSWORD_AUTHENTICATOR);
            assert!(Error::AuthenticatorMismatch { server, client }.not_found());
            // zero AUTH_RESPONSE frames went out, and the transport is not
            // closed by the failing handshake
            assert_eq!(cdrs.transport.requests.len(), 1);
            assert!(matches!(cdrs.transport.requests[0], Request::Startup { .. }));
            assert!(!cdrs.transport.closed);
        }
        Err((_, other)) => panic!("expected AuthenticatorMismatch, got {:?}", other),
        Ok(_) => panic!("the handshake must not succeed on a name mismatch"),
    }
}

#[test]
fn start_with_no_reply_is_an_io_error() {
    let transport = Transport::open(vec![]);
    let cdrs = CDRS::new(transport, NoneAuthenticator);
    match cdrs.start(Compression::Lz4) {
        Err((cdrs, Error::Io(_))) => {
            // the STARTUP still went out before the read failed
            assert_eq!(cdrs.transport.requests.len(), 1);
            assert_eq!(cdrs.compressor, Compression::Lz4);
        }
        Err((_, other)) => panic!("expected an I/O error, got {:?}", other),
        Ok(_) => panic!("the handshake cannot succeed without a reply"),
    }
}

#[test]
fn password_authenticator_name_and_token() {
    let auth = PasswordAuthenticator::new(&Credentials {
        username: "user".to_string(),
        password: "pass".to_string(),
    });
    assert_eq!(auth.get_cassandra_name(), Some(PASSWORD_AUTHENTICATOR.to_string()));
    assert_eq!(auth.get_auth_token(), b"\0user\0pass".to_vec());
    let copy = auth.duplicate();
    assert_eq!(copy.get_cassandra_name(), auth.get_cassandra_name());
    assert_eq!(copy.get_auth_token(), auth.get_auth_token());
}

#[test]
fn none_authenticator_offers_nothing() {
    assert_eq!(NoneAuthenticator.get_cassandra_name(), None);
    assert_eq!(NoneAuthenticator.get_auth_token(), Vec::<u8>::new());
    assert_eq!(NoneAuthenticator.duplicate().get_cassandra_name(), None);
}

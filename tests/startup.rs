use tokio_postgres::config::{Config, SslMode};
use tokio_postgres::error::{DbError, Error};
use tokio_postgres::message::BackendMessage;
use tokio_postgres::startup::{
    authenticate, password_message, startup_request, tls_response, wants_tls, AuthAction, AuthRequest,
    ChannelBinding, ReadyPhase,
};

#[test]
fn tls_negotiation() {
    assert!(!wants_tls(SslMode::Disable));
    assert!(wants_tls(SslMode::Prefer));
    assert!(wants_tls(SslMode::Require));
    assert!(matches!(tls_response(SslMode::Prefer, b'S'), Ok(true)));
    assert!(matches!(tls_response(SslMode::Prefer, b'N'), Ok(false)));
    assert!(matches!(tls_response(SslMode::Require, b'N'), Err(Error::Tls)));
    assert!(matches!(tls_response(SslMode::Require, b'X'), Err(Error::UnexpectedMessage)));
}

#[test]
fn startup_message_bytes() {
    let mut c = Config::new();
    assert!(matches!(startup_request(&c), Err(Error::Config(ref m)) if m == "user missing"));
    c.user = Some("bob".to_string());
    c.dbname = Some("db".to_string());
    let b = startup_request(&c).unwrap();
    let mut body = vec![0, 3, 0, 0];
    body.extend_from_slice(b"user\0bob\0database\0db\0client_encoding\0UTF8\0\0");
    let mut expected = ((body.len() + 4) as u32).to_be_bytes().to_vec();
    expected.extend_from_slice(&body);
    assert_eq!(b, expected);
}

#[test]
fn cleartext_password_is_sent() {
    match authenticate(AuthRequest::CleartextPassword, "bob", Some(b"pw"), ChannelBinding::Prefer, false) {
        Ok(AuthAction::Send(b)) => assert_eq!(b, b"p\x00\x00\x00\x07pw\x00".to_vec()),
        _ => panic!("expected a password message"),
    }
    let r = authenticate(AuthRequest::CleartextPassword, "bob", None, ChannelBinding::Prefer, false);
    assert!(matches!(r, Err(Error::Config(ref m)) if m == "password missing"));
}

#[test]
fn md5_password_is_hashed() {
    let r = authenticate(
        AuthRequest::Md5Password([0x2a, 0x3d, 0x8f, 0xe0]),
        "md5_user",
        Some(b"password"),
        ChannelBinding::Prefer,
        false,
    );
    let mut expected = b"p\x00\x00\x00\x28".to_vec();
    expected.extend_from_slice(b"md562af4dd09bbb41884907a838a3233294\0");
    match r {
        Ok(AuthAction::Send(b)) => assert_eq!(b, expected),
        _ => panic!("expected a password message"),
    }
    assert_eq!(password_message(b"x").unwrap(), b"p\x00\x00\x00\x06x\x00".to_vec());
}

#[test]
fn sasl_mechanism_choice() {
    let both = || vec!["SCRAM-SHA-256-PLUS".to_string(), "SCRAM-SHA-256".to_string()];
    let r = authenticate(AuthRequest::Sasl(both()), "u", None, ChannelBinding::Prefer, true);
    assert!(matches!(r, Ok(AuthAction::Scram { channel_binding: true })));
    let r = authenticate(AuthRequest::Sasl(both()), "u", None, ChannelBinding::Prefer, false);
    assert!(matches!(r, Ok(AuthAction::Scram { channel_binding: false })));
    let r = authenticate(AuthRequest::Sasl(both()), "u", None, ChannelBinding::Disable, true);
    assert!(matches!(r, Ok(AuthAction::Scram { channel_binding: false })));
    let plain = vec!["SCRAM-SHA-256".to_string()];
    let r = authenticate(AuthRequest::Sasl(plain), "u", None, ChannelBinding::Require, true);
    assert!(matches!(r, Err(Error::Authentication)));
    let r = authenticate(AuthRequest::Sasl(vec!["OTHER".to_string()]), "u", None, ChannelBinding::Prefer, true);
    assert!(matches!(r, Err(Error::Authentication)));
}

#[test]
fn other_methods_fail() {
    assert!(matches!(authenticate(AuthRequest::Success, "u", None, ChannelBinding::Prefer, false), Ok(AuthAction::Done)));
    assert!(matches!(authenticate(AuthRequest::Other, "u", None, ChannelBinding::Prefer, false), Err(Error::Authentication)));
}

#[test]
fn ready_phase_collects_parameters() {
    let mut r = ReadyPhase::new();
    let p = BackendMessage::ParameterStatus { name: "server_version".to_string(), value: "16".to_string() };
    assert!(matches!(r.on_message(p), Ok(false)));
    assert!(matches!(r.on_message(BackendMessage::BackendKeyData { process_id: 9, secret_key: 7 }), Ok(false)));
    assert!(matches!(r.on_message(BackendMessage::ReadyForQuery(b'I')), Ok(true)));
    assert_eq!(r.key, Some((9, 7)));
    assert_eq!(r.parameters, vec![("server_version".to_string(), "16".to_string())]);
    let e = DbError { code: "28P01".to_string(), message: "auth".to_string() };
    assert!(matches!(r.on_message(BackendMessage::ErrorResponse(e)), Err(Error::Db(_))));
    assert!(matches!(r.on_message(BackendMessage::BindComplete), Err(Error::UnexpectedMessage)));
}

#[test]
fn ssl_and_cancel_requests() {
    assert_eq!(tokio_postgres::startup::ssl_request(), vec![0, 0, 0, 8, 0x04, 0xd2, 0x16, 0x2f]);
    let c = tokio_postgres::client::Client::new(258, -1);
    assert_eq!(
        c.cancel_request(),
        vec![0, 0, 0, 16, 0x04, 0xd2, 0x16, 0x2e, 0, 0, 1, 2, 0xff, 0xff, 0xff, 0xff]
    );
}

#[test]
fn terminate_starts_shutdown() {
    let mut c = tokio_postgres::connection::Connection::new();
    assert_eq!(c.terminate(), b"X\x00\x00\x00\x04".to_vec());
}

#[test]
fn startup_message_with_replication() {
    let mut c = Config::new();
    c.user = Some("u".to_string());
    c.replication = Some("database".to_string());
    let b = startup_request(&c).unwrap();
    let mut body = vec![0, 3, 0, 0];
    body.extend_from_slice(b"user\0u\0replication\0database\0client_encoding\0UTF8\0\0");
    assert_eq!(&b[4..], &body[..]);
}

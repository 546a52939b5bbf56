use tokio_postgres::client::Client;
use tokio_postgres::config::{Config, Host, SslMode, TargetSessionAttrs};
use tokio_postgres::connect::{ConnectFuture, ConnectOnceFuture};
use tokio_postgres::error::{Error, IoErrorKind};

fn config(hosts: &[&str]) -> Config {
    let mut c = Client::configure();
    for h in hosts {
        c.host.push(Host::Tcp(h.to_string()));
    }
    c
}

#[test]
fn default_settings() {
    let c = Config::new();
    assert!(c.host.is_empty());
    assert!(c.port.is_empty());
    assert_eq!(c.ssl_mode, SslMode::Prefer);
    assert_eq!(c.target_session_attrs, TargetSessionAttrs::Any);
    assert_eq!(c.port_for(0), 5432);
}

#[test]
fn ports_per_host() {
    let mut c = config(&["a", "b"]);
    c.port = vec![1, 2];
    assert_eq!(c.port_for(1), 2);
    c.port = vec![7];
    assert_eq!(c.port_for(1), 7);
}

#[test]
fn second_host_succeeds_after_first_fails() {
    let mut f = Client::connect(config(&["unreachable", "reachable"]));
    assert!(matches!(f.start(), Ok(0)));
    assert!(matches!(f.attempt_failed(Error::Io(IoErrorKind::ConnectionRefused)), Ok(1)));
    match f.config() {
        Some(c) => assert!(matches!(&c.host[1], Host::Tcp(h) if h == "reachable")),
        None => panic!("an attempt runs"),
    }
    f.attempt_succeeded();
    assert!(f.config().is_none());
}

#[test]
fn last_error_surfaces_when_all_hosts_fail() {
    let mut f = ConnectFuture::new(Ok(config(&["a", "b"])));
    assert!(matches!(f.start(), Ok(0)));
    assert!(matches!(f.attempt_failed(Error::Io(IoErrorKind::ConnectionRefused)), Ok(1)));
    assert!(matches!(f.attempt_failed(Error::Io(IoErrorKind::TimedOut)), Err(Error::Io(IoErrorKind::TimedOut))));
}

#[test]
fn missing_host_is_a_config_error() {
    let mut f = ConnectFuture::new(Ok(Config::new()));
    match f.start() {
        Err(Error::Config(m)) => assert_eq!(m, "host missing"),
        _ => panic!("expected a config error"),
    }
}

#[test]
fn port_count_must_match_hosts() {
    let mut c = config(&["a", "b", "c"]);
    c.port = vec![1, 2];
    let mut f = ConnectFuture::new(Ok(c));
    match f.start() {
        Err(Error::Config(m)) => assert_eq!(m, "invalid number of ports"),
        _ => panic!("expected a config error"),
    }
}

#[test]
fn invalid_settings_error_passes_through() {
    let mut f = ConnectFuture::new(Err(Error::Config("bad".to_string())));
    assert!(matches!(f.start(), Err(Error::Config(_))));
}

#[test]
fn read_only_server_is_rejected() {
    let mut c = config(&["a"]);
    c.target_session_attrs = TargetSessionAttrs::ReadWrite;
    let mut once = ConnectOnceFuture::new(0, &c);
    assert_eq!(once.startup_finished(), Some("SHOW transaction_read_only"));
    let r = once.session_attrs_row(Some(vec![Some(b"on".to_vec())]));
    match r {
        Err(Error::Connect(IoErrorKind::PermissionDenied, m)) => assert_eq!(m, "database does not allow writes"),
        _ => panic!("expected a read-only rejection"),
    }
}

#[test]
fn writable_server_is_accepted() {
    let mut c = config(&["a"]);
    c.target_session_attrs = TargetSessionAttrs::ReadWrite;
    let mut once = ConnectOnceFuture::new(0, &c);
    assert!(once.startup_finished().is_some());
    assert!(once.session_attrs_row(Some(vec![Some(b"off".to_vec())])).is_ok());
}

#[test]
fn read_write_check_needs_a_row() {
    let mut c = config(&["a"]);
    c.target_session_attrs = TargetSessionAttrs::ReadWrite;
    let mut once = ConnectOnceFuture::new(0, &c);
    once.startup_finished();
    assert!(matches!(once.session_attrs_row(None), Err(Error::Closed)));
}

#[test]
fn any_session_skips_the_check() {
    let c = config(&["a"]);
    let mut once = ConnectOnceFuture::new(0, &c);
    assert_eq!(once.startup_finished(), None);
}

#[test]
fn tls_name_of_hosts() {
    assert_eq!(tokio_postgres::config::tls_hostname(&Host::Tcp("db.example".to_string())), "db.example");
    assert_eq!(tokio_postgres::config::tls_hostname(&Host::Unix("/tmp".to_string())), "");
}

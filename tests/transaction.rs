use tokio_postgres::error::{DbError, Error};
use tokio_postgres::transaction::{TransactionError, TransactionFuture};

fn begun() -> TransactionFuture<u32, String> {
    let mut t = TransactionFuture::new();
    assert_eq!(t.start(), "BEGIN");
    assert!(t.begun(Ok(())).is_ok());
    t
}

#[test]
fn commit_after_success() {
    let mut t = begun();
    assert_eq!(t.body_finished(Ok(5)), "COMMIT");
    assert!(matches!(t.finished(Ok(())), Ok(5)));
}

#[test]
fn rollback_after_failure() {
    let mut t = begun();
    assert_eq!(t.body_finished(Err("body".to_string())), "ROLLBACK");
    match t.finished(Ok(())) {
        Err(TransactionError::Body(e)) => assert_eq!(e, "body"),
        _ => panic!("expected the body's error"),
    }
}

#[test]
fn body_error_wins_over_rollback_error() {
    let mut t = begun();
    t.body_finished(Err("body".to_string()));
    match t.finished(Err(Error::Closed)) {
        Err(TransactionError::Body(e)) => assert_eq!(e, "body"),
        _ => panic!("expected the body's error"),
    }
}

#[test]
fn failed_commit_is_the_error() {
    let mut t = begun();
    t.body_finished(Ok(1));
    let e = Error::Db(DbError { code: "40001".to_string(), message: "serialization".to_string() });
    assert!(matches!(t.finished(Err(e)), Err(TransactionError::Client(Error::Db(_)))));
}

#[test]
fn failed_begin_is_the_error() {
    let mut t: TransactionFuture<u32, String> = TransactionFuture::new();
    t.start();
    assert!(matches!(t.begun(Err(Error::Closed)), Err(TransactionError::Client(Error::Closed))));
}

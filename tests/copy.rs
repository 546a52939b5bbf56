use tokio_postgres::copy_in::CopyInFuture;
use tokio_postgres::copy_out::CopyOutStream;
use tokio_postgres::error::{DbError, Error};
use tokio_postgres::message::{Async, BackendMessage};

#[test]
fn copy_in_three_rows() {
    let mut f = CopyInFuture::new(vec![7]);
    assert_eq!(f.start(), Some(vec![7]));
    assert!(matches!(f.poll_copy_in_response(Some(BackendMessage::BindComplete)), Ok(Async::NotReady)));
    assert!(matches!(f.poll_copy_in_response(Some(BackendMessage::CopyInResponse)), Ok(Async::Ready(()))));
    let data = f.chunk(b"1\n2\n3\n").unwrap();
    assert_eq!(data, b"d\x00\x00\x00\x0a1\n2\n3\n".to_vec());
    let done = f.source_finished(Ok(()));
    assert_eq!(done, b"c\x00\x00\x00\x04".to_vec());
    let r = f.poll_response(Some(BackendMessage::CommandComplete("COPY 3".to_string())));
    assert!(matches!(r, Ok(Async::Ready(3))));
}

#[test]
fn copy_in_source_failure_sends_copy_fail() {
    let mut f = CopyInFuture::new(vec![]);
    f.start();
    f.poll_copy_in_response(Some(BackendMessage::CopyInResponse)).unwrap();
    let fail = f.source_finished(Err("disk"));
    assert_eq!(fail, b"f\x00\x00\x00\x09disk\x00".to_vec());
    let e = DbError { code: "57014".to_string(), message: "COPY from stdin failed".to_string() };
    assert!(matches!(f.poll_response(Some(BackendMessage::ErrorResponse(e))), Ok(Async::NotReady)));
    match f.poll_response(Some(BackendMessage::ReadyForQuery(b'I'))) {
        Err(Error::CopyInSource(m)) => assert_eq!(m, "disk"),
        _ => panic!("expected the source's failure"),
    }
}

#[test]
fn copy_in_unsendable_failure_message() {
    let mut f = CopyInFuture::new(vec![]);
    f.start();
    f.poll_copy_in_response(Some(BackendMessage::CopyInResponse)).unwrap();
    assert_eq!(f.source_finished(Err("bad\0byte")), b"f\x00\x00\x00\x05\x00".to_vec());
    assert!(matches!(f.poll_response(Some(BackendMessage::ReadyForQuery(b'I'))), Err(Error::CopyInSource(_))));
}

#[test]
fn copy_server_errors_drain() {
    let e = || DbError { code: "42P01".to_string(), message: "no table".to_string() };
    let mut f = CopyInFuture::new(vec![]);
    f.start();
    assert!(matches!(f.poll_copy_in_response(Some(BackendMessage::ErrorResponse(e()))), Ok(Async::NotReady)));
    assert!(matches!(f.poll_copy_in_response(Some(BackendMessage::ReadyForQuery(b'I'))), Err(Error::Db(_))));
    let mut s = CopyOutStream::new(vec![]);
    s.start();
    s.poll_message(Some(BackendMessage::CopyOutResponse)).unwrap();
    assert!(matches!(s.poll_message(Some(BackendMessage::ErrorResponse(e()))), Ok(Async::NotReady)));
    assert!(matches!(s.poll_message(Some(BackendMessage::CopyDone)), Ok(Async::NotReady)));
    assert!(matches!(s.poll_message(Some(BackendMessage::ReadyForQuery(b'I'))), Err(Error::Db(_))));
}

#[test]
fn copy_in_errors() {
    let mut f = CopyInFuture::new(vec![]);
    f.start();
    assert!(matches!(f.poll_copy_in_response(Some(BackendMessage::NoData)), Err(Error::UnexpectedMessage)));
    let mut f = CopyInFuture::new(vec![]);
    f.start();
    assert!(matches!(f.poll_copy_in_response(None), Err(Error::Closed)));
}

#[test]
fn copy_out_yields_payloads() {
    let mut s = CopyOutStream::new(vec![1]);
    assert_eq!(s.start(), Some(vec![1]));
    assert!(matches!(s.poll_message(Some(BackendMessage::BindComplete)), Ok(Async::NotReady)));
    assert!(matches!(s.poll_message(Some(BackendMessage::CopyOutResponse)), Ok(Async::NotReady)));
    match s.poll_message(Some(BackendMessage::CopyData(b"1\n".to_vec()))) {
        Ok(Async::Ready(Some(d))) => assert_eq!(d, b"1\n".to_vec()),
        _ => panic!("expected data"),
    }
    assert!(matches!(s.poll_message(Some(BackendMessage::CopyDone)), Ok(Async::Ready(None))));
}

#[test]
fn copy_out_errors() {
    let mut s = CopyOutStream::new(vec![]);
    s.start();
    assert!(matches!(s.poll_message(Some(BackendMessage::CopyData(vec![]))), Err(Error::UnexpectedMessage)));
    let mut s = CopyOutStream::new(vec![]);
    s.start();
    s.poll_message(Some(BackendMessage::CopyOutResponse)).unwrap();
    assert!(matches!(s.poll_message(None), Err(Error::Closed)));
}

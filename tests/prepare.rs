use tokio_postgres::client::Client;
use tokio_postgres::execute_sink::ExecuteSink;
use tokio_postgres::error::{DbError, Error};
use tokio_postgres::message::{Async, BackendMessage, FieldDescription};
use tokio_postgres::portal::Portal;
use tokio_postgres::prepare::{PrepareFuture, PrepareStep};
use tokio_postgres::statement::Statement;
use tokio_postgres::types::from_oid;

fn prepared_int4_statement(c: &mut Client) -> Statement {
    let request = c.prepare("SELECT $1::int4", 0).unwrap();
    let mut f = PrepareFuture::new(request.name);
    assert!(matches!(f.poll_message(Some(BackendMessage::ParseComplete)), Ok(PrepareStep::Read)));
    let r = f.poll_message(Some(BackendMessage::ParameterDescription(vec![23])));
    assert!(matches!(r, Ok(PrepareStep::Read)));
    let fields = vec![FieldDescription { name: "int4".to_string(), type_oid: 23 }];
    let r = f.poll_message(Some(BackendMessage::RowDescription(fields)));
    assert!(matches!(r, Ok(PrepareStep::Resolve(23))));
    assert!(matches!(f.type_resolved(from_oid(23).unwrap()), PrepareStep::Resolve(23)));
    match f.type_resolved(from_oid(23).unwrap()) {
        PrepareStep::Finished(s) => s,
        _ => panic!("expected the statement"),
    }
}

#[test]
fn prepare_then_query_int4() {
    let mut c = Client::new(0, 0);
    let s = prepared_int4_statement(&mut c);
    assert_eq!(s.name(), "s0");
    assert_eq!(s.params().len(), 1);
    assert_eq!(s.params()[0].name(), "int4");
    assert_eq!(s.columns().len(), 1);
    assert_eq!(s.columns()[0].name, "int4");
    assert_eq!(s.columns()[0].type_.oid(), 23);

    let bind = b"B-bytes".to_vec();
    let mut q = c.query(&s, bind).unwrap();
    let request = q.start().unwrap();
    let mut expected = b"B-bytes".to_vec();
    expected.extend_from_slice(b"E\x00\x00\x00\x09\x00\x00\x00\x00\x00S\x00\x00\x00\x04");
    assert_eq!(request, expected);
    assert_eq!(q.statement.name(), "s0");
    let script = vec![
        BackendMessage::BindComplete,
        BackendMessage::DataRow(vec![Some(7u32.to_be_bytes().to_vec())]),
        BackendMessage::CommandComplete("SELECT 1".to_string()),
        BackendMessage::ReadyForQuery(b'I'),
    ];
    let mut rows = vec![];
    let mut ended = false;
    for m in script {
        match q.poll_message(Some(m)) {
            Ok(Async::Ready(Some(row))) => rows.push(row),
            Ok(Async::Ready(None)) => ended = true,
            Ok(Async::NotReady) => {}
            Err(_) => panic!("no error expected"),
        }
    }
    assert!(ended);
    assert_eq!(rows.len(), 1);
    assert_eq!(rows[0], vec![Some(vec![0, 0, 0, 7])]);
}

#[test]
fn prepare_without_rows() {
    let mut f = PrepareFuture::new("s5".to_string());
    f.poll_message(Some(BackendMessage::ParseComplete)).unwrap();
    f.poll_message(Some(BackendMessage::ParameterDescription(vec![]))).unwrap();
    match f.poll_message(Some(BackendMessage::NoData)) {
        Ok(PrepareStep::Finished(s)) => {
            assert_eq!(s.name(), "s5");
            assert!(s.params().is_empty());
            assert!(s.columns().is_empty());
        }
        _ => panic!("expected the statement"),
    }
}

#[test]
fn prepare_errors() {
    let mut f = PrepareFuture::new("s".to_string());
    let e = DbError { code: "42601".to_string(), message: "syntax error".to_string() };
    assert!(matches!(f.poll_message(Some(BackendMessage::ErrorResponse(e))), Ok(PrepareStep::Read)));
    assert!(matches!(f.poll_message(Some(BackendMessage::ReadyForQuery(b'I'))), Err(Error::Db(_))));
    let mut f = PrepareFuture::new("s".to_string());
    assert!(matches!(f.poll_message(Some(BackendMessage::NoData)), Err(Error::UnexpectedMessage)));
    let mut f = PrepareFuture::new("s".to_string());
    assert!(matches!(f.poll_message(None), Err(Error::Closed)));
}

#[test]
fn execute_request_appends_execute_and_sync() {
    let c = Client::new(0, 0);
    let s = Statement::new("s1".to_string(), vec![], vec![]);
    let mut f = c.execute(&s, vec![b'B']).unwrap();
    assert_eq!(f.start().unwrap(), b"BE\x00\x00\x00\x09\x00\x00\x00\x00\x00S\x00\x00\x00\x04".to_vec());
    let mut ci = c.copy_in(vec![]).unwrap();
    assert_eq!(ci.start().unwrap(), b"E\x00\x00\x00\x09\x00\x00\x00\x00\x00S\x00\x00\x00\x04".to_vec());
    let mut co = c.copy_out(vec![]).unwrap();
    assert_eq!(co.start().unwrap().len(), 15);
}

#[test]
fn portal_query_fetches_max_rows() {
    let c = Client::new(0, 0);
    let s = Statement::new("s1".to_string(), vec![], vec![]);
    let p = Portal::new("p1".to_string(), s);
    let mut q = c.query_portal(&p, 10).unwrap();
    assert_eq!(q.start().unwrap(), b"E\x00\x00\x00\x0bp1\x00\x00\x00\x00\x0aS\x00\x00\x00\x04".to_vec());
    assert!(matches!(q.poll_message(Some(BackendMessage::PortalSuspended)), Ok(Async::NotReady)));
    assert!(matches!(q.poll_message(Some(BackendMessage::ReadyForQuery(b'T'))), Ok(Async::Ready(None))));
    let bad = Portal::new("p\0".to_string(), Statement::new("s".to_string(), vec![], vec![]));
    assert!(matches!(c.query_portal(&bad, 0), Err(Error::Encode)));
}

#[test]
fn execute_sink_sends_one_request_per_item() {
    let s = Statement::new("s4".to_string(), vec![], vec![]);
    let mut sink = ExecuteSink::new(s);
    assert!(sink.is_flushed());
    let r = sink.start_send(vec![b'B', 1]);
    assert_eq!(r, b"B\x01E\x00\x00\x00\x09\x00\x00\x00\x00\x00S\x00\x00\x00\x04".to_vec());
    sink.start_send(vec![b'B', 2]);
    assert_eq!(sink.idle.count, 2);
    sink.completed();
    sink.completed();
    assert!(sink.is_flushed());
}

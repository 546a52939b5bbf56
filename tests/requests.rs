use tokio_postgres::bind::BindFuture;
use tokio_postgres::client::Client;
use tokio_postgres::error::{DbError, Error};
use tokio_postgres::execute::ExecuteFuture;
use tokio_postgres::frontend::{close_request, simple_query_request};
use tokio_postgres::message::{Async, BackendMessage, FieldDescription};
use tokio_postgres::rows::rows_from_tag;
use tokio_postgres::simple_query::{SimpleQueryMessage, SimpleQueryStream};
use tokio_postgres::statement::Statement;

fn statement(name: &str) -> Statement {
    Statement::new(name.to_string(), vec![], vec![])
}

fn running_execute() -> ExecuteFuture {
    let mut f = ExecuteFuture::new(vec![1, 2, 3], statement("s0"));
    assert_eq!(f.start(), Some(vec![1, 2, 3]));
    assert_eq!(f.start(), None);
    f
}

fn db_error(code: &str) -> BackendMessage {
    BackendMessage::ErrorResponse(DbError { code: code.to_string(), message: "boom".to_string() })
}

#[test]
fn row_count_is_last_word_of_tag() {
    assert_eq!(rows_from_tag("INSERT 0 3"), 3);
    assert_eq!(rows_from_tag("UPDATE 42"), 42);
    assert_eq!(rows_from_tag("SELECT 1"), 1);
    assert_eq!(rows_from_tag("COPY 3"), 3);
    assert_eq!(rows_from_tag("DELETE 18446744073709551615"), u64::MAX);
}

#[test]
fn row_count_without_number_is_zero() {
    assert_eq!(rows_from_tag("CREATE TABLE"), 0);
    assert_eq!(rows_from_tag(""), 0);
    assert_eq!(rows_from_tag("BEGIN"), 0);
    assert_eq!(rows_from_tag("INSERT 0 "), 0);
    assert_eq!(rows_from_tag("DELETE 18446744073709551616"), 0);
    assert_eq!(rows_from_tag("UPDATE 1x"), 0);
    assert_eq!(rows_from_tag("UPDATE +"), 0);
}

#[test]
fn row_count_accepts_plus_sign() {
    assert_eq!(rows_from_tag("UPDATE +5"), 5);
}

#[test]
fn execute_create_then_insert() {
    let mut f = running_execute();
    let r = f.poll_message(Some(BackendMessage::CommandComplete("CREATE TABLE".to_string())));
    assert!(matches!(r, Ok(Async::Ready(0))));

    let mut f = running_execute();
    assert!(matches!(f.poll_message(Some(BackendMessage::BindComplete)), Ok(Async::NotReady)));
    let r = f.poll_message(Some(BackendMessage::CommandComplete("INSERT 0 3".to_string())));
    assert!(matches!(r, Ok(Async::Ready(3))));
}

#[test]
fn execute_skips_data_rows() {
    let mut f = running_execute();
    assert!(matches!(f.poll_message(Some(BackendMessage::BindComplete)), Ok(Async::NotReady)));
    let r = f.poll_message(Some(BackendMessage::DataRow(vec![Some(vec![0, 0, 0, 7])])));
    assert!(matches!(r, Ok(Async::NotReady)));
    let r = f.poll_message(Some(BackendMessage::CommandComplete("SELECT 1".to_string())));
    assert!(matches!(r, Ok(Async::Ready(1))));
}

#[test]
fn execute_empty_query_is_zero_rows() {
    let mut f = running_execute();
    assert!(matches!(f.poll_message(Some(BackendMessage::EmptyQueryResponse)), Ok(Async::Ready(0))));
}

#[test]
fn execute_errors() {
    let mut f = running_execute();
    assert!(matches!(f.poll_message(Some(db_error("23505"))), Ok(Async::NotReady)));
    assert!(matches!(f.poll_message(Some(BackendMessage::DataRow(vec![]))), Ok(Async::NotReady)));
    match f.poll_message(Some(BackendMessage::ReadyForQuery(b'I'))) {
        Err(Error::Db(e)) => assert_eq!(e.code, "23505"),
        _ => panic!("expected the server error at the end of the response"),
    }
    let mut f = running_execute();
    f.poll_message(Some(db_error("23505"))).unwrap();
    assert!(matches!(f.poll_message(None), Err(Error::Closed)));
    let mut f = running_execute();
    assert!(matches!(f.poll_message(Some(BackendMessage::ParseComplete)), Err(Error::UnexpectedMessage)));
    let mut f = running_execute();
    assert!(matches!(f.poll_message(None), Err(Error::Closed)));
}

#[test]
fn bind_yields_portal() {
    let mut f = BindFuture::new(vec![9], "p3".to_string(), statement("s1"));
    assert_eq!(f.start(), Some(vec![9]));
    match f.poll_message(Some(BackendMessage::BindComplete)) {
        Ok(Async::Ready(p)) => {
            assert_eq!(p.name(), "p3");
            assert_eq!(p.statement().name(), "s1");
        }
        _ => panic!("expected a portal"),
    }
}

#[test]
fn bind_server_error_is_request_local() {
    let mut f = BindFuture::new(vec![], "p".to_string(), statement("s"));
    f.start();
    assert!(matches!(f.poll_message(Some(db_error("22P02"))), Ok(Async::NotReady)));
    match f.poll_message(Some(BackendMessage::ReadyForQuery(b'I'))) {
        Err(Error::Db(e)) => assert_eq!(e.code, "22P02"),
        _ => panic!("expected the server error"),
    }
}

#[test]
fn bind_errors() {
    let mut f = BindFuture::new(vec![], "p".to_string(), statement("s"));
    f.start();
    assert!(matches!(f.poll_message(Some(BackendMessage::NoData)), Err(Error::UnexpectedMessage)));
    let mut f = BindFuture::new(vec![], "p".to_string(), statement("s"));
    f.start();
    assert!(matches!(f.poll_message(None), Err(Error::Closed)));
}

fn int_row(v: u8) -> BackendMessage {
    BackendMessage::DataRow(vec![Some(vec![b'0' + v])])
}

#[test]
fn simple_query_two_result_sets() {
    let client = Client::new(1, 2);
    let mut s = match client.simple_query("SELECT 1; SELECT 2") {
        Ok(s) => s,
        Err(_) => panic!("the query encodes"),
    };
    let request = s.start().unwrap();
    assert_eq!(request[0], b'Q');
    let script = vec![
        BackendMessage::RowDescription(vec![]),
        int_row(1),
        BackendMessage::CommandComplete("SELECT 1".to_string()),
        BackendMessage::RowDescription(vec![]),
        int_row(2),
        BackendMessage::CommandComplete("SELECT 1".to_string()),
        BackendMessage::ReadyForQuery(b'I'),
    ];
    let mut sets: Vec<Vec<Vec<Option<Vec<u8>>>>> = vec![];
    let mut ended = false;
    for m in script {
        match s.poll_message(Some(m)) {
            Ok(Async::Ready(Some(SimpleQueryMessage::RowDescription(_)))) => sets.push(vec![]),
            Ok(Async::Ready(Some(SimpleQueryMessage::Row(row)))) => sets.last_mut().unwrap().push(row),
            Ok(Async::Ready(None)) => ended = true,
            Ok(Async::NotReady) => {}
            Err(_) => panic!("no error expected"),
        }
    }
    assert!(ended);
    assert!(s.is_done());
    assert_eq!(sets, vec![vec![vec![Some(b"1".to_vec())]], vec![vec![Some(b"2".to_vec())]]]);
    assert!(matches!(s.poll_message(None), Ok(Async::Ready(None))));
    assert!(matches!(s.poll_message(Some(int_row(3))), Ok(Async::Ready(None))));
}

#[test]
fn simple_query_yields_row_description() {
    let mut s = SimpleQueryStream::new(vec![]);
    s.start();
    let fields = vec![FieldDescription { name: "x".to_string(), type_oid: 23 }];
    match s.poll_message(Some(BackendMessage::RowDescription(fields))) {
        Ok(Async::Ready(Some(SimpleQueryMessage::RowDescription(f)))) => {
            assert_eq!(f.len(), 1);
            assert_eq!(f[0].name, "x");
        }
        _ => panic!("expected a row description"),
    }
    assert!(!s.is_done());
}

#[test]
fn closed_client_refuses_requests() {
    let mut c = Client::new(1, 2);
    c.mark_closed();
    assert!(c.is_closed());
    let s = statement("s0");
    assert!(matches!(c.simple_query("SELECT 1"), Err(Error::Closed)));
    assert!(matches!(c.prepare("SELECT 1", 0), Err(Error::Closed)));
    assert!(matches!(c.execute(&s, vec![]), Err(Error::Closed)));
    assert!(matches!(c.query(&s, vec![]), Err(Error::Closed)));
    assert!(matches!(c.copy_in(vec![]), Err(Error::Closed)));
    assert!(matches!(c.copy_out(vec![]), Err(Error::Closed)));
    let p = tokio_postgres::portal::Portal::new("p".to_string(), s);
    assert!(matches!(c.query_portal(&p, 0), Err(Error::Closed)));
}

#[test]
fn simple_query_errors() {
    let mut s = SimpleQueryStream::new(vec![]);
    s.start();
    assert!(matches!(s.poll_message(Some(db_error("42601"))), Ok(Async::NotReady)));
    assert!(!s.is_done());
    assert!(matches!(s.poll_message(Some(BackendMessage::ReadyForQuery(b'I'))), Err(Error::Db(_))));
    assert!(s.is_done());
    assert!(matches!(s.poll_message(None), Ok(Async::Ready(None))));
    let mut s = SimpleQueryStream::new(vec![]);
    s.start();
    assert!(matches!(s.poll_message(Some(BackendMessage::BindComplete)), Err(Error::UnexpectedMessage)));
    let mut s = SimpleQueryStream::new(vec![]);
    s.start();
    assert!(matches!(s.poll_message(None), Err(Error::Closed)));
}

#[test]
fn query_message_bytes() {
    let b = simple_query_request("BEGIN").unwrap();
    assert_eq!(b, b"Q\x00\x00\x00\x0aBEGIN\x00".to_vec());
    assert!(matches!(simple_query_request("a\0b"), Err(Error::Encode)));
}

#[test]
fn close_statement_message_bytes() {
    let s = statement("s12");
    let b = s.close_request().unwrap();
    assert_eq!(b, b"C\x00\x00\x00\x09Ss12\x00S\x00\x00\x00\x04".to_vec());
    let b = close_request(b'P', "p1").unwrap();
    assert_eq!(b, b"C\x00\x00\x00\x08Pp1\x00S\x00\x00\x00\x04".to_vec());
    assert!(matches!(close_request(b'S', "bad\0name"), Err(Error::Encode)));
}

#[test]
fn close_portal_names_the_portal() {
    let p = tokio_postgres::portal::Portal::new("p7".to_string(), statement("s1"));
    let b = p.close_request().unwrap();
    assert_eq!(b, b"C\x00\x00\x00\x08Pp7\x00S\x00\x00\x00\x04".to_vec());
}

#[test]
fn prepare_names_and_messages() {
    let c = Client::new(1, 2);
    let p = c.prepare("SELECT $1::int4", 0).unwrap();
    assert_eq!(p.name, "s0");
    let mut expected = b"P\x00\x00\x00\x19s0\x00SELECT $1::int4\x00\x00\x00".to_vec();
    expected.extend_from_slice(b"D\x00\x00\x00\x08Ss0\x00S\x00\x00\x00\x04");
    assert_eq!(p.messages, expected);
    let other = Client::new(3, 4);
    let q = other.prepare("SELECT 2", 1).unwrap();
    assert_eq!(q.name, "s1");
    assert_eq!(Client::next_name("p", 2), "p2");
    assert_eq!(Client::next_name("s", 1234567), "s1234567");
    assert_eq!(Client::next_name("s", 0), "s0");
    assert_eq!(Client::next_name("p", u64::MAX), "p18446744073709551615");
}

#[test]
fn prepare_typed_lists_parameter_types() {
    let c = Client::new(1, 2);
    let int4 = tokio_postgres::types::from_oid(23).unwrap();
    let p = c.prepare_typed("SELECT $1", &[int4], 0).unwrap();
    let mut expected = b"P\x00\x00\x00\x17s0\x00SELECT $1\x00\x00\x01\x00\x00\x00\x17".to_vec();
    expected.extend_from_slice(b"D\x00\x00\x00\x08Ss0\x00S\x00\x00\x00\x04");
    assert_eq!(p.messages, expected);
    assert!(matches!(c.prepare("a\0", 1), Err(Error::Encode)));
}

use tokio_postgres::connection::{Connection, Routed};
use tokio_postgres::error::{DbError, Error};
use tokio_postgres::execute::ExecuteFuture;
use tokio_postgres::message::{Async, BackendMessage};
use tokio_postgres::pipeline::Pipeline;
use tokio_postgres::query::QueryStream;
use tokio_postgres::statement::Statement;

fn deliver(c: &mut Connection, m: BackendMessage) -> (u64, bool) {
    match c.route(m) {
        Ok(Routed::Deliver { id, last, .. }) => (id, last),
        _ => panic!("expected a delivery"),
    }
}

#[test]
fn responses_reach_requests_in_enqueue_order() {
    let mut c = Connection::new();
    c.enqueue(10);
    c.enqueue(11);
    c.enqueue(12);
    let mut completed = vec![];
    let script = vec![
        BackendMessage::BindComplete,
        BackendMessage::CommandComplete("SELECT 0".to_string()),
        BackendMessage::ReadyForQuery(b'I'),
        BackendMessage::ReadyForQuery(b'I'),
        BackendMessage::ParseComplete,
        BackendMessage::ReadyForQuery(b'I'),
    ];
    let mut delivered = vec![];
    for m in script {
        let (id, last) = deliver(&mut c, m);
        delivered.push(id);
        if last {
            completed.push(id);
        }
    }
    assert_eq!(delivered, vec![10, 10, 10, 11, 12, 12]);
    assert_eq!(completed, vec![10, 11, 12]);
    assert_eq!(c.in_flight(), 0);
}

#[test]
fn connection_level_messages_are_not_routed() {
    let mut c = Connection::new();
    let r = c.route(BackendMessage::ParameterStatus {
        name: "server_version".to_string(),
        value: "16.2".to_string(),
    });
    assert!(matches!(r, Ok(Routed::Parameter)));
    c.route(BackendMessage::ParameterStatus { name: "TimeZone".to_string(), value: "UTC".to_string() })
        .unwrap();
    c.route(BackendMessage::ParameterStatus {
        name: "server_version".to_string(),
        value: "16.3".to_string(),
    })
    .unwrap();
    assert_eq!(c.parameter("server_version"), Some("16.3".to_string()));
    assert_eq!(c.parameter("TimeZone"), Some("UTC".to_string()));
    assert_eq!(c.parameter("missing"), None);
    let notice = BackendMessage::NoticeResponse(DbError { code: "01000".to_string(), message: "hi".to_string() });
    assert!(matches!(c.route(notice), Ok(Routed::Notice(_))));
    let n = BackendMessage::NotificationResponse { process_id: 3, channel: "ch".to_string(), payload: "x".to_string() };
    assert!(matches!(c.route(n), Ok(Routed::Notification { process_id: 3, .. })));
}

#[test]
fn message_without_request_is_unexpected() {
    let mut c = Connection::new();
    assert!(matches!(c.route(BackendMessage::BindComplete), Err(Error::UnexpectedMessage)));
}

#[test]
fn closing_hands_back_pending_requests() {
    let mut c = Connection::new();
    c.enqueue(1);
    c.enqueue(2);
    deliver(&mut c, BackendMessage::ReadyForQuery(b'I'));
    c.enqueue(3);
    assert_eq!(c.close(), vec![2, 3]);
    assert_eq!(c.in_flight(), 0);
}

#[test]
fn clean_shutdown_needs_quiet_connection() {
    let mut c = Connection::new();
    assert!(c.can_shut_down(true, false));
    assert!(!c.can_shut_down(false, false));
    assert!(!c.can_shut_down(true, true));
    c.enqueue(1);
    assert!(!c.can_shut_down(true, false));
}

#[test]
fn dropped_connection_fails_pending_query() {
    let mut c = Connection::new();
    let mut q = QueryStream::new(vec![], Statement::new("s0".to_string(), vec![], vec![]));
    q.start();
    c.enqueue(4);
    let orphaned = c.close();
    assert_eq!(orphaned, vec![4]);
    assert!(matches!(q.poll_message(None), Err(Error::Closed)));
}

#[test]
fn pipelined_executions_finish_in_submit_order() {
    let mut p = Pipeline::new();
    let s = || Statement::new("s0".to_string(), vec![], vec![]);
    assert_eq!(p.submit(1, ExecuteFuture::new(vec![1], s())), vec![1]);
    assert_eq!(p.submit(2, ExecuteFuture::new(vec![2], s())), vec![2]);
    let script = vec![
        BackendMessage::BindComplete,
        BackendMessage::CommandComplete("INSERT 0 5".to_string()),
        BackendMessage::ReadyForQuery(b'I'),
        BackendMessage::BindComplete,
        BackendMessage::CommandComplete("UPDATE 2".to_string()),
        BackendMessage::ReadyForQuery(b'I'),
    ];
    let mut finished = vec![];
    for m in script {
        if let Some((id, Ok(Async::Ready(n)))) = p.on_message(m).unwrap() {
            finished.push((id, n));
        }
    }
    assert_eq!(finished, vec![(1, 5), (2, 2)]);
    assert!(matches!(p.on_message(BackendMessage::BindComplete), Err(Error::UnexpectedMessage)));
}

#[test]
fn pipelined_error_is_reported_at_ready_for_query() {
    let mut p = Pipeline::new();
    let s = || Statement::new("s0".to_string(), vec![], vec![]);
    p.submit(7, ExecuteFuture::new(vec![], s()));
    p.submit(8, ExecuteFuture::new(vec![], s()));
    let e = tokio_postgres::error::DbError { code: "23505".to_string(), message: "dup".to_string() };
    assert!(matches!(p.on_message(BackendMessage::ErrorResponse(e)), Ok(Some((7, Ok(Async::NotReady))))));
    assert!(matches!(p.on_message(BackendMessage::ReadyForQuery(b'E')), Ok(Some((7, Err(Error::Db(_)))))));
    let r = p.on_message(BackendMessage::CommandComplete("DELETE 4".to_string()));
    assert!(matches!(r, Ok(Some((8, Ok(Async::Ready(4)))))));
}

#[test]
fn ids_strictly_increase() {
    let mut g = tokio_postgres::ids::IdGenerator::new();
    let a = g.take().unwrap();
    let b = g.take().unwrap();
    let c = g.take().unwrap();
    assert!(a < b && b < c);
    assert_eq!((a, b, c), (0, 1, 2));
}

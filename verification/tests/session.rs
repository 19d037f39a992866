//! Session behavior: request dispatch, per-call flag sets, compressor
//! override, and termination.

use cdrs::authenticators::NoneAuthenticator;
use cdrs::client::{Session, CDRS};
use cdrs::compression::Compression;
use cdrs::error::Error;
use cdrs::frame::{Flag, Frame, Opcode, Request, ResponseBody};
use cdrs::query::{BatchQuery, BatchQuerySubject, BatchType, Consistency, Query, QueryBatch,
                  QueryParams};
use cdrs::transport::Transport;

fn ready_reply() -> Frame {
    Frame { opcode: Opcode::Ready, body: ResponseBody::Other }
}

fn result_reply() -> Frame {
    Frame { opcode: Opcode::Result, body: ResponseBody::Other }
}

/// A started session whose transport will yield the given replies after the
/// handshake's READY.
fn started_session(replies: Vec<Frame>) -> Session<NoneAuthenticator> {
    let mut all = vec![ready_reply()];
    all.extend(replies);
    let transport = Transport::open(all);
    let cdrs = CDRS::new(transport, NoneAuthenticator);
    cdrs.start(Compression::NoCompression).map_err(|(_, e)| e).expect("READY")
}

fn sample_params() -> QueryParams {
    QueryParams {
        consistency: Consistency::One,
        values: None,
        with_names: None,
        page_size: None,
        paging_state: None,
        serial_consistency: None,
        timestamp: None,
    }
}

fn sample_query(text: &str) -> Query {
    Query {
        query: text.to_string(),
        consistency: Consistency::Quorum,
        values: None,
        with_names: Some(false),
        page_size: Some(4),
        paging_state: None,
        serial_consistency: None,
        timestamp: None,
    }
}

fn sample_batch() -> QueryBatch {
    QueryBatch {
        batch_type: BatchType::Logged,
        queries: vec![BatchQuery {
            subject: BatchQuerySubject::QueryString("insert into t (a) values (1)".to_string()),
            values: vec![],
        }],
        consistency: Consistency::One,
        serial_consistency: None,
        timestamp: None,
    }
}

fn last_flags(session: &Session<NoneAuthenticator>) -> Vec<Flag> {
    match session.cdrs.transport.requests.last().expect("a request went out") {
        Request::Prepare { flags, .. } => flags.clone(),
        Request::Execute { flags, .. } => flags.clone(),
        Request::Query { flags, .. } => flags.clone(),
        Request::Batch { flags, .. } => flags.clone(),
        other => panic!("expected a dispatch request, got {:?}", other),
    }
}

#[test]
fn flags_are_empty_when_both_booleans_are_false() {
    let mut session = started_session(vec![result_reply()]);
    session.prepare("select 1".to_string(), false, false).expect("reply");
    assert_eq!(last_flags(&session), Vec::<Flag>::new());
}

#[test]
fn flags_hold_tracing_alone() {
    let mut session = started_session(vec![result_reply()]);
    session.prepare("select 1".to_string(), true, false).expect("reply");
    assert_eq!(last_flags(&session), vec![Flag::Tracing]);
}

#[test]
fn flags_hold_warning_alone() {
    let mut session = started_session(vec![result_reply()]);
    session.query(sample_query("select 1"), false, true).expect("reply");
    assert_eq!(last_flags(&session), vec![Flag::Warning]);
}

#[test]
fn flags_hold_tracing_then_warning() {
    let mut session = started_session(vec![result_reply()]);
    session.batch(sample_batch(), true, true).expect("reply");
    assert_eq!(last_flags(&session), vec![Flag::Tracing, Flag::Warning]);
}

#[test]
fn prepare_sends_the_statement_text() {
    let mut session = started_session(vec![result_reply()]);
    let reply = session.prepare("select * from emp".to_string(), false, false).expect("reply");
    assert_eq!(reply.opcode, Opcode::Result);
    match session.cdrs.transport.requests.last().unwrap() {
        Request::Prepare { query, .. } => assert_eq!(query, "select * from emp"),
        other => panic!("expected PREPARE, got {:?}", other),
    }
}

#[test]
fn execute_sends_the_prepared_id_and_parameters() {
    let mut session = started_session(vec![result_reply()]);
    let id = vec![0xca_u8, 0xfe];
    session.execute(id.clone(), sample_params(), false, false).expect("reply");
    match session.cdrs.transport.requests.last().unwrap() {
        Request::Execute { id: sent, params, .. } => {
            assert_eq!(*sent, id);
            assert_eq!(params.consistency, Consistency::One);
        }
        other => panic!("expected EXECUTE, got {:?}", other),
    }
}

#[test]
fn query_passes_the_description_through() {
    let mut session = started_session(vec![result_reply()]);
    session.query(sample_query("select * from emp"), false, false).expect("reply");
    match session.cdrs.transport.requests.last().unwrap() {
        Request::Query { query, .. } => {
            assert_eq!(query.query, "select * from emp");
            assert_eq!(query.consistency, Consistency::Quorum);
            assert_eq!(query.page_size, Some(4));
        }
        other => panic!("expected QUERY, got {:?}", other),
    }
}

#[test]
fn batch_passes_the_description_through() {
    let mut session = started_session(vec![result_reply()]);
    session.batch(sample_batch(), false, false).expect("reply");
    match session.cdrs.transport.requests.last().unwrap() {
        Request::Batch { batch, .. } => {
            assert_eq!(batch.queries.len(), 1);
            assert_eq!(batch.batch_type, BatchType::Logged);
        }
        other => panic!("expected BATCH, got {:?}", other),
    }
}

#[test]
fn dispatch_returns_the_decoded_reply() {
    let supported = Frame {
        opcode: Opcode::Supported,
        body: ResponseBody::Supported(vec![("OPT".to_string(), vec![])]),
    };
    let mut session = started_session(vec![supported]);
    let reply = session.query(sample_query("select 1"), false, false).expect("reply");
    assert_eq!(reply.opcode, Opcode::Supported);
    match reply.body {
        ResponseBody::Supported(data) => assert_eq!(data[0].0, "OPT"),
        other => panic!("expected the scripted body, got {:?}", other),
    }
}

#[test]
fn dispatch_without_a_reply_is_an_io_error() {
    let mut session = started_session(vec![]);
    match session.prepare("select 1".to_string(), false, false) {
        Err(Error::Io(_)) => {}
        other => panic!("expected an I/O error, got {:?}", other.map(|_| ())),
    }
}

#[test]
fn compressor_override_affects_the_session_and_chains() {
    let mut session = started_session(vec![result_reply()]);
    assert_eq!(session.compressor, Compression::NoCompression);
    session.compressor(Compression::Snappy).query(sample_query("select 1"), false, false)
        .expect("reply");
    assert_eq!(session.compressor, Compression::Snappy);
}

#[test]
fn end_closes_the_transport() {
    let mut session = started_session(vec![]);
    assert!(!session.cdrs.transport.closed);
    session.end();
    assert!(session.cdrs.transport.closed);
}

#[test]
fn end_twice_is_a_no_op_the_second_time() {
    let mut session = started_session(vec![]);
    session.end();
    // the second call finds the session stopped: it must not panic, and it
    // must not try to shut the transport down again
    session.end();
    assert!(session.cdrs.transport.closed);
}

#[test]
fn requests_after_end_fail_without_writing() {
    let mut session = started_session(vec![]);
    session.end();
    // the session is no longer started: the caller checks before dispatch,
    // as the transport would refuse the write anyway
    let sent_before = session.cdrs.transport.requests.len();
    let mut transport = Transport::open(vec![]);
    transport.close().expect("first shutdown succeeds");
    assert!(transport.send(Request::Options).is_err());
    assert_eq!(session.cdrs.transport.requests.len(), sent_before);
}

#[test]
fn transport_replies_arrive_in_order() {
    let mut transport = Transport::open(vec![ready_reply(), result_reply()]);
    let first = transport.receive(&Compression::NoCompression).expect("first");
    let second = transport.receive(&Compression::Lz4).expect("second");
    assert_eq!(first.opcode, Opcode::Ready);
    assert_eq!(second.opcode, Opcode::Result);
    assert!(transport.receive(&Compression::NoCompression).is_err());
}

#[test]
fn transport_shutdown_errors_the_second_time() {
    let mut transport = Transport::open(vec![]);
    assert!(transport.close().is_ok());
    match transport.close() {
        Err(Error::Io(_)) => {}
        other => panic!("expected an I/O error, got {:?}", other.map(|_| ())),
    }
}

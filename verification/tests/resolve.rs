use service_client::addr::PackageId;
use service_client::gateway::{CallError, CallOutcome, ProtocolError, TransportError};
use service_client::graphdb;
use service_client::graphdb::{encode_graphdb_response, encode_rows, GraphDbError,
    GraphDbResponse, ParamValue, Row};
use service_client::kv;
use service_client::kv::{encode_kv_response, KvError, KvResponse};
use service_client::python;
use service_client::python::{encode_python_response, PythonError, PythonResponse};

fn delivered(body: Vec<u8>, blob: Option<Vec<u8>>) -> CallOutcome {
    CallOutcome::Response { body, blob }
}

#[test]
fn timeout_is_a_transport_error_for_every_service() {
    assert_eq!(
        kv::resolve_ok(CallOutcome::Timeout),
        Err(CallError::Transport(TransportError::Timeout))
    );
    assert_eq!(
        kv::resolve_get(CallOutcome::Timeout),
        Err(CallError::Transport(TransportError::Timeout))
    );
    assert_eq!(
        kv::resolve_begin_tx(CallOutcome::Timeout),
        Err(CallError::Transport(TransportError::Timeout))
    );
    assert_eq!(
        graphdb::resolve_ok(CallOutcome::Timeout),
        Err(CallError::Transport(TransportError::Timeout))
    );
    assert_eq!(
        graphdb::resolve_read(CallOutcome::Timeout),
        Err(CallError::Transport(TransportError::Timeout))
    );
    assert_eq!(
        python::resolve_run_script(CallOutcome::Timeout),
        Err(CallError::Transport(TransportError::Timeout))
    );
}

#[test]
fn send_failure_is_surfaced_as_transport_error() {
    let out = kv::resolve_get(CallOutcome::SendFailed { info: String::from("unreachable") });
    assert_eq!(
        out,
        Err(CallError::Transport(TransportError::SendFailed {
            info: String::from("unreachable")
        }))
    );
    let out = graphdb::resolve_ok(CallOutcome::UnexpectedMessage);
    assert_eq!(out, Err(CallError::Transport(TransportError::UnexpectedMessage)));
}

#[test]
fn unexpected_variant_is_a_protocol_error_not_a_default() {
    // A transaction grant delivered to a call that awaited an acknowledgement.
    let body = encode_kv_response(&KvResponse::BeginTx { tx_id: 1 });
    assert_eq!(
        kv::resolve_ok(delivered(body, None)),
        Err(CallError::Protocol(ProtocolError::UnexpectedVariant))
    );
    // A bare acknowledgement delivered to a call that awaited a value.
    let body = encode_kv_response(&KvResponse::Okay);
    assert_eq!(
        kv::resolve_get(delivered(body, Some(vec![1]))),
        Err(CallError::Protocol(ProtocolError::UnexpectedVariant))
    );
    // A key echo delivered to a call that awaited a transaction grant.
    let body = encode_kv_response(&KvResponse::Get { key: vec![1] });
    assert_eq!(
        kv::resolve_begin_tx(delivered(body, Some(vec![1]))),
        Err(CallError::Protocol(ProtocolError::UnexpectedVariant))
    );
    // A record-set announcement delivered to an acknowledged operation.
    let body = encode_graphdb_response(&GraphDbResponse::Data);
    assert_eq!(
        graphdb::resolve_ok(delivered(body, Some(vec![]))),
        Err(CallError::Protocol(ProtocolError::UnexpectedVariant))
    );
    // An acknowledgement delivered to a read.
    let body = encode_graphdb_response(&GraphDbResponse::Okay);
    assert_eq!(
        graphdb::resolve_read(delivered(body, None)),
        Err(CallError::Protocol(ProtocolError::UnexpectedVariant))
    );
}

#[test]
fn malformed_response_is_a_protocol_error() {
    assert_eq!(
        kv::resolve_ok(delivered(vec![250, 1, 2], None)),
        Err(CallError::Protocol(ProtocolError::MalformedResponse))
    );
    assert_eq!(
        graphdb::resolve_read(delivered(vec![], None)),
        Err(CallError::Protocol(ProtocolError::MalformedResponse))
    );
    assert_eq!(
        python::resolve_run_script(delivered(vec![9], None)),
        Err(CallError::Protocol(ProtocolError::MalformedResponse))
    );
}

#[test]
fn missing_blob_is_a_protocol_error_not_an_empty_result() {
    let body = encode_kv_response(&KvResponse::Get { key: vec![1] });
    assert_eq!(
        kv::resolve_get(delivered(body, None)),
        Err(CallError::Protocol(ProtocolError::MissingBlob))
    );
    let body = encode_graphdb_response(&GraphDbResponse::Data);
    assert_eq!(
        graphdb::resolve_read(delivered(body, None)),
        Err(CallError::Protocol(ProtocolError::MissingBlob))
    );
    let body = encode_python_response(&PythonResponse::Output);
    assert_eq!(
        python::resolve_run_script(delivered(body, None)),
        Err(CallError::Protocol(ProtocolError::MissingBlob))
    );
}

#[test]
fn malformed_blob_is_a_protocol_error() {
    let body = encode_graphdb_response(&GraphDbResponse::Data);
    assert_eq!(
        graphdb::resolve_read(delivered(body, Some(vec![1, 2, 3]))),
        Err(CallError::Protocol(ProtocolError::MalformedBlob))
    );
}

#[test]
fn key_not_found_is_a_business_error_not_transport_and_not_empty() {
    let body = encode_kv_response(&KvResponse::Failed { error: KvError::KeyNotFound });
    let out = kv::resolve_get(delivered(body, None));
    assert_eq!(out, Err(CallError::Service(KvError::KeyNotFound)));
    assert!(!matches!(out, Err(CallError::Transport(_))));
    assert!(!matches!(out, Ok(_)));
}

#[test]
fn backend_error_keeps_action_and_reason() {
    let body = encode_graphdb_response(&GraphDbResponse::Failed {
        error: GraphDbError::SurrealDBError {
            action: String::from("Statement"),
            error: String::from("parse error near SELEC"),
        },
    });
    let out = graphdb::resolve_ok(delivered(body, None));
    match out {
        Err(CallError::Service(GraphDbError::SurrealDBError { action, error })) => {
            assert_eq!(action, String::from("Statement"));
            assert_eq!(error, String::from("parse error near SELEC"));
        },
        other => panic!("expected a backend error, got {:?}", other),
    }
}

#[test]
fn unresolvable_script_path_is_an_io_error_not_output() {
    let body = encode_python_response(&PythonResponse::Failed {
        error: PythonError::IOError { error: String::from("scripts/missing.py: not found") },
    });
    let out = python::resolve_run_script(delivered(body, Some(vec![1, 2])));
    assert_eq!(
        out,
        Err(CallError::Service(PythonError::IOError {
            error: String::from("scripts/missing.py: not found")
        }))
    );
}

#[test]
fn capability_rejection_is_nocap_for_every_service() {
    let reason = String::from("no grant for (my-app, inventory)");
    let body = encode_kv_response(&KvResponse::Failed {
        error: KvError::NoCap { error: reason.clone() },
    });
    assert_eq!(
        kv::resolve_ok(delivered(body, None)),
        Err(CallError::Service(KvError::NoCap { error: reason.clone() }))
    );
    let body = encode_graphdb_response(&GraphDbResponse::Failed {
        error: GraphDbError::NoCap { error: reason.clone() },
    });
    assert_eq!(
        graphdb::resolve_ok(delivered(body, None)),
        Err(CallError::Service(GraphDbError::NoCap { error: reason.clone() }))
    );
    let body = encode_python_response(&PythonResponse::Failed {
        error: PythonError::NoCap { error: reason.clone() },
    });
    assert_eq!(
        python::resolve_run_script(delivered(body, None)),
        Err(CallError::Service(PythonError::NoCap { error: reason.clone() }))
    );
}

#[test]
fn successful_read_returns_the_record_set() {
    let rows = vec![Row {
        cells: vec![
            (String::from("id"), ParamValue::Int(7)),
            (String::from("name"), ParamValue::Text(String::from("ada"))),
        ],
    }];
    let body = encode_graphdb_response(&GraphDbResponse::Data);
    let blob = encode_rows(&rows);
    assert_eq!(graphdb::resolve_read(delivered(body, Some(blob))), Ok(rows));
}

#[test]
fn successful_run_script_returns_the_blob_output() {
    let body = encode_python_response(&PythonResponse::Output);
    let out = python::resolve_run_script(delivered(body, Some(vec![10, 20, 30])));
    assert_eq!(out, Ok(vec![10, 20, 30]));
}

#[test]
fn resolve_open_yields_the_handle() {
    let body = encode_graphdb_response(&GraphDbResponse::Okay);
    let pid = PackageId::new(String::from("app"), String::from("node"));
    let g = graphdb::resolve_open(pid, String::from("graph"), delivered(body, None))
        .expect("open must succeed on an acknowledgement");
    assert_eq!(g.db, String::from("graph"));
    assert_eq!(g.package_id.package_name, String::from("app"));
}

#[test]
fn prepared_calls_carry_the_fixed_address_and_timeout() {
    let pid = PackageId::new(String::from("app"), String::from("node"));
    let call = kv::get(pid.dup(), String::from("db"), vec![1]);
    assert_eq!(call.timeout_secs, 5);
    assert_eq!(call.target.node, String::from("our"));
    assert_eq!(call.target.process, String::from("kv"));
    assert_eq!(call.target.package, String::from("sys"));
    assert_eq!(call.target.publisher, String::from("uqbar"));
    assert!(call.blob.is_none());
    let call = kv::set(pid.dup(), String::from("db"), vec![1], vec![2, 3], None);
    assert_eq!(call.blob, Some(vec![2, 3]));
    let g = graphdb::open(pid.dup(), String::from("g"));
    assert_eq!(g.target.process, String::from("graphdb"));
    assert_eq!(g.target.package, String::from("distro"));
    assert_eq!(g.target.publisher, String::from("sys"));
    let p = python::Python::new(pid).run_script(
        String::from("s.py"),
        String::from("main"),
        vec![],
    );
    assert_eq!(p.target.process, String::from("python"));
    assert_eq!(p.timeout_secs, 5);
}

use service_client::addr::PackageId;
use service_client::graphdb::{decode_graphdb_request, decode_params_blob, decode_rows_blob,
    encode_graphdb_request, encode_params, encode_rows, DefineResourceType, GraphDbAction,
    GraphDbRequest, ParamValue, Row};
use service_client::kv::{decode_kv_request, decode_kv_response, encode_kv_request,
    encode_kv_response, KvAction, KvError, KvRequest, KvResponse};
use service_client::python::{decode_python_request, decode_python_response,
    encode_python_request, encode_python_response, PythonAction, PythonError, PythonRequest,
    PythonResponse};

fn pid() -> PackageId {
    PackageId::new(String::from("my-app"), String::from("node-one.os"))
}

fn kv_req(action: KvAction) -> KvRequest {
    KvRequest { package_id: pid(), db: String::from("inventory"), action }
}

#[test]
fn kv_request_round_trip_every_action() {
    let actions = vec![
        KvAction::New,
        KvAction::Put { key: vec![1, 2, 3], tx_id: None },
        KvAction::Put { key: vec![], tx_id: Some(7) },
        KvAction::Delete { key: vec![9], tx_id: Some(u64::MAX) },
        KvAction::Delete { key: vec![0, 0], tx_id: None },
        KvAction::Get { key: vec![255, 0, 128] },
        KvAction::BeginTx,
        KvAction::Commit { tx_id: 42 },
        KvAction::Backup,
    ];
    for action in actions {
        let req = kv_req(action);
        let bytes = encode_kv_request(&req);
        let back = decode_kv_request(&bytes).expect("round trip must succeed");
        assert_eq!(back, req);
    }
}

#[test]
fn kv_request_round_trip_non_ascii_text() {
    let req = KvRequest {
        package_id: PackageId::new(String::from("caf\u{e9}-app"), String::from("n\u{f8}de")),
        db: String::from("store \u{2699} \u{1f600}"),
        action: KvAction::Get { key: vec![1] },
    };
    let bytes = encode_kv_request(&req);
    let back = decode_kv_request(&bytes).expect("round trip must succeed");
    assert_eq!(back, req);
}

#[test]
fn kv_response_round_trip_every_variant() {
    let responses = vec![
        KvResponse::Okay,
        KvResponse::BeginTx { tx_id: 0 },
        KvResponse::BeginTx { tx_id: u64::MAX },
        KvResponse::Get { key: vec![1, 2] },
        KvResponse::Failed { error: KvError::NoDb },
        KvResponse::Failed { error: KvError::DbAlreadyExists },
        KvResponse::Failed { error: KvError::KeyNotFound },
        KvResponse::Failed { error: KvError::NoTx },
        KvResponse::Failed { error: KvError::NoCap { error: String::from("scope denied") } },
        KvResponse::Failed {
            error: KvError::RocksDBError {
                action: String::from("Get"),
                error: String::from("io stall"),
            },
        },
        KvResponse::Failed { error: KvError::InputError { error: String::from("bad key") } },
        KvResponse::Failed { error: KvError::IOError { error: String::from("disk gone") } },
    ];
    for resp in responses {
        let bytes = encode_kv_response(&resp);
        let back = decode_kv_response(&bytes).expect("round trip must succeed");
        assert_eq!(back, resp);
    }
}

#[test]
fn kv_encoding_is_deterministic_and_exact() {
    // A bare acknowledgement is a single tag byte.
    assert_eq!(encode_kv_response(&KvResponse::Okay), vec![0u8]);
    // A transaction grant: tag, then the id as eight little-endian bytes.
    let bytes = encode_kv_response(&KvResponse::BeginTx { tx_id: 0x0102030405060708 });
    assert_eq!(bytes, vec![1u8, 8, 7, 6, 5, 4, 3, 2, 1]);
    // A key echo: tag, length prefix, then the raw key.
    let bytes = encode_kv_response(&KvResponse::Get { key: vec![0xAA, 0xBB] });
    assert_eq!(bytes, vec![2u8, 2, 0, 0, 0, 0, 0, 0, 0, 0xAA, 0xBB]);
}

#[test]
fn kv_decode_rejects_malformed_and_trailing_bytes() {
    assert_eq!(decode_kv_response(&[]), None);
    assert_eq!(decode_kv_response(&[99u8]), None);
    assert_eq!(decode_kv_request(&[0u8, 1, 2]), None);
    let mut bytes = encode_kv_response(&KvResponse::Okay);
    bytes.push(0);
    assert_eq!(decode_kv_response(&bytes), None);
    let mut bytes = encode_kv_request(&kv_req(KvAction::BeginTx));
    bytes.push(7);
    assert_eq!(decode_kv_request(&bytes), None);
    // A length prefix pointing past the end of the buffer is malformed.
    let bytes = vec![2u8, 9, 0, 0, 0, 0, 0, 0, 0, 1];
    assert_eq!(decode_kv_response(&bytes), None);
}

#[test]
fn graphdb_request_round_trip_every_action() {
    let params = vec![
        (String::from("name"), ParamValue::Text(String::from("alice"))),
        (String::from("age"), ParamValue::Int(-42)),
        (String::from("active"), ParamValue::Flag(true)),
        (String::from("note"), ParamValue::Null),
        (String::from("count"), ParamValue::Int(i64::MAX)),
        (String::from("floor"), ParamValue::Int(i64::MIN)),
    ];
    let actions = vec![
        GraphDbAction::Open,
        GraphDbAction::RemoveDb,
        GraphDbAction::Define {
            resource: DefineResourceType::Namespace { name: String::from("ns") },
        },
        GraphDbAction::Define {
            resource: DefineResourceType::Database { name: String::from("db") },
        },
        GraphDbAction::Define {
            resource: DefineResourceType::Table { name: String::from("users") },
        },
        GraphDbAction::Statement {
            statement: String::from("CREATE user SET name = $name"),
            params: Some(params),
        },
        GraphDbAction::Statement { statement: String::from("REMOVE TABLE users"), params: None },
        GraphDbAction::Read { statement: String::from("SELECT * FROM users") },
        GraphDbAction::Backup,
    ];
    for action in actions {
        let req = GraphDbRequest { package_id: pid(), db: String::from("graph"), action };
        let bytes = encode_graphdb_request(&req);
        let back = decode_graphdb_request(&bytes).expect("round trip must succeed");
        assert_eq!(back, req);
    }
}

#[test]
fn params_blob_round_trip() {
    let params = vec![
        (String::from("k"), ParamValue::Text(String::from("v"))),
        (String::from("n"), ParamValue::Int(-1)),
    ];
    let blob = encode_params(&params);
    let back = decode_params_blob(&blob).expect("round trip must succeed");
    assert_eq!(back, params);
    assert_eq!(decode_params_blob(&[1u8, 2, 3]), None);
}

#[test]
fn rows_blob_round_trip() {
    let rows = vec![
        Row {
            cells: vec![
                (String::from("id"), ParamValue::Int(1)),
                (String::from("name"), ParamValue::Text(String::from("ada"))),
            ],
        },
        Row { cells: vec![] },
        Row { cells: vec![(String::from("ok"), ParamValue::Flag(false))] },
    ];
    let blob = encode_rows(&rows);
    let back = decode_rows_blob(&blob).expect("round trip must succeed");
    assert_eq!(back, rows);
    let mut broken = encode_rows(&rows);
    broken.push(1);
    assert_eq!(decode_rows_blob(&broken), None);
}

#[test]
fn python_request_round_trip() {
    let req = PythonRequest {
        package_id: pid(),
        action: PythonAction::RunScript {
            script: String::from("tools/report.py"),
            func: String::from("main"),
            args: vec![String::from("--fast"), String::from(""), String::from("\u{263a}")],
        },
    };
    let bytes = encode_python_request(&req);
    let back = decode_python_request(&bytes).expect("round trip must succeed");
    assert_eq!(back, req);
}

#[test]
fn python_response_round_trip_every_variant() {
    let responses = vec![
        PythonResponse::Output,
        PythonResponse::Failed { error: PythonError::NoCap { error: String::from("no grant") } },
        PythonResponse::Failed {
            error: PythonError::InputError { error: String::from("bad arg") },
        },
        PythonResponse::Failed {
            error: PythonError::IOError { error: String::from("script not found") },
        },
    ];
    for resp in responses {
        let bytes = encode_python_response(&resp);
        let back = decode_python_response(&bytes).expect("round trip must succeed");
        assert_eq!(back, resp);
    }
}

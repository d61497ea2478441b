//! End-to-end scenarios against a tiny in-memory store that speaks the
//! library's envelope codec: requests are decoded with the library's own
//! decoder, the store applies the documented transaction semantics, and the
//! answer is encoded back and resolved by the library.

use service_client::addr::PackageId;
use service_client::gateway::{CallError, CallOutcome, PreparedCall};
use service_client::kv;
use service_client::kv::{decode_kv_request, encode_kv_response, KvAction, KvError, KvResponse};
use std::collections::HashMap;

struct MiniStore {
    data: HashMap<Vec<u8>, Vec<u8>>,
    pending: HashMap<u64, Vec<(Vec<u8>, Option<Vec<u8>>)>>,
    next_tx: u64,
}

impl MiniStore {
    fn new() -> Self {
        MiniStore { data: HashMap::new(), pending: HashMap::new(), next_tx: 1 }
    }

    fn respond(&mut self, call: PreparedCall) -> CallOutcome {
        let req = match decode_kv_request(&call.body) {
            Some(r) => r,
            None => {
                let body = encode_kv_response(&KvResponse::Failed {
                    error: KvError::InputError { error: String::from("unparsable request") },
                });
                return CallOutcome::Response { body, blob: None };
            },
        };
        let (resp, blob) = match req.action {
            KvAction::New | KvAction::Backup => (KvResponse::Okay, None),
            KvAction::Put { key, tx_id } => {
                let value = call.blob.unwrap_or_default();
                match tx_id {
                    None => {
                        self.data.insert(key, value);
                        (KvResponse::Okay, None)
                    },
                    Some(t) => match self.pending.get_mut(&t) {
                        Some(buffered) => {
                            buffered.push((key, Some(value)));
                            (KvResponse::Okay, None)
                        },
                        None => (KvResponse::Failed { error: KvError::NoTx }, None),
                    },
                }
            },
            KvAction::Delete { key, tx_id } => match tx_id {
                None => {
                    self.data.remove(&key);
                    (KvResponse::Okay, None)
                },
                Some(t) => match self.pending.get_mut(&t) {
                    Some(buffered) => {
                        buffered.push((key, None));
                        (KvResponse::Okay, None)
                    },
                    None => (KvResponse::Failed { error: KvError::NoTx }, None),
                },
            },
            KvAction::Get { key } => match self.data.get(&key) {
                Some(v) => (KvResponse::Get { key }, Some(v.clone())),
                None => (KvResponse::Failed { error: KvError::KeyNotFound }, None),
            },
            KvAction::BeginTx => {
                let t = self.next_tx;
                self.next_tx += 1;
                self.pending.insert(t, Vec::new());
                (KvResponse::BeginTx { tx_id: t }, None)
            },
            KvAction::Commit { tx_id } => match self.pending.remove(&tx_id) {
                Some(buffered) => {
                    for (key, value) in buffered {
                        match value {
                            Some(v) => {
                                self.data.insert(key, v);
                            },
                            None => {
                                self.data.remove(&key);
                            },
                        }
                    }
                    (KvResponse::Okay, None)
                },
                None => (KvResponse::Failed { error: KvError::NoTx }, None),
            },
        };
        CallOutcome::Response { body: encode_kv_response(&resp), blob }
    }
}

fn pid() -> PackageId {
    PackageId::new(String::from("app"), String::from("node"))
}

fn db() -> String {
    String::from("store")
}

#[test]
fn auto_commit_set_then_get_returns_the_value() {
    let mut server = MiniStore::new();
    let out = server.respond(kv::set(pid(), db(), b"k".to_vec(), vec![1, 2, 3], None));
    assert_eq!(kv::resolve_ok(out), Ok(()));
    let out = server.respond(kv::get(pid(), db(), b"k".to_vec()));
    assert_eq!(kv::resolve_get(out), Ok(vec![1, 2, 3]));
}

#[test]
fn get_on_a_nonexistent_key_is_key_not_found() {
    let mut server = MiniStore::new();
    let out = server.respond(kv::get(pid(), db(), b"missing".to_vec()));
    let res = kv::resolve_get(out);
    assert_eq!(res, Err(CallError::Service(KvError::KeyNotFound)));
    assert!(!matches!(res, Err(CallError::Transport(_))));
    assert!(!matches!(res, Ok(_)));
}

#[test]
fn transaction_sequencing_commit_then_stale_tx_fails_with_no_tx() {
    let mut server = MiniStore::new();
    // Open a transaction.
    let out = server.respond(kv::begin_tx(pid(), db()));
    let tx = kv::resolve_begin_tx(out).expect("begin_tx must grant an id");
    // A write inside the open transaction is accepted...
    let out = server.respond(kv::set(pid(), db(), b"a".to_vec(), vec![1], Some(tx)));
    assert_eq!(kv::resolve_ok(out), Ok(()));
    // ...but not visible before the commit.
    let out = server.respond(kv::get(pid(), db(), b"a".to_vec()));
    assert_eq!(kv::resolve_get(out), Err(CallError::Service(KvError::KeyNotFound)));
    // Commit succeeds and publishes the write.
    let out = server.respond(kv::commit_tx(pid(), db(), tx));
    assert_eq!(kv::resolve_ok(out), Ok(()));
    let out = server.respond(kv::get(pid(), db(), b"a".to_vec()));
    assert_eq!(kv::resolve_get(out), Ok(vec![1]));
    // The same id after its commit is invalid.
    let out = server.respond(kv::set(pid(), db(), b"b".to_vec(), vec![2], Some(tx)));
    assert_eq!(kv::resolve_ok(out), Err(CallError::Service(KvError::NoTx)));
    let out = server.respond(kv::commit_tx(pid(), db(), tx));
    assert_eq!(kv::resolve_ok(out), Err(CallError::Service(KvError::NoTx)));
}

#[test]
fn delete_inside_a_transaction_applies_on_commit() {
    let mut server = MiniStore::new();
    let out = server.respond(kv::set(pid(), db(), b"k".to_vec(), vec![9], None));
    assert_eq!(kv::resolve_ok(out), Ok(()));
    let out = server.respond(kv::begin_tx(pid(), db()));
    let tx = kv::resolve_begin_tx(out).expect("begin_tx must grant an id");
    let out = server.respond(kv::delete(pid(), db(), b"k".to_vec(), Some(tx)));
    assert_eq!(kv::resolve_ok(out), Ok(()));
    let out = server.respond(kv::commit_tx(pid(), db(), tx));
    assert_eq!(kv::resolve_ok(out), Ok(()));
    let out = server.respond(kv::get(pid(), db(), b"k".to_vec()));
    assert_eq!(kv::resolve_get(out), Err(CallError::Service(KvError::KeyNotFound)));
}

#[test]
fn two_transactions_get_distinct_ids() {
    let mut server = MiniStore::new();
    let t1 = kv::resolve_begin_tx(server.respond(kv::begin_tx(pid(), db()))).unwrap();
    let t2 = kv::resolve_begin_tx(server.respond(kv::begin_tx(pid(), db()))).unwrap();
    assert_ne!(t1, t2);
}

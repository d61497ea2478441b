//! Client of the transactional key-value store service.
//!
//! Each operation builds a [`PreparedCall`] holding the encoded request (and,
//! for `Put`, the value as the out-of-band blob). The embedding program
//! dispatches it and hands the raw [`CallOutcome`] to the matching resolver,
//! which yields the typed result or the typed error the operation is owed.
//!
//! Values being stored or fetched travel on the blob channel; the envelope
//! body carries only the action tag, keys, and scalar identifiers.

use crate::addr::{kv_address, kv_target, PackageId, PackageIdV};
use crate::gateway::{spec_transport, transport_result, CallError, CallErrorV, CallOutcome,
    CallOutcomeV, PreparedCall, PreparedCallV, ProtocolError, TransportErrorV, CALL_TIMEOUT_SECS};
use crate::wire::{dec_bytes, dec_opt_u64, dec_str, dec_tag, dec_u64, enc_bytes, enc_opt_u64,
    enc_str, enc_tag, enc_u64, fits_u64, lemma_bytes_round, lemma_opt_u64_round, lemma_str_round,
    lemma_tag_round, lemma_u64_round, r_bytes, r_opt_u64, r_str, r_tag, r_u64, w_bytes, w_opt_u64,
    w_str, w_tag, w_u64, wf_str};
use vstd::prelude::*;

verus! {

// ---------------------------------------------------------------------------
// Data model.
// ---------------------------------------------------------------------------

/// The request envelope: who calls, which database, and the action.
#[derive(Debug, PartialEq, Eq)]
pub struct KvRequest {
    pub package_id: PackageId,
    pub db: String,
    pub action: KvAction,
}

/// One store operation. `Put` and `Delete` scope themselves to an open
/// transaction when `tx_id` is given and apply immediately otherwise.
#[derive(Debug, PartialEq, Eq)]
#[allow(inconsistent_fields)]
pub enum KvAction {
    New,
    Put { key: Vec<u8>, tx_id: Option<u64> },
    Delete { key: Vec<u8>, tx_id: Option<u64> },
    Get { key: Vec<u8> },
    BeginTx,
    Commit { tx_id: u64 },
    Backup,
}

/// The response envelope of the store service.
#[derive(Debug, PartialEq, Eq)]
pub enum KvResponse {
    Okay,
    BeginTx { tx_id: u64 },
    Get { key: Vec<u8> },
    Failed { error: KvError },
}

/// Business errors the store service reports.
#[derive(Debug, PartialEq, Eq)]
pub enum KvError {
    NoDb,
    DbAlreadyExists,
    KeyNotFound,
    NoTx,
    NoCap { error: String },
    RocksDBError { action: String, error: String },
    InputError { error: String },
    IOError { error: String },
}

pub struct KvRequestV {
    pub package_id: PackageIdV,
    pub db: Seq<char>,
    pub action: KvActionV,
}

#[allow(inconsistent_fields)]
pub enum KvActionV {
    New,
    Put { key: Seq<u8>, tx_id: Option<u64> },
    Delete { key: Seq<u8>, tx_id: Option<u64> },
    Get { key: Seq<u8> },
    BeginTx,
    Commit { tx_id: u64 },
    Backup,
}

pub enum KvResponseV {
    Okay,
    BeginTx { tx_id: u64 },
    Get { key: Seq<u8> },
    Failed { error: KvErrorV },
}

pub enum KvErrorV {
    NoDb,
    DbAlreadyExists,
    KeyNotFound,
    NoTx,
    NoCap { error: Seq<char> },
    RocksDBError { action: Seq<char>, error: Seq<char> },
    InputError { error: Seq<char> },
    IOError { error: Seq<char> },
}

impl View for KvAction {
    type V = KvActionV;

    open spec fn view(&self) -> KvActionV {
        match self {
            KvAction::New => KvActionV::New,
            KvAction::Put { key, tx_id } => KvActionV::Put { key: key@, tx_id: *tx_id },
            KvAction::Delete { key, tx_id } => KvActionV::Delete { key: key@, tx_id: *tx_id },
            KvAction::Get { key } => KvActionV::Get { key: key@ },
            KvAction::BeginTx => KvActionV::BeginTx,
            KvAction::Commit { tx_id } => KvActionV::Commit { tx_id: *tx_id },
            KvAction::Backup => KvActionV::Backup,
        }
    }
}

impl View for KvRequest {
    type V = KvRequestV;

    open spec fn view(&self) -> KvRequestV {
        KvRequestV { package_id: self.package_id@, db: self.db@, action: self.action@ }
    }
}

impl View for KvResponse {
    type V = KvResponseV;

    open spec fn view(&self) -> KvResponseV {
        match self {
            KvResponse::Okay => KvResponseV::Okay,
            KvResponse::BeginTx { tx_id } => KvResponseV::BeginTx { tx_id: *tx_id },
            KvResponse::Get { key } => KvResponseV::Get { key: key@ },
            KvResponse::Failed { error } => KvResponseV::Failed { error: error@ },
        }
    }
}

impl View for KvError {
    type V = KvErrorV;

    open spec fn view(&self) -> KvErrorV {
        match self {
            KvError::NoDb => KvErrorV::NoDb,
            KvError::DbAlreadyExists => KvErrorV::DbAlreadyExists,
            KvError::KeyNotFound => KvErrorV::KeyNotFound,
            KvError::NoTx => KvErrorV::NoTx,
            KvError::NoCap { error } => KvErrorV::NoCap { error: error@ },
            KvError::RocksDBError { action, error } => KvErrorV::RocksDBError {
                action: action@,
                error: error@,
            },
            KvError::InputError { error } => KvErrorV::InputError { error: error@ },
            KvError::IOError { error } => KvErrorV::IOError { error: error@ },
        }
    }
}

// ---------------------------------------------------------------------------
// Envelope codec: specification.
// ---------------------------------------------------------------------------

pub open spec fn wf_kv_action(a: KvActionV) -> bool {
    match a {
        KvActionV::Put { key, .. } => fits_u64(key.len()),
        KvActionV::Delete { key, .. } => fits_u64(key.len()),
        KvActionV::Get { key } => fits_u64(key.len()),
        _ => true,
    }
}

pub open spec fn wf_kv_request(r: KvRequestV) -> bool {
    &&& wf_str(r.package_id.package_name)
    &&& wf_str(r.package_id.publisher_node)
    &&& wf_str(r.db)
    &&& wf_kv_action(r.action)
}

pub open spec fn wf_kv_error(e: KvErrorV) -> bool {
    match e {
        KvErrorV::NoCap { error } => wf_str(error),
        KvErrorV::RocksDBError { action, error } => wf_str(action) && wf_str(error),
        KvErrorV::InputError { error } => wf_str(error),
        KvErrorV::IOError { error } => wf_str(error),
        _ => true,
    }
}

pub open spec fn wf_kv_response(r: KvResponseV) -> bool {
    match r {
        KvResponseV::Get { key } => fits_u64(key.len()),
        KvResponseV::Failed { error } => wf_kv_error(error),
        _ => true,
    }
}

pub open spec fn enc_kv_action(a: KvActionV) -> Seq<u8> {
    match a {
        KvActionV::New => enc_tag(0),
        KvActionV::Put { key, tx_id } => enc_tag(1) + enc_bytes(key) + enc_opt_u64(tx_id),
        KvActionV::Delete { key, tx_id } => enc_tag(2) + enc_bytes(key) + enc_opt_u64(tx_id),
        KvActionV::Get { key } => enc_tag(3) + enc_bytes(key),
        KvActionV::BeginTx => enc_tag(4),
        KvActionV::Commit { tx_id } => enc_tag(5) + enc_u64(tx_id),
        KvActionV::Backup => enc_tag(6),
    }
}

pub open spec fn enc_kv_request(r: KvRequestV) -> Seq<u8> {
    enc_str(r.package_id.package_name) + enc_str(r.package_id.publisher_node) + enc_str(r.db)
        + enc_kv_action(r.action)
}

pub open spec fn enc_kv_error(e: KvErrorV) -> Seq<u8> {
    match e {
        KvErrorV::NoDb => enc_tag(0),
        KvErrorV::DbAlreadyExists => enc_tag(1),
        KvErrorV::KeyNotFound => enc_tag(2),
        KvErrorV::NoTx => enc_tag(3),
        KvErrorV::NoCap { error } => enc_tag(4) + enc_str(error),
        KvErrorV::RocksDBError { action, error } => enc_tag(5) + enc_str(action) + enc_str(error),
        KvErrorV::InputError { error } => enc_tag(6) + enc_str(error),
        KvErrorV::IOError { error } => enc_tag(7) + enc_str(error),
    }
}

pub open spec fn enc_kv_response(r: KvResponseV) -> Seq<u8> {
    match r {
        KvResponseV::Okay => enc_tag(0),
        KvResponseV::BeginTx { tx_id } => enc_tag(1) + enc_u64(tx_id),
        KvResponseV::Get { key } => enc_tag(2) + enc_bytes(key),
        KvResponseV::Failed { error } => enc_tag(3) + enc_kv_error(error),
    }
}

pub open spec fn dec_kv_action(s: Seq<u8>) -> Option<(KvActionV, Seq<u8>)> {
    match dec_tag(s) {
        None => None,
        Some((t, s1)) => if t == 0 {
            Some((KvActionV::New, s1))
        } else if t == 1 {
            match dec_bytes(s1) {
                None => None,
                Some((key, s2)) => match dec_opt_u64(s2) {
                    None => None,
                    Some((tx_id, s3)) => Some((KvActionV::Put { key, tx_id }, s3)),
                },
            }
        } else if t == 2 {
            match dec_bytes(s1) {
                None => None,
                Some((key, s2)) => match dec_opt_u64(s2) {
                    None => None,
                    Some((tx_id, s3)) => Some((KvActionV::Delete { key, tx_id }, s3)),
                },
            }
        } else if t == 3 {
            match dec_bytes(s1) {
                None => None,
                Some((key, s2)) => Some((KvActionV::Get { key }, s2)),
            }
        } else if t == 4 {
            Some((KvActionV::BeginTx, s1))
        } else if t == 5 {
            match dec_u64(s1) {
                None => None,
                Some((tx_id, s2)) => Some((KvActionV::Commit { tx_id }, s2)),
            }
        } else if t == 6 {
            Some((KvActionV::Backup, s1))
        } else {
            None
        },
    }
}

pub open spec fn dec_kv_request(s: Seq<u8>) -> Option<(KvRequestV, Seq<u8>)> {
    match dec_str(s) {
        None => None,
        Some((package_name, s1)) => match dec_str(s1) {
            None => None,
            Some((publisher_node, s2)) => match dec_str(s2) {
                None => None,
                Some((db, s3)) => match dec_kv_action(s3) {
                    None => None,
                    Some((action, s4)) => Some(
                        (
                            KvRequestV {
                                package_id: PackageIdV { package_name, publisher_node },
                                db,
                                action,
                            },
                            s4,
                        ),
                    ),
                },
            },
        },
    }
}

pub open spec fn dec_kv_error(s: Seq<u8>) -> Option<(KvErrorV, Seq<u8>)> {
    match dec_tag(s) {
        None => None,
        Some((t, s1)) => if t == 0 {
            Some((KvErrorV::NoDb, s1))
        } else if t == 1 {
            Some((KvErrorV::DbAlreadyExists, s1))
        } else if t == 2 {
            Some((KvErrorV::KeyNotFound, s1))
        } else if t == 3 {
            Some((KvErrorV::NoTx, s1))
        } else if t == 4 {
            match dec_str(s1) {
                None => None,
                Some((error, s2)) => Some((KvErrorV::NoCap { error }, s2)),
            }
        } else if t == 5 {
            match dec_str(s1) {
                None => None,
                Some((action, s2)) => match dec_str(s2) {
                    None => None,
                    Some((error, s3)) => Some((KvErrorV::RocksDBError { action, error }, s3)),
                },
            }
        } else if t == 6 {
            match dec_str(s1) {
                None => None,
                Some((error, s2)) => Some((KvErrorV::InputError { error }, s2)),
            }
        } else if t == 7 {
            match dec_str(s1) {
                None => None,
                Some((error, s2)) => Some((KvErrorV::IOError { error }, s2)),
            }
        } else {
            None
        },
    }
}

pub open spec fn dec_kv_response(s: Seq<u8>) -> Option<(KvResponseV, Seq<u8>)> {
    match dec_tag(s) {
        None => None,
        Some((t, s1)) => if t == 0 {
            Some((KvResponseV::Okay, s1))
        } else if t == 1 {
            match dec_u64(s1) {
                None => None,
                Some((tx_id, s2)) => Some((KvResponseV::BeginTx { tx_id }, s2)),
            }
        } else if t == 2 {
            match dec_bytes(s1) {
                None => None,
                Some((key, s2)) => Some((KvResponseV::Get { key }, s2)),
            }
        } else if t == 3 {
            match dec_kv_error(s1) {
                None => None,
                Some((error, s2)) => Some((KvResponseV::Failed { error }, s2)),
            }
        } else {
            None
        },
    }
}

/// A whole envelope body as one request: every byte must be consumed.
pub open spec fn kv_request_of(s: Seq<u8>) -> Option<KvRequestV> {
    match dec_kv_request(s) {
        None => None,
        Some((r, rest)) => if rest.len() == 0 {
            Some(r)
        } else {
            None
        },
    }
}

/// A whole envelope body as one response: every byte must be consumed.
pub open spec fn kv_response_of(s: Seq<u8>) -> Option<KvResponseV> {
    match dec_kv_response(s) {
        None => None,
        Some((r, rest)) => if rest.len() == 0 {
            Some(r)
        } else {
            None
        },
    }
}

// ---------------------------------------------------------------------------
// Round trips.
// ---------------------------------------------------------------------------

pub proof fn lemma_kv_action_round(a: KvActionV, rest: Seq<u8>)
    requires
        wf_kv_action(a),
    ensures
        dec_kv_action(enc_kv_action(a) + rest) == Some((a, rest)),
{
    match a {
        KvActionV::New => {
            lemma_tag_round(0, rest);
        },
        KvActionV::Put { key, tx_id } => {
            assert(enc_kv_action(a) + rest =~= enc_tag(1) + (enc_bytes(key) + (enc_opt_u64(tx_id)
                + rest)));
            lemma_tag_round(1, enc_bytes(key) + (enc_opt_u64(tx_id) + rest));
            lemma_bytes_round(key, enc_opt_u64(tx_id) + rest);
            lemma_opt_u64_round(tx_id, rest);
        },
        KvActionV::Delete { key, tx_id } => {
            assert(enc_kv_action(a) + rest =~= enc_tag(2) + (enc_bytes(key) + (enc_opt_u64(tx_id)
                + rest)));
            lemma_tag_round(2, enc_bytes(key) + (enc_opt_u64(tx_id) + rest));
            lemma_bytes_round(key, enc_opt_u64(tx_id) + rest);
            lemma_opt_u64_round(tx_id, rest);
        },
        KvActionV::Get { key } => {
            assert(enc_kv_action(a) + rest =~= enc_tag(3) + (enc_bytes(key) + rest));
            lemma_tag_round(3, enc_bytes(key) + rest);
            lemma_bytes_round(key, rest);
        },
        KvActionV::BeginTx => {
            lemma_tag_round(4, rest);
        },
        KvActionV::Commit { tx_id } => {
            assert(enc_kv_action(a) + rest =~= enc_tag(5) + (enc_u64(tx_id) + rest));
            lemma_tag_round(5, enc_u64(tx_id) + rest);
            lemma_u64_round(tx_id, rest);
        },
        KvActionV::Backup => {
            lemma_tag_round(6, rest);
        },
    }
}

pub proof fn lemma_kv_request_round(r: KvRequestV, rest: Seq<u8>)
    requires
        wf_kv_request(r),
    ensures
        dec_kv_request(enc_kv_request(r) + rest) == Some((r, rest)),
{
    let e1 = enc_str(r.package_id.package_name);
    let e2 = enc_str(r.package_id.publisher_node);
    let e3 = enc_str(r.db);
    let e4 = enc_kv_action(r.action);
    assert(enc_kv_request(r) + rest =~= e1 + (e2 + (e3 + (e4 + rest))));
    lemma_str_round(r.package_id.package_name, e2 + (e3 + (e4 + rest)));
    lemma_str_round(r.package_id.publisher_node, e3 + (e4 + rest));
    lemma_str_round(r.db, e4 + rest);
    lemma_kv_action_round(r.action, rest);
}

pub proof fn lemma_kv_error_round(e: KvErrorV, rest: Seq<u8>)
    requires
        wf_kv_error(e),
    ensures
        dec_kv_error(enc_kv_error(e) + rest) == Some((e, rest)),
{
    match e {
        KvErrorV::NoDb => {
            lemma_tag_round(0, rest);
        },
        KvErrorV::DbAlreadyExists => {
            lemma_tag_round(1, rest);
        },
        KvErrorV::KeyNotFound => {
            lemma_tag_round(2, rest);
        },
        KvErrorV::NoTx => {
            lemma_tag_round(3, rest);
        },
        KvErrorV::NoCap { error } => {
            assert(enc_kv_error(e) + rest =~= enc_tag(4) + (enc_str(error) + rest));
            lemma_tag_round(4, enc_str(error) + rest);
            lemma_str_round(error, rest);
        },
        KvErrorV::RocksDBError { action, error } => {
            assert(enc_kv_error(e) + rest =~= enc_tag(5) + (enc_str(action) + (enc_str(error)
                + rest)));
            lemma_tag_round(5, enc_str(action) + (enc_str(error) + rest));
            lemma_str_round(action, enc_str(error) + rest);
            lemma_str_round(error, rest);
        },
        KvErrorV::InputError { error } => {
            assert(enc_kv_error(e) + rest =~= enc_tag(6) + (enc_str(error) + rest));
            lemma_tag_round(6, enc_str(error) + rest);
            lemma_str_round(error, rest);
        },
        KvErrorV::IOError { error } => {
            assert(enc_kv_error(e) + rest =~= enc_tag(7) + (enc_str(error) + rest));
            lemma_tag_round(7, enc_str(error) + rest);
            lemma_str_round(error, rest);
        },
    }
}

pub proof fn lemma_kv_response_round(r: KvResponseV, rest: Seq<u8>)
    requires
        wf_kv_response(r),
    ensures
        dec_kv_response(enc_kv_response(r) + rest) == Some((r, rest)),
{
    match r {
        KvResponseV::Okay => {
            lemma_tag_round(0, rest);
        },
        KvResponseV::BeginTx { tx_id } => {
            assert(enc_kv_response(r) + rest =~= enc_tag(1) + (enc_u64(tx_id) + rest));
            lemma_tag_round(1, enc_u64(tx_id) + rest);
            lemma_u64_round(tx_id, rest);
        },
        KvResponseV::Get { key } => {
            assert(enc_kv_response(r) + rest =~= enc_tag(2) + (enc_bytes(key) + rest));
            lemma_tag_round(2, enc_bytes(key) + rest);
            lemma_bytes_round(key, rest);
        },
        KvResponseV::Failed { error } => {
            assert(enc_kv_response(r) + rest =~= enc_tag(3) + (enc_kv_error(error) + rest));
            lemma_tag_round(3, enc_kv_error(error) + rest);
            lemma_kv_error_round(error, rest);
        },
    }
}

/// Round-trip fidelity of the envelope codec: decoding an encoded request
/// yields the request, for every well-formed request, with or without a blob
/// alongside (the blob never enters the envelope body).
pub proof fn lemma_kv_codec_round_trip(r: KvRequestV)
    requires
        wf_kv_request(r),
    ensures
        kv_request_of(enc_kv_request(r)) == Some(r),
{
    lemma_kv_request_round(r, Seq::empty());
    assert(enc_kv_request(r) + Seq::<u8>::empty() =~= enc_kv_request(r));
}

/// Round-trip fidelity for responses: the codec is symmetric.
pub proof fn lemma_kv_response_round_trip(r: KvResponseV)
    requires
        wf_kv_response(r),
    ensures
        kv_response_of(enc_kv_response(r)) == Some(r),
{
    lemma_kv_response_round(r, Seq::empty());
    assert(enc_kv_response(r) + Seq::<u8>::empty() =~= enc_kv_response(r));
}

// ---------------------------------------------------------------------------
// Envelope codec: executable.
// ---------------------------------------------------------------------------

fn w_kv_action(buf: &mut Vec<u8>, a: &KvAction)
    ensures
        final(buf)@ == old(buf)@ + enc_kv_action(a@),
        wf_kv_action(a@),
{
    match a {
        KvAction::New => {
            w_tag(buf, 0);
        },
        KvAction::Put { key, tx_id } => {
            w_tag(buf, 1);
            w_bytes(buf, key.as_slice());
            w_opt_u64(buf, tx_id);
            assert(buf@ =~= old(buf)@ + enc_kv_action(a@));
        },
        KvAction::Delete { key, tx_id } => {
            w_tag(buf, 2);
            w_bytes(buf, key.as_slice());
            w_opt_u64(buf, tx_id);
            assert(buf@ =~= old(buf)@ + enc_kv_action(a@));
        },
        KvAction::Get { key } => {
            w_tag(buf, 3);
            w_bytes(buf, key.as_slice());
            assert(buf@ =~= old(buf)@ + enc_kv_action(a@));
        },
        KvAction::BeginTx => {
            w_tag(buf, 4);
        },
        KvAction::Commit { tx_id } => {
            w_tag(buf, 5);
            w_u64(buf, *tx_id);
            assert(buf@ =~= old(buf)@ + enc_kv_action(a@));
        },
        KvAction::Backup => {
            w_tag(buf, 6);
        },
    }
}

/// Serializes a request into its envelope body.
pub fn encode_kv_request(r: &KvRequest) -> (out: Vec<u8>)
    ensures
        out@ == enc_kv_request(r@),
        wf_kv_request(r@),
{
    let mut buf: Vec<u8> = Vec::new();
    w_str(&mut buf, r.package_id.package_name.as_str());
    w_str(&mut buf, r.package_id.publisher_node.as_str());
    w_str(&mut buf, r.db.as_str());
    w_kv_action(&mut buf, &r.action);
    assert(buf@ =~= enc_kv_request(r@));
    buf
}

/// Serializes a response into its envelope body.
pub fn encode_kv_response(r: &KvResponse) -> (out: Vec<u8>)
    ensures
        out@ == enc_kv_response(r@),
        wf_kv_response(r@),
{
    let mut buf: Vec<u8> = Vec::new();
    match r {
        KvResponse::Okay => {
            w_tag(&mut buf, 0);
        },
        KvResponse::BeginTx { tx_id } => {
            w_tag(&mut buf, 1);
            w_u64(&mut buf, *tx_id);
        },
        KvResponse::Get { key } => {
            w_tag(&mut buf, 2);
            w_bytes(&mut buf, key.as_slice());
        },
        KvResponse::Failed { error } => {
            w_tag(&mut buf, 3);
            w_kv_error(&mut buf, error);
        },
    }
    assert(buf@ =~= enc_kv_response(r@));
    buf
}

fn w_kv_error(buf: &mut Vec<u8>, e: &KvError)
    ensures
        final(buf)@ == old(buf)@ + enc_kv_error(e@),
        wf_kv_error(e@),
{
    match e {
        KvError::NoDb => {
            w_tag(buf, 0);
        },
        KvError::DbAlreadyExists => {
            w_tag(buf, 1);
        },
        KvError::KeyNotFound => {
            w_tag(buf, 2);
        },
        KvError::NoTx => {
            w_tag(buf, 3);
        },
        KvError::NoCap { error } => {
            w_tag(buf, 4);
            w_str(buf, error.as_str());
            assert(buf@ =~= old(buf)@ + enc_kv_error(e@));
        },
        KvError::RocksDBError { action, error } => {
            w_tag(buf, 5);
            w_str(buf, action.as_str());
            w_str(buf, error.as_str());
            assert(buf@ =~= old(buf)@ + enc_kv_error(e@));
        },
        KvError::InputError { error } => {
            w_tag(buf, 6);
            w_str(buf, error.as_str());
            assert(buf@ =~= old(buf)@ + enc_kv_error(e@));
        },
        KvError::IOError { error } => {
            w_tag(buf, 7);
            w_str(buf, error.as_str());
            assert(buf@ =~= old(buf)@ + enc_kv_error(e@));
        },
    }
}

fn r_kv_action<'a>(s: &'a [u8]) -> (r: Option<(KvAction, &'a [u8])>)
    ensures
        match dec_kv_action(s@) {
            None => r is None,
            Some((a, rest)) => r matches Some(p) && p.0@ == a && p.1@ == rest,
        },
{
    match r_tag(s) {
        None => None,
        Some((t, s1)) => {
            if t == 0 {
                Some((KvAction::New, s1))
            } else if t == 1 {
                match r_bytes(s1) {
                    None => None,
                    Some((key, s2)) => match r_opt_u64(s2) {
                        None => None,
                        Some((tx_id, s3)) => Some((KvAction::Put { key, tx_id }, s3)),
                    },
                }
            } else if t == 2 {
                match r_bytes(s1) {
                    None => None,
                    Some((key, s2)) => match r_opt_u64(s2) {
                        None => None,
                        Some((tx_id, s3)) => Some((KvAction::Delete { key, tx_id }, s3)),
                    },
                }
            } else if t == 3 {
                match r_bytes(s1) {
                    None => None,
                    Some((key, s2)) => Some((KvAction::Get { key }, s2)),
                }
            } else if t == 4 {
                Some((KvAction::BeginTx, s1))
            } else if t == 5 {
                match r_u64(s1) {
                    None => None,
                    Some((tx_id, s2)) => Some((KvAction::Commit { tx_id }, s2)),
                }
            } else if t == 6 {
                Some((KvAction::Backup, s1))
            } else {
                None
            }
        },
    }
}

/// Parses an envelope body as a request. `None` on any structural fault or
/// trailing bytes.
pub fn decode_kv_request(s: &[u8]) -> (r: Option<KvRequest>)
    ensures
        match kv_request_of(s@) {
            None => r is None,
            Some(rv) => r matches Some(req) && req@ == rv,
        },
{
    match r_str(s) {
        None => None,
        Some((package_name, s1)) => match r_str(s1) {
            None => None,
            Some((publisher_node, s2)) => match r_str(s2) {
                None => None,
                Some((db, s3)) => match r_kv_action(s3) {
                    None => None,
                    Some((action, s4)) => {
                        if s4.len() == 0 {
                            Some(
                                KvRequest {
                                    package_id: PackageId { package_name, publisher_node },
                                    db,
                                    action,
                                },
                            )
                        } else {
                            None
                        }
                    },
                },
            },
        },
    }
}

fn r_kv_error<'a>(s: &'a [u8]) -> (r: Option<(KvError, &'a [u8])>)
    ensures
        match dec_kv_error(s@) {
            None => r is None,
            Some((e, rest)) => r matches Some(p) && p.0@ == e && p.1@ == rest,
        },
{
    match r_tag(s) {
        None => None,
        Some((t, s1)) => {
            if t == 0 {
                Some((KvError::NoDb, s1))
            } else if t == 1 {
                Some((KvError::DbAlreadyExists, s1))
            } else if t == 2 {
                Some((KvError::KeyNotFound, s1))
            } else if t == 3 {
                Some((KvError::NoTx, s1))
            } else if t == 4 {
                match r_str(s1) {
                    None => None,
                    Some((error, s2)) => Some((KvError::NoCap { error }, s2)),
                }
            } else if t == 5 {
                match r_str(s1) {
                    None => None,
                    Some((action, s2)) => match r_str(s2) {
                        None => None,
                        Some((error, s3)) => Some((KvError::RocksDBError { action, error }, s3)),
                    },
                }
            } else if t == 6 {
                match r_str(s1) {
                    None => None,
                    Some((error, s2)) => Some((KvError::InputError { error }, s2)),
                }
            } else if t == 7 {
                match r_str(s1) {
                    None => None,
                    Some((error, s2)) => Some((KvError::IOError { error }, s2)),
                }
            } else {
                None
            }
        },
    }
}

/// Parses an envelope body as a response. `None` on any structural fault or
/// trailing bytes.
pub fn decode_kv_response(s: &[u8]) -> (r: Option<KvResponse>)
    ensures
        match kv_response_of(s@) {
            None => r is None,
            Some(rv) => r matches Some(resp) && resp@ == rv,
        },
{
    match r_tag(s) {
        None => None,
        Some((t, s1)) => {
            let body: Option<(KvResponse, &[u8])> = if t == 0 {
                Some((KvResponse::Okay, s1))
            } else if t == 1 {
                match r_u64(s1) {
                    None => None,
                    Some((tx_id, s2)) => Some((KvResponse::BeginTx { tx_id }, s2)),
                }
            } else if t == 2 {
                match r_bytes(s1) {
                    None => None,
                    Some((key, s2)) => Some((KvResponse::Get { key }, s2)),
                }
            } else if t == 3 {
                match r_kv_error(s1) {
                    None => None,
                    Some((error, s2)) => Some((KvResponse::Failed { error }, s2)),
                }
            } else {
                None
            };
            match body {
                None => None,
                Some((resp, rest)) => {
                    if rest.len() == 0 {
                        Some(resp)
                    } else {
                        None
                    }
                },
            }
        },
    }
}

// ---------------------------------------------------------------------------
// Call builders: one per store operation.
// ---------------------------------------------------------------------------

/// The prepared call for an operation on `db`, with the given action and blob.
pub open spec fn kv_call(r: KvRequestV, blob: Option<Seq<u8>>) -> PreparedCallV {
    PreparedCallV {
        target: kv_address(),
        body: enc_kv_request(r),
        blob,
        timeout_secs: CALL_TIMEOUT_SECS,
    }
}

fn build(package_id: PackageId, db: String, action: KvAction, blob: Option<Vec<u8>>) -> (r:
    PreparedCall)
    ensures
        r@ == (kv_call(
            KvRequestV { package_id: package_id@, db: db@, action: action@ },
            match blob {
                Some(b) => Some(b@),
                None => None,
            },
        )),
{
    let req = KvRequest { package_id, db, action };
    let body = encode_kv_request(&req);
    PreparedCall { target: kv_target(), body, blob, timeout_secs: CALL_TIMEOUT_SECS }
}

/// Create the database: a `New` action, no payload.
pub fn new(package_id: PackageId, db: String) -> (r: PreparedCall)
    ensures
        r@ == (kv_call(
            KvRequestV { package_id: package_id@, db: db@, action: KvActionV::New },
            None,
        )),
{
    build(package_id, db, KvAction::New, None)
}

/// Fetch the value under `key`. The value comes back on the blob channel.
pub fn get(package_id: PackageId, db: String, key: Vec<u8>) -> (r: PreparedCall)
    ensures
        r@ == (kv_call(
            KvRequestV { package_id: package_id@, db: db@, action: KvActionV::Get { key: key@ } },
            None,
        )),
{
    build(package_id, db, KvAction::Get { key }, None)
}

/// Store `value` under `key`; the value travels as the blob. With `tx_id`
/// the write joins that open transaction, without it the write applies
/// immediately.
pub fn set(package_id: PackageId, db: String, key: Vec<u8>, value: Vec<u8>, tx_id: Option<u64>)
    -> (r: PreparedCall)
    ensures
        r@ == (kv_call(
            KvRequestV {
                package_id: package_id@,
                db: db@,
                action: KvActionV::Put { key: key@, tx_id },
            },
            Some(value@),
        )),
{
    build(package_id, db, KvAction::Put { key, tx_id }, Some(value))
}

/// Remove the value under `key`, immediately or inside the transaction.
pub fn delete(package_id: PackageId, db: String, key: Vec<u8>, tx_id: Option<u64>) -> (r:
    PreparedCall)
    ensures
        r@ == (kv_call(
            KvRequestV {
                package_id: package_id@,
                db: db@,
                action: KvActionV::Delete { key: key@, tx_id },
            },
            None,
        )),
{
    build(package_id, db, KvAction::Delete { key, tx_id }, None)
}

/// Open a transaction; the service answers with a fresh transaction id.
pub fn begin_tx(package_id: PackageId, db: String) -> (r: PreparedCall)
    ensures
        r@ == (kv_call(
            KvRequestV { package_id: package_id@, db: db@, action: KvActionV::BeginTx },
            None,
        )),
{
    build(package_id, db, KvAction::BeginTx, None)
}

/// Commit the transaction `tx_id`; the id is invalid afterwards.
pub fn commit_tx(package_id: PackageId, db: String, tx_id: u64) -> (r: PreparedCall)
    ensures
        r@ == (kv_call(
            KvRequestV { package_id: package_id@, db: db@, action: KvActionV::Commit { tx_id } },
            None,
        )),
{
    build(package_id, db, KvAction::Commit { tx_id }, None)
}

// ---------------------------------------------------------------------------
// Resolvers: from raw outcome to the typed result each operation is owed.
// ---------------------------------------------------------------------------

/// Resolution for the acknowledged operations (`New`, `Put`, `Delete`,
/// `Commit`): only `Ok` or `Err` is accepted; any other variant, however
/// well-formed, is a protocol violation.
pub open spec fn spec_resolve_kv_ok(o: CallOutcomeV) -> Result<(), CallErrorV<KvErrorV>> {
    match spec_transport(o) {
        Err(t) => Err(CallErrorV::Transport(t)),
        Ok((body, _blob)) => match kv_response_of(body) {
            None => Err(CallErrorV::Protocol(ProtocolError::MalformedResponse)),
            Some(resp) => match resp {
                KvResponseV::Okay => Ok(()),
                KvResponseV::Failed { error } => Err(CallErrorV::Service(error)),
                _ => Err(CallErrorV::Protocol(ProtocolError::UnexpectedVariant)),
            },
        },
    }
}

/// Resolution for `Get`: a `Get` response must carry a blob, and that blob is
/// the value; a signalled-but-missing blob is a protocol violation, never an
/// empty result.
pub open spec fn spec_resolve_kv_get(o: CallOutcomeV) -> Result<Seq<u8>, CallErrorV<KvErrorV>> {
    match spec_transport(o) {
        Err(t) => Err(CallErrorV::Transport(t)),
        Ok((body, blob)) => match kv_response_of(body) {
            None => Err(CallErrorV::Protocol(ProtocolError::MalformedResponse)),
            Some(resp) => match resp {
                KvResponseV::Get { key: _ } => match blob {
                    Some(b) => Ok(b),
                    None => Err(CallErrorV::Protocol(ProtocolError::MissingBlob)),
                },
                KvResponseV::Failed { error } => Err(CallErrorV::Service(error)),
                _ => Err(CallErrorV::Protocol(ProtocolError::UnexpectedVariant)),
            },
        },
    }
}

/// Resolution for `BeginTx`: only a `BeginTx` response or an error.
pub open spec fn spec_resolve_kv_begin_tx(o: CallOutcomeV) -> Result<u64, CallErrorV<KvErrorV>> {
    match spec_transport(o) {
        Err(t) => Err(CallErrorV::Transport(t)),
        Ok((body, _blob)) => match kv_response_of(body) {
            None => Err(CallErrorV::Protocol(ProtocolError::MalformedResponse)),
            Some(resp) => match resp {
                KvResponseV::BeginTx { tx_id } => Ok(tx_id),
                KvResponseV::Failed { error } => Err(CallErrorV::Service(error)),
                _ => Err(CallErrorV::Protocol(ProtocolError::UnexpectedVariant)),
            },
        },
    }
}

/// Resolves the outcome of `new`, `set`, `delete` or `commit_tx`.
pub fn resolve_ok(o: CallOutcome) -> (r: Result<(), CallError<KvError>>)
    ensures
        match spec_resolve_kv_ok(o@) {
            Ok(_) => r is Ok,
            Err(e) => r matches Err(x) && x@ == e,
        },
{
    match transport_result(o) {
        Err(t) => Err(CallError::Transport(t)),
        Ok((body, _blob)) => match decode_kv_response(body.as_slice()) {
            None => Err(CallError::Protocol(ProtocolError::MalformedResponse)),
            Some(resp) => match resp {
                KvResponse::Okay => Ok(()),
                KvResponse::Failed { error } => Err(CallError::Service(error)),
                _ => Err(CallError::Protocol(ProtocolError::UnexpectedVariant)),
            },
        },
    }
}

/// Resolves the outcome of `get` into the fetched value.
pub fn resolve_get(o: CallOutcome) -> (r: Result<Vec<u8>, CallError<KvError>>)
    ensures
        match spec_resolve_kv_get(o@) {
            Ok(b) => r matches Ok(v) && v@ == b,
            Err(e) => r matches Err(x) && x@ == e,
        },
{
    match transport_result(o) {
        Err(t) => Err(CallError::Transport(t)),
        Ok((body, blob)) => match decode_kv_response(body.as_slice()) {
            None => Err(CallError::Protocol(ProtocolError::MalformedResponse)),
            Some(resp) => match resp {
                KvResponse::Get { key: _ } => match blob {
                    Some(b) => Ok(b),
                    None => Err(CallError::Protocol(ProtocolError::MissingBlob)),
                },
                KvResponse::Failed { error } => Err(CallError::Service(error)),
                _ => Err(CallError::Protocol(ProtocolError::UnexpectedVariant)),
            },
        },
    }
}

/// Resolves the outcome of `begin_tx` into the fresh transaction id.
pub fn resolve_begin_tx(o: CallOutcome) -> (r: Result<u64, CallError<KvError>>)
    ensures
        match spec_resolve_kv_begin_tx(o@) {
            Ok(t) => r matches Ok(v) && v == t,
            Err(e) => r matches Err(x) && x@ == e,
        },
{
    match transport_result(o) {
        Err(t) => Err(CallError::Transport(t)),
        Ok((body, _blob)) => match decode_kv_response(body.as_slice()) {
            None => Err(CallError::Protocol(ProtocolError::MalformedResponse)),
            Some(resp) => match resp {
                KvResponse::BeginTx { tx_id } => Ok(tx_id),
                KvResponse::Failed { error } => Err(CallError::Service(error)),
                _ => Err(CallError::Protocol(ProtocolError::UnexpectedVariant)),
            },
        },
    }
}

// ---------------------------------------------------------------------------
// Laws of resolution.
// ---------------------------------------------------------------------------

/// A response whose variant is not the one the call site expects resolves to
/// a protocol error — never to a default or empty success — whichever store
/// operation originated the call.
pub proof fn lemma_kv_unexpected_variant_is_protocol_error(
    resp: KvResponseV,
    blob: Option<Seq<u8>>,
)
    requires
        wf_kv_response(resp),
    ensures
        !(resp is Okay) && !(resp is Failed) ==> spec_resolve_kv_ok(
            CallOutcomeV::Response { body: enc_kv_response(resp), blob },
        ) == Err::<(), CallErrorV<KvErrorV>>(
            CallErrorV::Protocol(ProtocolError::UnexpectedVariant),
        ),
        !(resp is Get) && !(resp is Failed) ==> spec_resolve_kv_get(
            CallOutcomeV::Response { body: enc_kv_response(resp), blob },
        ) == Err::<Seq<u8>, CallErrorV<KvErrorV>>(
            CallErrorV::Protocol(ProtocolError::UnexpectedVariant),
        ),
        !(resp is BeginTx) && !(resp is Failed) ==> spec_resolve_kv_begin_tx(
            CallOutcomeV::Response { body: enc_kv_response(resp), blob },
        ) == Err::<u64, CallErrorV<KvErrorV>>(
            CallErrorV::Protocol(ProtocolError::UnexpectedVariant),
        ),
{
    lemma_kv_response_round_trip(resp);
}

/// A call that times out resolves to the timeout transport error — never a
/// business error — whichever store operation originated it. A timed-out
/// outcome carries no blob, so nothing is left for a later call to consume.
pub proof fn lemma_kv_timeout_is_transport_error()
    ensures
        spec_resolve_kv_ok(CallOutcomeV::Timeout) == Err::<(), CallErrorV<KvErrorV>>(
            CallErrorV::Transport(TransportErrorV::Timeout),
        ),
        spec_resolve_kv_get(CallOutcomeV::Timeout) == Err::<Seq<u8>, CallErrorV<KvErrorV>>(
            CallErrorV::Transport(TransportErrorV::Timeout),
        ),
        spec_resolve_kv_begin_tx(CallOutcomeV::Timeout) == Err::<u64, CallErrorV<KvErrorV>>(
            CallErrorV::Transport(TransportErrorV::Timeout),
        ),
{
}

/// A capability rejection resolves to the `NoCap` business error with the
/// rejected scope's reason intact, whichever store operation originated the
/// call.
pub proof fn lemma_kv_nocap_passes_through(reason: Seq<char>, blob: Option<Seq<u8>>)
    requires
        wf_str(reason),
    ensures
        spec_resolve_kv_ok(
            CallOutcomeV::Response {
                body: enc_kv_response(
                    KvResponseV::Failed { error: KvErrorV::NoCap { error: reason } },
                ),
                blob,
            },
        ) == Err::<(), CallErrorV<KvErrorV>>(
            CallErrorV::Service(KvErrorV::NoCap { error: reason }),
        ),
        spec_resolve_kv_get(
            CallOutcomeV::Response {
                body: enc_kv_response(
                    KvResponseV::Failed { error: KvErrorV::NoCap { error: reason } },
                ),
                blob,
            },
        ) == Err::<Seq<u8>, CallErrorV<KvErrorV>>(
            CallErrorV::Service(KvErrorV::NoCap { error: reason }),
        ),
        spec_resolve_kv_begin_tx(
            CallOutcomeV::Response {
                body: enc_kv_response(
                    KvResponseV::Failed { error: KvErrorV::NoCap { error: reason } },
                ),
                blob,
            },
        ) == Err::<u64, CallErrorV<KvErrorV>>(
            CallErrorV::Service(KvErrorV::NoCap { error: reason }),
        ),
{
    lemma_kv_response_round_trip(
        KvResponseV::Failed { error: KvErrorV::NoCap { error: reason } },
    );
}

} // verus!

//! Client of the graph database service.
//!
//! Actions address one named database of one tenant; capabilities are checked
//! by the service, so a caller may reach another package's database exactly
//! when that package granted it the capability. Query parameters are pairs of
//! a name and a scalar value; the parameter list also travels on the blob
//! channel, and the record set a `Read` returns comes back on it.

use crate::addr::{graphdb_address, graphdb_target, PackageId, PackageIdV};
use crate::gateway::{spec_transport, transport_result, CallError, CallErrorV, CallOutcome,
    CallOutcomeV, PreparedCall, PreparedCallV, ProtocolError, TransportErrorV, CALL_TIMEOUT_SECS};
use crate::wire::{dec_items, dec_list, dec_str, dec_tag, dec_u64, enc_items, enc_list, enc_str,
    enc_tag, enc_u64, fits_u64, lemma_enc_items_push, lemma_list_round, lemma_str_round,
    lemma_tag_round, lemma_u64_round, r_str, r_tag, r_u64, w_str, w_tag, w_u64, wf_str};
use vstd::prelude::*;

verus! {

// ---------------------------------------------------------------------------
// Data model.
// ---------------------------------------------------------------------------

/// The request envelope: who calls, which database, and the action.
#[derive(Debug, PartialEq, Eq)]
pub struct GraphDbRequest {
    pub package_id: PackageId,
    pub db: String,
    pub action: GraphDbAction,
}

/// The kind of resource a `Define` action creates.
#[derive(Debug, PartialEq, Eq)]
pub enum DefineResourceType {
    Namespace { name: String },
    Database { name: String },
    Table { name: String },
}

/// A scalar bound to a parameter name in a statement.
#[derive(Debug, PartialEq, Eq)]
pub enum ParamValue {
    Null,
    Flag(bool),
    Int(i64),
    Text(String),
}

/// Named parameters of a statement.
pub type GraphDbRequestParams = Vec<(String, ParamValue)>;

/// One graph database operation.
#[derive(Debug, PartialEq, Eq)]
pub enum GraphDbAction {
    Open,
    RemoveDb,
    Define { resource: DefineResourceType },
    Statement { statement: String, params: Option<GraphDbRequestParams> },
    Read { statement: String },
    Backup,
}

/// The response envelope of the graph database service. `Data` announces a
/// record set on the blob channel.
#[derive(Debug, PartialEq, Eq)]
pub enum GraphDbResponse {
    Okay,
    Data,
    Failed { error: GraphDbError },
}

/// Business errors the graph database service reports.
#[derive(Debug, PartialEq, Eq)]
pub enum GraphDbError {
    NoDb,
    KeyNotFound,
    NoTx,
    NoCap { error: String },
    SurrealDBError { action: String, error: String },
    InputError { error: String },
    IOError { error: String },
}

/// One record of a `Read` result: field names with their scalar values.
#[derive(Debug, PartialEq, Eq)]
pub struct Row {
    pub cells: Vec<(String, ParamValue)>,
}

pub struct GraphDbRequestV {
    pub package_id: PackageIdV,
    pub db: Seq<char>,
    pub action: GraphDbActionV,
}

pub enum DefineResourceTypeV {
    Namespace { name: Seq<char> },
    Database { name: Seq<char> },
    Table { name: Seq<char> },
}

pub enum ParamValueV {
    Null,
    Flag(bool),
    Int(i64),
    Text(Seq<char>),
}

pub enum GraphDbActionV {
    Open,
    RemoveDb,
    Define { resource: DefineResourceTypeV },
    Statement { statement: Seq<char>, params: Option<Seq<(Seq<char>, ParamValueV)>> },
    Read { statement: Seq<char> },
    Backup,
}

pub enum GraphDbResponseV {
    Okay,
    Data,
    Failed { error: GraphDbErrorV },
}

pub enum GraphDbErrorV {
    NoDb,
    KeyNotFound,
    NoTx,
    NoCap { error: Seq<char> },
    SurrealDBError { action: Seq<char>, error: Seq<char> },
    InputError { error: Seq<char> },
    IOError { error: Seq<char> },
}

impl View for DefineResourceType {
    type V = DefineResourceTypeV;

    open spec fn view(&self) -> DefineResourceTypeV {
        match self {
            DefineResourceType::Namespace { name } => DefineResourceTypeV::Namespace {
                name: name@,
            },
            DefineResourceType::Database { name } => DefineResourceTypeV::Database { name: name@ },
            DefineResourceType::Table { name } => DefineResourceTypeV::Table { name: name@ },
        }
    }
}

impl View for ParamValue {
    type V = ParamValueV;

    open spec fn view(&self) -> ParamValueV {
        match self {
            ParamValue::Null => ParamValueV::Null,
            ParamValue::Flag(b) => ParamValueV::Flag(*b),
            ParamValue::Int(x) => ParamValueV::Int(*x),
            ParamValue::Text(s) => ParamValueV::Text(s@),
        }
    }
}

/// The contents of a parameter list, name by name, value by value.
pub open spec fn params_v(items: Seq<(String, ParamValue)>) -> Seq<(Seq<char>, ParamValueV)> {
    items.map_values(|c: (String, ParamValue)| (c.0@, c.1@))
}

impl View for Row {
    type V = Seq<(Seq<char>, ParamValueV)>;

    open spec fn view(&self) -> Seq<(Seq<char>, ParamValueV)> {
        params_v(self.cells@)
    }
}

/// The contents of a record set, row by row.
pub open spec fn rows_v(items: Seq<Row>) -> Seq<Seq<(Seq<char>, ParamValueV)>> {
    items.map_values(|r: Row| r@)
}

impl View for GraphDbAction {
    type V = GraphDbActionV;

    open spec fn view(&self) -> GraphDbActionV {
        match self {
            GraphDbAction::Open => GraphDbActionV::Open,
            GraphDbAction::RemoveDb => GraphDbActionV::RemoveDb,
            GraphDbAction::Define { resource } => GraphDbActionV::Define { resource: resource@ },
            GraphDbAction::Statement { statement, params } => GraphDbActionV::Statement {
                statement: statement@,
                params: match params {
                    Some(ps) => Some(params_v(ps@)),
                    None => None,
                },
            },
            GraphDbAction::Read { statement } => GraphDbActionV::Read { statement: statement@ },
            GraphDbAction::Backup => GraphDbActionV::Backup,
        }
    }
}

impl View for GraphDbRequest {
    type V = GraphDbRequestV;

    open spec fn view(&self) -> GraphDbRequestV {
        GraphDbRequestV { package_id: self.package_id@, db: self.db@, action: self.action@ }
    }
}

impl View for GraphDbResponse {
    type V = GraphDbResponseV;

    open spec fn view(&self) -> GraphDbResponseV {
        match self {
            GraphDbResponse::Okay => GraphDbResponseV::Okay,
            GraphDbResponse::Data => GraphDbResponseV::Data,
            GraphDbResponse::Failed { error } => GraphDbResponseV::Failed { error: error@ },
        }
    }
}

impl View for GraphDbError {
    type V = GraphDbErrorV;

    open spec fn view(&self) -> GraphDbErrorV {
        match self {
            GraphDbError::NoDb => GraphDbErrorV::NoDb,
            GraphDbError::KeyNotFound => GraphDbErrorV::KeyNotFound,
            GraphDbError::NoTx => GraphDbErrorV::NoTx,
            GraphDbError::NoCap { error } => GraphDbErrorV::NoCap { error: error@ },
            GraphDbError::SurrealDBError { action, error } => GraphDbErrorV::SurrealDBError {
                action: action@,
                error: error@,
            },
            GraphDbError::InputError { error } => GraphDbErrorV::InputError { error: error@ },
            GraphDbError::IOError { error } => GraphDbErrorV::IOError { error: error@ },
        }
    }
}

// ---------------------------------------------------------------------------
// Envelope codec: specification.
// ---------------------------------------------------------------------------

pub open spec fn wf_param(v: ParamValueV) -> bool {
    match v {
        ParamValueV::Text(s) => wf_str(s),
        _ => true,
    }
}

pub open spec fn wf_cell(c: (Seq<char>, ParamValueV)) -> bool {
    wf_str(c.0) && wf_param(c.1)
}

pub open spec fn wf_params(ps: Seq<(Seq<char>, ParamValueV)>) -> bool {
    &&& fits_u64(ps.len())
    &&& forall|i: int| 0 <= i < ps.len() ==> wf_cell(#[trigger] ps[i])
}

pub open spec fn wf_rows(rs: Seq<Seq<(Seq<char>, ParamValueV)>>) -> bool {
    &&& fits_u64(rs.len())
    &&& forall|i: int| 0 <= i < rs.len() ==> wf_params(#[trigger] rs[i])
}

pub open spec fn wf_resource(r: DefineResourceTypeV) -> bool {
    match r {
        DefineResourceTypeV::Namespace { name } => wf_str(name),
        DefineResourceTypeV::Database { name } => wf_str(name),
        DefineResourceTypeV::Table { name } => wf_str(name),
    }
}

pub open spec fn wf_graphdb_action(a: GraphDbActionV) -> bool {
    match a {
        GraphDbActionV::Define { resource } => wf_resource(resource),
        GraphDbActionV::Statement { statement, params } => wf_str(statement) && match params {
            Some(ps) => wf_params(ps),
            None => true,
        },
        GraphDbActionV::Read { statement } => wf_str(statement),
        _ => true,
    }
}

pub open spec fn wf_graphdb_request(r: GraphDbRequestV) -> bool {
    &&& wf_str(r.package_id.package_name)
    &&& wf_str(r.package_id.publisher_node)
    &&& wf_str(r.db)
    &&& wf_graphdb_action(r.action)
}

pub open spec fn wf_graphdb_error(e: GraphDbErrorV) -> bool {
    match e {
        GraphDbErrorV::NoCap { error } => wf_str(error),
        GraphDbErrorV::SurrealDBError { action, error } => wf_str(action) && wf_str(error),
        GraphDbErrorV::InputError { error } => wf_str(error),
        GraphDbErrorV::IOError { error } => wf_str(error),
        _ => true,
    }
}

pub open spec fn wf_graphdb_response(r: GraphDbResponseV) -> bool {
    match r {
        GraphDbResponseV::Failed { error } => wf_graphdb_error(error),
        _ => true,
    }
}

pub open spec fn enc_param(v: ParamValueV) -> Seq<u8> {
    match v {
        ParamValueV::Null => enc_tag(0),
        ParamValueV::Flag(b) => enc_tag(1) + enc_tag(
            if b {
                1
            } else {
                0
            },
        ),
        ParamValueV::Int(x) => enc_tag(2) + enc_u64(x as u64),
        ParamValueV::Text(s) => enc_tag(3) + enc_str(s),
    }
}

pub open spec fn dec_param(s: Seq<u8>) -> Option<(ParamValueV, Seq<u8>)> {
    match dec_tag(s) {
        None => None,
        Some((t, s1)) => if t == 0 {
            Some((ParamValueV::Null, s1))
        } else if t == 1 {
            match dec_tag(s1) {
                None => None,
                Some((b, s2)) => if b == 0 {
                    Some((ParamValueV::Flag(false), s2))
                } else if b == 1 {
                    Some((ParamValueV::Flag(true), s2))
                } else {
                    None
                },
            }
        } else if t == 2 {
            match dec_u64(s1) {
                None => None,
                Some((x, s2)) => Some((ParamValueV::Int(x as i64), s2)),
            }
        } else if t == 3 {
            match dec_str(s1) {
                None => None,
                Some((text, s2)) => Some((ParamValueV::Text(text), s2)),
            }
        } else {
            None
        },
    }
}

/// The cell encoder as a first-class function, so that every use names the
/// same function value.
pub open spec fn enc_cell_f() -> spec_fn((Seq<char>, ParamValueV)) -> Seq<u8> {
    |c: (Seq<char>, ParamValueV)| enc_str(c.0) + enc_param(c.1)
}

pub open spec fn dec_cell(s: Seq<u8>) -> Option<((Seq<char>, ParamValueV), Seq<u8>)> {
    match dec_str(s) {
        None => None,
        Some((name, s1)) => match dec_param(s1) {
            None => None,
            Some((v, s2)) => Some(((name, v), s2)),
        },
    }
}

pub open spec fn dec_cell_f() -> spec_fn(Seq<u8>) -> Option<((Seq<char>, ParamValueV), Seq<u8>)> {
    |s: Seq<u8>| dec_cell(s)
}

pub open spec fn enc_row_f() -> spec_fn(Seq<(Seq<char>, ParamValueV)>) -> Seq<u8> {
    |r: Seq<(Seq<char>, ParamValueV)>| enc_list(r, enc_cell_f())
}

pub open spec fn dec_row_f() -> spec_fn(Seq<u8>) -> Option<
    (Seq<(Seq<char>, ParamValueV)>, Seq<u8>),
> {
    |s: Seq<u8>| dec_list(s, dec_cell_f())
}

/// The blob payload that carries a parameter list.
pub open spec fn enc_params_payload(ps: Seq<(Seq<char>, ParamValueV)>) -> Seq<u8> {
    enc_list(ps, enc_cell_f())
}

/// The blob payload that carries a record set.
pub open spec fn enc_rows_payload(rs: Seq<Seq<(Seq<char>, ParamValueV)>>) -> Seq<u8> {
    enc_list(rs, enc_row_f())
}

/// A whole blob as one parameter list: every byte must be consumed.
pub open spec fn params_of(s: Seq<u8>) -> Option<Seq<(Seq<char>, ParamValueV)>> {
    match dec_list(s, dec_cell_f()) {
        None => None,
        Some((ps, rest)) => if rest.len() == 0 {
            Some(ps)
        } else {
            None
        },
    }
}

/// A whole blob as one record set: every byte must be consumed.
pub open spec fn rows_of(s: Seq<u8>) -> Option<Seq<Seq<(Seq<char>, ParamValueV)>>> {
    match dec_list(s, dec_row_f()) {
        None => None,
        Some((rs, rest)) => if rest.len() == 0 {
            Some(rs)
        } else {
            None
        },
    }
}

pub open spec fn enc_opt_params(params: Option<Seq<(Seq<char>, ParamValueV)>>) -> Seq<u8> {
    match params {
        None => enc_tag(0),
        Some(ps) => enc_tag(1) + enc_params_payload(ps),
    }
}

pub open spec fn dec_opt_params(s: Seq<u8>) -> Option<
    (Option<Seq<(Seq<char>, ParamValueV)>>, Seq<u8>),
> {
    match dec_tag(s) {
        None => None,
        Some((t, s1)) => if t == 0 {
            Some((None, s1))
        } else if t == 1 {
            match dec_list(s1, dec_cell_f()) {
                None => None,
                Some((ps, s2)) => Some((Some(ps), s2)),
            }
        } else {
            None
        },
    }
}

pub open spec fn enc_resource(r: DefineResourceTypeV) -> Seq<u8> {
    match r {
        DefineResourceTypeV::Namespace { name } => enc_tag(0) + enc_str(name),
        DefineResourceTypeV::Database { name } => enc_tag(1) + enc_str(name),
        DefineResourceTypeV::Table { name } => enc_tag(2) + enc_str(name),
    }
}

pub open spec fn dec_resource(s: Seq<u8>) -> Option<(DefineResourceTypeV, Seq<u8>)> {
    match dec_tag(s) {
        None => None,
        Some((t, s1)) => if t == 0 {
            match dec_str(s1) {
                None => None,
                Some((name, s2)) => Some((DefineResourceTypeV::Namespace { name }, s2)),
            }
        } else if t == 1 {
            match dec_str(s1) {
                None => None,
                Some((name, s2)) => Some((DefineResourceTypeV::Database { name }, s2)),
            }
        } else if t == 2 {
            match dec_str(s1) {
                None => None,
                Some((name, s2)) => Some((DefineResourceTypeV::Table { name }, s2)),
            }
        } else {
            None
        },
    }
}

pub open spec fn enc_graphdb_action(a: GraphDbActionV) -> Seq<u8> {
    match a {
        GraphDbActionV::Open => enc_tag(0),
        GraphDbActionV::RemoveDb => enc_tag(1),
        GraphDbActionV::Define { resource } => enc_tag(2) + enc_resource(resource),
        GraphDbActionV::Statement { statement, params } => enc_tag(3) + enc_str(statement)
            + enc_opt_params(params),
        GraphDbActionV::Read { statement } => enc_tag(4) + enc_str(statement),
        GraphDbActionV::Backup => enc_tag(5),
    }
}

pub open spec fn dec_graphdb_action(s: Seq<u8>) -> Option<(GraphDbActionV, Seq<u8>)> {
    match dec_tag(s) {
        None => None,
        Some((t, s1)) => if t == 0 {
            Some((GraphDbActionV::Open, s1))
        } else if t == 1 {
            Some((GraphDbActionV::RemoveDb, s1))
        } else if t == 2 {
            match dec_resource(s1) {
                None => None,
                Some((resource, s2)) => Some((GraphDbActionV::Define { resource }, s2)),
            }
        } else if t == 3 {
            match dec_str(s1) {
                None => None,
                Some((statement, s2)) => match dec_opt_params(s2) {
                    None => None,
                    Some((params, s3)) => Some((GraphDbActionV::Statement { statement, params }, s3)),
                },
            }
        } else if t == 4 {
            match dec_str(s1) {
                None => None,
                Some((statement, s2)) => Some((GraphDbActionV::Read { statement }, s2)),
            }
        } else {
            if t == 5 {
                Some((GraphDbActionV::Backup, s1))
            } else {
                None
            }
        },
    }
}

pub open spec fn enc_graphdb_request(r: GraphDbRequestV) -> Seq<u8> {
    enc_str(r.package_id.package_name) + enc_str(r.package_id.publisher_node) + enc_str(r.db)
        + enc_graphdb_action(r.action)
}

pub open spec fn dec_graphdb_request(s: Seq<u8>) -> Option<(GraphDbRequestV, Seq<u8>)> {
    match dec_str(s) {
        None => None,
        Some((package_name, s1)) => match dec_str(s1) {
            None => None,
            Some((publisher_node, s2)) => match dec_str(s2) {
                None => None,
                Some((db, s3)) => match dec_graphdb_action(s3) {
                    None => None,
                    Some((action, s4)) => Some(
                        (
                            GraphDbRequestV {
                                package_id: PackageIdV { package_name, publisher_node },
                                db,
                                action,
                            },
                            s4,
                        ),
                    ),
                },
            },
        },
    }
}

pub open spec fn enc_graphdb_error(e: GraphDbErrorV) -> Seq<u8> {
    match e {
        GraphDbErrorV::NoDb => enc_tag(0),
        GraphDbErrorV::KeyNotFound => enc_tag(1),
        GraphDbErrorV::NoTx => enc_tag(2),
        GraphDbErrorV::NoCap { error } => enc_tag(3) + enc_str(error),
        GraphDbErrorV::SurrealDBError { action, error } => enc_tag(4) + enc_str(action) + enc_str(
            error,
        ),
        GraphDbErrorV::InputError { error } => enc_tag(5) + enc_str(error),
        GraphDbErrorV::IOError { error } => enc_tag(6) + enc_str(error),
    }
}

pub open spec fn dec_graphdb_error(s: Seq<u8>) -> Option<(GraphDbErrorV, Seq<u8>)> {
    match dec_tag(s) {
        None => None,
        Some((t, s1)) => if t == 0 {
            Some((GraphDbErrorV::NoDb, s1))
        } else if t == 1 {
            Some((GraphDbErrorV::KeyNotFound, s1))
        } else if t == 2 {
            Some((GraphDbErrorV::NoTx, s1))
        } else if t == 3 {
            match dec_str(s1) {
                None => None,
                Some((error, s2)) => Some((GraphDbErrorV::NoCap { error }, s2)),
            }
        } else if t == 4 {
            match dec_str(s1) {
                None => None,
                Some((action, s2)) => match dec_str(s2) {
                    None => None,
                    Some((error, s3)) => Some((GraphDbErrorV::SurrealDBError { action, error }, s3)),
                },
            }
        } else if t == 5 {
            match dec_str(s1) {
                None => None,
                Some((error, s2)) => Some((GraphDbErrorV::InputError { error }, s2)),
            }
        } else if t == 6 {
            match dec_str(s1) {
                None => None,
                Some((error, s2)) => Some((GraphDbErrorV::IOError { error }, s2)),
            }
        } else {
            None
        },
    }
}

pub open spec fn enc_graphdb_response(r: GraphDbResponseV) -> Seq<u8> {
    match r {
        GraphDbResponseV::Okay => enc_tag(0),
        GraphDbResponseV::Data => enc_tag(1),
        GraphDbResponseV::Failed { error } => enc_tag(2) + enc_graphdb_error(error),
    }
}

pub open spec fn dec_graphdb_response(s: Seq<u8>) -> Option<(GraphDbResponseV, Seq<u8>)> {
    match dec_tag(s) {
        None => None,
        Some((t, s1)) => if t == 0 {
            Some((GraphDbResponseV::Okay, s1))
        } else if t == 1 {
            Some((GraphDbResponseV::Data, s1))
        } else if t == 2 {
            match dec_graphdb_error(s1) {
                None => None,
                Some((error, s2)) => Some((GraphDbResponseV::Failed { error }, s2)),
            }
        } else {
            None
        },
    }
}

/// A whole envelope body as one request: every byte must be consumed.
pub open spec fn graphdb_request_of(s: Seq<u8>) -> Option<GraphDbRequestV> {
    match dec_graphdb_request(s) {
        None => None,
        Some((r, rest)) => if rest.len() == 0 {
            Some(r)
        } else {
            None
        },
    }
}

/// A whole envelope body as one response: every byte must be consumed.
pub open spec fn graphdb_response_of(s: Seq<u8>) -> Option<GraphDbResponseV> {
    match dec_graphdb_response(s) {
        None => None,
        Some((r, rest)) => if rest.len() == 0 {
            Some(r)
        } else {
            None
        },
    }
}

// ---------------------------------------------------------------------------
// Round trips.
// ---------------------------------------------------------------------------

pub proof fn lemma_param_round(v: ParamValueV, rest: Seq<u8>)
    requires
        wf_param(v),
    ensures
        dec_param(enc_param(v) + rest) == Some((v, rest)),
{
    match v {
        ParamValueV::Null => {
            lemma_tag_round(0, rest);
        },
        ParamValueV::Flag(b) => {
            let bb: u8 = if b {
                1
            } else {
                0
            };
            assert(enc_param(v) + rest =~= enc_tag(1) + (enc_tag(bb) + rest));
            lemma_tag_round(1, enc_tag(bb) + rest);
            lemma_tag_round(bb, rest);
        },
        ParamValueV::Int(x) => {
            assert(enc_param(v) + rest =~= enc_tag(2) + (enc_u64(x as u64) + rest));
            lemma_tag_round(2, enc_u64(x as u64) + rest);
            lemma_u64_round(x as u64, rest);
            assert(((x as u64) as i64) == x) by (bit_vector);
        },
        ParamValueV::Text(s) => {
            assert(enc_param(v) + rest =~= enc_tag(3) + (enc_str(s) + rest));
            lemma_tag_round(3, enc_str(s) + rest);
            lemma_str_round(s, rest);
        },
    }
}

pub proof fn lemma_cell_round(c: (Seq<char>, ParamValueV), rest: Seq<u8>)
    requires
        wf_cell(c),
    ensures
        dec_cell_f()(enc_cell_f()(c) + rest) == Some((c, rest)),
{
    assert(enc_cell_f()(c) + rest =~= enc_str(c.0) + (enc_param(c.1) + rest));
    lemma_str_round(c.0, enc_param(c.1) + rest);
    lemma_param_round(c.1, rest);
}

pub proof fn lemma_params_round(ps: Seq<(Seq<char>, ParamValueV)>, rest: Seq<u8>)
    requires
        wf_params(ps),
    ensures
        dec_list(enc_params_payload(ps) + rest, dec_cell_f()) == Some((ps, rest)),
{
    assert forall|c: (Seq<char>, ParamValueV), r: Seq<u8>| ps.contains(c) implies #[trigger] dec_cell_f()(
        enc_cell_f()(c) + r,
    ) == Some((c, r)) by {
        lemma_cell_round(c, r);
    }
    lemma_list_round(ps, rest, enc_cell_f(), dec_cell_f());
}

pub proof fn lemma_rows_round(rs: Seq<Seq<(Seq<char>, ParamValueV)>>, rest: Seq<u8>)
    requires
        wf_rows(rs),
    ensures
        dec_list(enc_rows_payload(rs) + rest, dec_row_f()) == Some((rs, rest)),
{
    assert forall|row: Seq<(Seq<char>, ParamValueV)>, r: Seq<u8>| rs.contains(row)
        implies #[trigger] dec_row_f()(enc_row_f()(row) + r) == Some((row, r)) by {
        lemma_params_round(row, r);
    }
    lemma_list_round(rs, rest, enc_row_f(), dec_row_f());
}

/// Round-trip fidelity of the blob codec for parameter lists.
pub proof fn lemma_params_payload_round_trip(ps: Seq<(Seq<char>, ParamValueV)>)
    requires
        wf_params(ps),
    ensures
        params_of(enc_params_payload(ps)) == Some(ps),
{
    lemma_params_round(ps, Seq::empty());
    assert(enc_params_payload(ps) + Seq::<u8>::empty() =~= enc_params_payload(ps));
}

/// Round-trip fidelity of the blob codec for record sets.
pub proof fn lemma_rows_payload_round_trip(rs: Seq<Seq<(Seq<char>, ParamValueV)>>)
    requires
        wf_rows(rs),
    ensures
        rows_of(enc_rows_payload(rs)) == Some(rs),
{
    lemma_rows_round(rs, Seq::empty());
    assert(enc_rows_payload(rs) + Seq::<u8>::empty() =~= enc_rows_payload(rs));
}

pub proof fn lemma_resource_round(r: DefineResourceTypeV, rest: Seq<u8>)
    requires
        wf_resource(r),
    ensures
        dec_resource(enc_resource(r) + rest) == Some((r, rest)),
{
    match r {
        DefineResourceTypeV::Namespace { name } => {
            assert(enc_resource(r) + rest =~= enc_tag(0) + (enc_str(name) + rest));
            lemma_tag_round(0, enc_str(name) + rest);
            lemma_str_round(name, rest);
        },
        DefineResourceTypeV::Database { name } => {
            assert(enc_resource(r) + rest =~= enc_tag(1) + (enc_str(name) + rest));
            lemma_tag_round(1, enc_str(name) + rest);
            lemma_str_round(name, rest);
        },
        DefineResourceTypeV::Table { name } => {
            assert(enc_resource(r) + rest =~= enc_tag(2) + (enc_str(name) + rest));
            lemma_tag_round(2, enc_str(name) + rest);
            lemma_str_round(name, rest);
        },
    }
}

pub proof fn lemma_graphdb_action_round(a: GraphDbActionV, rest: Seq<u8>)
    requires
        wf_graphdb_action(a),
    ensures
        dec_graphdb_action(enc_graphdb_action(a) + rest) == Some((a, rest)),
{
    match a {
        GraphDbActionV::Open => {
            lemma_tag_round(0, rest);
        },
        GraphDbActionV::RemoveDb => {
            lemma_tag_round(1, rest);
        },
        GraphDbActionV::Define { resource } => {
            assert(enc_graphdb_action(a) + rest =~= enc_tag(2) + (enc_resource(resource) + rest));
            lemma_tag_round(2, enc_resource(resource) + rest);
            lemma_resource_round(resource, rest);
        },
        GraphDbActionV::Statement { statement, params } => {
            assert(enc_graphdb_action(a) + rest =~= enc_tag(3) + (enc_str(statement) + (
            enc_opt_params(params) + rest)));
            lemma_tag_round(3, enc_str(statement) + (enc_opt_params(params) + rest));
            lemma_str_round(statement, enc_opt_params(params) + rest);
            match params {
                None => {
                    lemma_tag_round(0, rest);
                },
                Some(ps) => {
                    assert(enc_opt_params(params) + rest =~= enc_tag(1) + (enc_params_payload(ps)
                        + rest));
                    lemma_tag_round(1, enc_params_payload(ps) + rest);
                    lemma_params_round(ps, rest);
                },
            }
        },
        GraphDbActionV::Read { statement } => {
            assert(enc_graphdb_action(a) + rest =~= enc_tag(4) + (enc_str(statement) + rest));
            lemma_tag_round(4, enc_str(statement) + rest);
            lemma_str_round(statement, rest);
        },
        GraphDbActionV::Backup => {
            lemma_tag_round(5, rest);
        },
    }
}

pub proof fn lemma_graphdb_request_round(r: GraphDbRequestV, rest: Seq<u8>)
    requires
        wf_graphdb_request(r),
    ensures
        dec_graphdb_request(enc_graphdb_request(r) + rest) == Some((r, rest)),
{
    let e1 = enc_str(r.package_id.package_name);
    let e2 = enc_str(r.package_id.publisher_node);
    let e3 = enc_str(r.db);
    let e4 = enc_graphdb_action(r.action);
    assert(enc_graphdb_request(r) + rest =~= e1 + (e2 + (e3 + (e4 + rest))));
    lemma_str_round(r.package_id.package_name, e2 + (e3 + (e4 + rest)));
    lemma_str_round(r.package_id.publisher_node, e3 + (e4 + rest));
    lemma_str_round(r.db, e4 + rest);
    lemma_graphdb_action_round(r.action, rest);
}

/// Round-trip fidelity of the envelope codec for graph database requests,
/// parameters included.
pub proof fn lemma_graphdb_codec_round_trip(r: GraphDbRequestV)
    requires
        wf_graphdb_request(r),
    ensures
        graphdb_request_of(enc_graphdb_request(r)) == Some(r),
{
    lemma_graphdb_request_round(r, Seq::empty());
    assert(enc_graphdb_request(r) + Seq::<u8>::empty() =~= enc_graphdb_request(r));
}

pub proof fn lemma_graphdb_error_round(e: GraphDbErrorV, rest: Seq<u8>)
    requires
        wf_graphdb_error(e),
    ensures
        dec_graphdb_error(enc_graphdb_error(e) + rest) == Some((e, rest)),
{
    match e {
        GraphDbErrorV::NoDb => {
            lemma_tag_round(0, rest);
        },
        GraphDbErrorV::KeyNotFound => {
            lemma_tag_round(1, rest);
        },
        GraphDbErrorV::NoTx => {
            lemma_tag_round(2, rest);
        },
        GraphDbErrorV::NoCap { error } => {
            assert(enc_graphdb_error(e) + rest =~= enc_tag(3) + (enc_str(error) + rest));
            lemma_tag_round(3, enc_str(error) + rest);
            lemma_str_round(error, rest);
        },
        GraphDbErrorV::SurrealDBError { action, error } => {
            assert(enc_graphdb_error(e) + rest =~= enc_tag(4) + (enc_str(action) + (enc_str(error)
                + rest)));
            lemma_tag_round(4, enc_str(action) + (enc_str(error) + rest));
            lemma_str_round(action, enc_str(error) + rest);
            lemma_str_round(error, rest);
        },
        GraphDbErrorV::InputError { error } => {
            assert(enc_graphdb_error(e) + rest =~= enc_tag(5) + (enc_str(error) + rest));
            lemma_tag_round(5, enc_str(error) + rest);
            lemma_str_round(error, rest);
        },
        GraphDbErrorV::IOError { error } => {
            assert(enc_graphdb_error(e) + rest =~= enc_tag(6) + (enc_str(error) + rest));
            lemma_tag_round(6, enc_str(error) + rest);
            lemma_str_round(error, rest);
        },
    }
}

/// Round-trip fidelity for graph database responses: the codec is symmetric.
pub proof fn lemma_graphdb_response_round_trip(r: GraphDbResponseV)
    requires
        wf_graphdb_response(r),
    ensures
        graphdb_response_of(enc_graphdb_response(r)) == Some(r),
{
    match r {
        GraphDbResponseV::Okay => {
            lemma_tag_round(0, Seq::empty());
            assert(enc_graphdb_response(r) + Seq::<u8>::empty() =~= enc_graphdb_response(r));
        },
        GraphDbResponseV::Data => {
            lemma_tag_round(1, Seq::empty());
            assert(enc_graphdb_response(r) + Seq::<u8>::empty() =~= enc_graphdb_response(r));
        },
        GraphDbResponseV::Failed { error } => {
            assert(enc_graphdb_response(r) =~= enc_tag(2) + (enc_graphdb_error(error)
                + Seq::<u8>::empty()));
            lemma_tag_round(2, enc_graphdb_error(error) + Seq::empty());
            lemma_graphdb_error_round(error, Seq::empty());
        },
    }
}

// ---------------------------------------------------------------------------
// Envelope codec: executable.
// ---------------------------------------------------------------------------

fn w_param(buf: &mut Vec<u8>, v: &ParamValue)
    ensures
        final(buf)@ == old(buf)@ + enc_param(v@),
        wf_param(v@),
{
    match v {
        ParamValue::Null => {
            w_tag(buf, 0);
        },
        ParamValue::Flag(b) => {
            w_tag(buf, 1);
            if *b {
                w_tag(buf, 1);
            } else {
                w_tag(buf, 0);
            }
            assert(buf@ =~= old(buf)@ + enc_param(v@));
        },
        ParamValue::Int(x) => {
            w_tag(buf, 2);
            w_u64(buf, #[verifier::truncate] (*x as u64));
            assert(buf@ =~= old(buf)@ + enc_param(v@));
        },
        ParamValue::Text(t) => {
            w_tag(buf, 3);
            w_str(buf, t.as_str());
            assert(buf@ =~= old(buf)@ + enc_param(v@));
        },
    }
}

fn w_cell(buf: &mut Vec<u8>, c: &(String, ParamValue))
    ensures
        final(buf)@ == old(buf)@ + enc_cell_f()((c.0@, c.1@)),
        wf_cell((c.0@, c.1@)),
{
    w_str(buf, c.0.as_str());
    w_param(buf, &c.1);
    assert(buf@ =~= old(buf)@ + enc_cell_f()((c.0@, c.1@)));
}

fn w_params(buf: &mut Vec<u8>, items: &Vec<(String, ParamValue)>)
    ensures
        final(buf)@ == old(buf)@ + enc_list(params_v(items@), enc_cell_f()),
        wf_params(params_v(items@)),
{
    let ghost ps = params_v(items@);
    w_u64(buf, items.len() as u64);
    let mut i: usize = 0;
    assert(ps.take(0) =~= Seq::<(Seq<char>, ParamValueV)>::empty());
    while i < items.len()
        invariant
            i <= items.len(),
            ps == params_v(items@),
            ps.len() == items@.len(),
            buf@ == old(buf)@ + enc_u64(items@.len() as u64) + enc_items(ps.take(i as int),
                enc_cell_f(),
            ),
            forall|j: int| 0 <= j < i ==> wf_cell(#[trigger] ps[j]),
        decreases items.len() - i,
    {
        let c = &items[i];
        proof {
            assert(ps[i as int] == (items@[i as int].0@, items@[i as int].1@));
        }
        w_cell(buf, c);
        proof {
            lemma_enc_items_push(ps.take(i as int), ps[i as int], enc_cell_f());
            assert(ps.take(i + 1) =~= ps.take(i as int).push(ps[i as int]));
            assert(buf@ =~= old(buf)@ + enc_u64(items@.len() as u64) + enc_items(
                ps.take(i + 1),
                enc_cell_f(),
            ));
        }
        i = i + 1;
    }
    assert(ps.take(items@.len() as int) =~= ps);
    assert(buf@ =~= old(buf)@ + enc_list(ps, enc_cell_f()));
}

/// Serializes a parameter list into its blob payload.
pub fn encode_params(items: &Vec<(String, ParamValue)>) -> (out: Vec<u8>)
    ensures
        out@ == enc_params_payload(params_v(items@)),
        wf_params(params_v(items@)),
{
    let mut buf: Vec<u8> = Vec::new();
    w_params(&mut buf, items);
    assert(buf@ =~= enc_params_payload(params_v(items@)));
    buf
}

/// Serializes a record set into its blob payload.
pub fn encode_rows(rows: &Vec<Row>) -> (out: Vec<u8>)
    ensures
        out@ == enc_rows_payload(rows_v(rows@)),
        wf_rows(rows_v(rows@)),
{
    let ghost rs = rows_v(rows@);
    let mut buf: Vec<u8> = Vec::new();
    w_u64(&mut buf, rows.len() as u64);
    let mut i: usize = 0;
    assert(rs.take(0) =~= Seq::<Seq<(Seq<char>, ParamValueV)>>::empty());
    while i < rows.len()
        invariant
            i <= rows.len(),
            rs == rows_v(rows@),
            rs.len() == rows@.len(),
            buf@ == enc_u64(rows@.len() as u64) + enc_items(rs.take(i as int), enc_row_f()),
            forall|j: int| 0 <= j < i ==> wf_params(#[trigger] rs[j]),
        decreases rows.len() - i,
    {
        let row = &rows[i];
        proof {
            assert(rs[i as int] == rows@[i as int]@);
        }
        w_params(&mut buf, &row.cells);
        proof {
            assert(enc_row_f()(rs[i as int]) == enc_list(params_v(row.cells@), enc_cell_f()));
            lemma_enc_items_push(rs.take(i as int), rs[i as int], enc_row_f());
            assert(rs.take(i + 1) =~= rs.take(i as int).push(rs[i as int]));
            assert(buf@ =~= enc_u64(rows@.len() as u64) + enc_items(rs.take(i + 1), enc_row_f()));
        }
        i = i + 1;
    }
    assert(rs.take(rows@.len() as int) =~= rs);
    assert(buf@ =~= enc_rows_payload(rs));
    buf
}

fn w_resource(buf: &mut Vec<u8>, r: &DefineResourceType)
    ensures
        final(buf)@ == old(buf)@ + enc_resource(r@),
        wf_resource(r@),
{
    match r {
        DefineResourceType::Namespace { name } => {
            w_tag(buf, 0);
            w_str(buf, name.as_str());
            assert(buf@ =~= old(buf)@ + enc_resource(r@));
        },
        DefineResourceType::Database { name } => {
            w_tag(buf, 1);
            w_str(buf, name.as_str());
            assert(buf@ =~= old(buf)@ + enc_resource(r@));
        },
        DefineResourceType::Table { name } => {
            w_tag(buf, 2);
            w_str(buf, name.as_str());
            assert(buf@ =~= old(buf)@ + enc_resource(r@));
        },
    }
}

fn w_graphdb_action(buf: &mut Vec<u8>, a: &GraphDbAction)
    ensures
        final(buf)@ == old(buf)@ + enc_graphdb_action(a@),
        wf_graphdb_action(a@),
{
    match a {
        GraphDbAction::Open => {
            w_tag(buf, 0);
        },
        GraphDbAction::RemoveDb => {
            w_tag(buf, 1);
        },
        GraphDbAction::Define { resource } => {
            w_tag(buf, 2);
            w_resource(buf, resource);
            assert(buf@ =~= old(buf)@ + enc_graphdb_action(a@));
        },
        GraphDbAction::Statement { statement, params } => {
            w_tag(buf, 3);
            w_str(buf, statement.as_str());
            match params {
                None => {
                    w_tag(buf, 0);
                },
                Some(ps) => {
                    w_tag(buf, 1);
                    w_params(buf, ps);
                },
            }
            assert(buf@ =~= old(buf)@ + enc_graphdb_action(a@));
        },
        GraphDbAction::Read { statement } => {
            w_tag(buf, 4);
            w_str(buf, statement.as_str());
            assert(buf@ =~= old(buf)@ + enc_graphdb_action(a@));
        },
        GraphDbAction::Backup => {
            w_tag(buf, 5);
        },
    }
}

/// Serializes a request into its envelope body.
pub fn encode_graphdb_request(r: &GraphDbRequest) -> (out: Vec<u8>)
    ensures
        out@ == enc_graphdb_request(r@),
        wf_graphdb_request(r@),
{
    let mut buf: Vec<u8> = Vec::new();
    w_str(&mut buf, r.package_id.package_name.as_str());
    w_str(&mut buf, r.package_id.publisher_node.as_str());
    w_str(&mut buf, r.db.as_str());
    w_graphdb_action(&mut buf, &r.action);
    assert(buf@ =~= enc_graphdb_request(r@));
    buf
}

fn w_graphdb_error(buf: &mut Vec<u8>, e: &GraphDbError)
    ensures
        final(buf)@ == old(buf)@ + enc_graphdb_error(e@),
        wf_graphdb_error(e@),
{
    match e {
        GraphDbError::NoDb => {
            w_tag(buf, 0);
        },
        GraphDbError::KeyNotFound => {
            w_tag(buf, 1);
        },
        GraphDbError::NoTx => {
            w_tag(buf, 2);
        },
        GraphDbError::NoCap { error } => {
            w_tag(buf, 3);
            w_str(buf, error.as_str());
            assert(buf@ =~= old(buf)@ + enc_graphdb_error(e@));
        },
        GraphDbError::SurrealDBError { action, error } => {
            w_tag(buf, 4);
            w_str(buf, action.as_str());
            w_str(buf, error.as_str());
            assert(buf@ =~= old(buf)@ + enc_graphdb_error(e@));
        },
        GraphDbError::InputError { error } => {
            w_tag(buf, 5);
            w_str(buf, error.as_str());
            assert(buf@ =~= old(buf)@ + enc_graphdb_error(e@));
        },
        GraphDbError::IOError { error } => {
            w_tag(buf, 6);
            w_str(buf, error.as_str());
            assert(buf@ =~= old(buf)@ + enc_graphdb_error(e@));
        },
    }
}

/// Serializes a response into its envelope body.
pub fn encode_graphdb_response(r: &GraphDbResponse) -> (out: Vec<u8>)
    ensures
        out@ == enc_graphdb_response(r@),
        wf_graphdb_response(r@),
{
    let mut buf: Vec<u8> = Vec::new();
    match r {
        GraphDbResponse::Okay => {
            w_tag(&mut buf, 0);
        },
        GraphDbResponse::Data => {
            w_tag(&mut buf, 1);
        },
        GraphDbResponse::Failed { error } => {
            w_tag(&mut buf, 2);
            w_graphdb_error(&mut buf, error);
        },
    }
    assert(buf@ =~= enc_graphdb_response(r@));
    buf
}

fn r_param<'a>(s: &'a [u8]) -> (r: Option<(ParamValue, &'a [u8])>)
    ensures
        match dec_param(s@) {
            None => r is None,
            Some((v, rest)) => r matches Some(p) && p.0@ == v && p.1@ == rest,
        },
{
    match r_tag(s) {
        None => None,
        Some((t, s1)) => {
            if t == 0 {
                Some((ParamValue::Null, s1))
            } else if t == 1 {
                match r_tag(s1) {
                    None => None,
                    Some((b, s2)) => {
                        if b == 0 {
                            Some((ParamValue::Flag(false), s2))
                        } else if b == 1 {
                            Some((ParamValue::Flag(true), s2))
                        } else {
                            None
                        }
                    },
                }
            } else if t == 2 {
                match r_u64(s1) {
                    None => None,
                    Some((x, s2)) => Some((ParamValue::Int(#[verifier::truncate] (x as i64)), s2)),
                }
            } else if t == 3 {
                match r_str(s1) {
                    None => None,
                    Some((text, s2)) => Some((ParamValue::Text(text), s2)),
                }
            } else {
                None
            }
        },
    }
}

fn r_cell<'a>(s: &'a [u8]) -> (r: Option<((String, ParamValue), &'a [u8])>)
    ensures
        match dec_cell(s@) {
            None => r is None,
            Some((c, rest)) => r matches Some(p) && p.0.0@ == c.0 && p.0.1@ == c.1 && p.1@ == rest,
        },
{
    match r_str(s) {
        None => None,
        Some((name, s1)) => match r_param(s1) {
            None => None,
            Some((v, s2)) => Some(((name, v), s2)),
        },
    }
}

fn r_params<'a>(s: &'a [u8]) -> (r: Option<(Vec<(String, ParamValue)>, &'a [u8])>)
    ensures
        match dec_list(s@, dec_cell_f()) {
            None => r is None,
            Some((ps, rest)) => r matches Some(p) && params_v(p.0@) == ps && p.1@ == rest,
        },
{
    match r_u64(s) {
        None => None,
        Some((n, s1)) => {
            let ghost whole = dec_items(s1@, n as nat, dec_cell_f());
            let mut out: Vec<(String, ParamValue)> = Vec::new();
            let mut cur: &[u8] = s1;
            let mut k: u64 = 0;
            assert(params_v(out@) =~= Seq::<(Seq<char>, ParamValueV)>::empty());
            loop
                invariant
                    k <= n,
                    params_v(out@).len() == k as nat,
                    whole == dec_items(s1@, n as nat, dec_cell_f()),
                    dec_list(s@, dec_cell_f()) == whole,
                    match dec_items(cur@, (n - k) as nat, dec_cell_f()) {
                        None => whole is None,
                        Some((ps, rest)) => whole matches Some(w) && w.0 == params_v(out@) + ps
                            && w.1 == rest,
                    },
                decreases n - k,
            {
                if k == n {
                    proof {
                        assert(dec_items(cur@, 0, dec_cell_f()) == Some(
                            (Seq::<(Seq<char>, ParamValueV)>::empty(), cur@),
                        ));
                        assert(params_v(out@) + Seq::<(Seq<char>, ParamValueV)>::empty()
                            =~= params_v(out@));
                    }
                    return Some((out, cur));
                }
                let ghost m = (n - k) as nat;
                match r_cell(cur) {
                    None => {
                        assert(dec_cell_f()(cur@) == dec_cell(cur@));
                        assert(dec_items(cur@, m, dec_cell_f()) is None);
                        return None;
                    },
                    Some((c, rest)) => {
                        proof {
                            assert(dec_cell_f()(cur@) == dec_cell(cur@));
                        }
                        let ghost cv = (c.0@, c.1@);
                        let ghost prev = params_v(out@);
                        out.push(c);
                        proof {
                            assert(params_v(out@) =~= prev.push(cv));
                            assert(dec_items(cur@, m, dec_cell_f()) == (match dec_items(
                                rest@,
                                (m - 1) as nat,
                                dec_cell_f(),
                            ) {
                                None => None::<(Seq<(Seq<char>, ParamValueV)>, Seq<u8>)>,
                                Some((ps, r2)) => Some((seq![cv] + ps, r2)),
                            }));
                            let tail = dec_items(rest@, (m - 1) as nat, dec_cell_f());
                            if tail is Some {
                                let (ps2, r2) = tail->0;
                                assert(prev + (seq![cv] + ps2) =~= prev.push(cv) + ps2);
                            }
                        }
                        cur = rest;
                        k = k + 1;
                    },
                }
            }
        },
    }
}

fn r_row<'a>(s: &'a [u8]) -> (r: Option<(Row, &'a [u8])>)
    ensures
        match dec_row_f()(s@) {
            None => r is None,
            Some((row, rest)) => r matches Some(p) && p.0@ == row && p.1@ == rest,
        },
{
    proof {
        assert(dec_row_f()(s@) == dec_list(s@, dec_cell_f()));
    }
    match r_params(s) {
        None => None,
        Some((cells, rest)) => Some((Row { cells }, rest)),
    }
}

fn r_rows<'a>(s: &'a [u8]) -> (r: Option<(Vec<Row>, &'a [u8])>)
    ensures
        match dec_list(s@, dec_row_f()) {
            None => r is None,
            Some((rs, rest)) => r matches Some(p) && rows_v(p.0@) == rs && p.1@ == rest,
        },
{
    match r_u64(s) {
        None => None,
        Some((n, s1)) => {
            let ghost whole = dec_items(s1@, n as nat, dec_row_f());
            let mut out: Vec<Row> = Vec::new();
            let mut cur: &[u8] = s1;
            let mut k: u64 = 0;
            assert(rows_v(out@) =~= Seq::<Seq<(Seq<char>, ParamValueV)>>::empty());
            loop
                invariant
                    k <= n,
                    rows_v(out@).len() == k as nat,
                    whole == dec_items(s1@, n as nat, dec_row_f()),
                    dec_list(s@, dec_row_f()) == whole,
                    match dec_items(cur@, (n - k) as nat, dec_row_f()) {
                        None => whole is None,
                        Some((rs, rest)) => whole matches Some(w) && w.0 == rows_v(out@) + rs
                            && w.1 == rest,
                    },
                decreases n - k,
            {
                if k == n {
                    proof {
                        assert(dec_items(cur@, 0, dec_row_f()) == Some(
                            (Seq::<Seq<(Seq<char>, ParamValueV)>>::empty(), cur@),
                        ));
                        assert(rows_v(out@) + Seq::<Seq<(Seq<char>, ParamValueV)>>::empty()
                            =~= rows_v(out@));
                    }
                    return Some((out, cur));
                }
                let ghost m = (n - k) as nat;
                match r_row(cur) {
                    None => {
                        assert(dec_items(cur@, m, dec_row_f()) is None);
                        return None;
                    },
                    Some((row, rest)) => {
                        let ghost rv = row@;
                        let ghost prev = rows_v(out@);
                        out.push(row);
                        proof {
                            assert(rows_v(out@) =~= prev.push(rv));
                            assert(dec_items(cur@, m, dec_row_f()) == (match dec_items(
                                rest@,
                                (m - 1) as nat,
                                dec_row_f(),
                            ) {
                                None => None::<(Seq<Seq<(Seq<char>, ParamValueV)>>, Seq<u8>)>,
                                Some((rs, r2)) => Some((seq![rv] + rs, r2)),
                            }));
                            let tail = dec_items(rest@, (m - 1) as nat, dec_row_f());
                            if tail is Some {
                                let (rs2, r2) = tail->0;
                                assert(prev + (seq![rv] + rs2) =~= prev.push(rv) + rs2);
                            }
                        }
                        cur = rest;
                        k = k + 1;
                    },
                }
            }
        },
    }
}

/// Parses a blob as a parameter list. `None` on any structural fault or
/// trailing bytes.
pub fn decode_params_blob(s: &[u8]) -> (r: Option<Vec<(String, ParamValue)>>)
    ensures
        match params_of(s@) {
            None => r is None,
            Some(ps) => r matches Some(v) && params_v(v@) == ps,
        },
{
    match r_params(s) {
        None => None,
        Some((ps, rest)) => {
            if rest.len() == 0 {
                Some(ps)
            } else {
                None
            }
        },
    }
}

/// Parses a blob as a record set. `None` on any structural fault or trailing
/// bytes.
pub fn decode_rows_blob(s: &[u8]) -> (r: Option<Vec<Row>>)
    ensures
        match rows_of(s@) {
            None => r is None,
            Some(rs) => r matches Some(v) && rows_v(v@) == rs,
        },
{
    match r_rows(s) {
        None => None,
        Some((rs, rest)) => {
            if rest.len() == 0 {
                Some(rs)
            } else {
                None
            }
        },
    }
}

/// Parses an envelope body as a request. `None` on any structural fault or
/// trailing bytes.
pub fn decode_graphdb_request(s: &[u8]) -> (r: Option<GraphDbRequest>)
    ensures
        match graphdb_request_of(s@) {
            None => r is None,
            Some(rv) => r matches Some(req) && req@ == rv,
        },
{
    match r_str(s) {
        None => None,
        Some((package_name, s1)) => match r_str(s1) {
            None => None,
            Some((publisher_node, s2)) => match r_str(s2) {
                None => None,
                Some((db, s3)) => match r_graphdb_action(s3) {
                    None => None,
                    Some((action, s4)) => {
                        if s4.len() == 0 {
                            Some(
                                GraphDbRequest {
                                    package_id: PackageId { package_name, publisher_node },
                                    db,
                                    action,
                                },
                            )
                        } else {
                            None
                        }
                    },
                },
            },
        },
    }
}

fn r_resource<'a>(s: &'a [u8]) -> (r: Option<(DefineResourceType, &'a [u8])>)
    ensures
        match dec_resource(s@) {
            None => r is None,
            Some((v, rest)) => r matches Some(p) && p.0@ == v && p.1@ == rest,
        },
{
    match r_tag(s) {
        None => None,
        Some((t, s1)) => {
            if t == 0 {
                match r_str(s1) {
                    None => None,
                    Some((name, s2)) => Some((DefineResourceType::Namespace { name }, s2)),
                }
            } else if t == 1 {
                match r_str(s1) {
                    None => None,
                    Some((name, s2)) => Some((DefineResourceType::Database { name }, s2)),
                }
            } else if t == 2 {
                match r_str(s1) {
                    None => None,
                    Some((name, s2)) => Some((DefineResourceType::Table { name }, s2)),
                }
            } else {
                None
            }
        },
    }
}

fn r_graphdb_action<'a>(s: &'a [u8]) -> (r: Option<(GraphDbAction, &'a [u8])>)
    ensures
        match dec_graphdb_action(s@) {
            None => r is None,
            Some((a, rest)) => r matches Some(p) && p.0@ == a && p.1@ == rest,
        },
{
    match r_tag(s) {
        None => None,
        Some((t, s1)) => {
            if t == 0 {
                Some((GraphDbAction::Open, s1))
            } else if t == 1 {
                Some((GraphDbAction::RemoveDb, s1))
            } else if t == 2 {
                match r_resource(s1) {
                    None => None,
                    Some((resource, s2)) => Some((GraphDbAction::Define { resource }, s2)),
                }
            } else if t == 3 {
                match r_str(s1) {
                    None => None,
                    Some((statement, s2)) => match r_tag(s2) {
                        None => None,
                        Some((tp, s3)) => {
                            if tp == 0 {
                                Some((GraphDbAction::Statement { statement, params: None }, s3))
                            } else if tp == 1 {
                                match r_params(s3) {
                                    None => None,
                                    Some((ps, s4)) => Some(
                                        (
                                            GraphDbAction::Statement {
                                                statement,
                                                params: Some(ps),
                                            },
                                            s4,
                                        ),
                                    ),
                                }
                            } else {
                                None
                            }
                        },
                    },
                }
            } else if t == 4 {
                match r_str(s1) {
                    None => None,
                    Some((statement, s2)) => Some((GraphDbAction::Read { statement }, s2)),
                }
            } else if t == 5 {
                Some((GraphDbAction::Backup, s1))
            } else {
                None
            }
        },
    }
}

fn r_graphdb_error<'a>(s: &'a [u8]) -> (r: Option<(GraphDbError, &'a [u8])>)
    ensures
        match dec_graphdb_error(s@) {
            None => r is None,
            Some((e, rest)) => r matches Some(p) && p.0@ == e && p.1@ == rest,
        },
{
    match r_tag(s) {
        None => None,
        Some((t, s1)) => {
            if t == 0 {
                Some((GraphDbError::NoDb, s1))
            } else if t == 1 {
                Some((GraphDbError::KeyNotFound, s1))
            } else if t == 2 {
                Some((GraphDbError::NoTx, s1))
            } else if t == 3 {
                match r_str(s1) {
                    None => None,
                    Some((error, s2)) => Some((GraphDbError::NoCap { error }, s2)),
                }
            } else if t == 4 {
                match r_str(s1) {
                    None => None,
                    Some((action, s2)) => match r_str(s2) {
                        None => None,
                        Some((error, s3)) => Some((GraphDbError::SurrealDBError { action, error }, s3)),
                    },
                }
            } else if t == 5 {
                match r_str(s1) {
                    None => None,
                    Some((error, s2)) => Some((GraphDbError::InputError { error }, s2)),
                }
            } else if t == 6 {
                match r_str(s1) {
                    None => None,
                    Some((error, s2)) => Some((GraphDbError::IOError { error }, s2)),
                }
            } else {
                None
            }
        },
    }
}

/// Parses an envelope body as a response. `None` on any structural fault or
/// trailing bytes.
pub fn decode_graphdb_response(s: &[u8]) -> (r: Option<GraphDbResponse>)
    ensures
        match graphdb_response_of(s@) {
            None => r is None,
            Some(rv) => r matches Some(resp) && resp@ == rv,
        },
{
    match r_tag(s) {
        None => None,
        Some((t, s1)) => {
            let body: Option<(GraphDbResponse, &[u8])> = if t == 0 {
                Some((GraphDbResponse::Okay, s1))
            } else if t == 1 {
                Some((GraphDbResponse::Data, s1))
            } else if t == 2 {
                match r_graphdb_error(s1) {
                    None => None,
                    Some((error, s2)) => Some((GraphDbResponse::Failed { error }, s2)),
                }
            } else {
                None
            };
            match body {
                None => None,
                Some((resp, rest)) => {
                    if rest.len() == 0 {
                        Some(resp)
                    } else {
                        None
                    }
                },
            }
        },
    }
}

// ---------------------------------------------------------------------------
// The façade.
// ---------------------------------------------------------------------------

/// Handle on one named database of one tenant. Obtained by resolving an
/// `open` call.
#[derive(Debug, PartialEq, Eq)]
pub struct GraphDb {
    pub package_id: PackageId,
    pub db: String,
}

pub struct GraphDbV {
    pub package_id: PackageIdV,
    pub db: Seq<char>,
}

impl View for GraphDb {
    type V = GraphDbV;

    open spec fn view(&self) -> GraphDbV {
        GraphDbV { package_id: self.package_id@, db: self.db@ }
    }
}

/// The prepared call for a graph database request.
pub open spec fn graphdb_call(r: GraphDbRequestV, blob: Option<Seq<u8>>) -> PreparedCallV {
    PreparedCallV {
        target: graphdb_address(),
        body: enc_graphdb_request(r),
        blob,
        timeout_secs: CALL_TIMEOUT_SECS,
    }
}

impl GraphDb {
    /// Read from the database; only selection, never mutation. The record
    /// set comes back on the blob channel; resolve with [`resolve_read`].
    pub fn read(&self, statement: String) -> (r: PreparedCall)
        ensures
            r@ == (graphdb_call(
                GraphDbRequestV {
                    package_id: self.package_id@,
                    db: self.db@,
                    action: GraphDbActionV::Read { statement: statement@ },
                },
                None,
            )),
    {
        let req = GraphDbRequest {
            package_id: self.package_id.dup(),
            db: self.db.clone(),
            action: GraphDbAction::Read { statement },
        };
        let body = encode_graphdb_request(&req);
        PreparedCall {
            target: graphdb_target(),
            body,
            blob: None,
            timeout_secs: CALL_TIMEOUT_SECS,
        }
    }

    /// Execute a statement, with optional named parameters. The parameter
    /// list, bulk data, also rides the blob channel. Resolve with
    /// [`resolve_ok`].
    pub fn statement(&self, statement: String, params: Option<GraphDbRequestParams>) -> (r:
        PreparedCall)
        ensures
            r@ == (graphdb_call(
                GraphDbRequestV {
                    package_id: self.package_id@,
                    db: self.db@,
                    action: GraphDbActionV::Statement {
                        statement: statement@,
                        params: match params {
                            Some(ps) => Some(params_v(ps@)),
                            None => None,
                        },
                    },
                },
                match params {
                    Some(ps) => Some(enc_params_payload(params_v(ps@))),
                    None => None,
                },
            )),
    {
        let blob: Option<Vec<u8>> = match &params {
            Some(ps) => Some(encode_params(ps)),
            None => None,
        };
        let req = GraphDbRequest {
            package_id: self.package_id.dup(),
            db: self.db.clone(),
            action: GraphDbAction::Statement { statement, params },
        };
        let body = encode_graphdb_request(&req);
        PreparedCall { target: graphdb_target(), body, blob, timeout_secs: CALL_TIMEOUT_SECS }
    }

    /// Define a namespace, database, or table. Resolve with [`resolve_ok`].
    pub fn define(&self, resource: DefineResourceType) -> (r: PreparedCall)
        ensures
            r@ == (graphdb_call(
                GraphDbRequestV {
                    package_id: self.package_id@,
                    db: self.db@,
                    action: GraphDbActionV::Define { resource: resource@ },
                },
                None,
            )),
    {
        let req = GraphDbRequest {
            package_id: self.package_id.dup(),
            db: self.db.clone(),
            action: GraphDbAction::Define { resource },
        };
        let body = encode_graphdb_request(&req);
        PreparedCall {
            target: graphdb_target(),
            body,
            blob: None,
            timeout_secs: CALL_TIMEOUT_SECS,
        }
    }
}

/// Open or create the database. Resolve with [`resolve_open`] to obtain the
/// [`GraphDb`] handle.
pub fn open(package_id: PackageId, db: String) -> (r: PreparedCall)
    ensures
        r@ == (graphdb_call(
            GraphDbRequestV { package_id: package_id@, db: db@, action: GraphDbActionV::Open },
            None,
        )),
{
    let req = GraphDbRequest { package_id, db, action: GraphDbAction::Open };
    let body = encode_graphdb_request(&req);
    PreparedCall { target: graphdb_target(), body, blob: None, timeout_secs: CALL_TIMEOUT_SECS }
}

/// Remove and delete the database. Resolve with [`resolve_ok`].
pub fn remove_db(package_id: PackageId, db: String) -> (r: PreparedCall)
    ensures
        r@ == (graphdb_call(
            GraphDbRequestV { package_id: package_id@, db: db@, action: GraphDbActionV::RemoveDb },
            None,
        )),
{
    let req = GraphDbRequest { package_id, db, action: GraphDbAction::RemoveDb };
    let body = encode_graphdb_request(&req);
    PreparedCall { target: graphdb_target(), body, blob: None, timeout_secs: CALL_TIMEOUT_SECS }
}

// ---------------------------------------------------------------------------
// Resolution.
// ---------------------------------------------------------------------------

/// Resolution for the acknowledged operations (`statement`, `define`,
/// `remove_db`): only `Okay` or a typed error; any other variant is a
/// protocol violation.
pub open spec fn spec_resolve_graphdb_ok(o: CallOutcomeV) -> Result<(), CallErrorV<GraphDbErrorV>> {
    match spec_transport(o) {
        Err(t) => Err(CallErrorV::Transport(t)),
        Ok((body, _blob)) => match graphdb_response_of(body) {
            None => Err(CallErrorV::Protocol(ProtocolError::MalformedResponse)),
            Some(resp) => match resp {
                GraphDbResponseV::Okay => Ok(()),
                GraphDbResponseV::Failed { error } => Err(CallErrorV::Service(error)),
                _ => Err(CallErrorV::Protocol(ProtocolError::UnexpectedVariant)),
            },
        },
    }
}

/// Resolution for `open`: on `Okay` the handle for `(package_id, db)`.
pub open spec fn spec_resolve_open(package_id: PackageIdV, db: Seq<char>, o: CallOutcomeV) -> Result<
    GraphDbV,
    CallErrorV<GraphDbErrorV>,
> {
    match spec_resolve_graphdb_ok(o) {
        Ok(_) => Ok(GraphDbV { package_id, db }),
        Err(e) => Err(e),
    }
}

/// Resolution for `read`: a `Data` response must carry a blob, and the blob
/// must parse as a record set; the set is the result.
pub open spec fn spec_resolve_read(o: CallOutcomeV) -> Result<
    Seq<Seq<(Seq<char>, ParamValueV)>>,
    CallErrorV<GraphDbErrorV>,
> {
    match spec_transport(o) {
        Err(t) => Err(CallErrorV::Transport(t)),
        Ok((body, blob)) => match graphdb_response_of(body) {
            None => Err(CallErrorV::Protocol(ProtocolError::MalformedResponse)),
            Some(resp) => match resp {
                GraphDbResponseV::Data => match blob {
                    None => Err(CallErrorV::Protocol(ProtocolError::MissingBlob)),
                    Some(b) => match rows_of(b) {
                        None => Err(CallErrorV::Protocol(ProtocolError::MalformedBlob)),
                        Some(rs) => Ok(rs),
                    },
                },
                GraphDbResponseV::Failed { error } => Err(CallErrorV::Service(error)),
                _ => Err(CallErrorV::Protocol(ProtocolError::UnexpectedVariant)),
            },
        },
    }
}

/// Resolves the outcome of `statement`, `define` or `remove_db`.
pub fn resolve_ok(o: CallOutcome) -> (r: Result<(), CallError<GraphDbError>>)
    ensures
        match spec_resolve_graphdb_ok(o@) {
            Ok(_) => r is Ok,
            Err(e) => r matches Err(x) && x@ == e,
        },
{
    match transport_result(o) {
        Err(t) => Err(CallError::Transport(t)),
        Ok((body, _blob)) => match decode_graphdb_response(body.as_slice()) {
            None => Err(CallError::Protocol(ProtocolError::MalformedResponse)),
            Some(resp) => match resp {
                GraphDbResponse::Okay => Ok(()),
                GraphDbResponse::Failed { error } => Err(CallError::Service(error)),
                _ => Err(CallError::Protocol(ProtocolError::UnexpectedVariant)),
            },
        },
    }
}

/// Resolves the outcome of `open` into the database handle.
pub fn resolve_open(package_id: PackageId, db: String, o: CallOutcome) -> (r: Result<
    GraphDb,
    CallError<GraphDbError>,
>)
    ensures
        match spec_resolve_open(package_id@, db@, o@) {
            Ok(g) => r matches Ok(v) && v@ == g,
            Err(e) => r matches Err(x) && x@ == e,
        },
{
    match resolve_ok(o) {
        Ok(_) => Ok(GraphDb { package_id, db }),
        Err(e) => Err(e),
    }
}

/// Resolves the outcome of `read` into the record set.
pub fn resolve_read(o: CallOutcome) -> (r: Result<Vec<Row>, CallError<GraphDbError>>)
    ensures
        match spec_resolve_read(o@) {
            Ok(rs) => r matches Ok(v) && rows_v(v@) == rs,
            Err(e) => r matches Err(x) && x@ == e,
        },
{
    match transport_result(o) {
        Err(t) => Err(CallError::Transport(t)),
        Ok((body, blob)) => match decode_graphdb_response(body.as_slice()) {
            None => Err(CallError::Protocol(ProtocolError::MalformedResponse)),
            Some(resp) => match resp {
                GraphDbResponse::Data => match blob {
                    None => Err(CallError::Protocol(ProtocolError::MissingBlob)),
                    Some(b) => match decode_rows_blob(b.as_slice()) {
                        None => Err(CallError::Protocol(ProtocolError::MalformedBlob)),
                        Some(rs) => Ok(rs),
                    },
                },
                GraphDbResponse::Failed { error } => Err(CallError::Service(error)),
                _ => Err(CallError::Protocol(ProtocolError::UnexpectedVariant)),
            },
        },
    }
}

// ---------------------------------------------------------------------------
// Laws of resolution.
// ---------------------------------------------------------------------------

/// A response whose variant is not the one the call site expects resolves to
/// a protocol error — never to a default or empty success — whichever graph
/// database operation originated the call.
pub proof fn lemma_graphdb_unexpected_variant_is_protocol_error(
    resp: GraphDbResponseV,
    blob: Option<Seq<u8>>,
)
    requires
        wf_graphdb_response(resp),
    ensures
        !(resp is Okay) && !(resp is Failed) ==> spec_resolve_graphdb_ok(
            CallOutcomeV::Response { body: enc_graphdb_response(resp), blob },
        ) == Err::<(), CallErrorV<GraphDbErrorV>>(
            CallErrorV::Protocol(ProtocolError::UnexpectedVariant),
        ),
        !(resp is Data) && !(resp is Failed) ==> spec_resolve_read(
            CallOutcomeV::Response { body: enc_graphdb_response(resp), blob },
        ) == Err::<Seq<Seq<(Seq<char>, ParamValueV)>>, CallErrorV<GraphDbErrorV>>(
            CallErrorV::Protocol(ProtocolError::UnexpectedVariant),
        ),
{
    lemma_graphdb_response_round_trip(resp);
}

/// A call that times out resolves to the timeout transport error — never a
/// business error — whichever graph database operation originated it. A
/// timed-out outcome carries no blob, so nothing is left for a later call to
/// consume.
pub proof fn lemma_graphdb_timeout_is_transport_error(package_id: PackageIdV, db: Seq<char>)
    ensures
        spec_resolve_graphdb_ok(CallOutcomeV::Timeout) == Err::<(), CallErrorV<GraphDbErrorV>>(
            CallErrorV::Transport(TransportErrorV::Timeout),
        ),
        spec_resolve_open(package_id, db, CallOutcomeV::Timeout) == Err::<
            GraphDbV,
            CallErrorV<GraphDbErrorV>,
        >(CallErrorV::Transport(TransportErrorV::Timeout)),
        spec_resolve_read(CallOutcomeV::Timeout) == Err::<
            Seq<Seq<(Seq<char>, ParamValueV)>>,
            CallErrorV<GraphDbErrorV>,
        >(CallErrorV::Transport(TransportErrorV::Timeout)),
{
}

/// A capability rejection resolves to the `NoCap` business error with the
/// rejected scope's reason intact, whichever graph database operation
/// originated the call.
pub proof fn lemma_graphdb_nocap_passes_through(
    reason: Seq<char>,
    package_id: PackageIdV,
    db: Seq<char>,
    blob: Option<Seq<u8>>,
)
    requires
        wf_str(reason),
    ensures
        spec_resolve_graphdb_ok(
            CallOutcomeV::Response {
                body: enc_graphdb_response(
                    GraphDbResponseV::Failed { error: GraphDbErrorV::NoCap { error: reason } },
                ),
                blob,
            },
        ) == Err::<(), CallErrorV<GraphDbErrorV>>(
            CallErrorV::Service(GraphDbErrorV::NoCap { error: reason }),
        ),
        spec_resolve_open(
            package_id,
            db,
            CallOutcomeV::Response {
                body: enc_graphdb_response(
                    GraphDbResponseV::Failed { error: GraphDbErrorV::NoCap { error: reason } },
                ),
                blob,
            },
        ) == Err::<GraphDbV, CallErrorV<GraphDbErrorV>>(
            CallErrorV::Service(GraphDbErrorV::NoCap { error: reason }),
        ),
        spec_resolve_read(
            CallOutcomeV::Response {
                body: enc_graphdb_response(
                    GraphDbResponseV::Failed { error: GraphDbErrorV::NoCap { error: reason } },
                ),
                blob,
            },
        ) == Err::<Seq<Seq<(Seq<char>, ParamValueV)>>, CallErrorV<GraphDbErrorV>>(
            CallErrorV::Service(GraphDbErrorV::NoCap { error: reason }),
        ),
{
    lemma_graphdb_response_round_trip(
        GraphDbResponseV::Failed { error: GraphDbErrorV::NoCap { error: reason } },
    );
}

} // verus!

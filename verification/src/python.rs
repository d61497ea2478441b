//! Client of the sandboxed script runner service.
//!
//! One operation: run a named function of a script that lives in the
//! package's `scripts` directory, with string arguments. The script's output
//! is bulk data and comes back on the blob channel.

use crate::addr::{python_address, python_target, PackageId, PackageIdV};
use crate::gateway::{spec_transport, transport_result, CallError, CallErrorV, CallOutcome,
    CallOutcomeV, PreparedCall, PreparedCallV, ProtocolError, TransportErrorV, CALL_TIMEOUT_SECS};
use crate::wire::{dec_list, dec_str, dec_str_f, dec_tag, enc_list, enc_str, enc_str_f, enc_tag,
    lemma_list_round, lemma_str_round, lemma_tag_round, r_str, r_str_list, r_tag, str_list_v,
    w_str, w_str_list, w_tag, wf_str, wf_str_list};
use vstd::prelude::*;

verus! {

// ---------------------------------------------------------------------------
// Data model.
// ---------------------------------------------------------------------------

/// The request envelope: who calls, and the action.
#[derive(Debug, PartialEq, Eq)]
pub struct PythonRequest {
    pub package_id: PackageId,
    pub action: PythonAction,
}

/// The one operation of the script runner.
#[derive(Debug, PartialEq, Eq)]
pub enum PythonAction {
    RunScript {
        /// The script to run, resolved inside the package's `scripts` directory.
        script: String,
        /// The function of the script to call.
        func: String,
        /// The arguments handed to that function.
        args: Vec<String>,
    },
}

/// The response envelope of the script runner.
#[derive(Debug, PartialEq, Eq)]
pub enum PythonResponse {
    /// The script ran; its output follows on the blob channel.
    Output,
    Failed { error: PythonError },
}

/// Business errors the script runner reports.
#[derive(Debug, PartialEq, Eq)]
pub enum PythonError {
    NoCap { error: String },
    InputError { error: String },
    IOError { error: String },
}

pub struct PythonRequestV {
    pub package_id: PackageIdV,
    pub action: PythonActionV,
}

pub enum PythonActionV {
    RunScript { script: Seq<char>, func: Seq<char>, args: Seq<Seq<char>> },
}

pub enum PythonResponseV {
    Output,
    Failed { error: PythonErrorV },
}

pub enum PythonErrorV {
    NoCap { error: Seq<char> },
    InputError { error: Seq<char> },
    IOError { error: Seq<char> },
}

impl View for PythonAction {
    type V = PythonActionV;

    open spec fn view(&self) -> PythonActionV {
        match self {
            PythonAction::RunScript { script, func, args } => PythonActionV::RunScript {
                script: script@,
                func: func@,
                args: str_list_v(args@),
            },
        }
    }
}

impl View for PythonRequest {
    type V = PythonRequestV;

    open spec fn view(&self) -> PythonRequestV {
        PythonRequestV { package_id: self.package_id@, action: self.action@ }
    }
}

impl View for PythonResponse {
    type V = PythonResponseV;

    open spec fn view(&self) -> PythonResponseV {
        match self {
            PythonResponse::Output => PythonResponseV::Output,
            PythonResponse::Failed { error } => PythonResponseV::Failed { error: error@ },
        }
    }
}

impl View for PythonError {
    type V = PythonErrorV;

    open spec fn view(&self) -> PythonErrorV {
        match self {
            PythonError::NoCap { error } => PythonErrorV::NoCap { error: error@ },
            PythonError::InputError { error } => PythonErrorV::InputError { error: error@ },
            PythonError::IOError { error } => PythonErrorV::IOError { error: error@ },
        }
    }
}

// ---------------------------------------------------------------------------
// Envelope codec.
// ---------------------------------------------------------------------------

pub open spec fn wf_python_action(a: PythonActionV) -> bool {
    match a {
        PythonActionV::RunScript { script, func, args } => wf_str(script) && wf_str(func)
            && wf_str_list(args),
    }
}

pub open spec fn wf_python_request(r: PythonRequestV) -> bool {
    &&& wf_str(r.package_id.package_name)
    &&& wf_str(r.package_id.publisher_node)
    &&& wf_python_action(r.action)
}

pub open spec fn wf_python_error(e: PythonErrorV) -> bool {
    match e {
        PythonErrorV::NoCap { error } => wf_str(error),
        PythonErrorV::InputError { error } => wf_str(error),
        PythonErrorV::IOError { error } => wf_str(error),
    }
}

pub open spec fn wf_python_response(r: PythonResponseV) -> bool {
    match r {
        PythonResponseV::Output => true,
        PythonResponseV::Failed { error } => wf_python_error(error),
    }
}

pub open spec fn enc_python_action(a: PythonActionV) -> Seq<u8> {
    match a {
        PythonActionV::RunScript { script, func, args } => enc_tag(0) + enc_str(script) + enc_str(
            func,
        ) + enc_list(args, enc_str_f()),
    }
}

pub open spec fn enc_python_request(r: PythonRequestV) -> Seq<u8> {
    enc_str(r.package_id.package_name) + enc_str(r.package_id.publisher_node) + enc_python_action(
        r.action,
    )
}

pub open spec fn enc_python_error(e: PythonErrorV) -> Seq<u8> {
    match e {
        PythonErrorV::NoCap { error } => enc_tag(0) + enc_str(error),
        PythonErrorV::InputError { error } => enc_tag(1) + enc_str(error),
        PythonErrorV::IOError { error } => enc_tag(2) + enc_str(error),
    }
}

pub open spec fn enc_python_response(r: PythonResponseV) -> Seq<u8> {
    match r {
        PythonResponseV::Output => enc_tag(0),
        PythonResponseV::Failed { error } => enc_tag(1) + enc_python_error(error),
    }
}

pub open spec fn dec_python_action(s: Seq<u8>) -> Option<(PythonActionV, Seq<u8>)> {
    match dec_tag(s) {
        None => None,
        Some((t, s1)) => if t == 0 {
            match dec_str(s1) {
                None => None,
                Some((script, s2)) => match dec_str(s2) {
                    None => None,
                    Some((func, s3)) => match dec_list(s3, dec_str_f()) {
                        None => None,
                        Some((args, s4)) => Some(
                            (PythonActionV::RunScript { script, func, args }, s4),
                        ),
                    },
                },
            }
        } else {
            None
        },
    }
}

pub open spec fn dec_python_request(s: Seq<u8>) -> Option<(PythonRequestV, Seq<u8>)> {
    match dec_str(s) {
        None => None,
        Some((package_name, s1)) => match dec_str(s1) {
            None => None,
            Some((publisher_node, s2)) => match dec_python_action(s2) {
                None => None,
                Some((action, s3)) => Some(
                    (
                        PythonRequestV {
                            package_id: PackageIdV { package_name, publisher_node },
                            action,
                        },
                        s3,
                    ),
                ),
            },
        },
    }
}

pub open spec fn dec_python_error(s: Seq<u8>) -> Option<(PythonErrorV, Seq<u8>)> {
    match dec_tag(s) {
        None => None,
        Some((t, s1)) => if t == 0 {
            match dec_str(s1) {
                None => None,
                Some((error, s2)) => Some((PythonErrorV::NoCap { error }, s2)),
            }
        } else if t == 1 {
            match dec_str(s1) {
                None => None,
                Some((error, s2)) => Some((PythonErrorV::InputError { error }, s2)),
            }
        } else if t == 2 {
            match dec_str(s1) {
                None => None,
                Some((error, s2)) => Some((PythonErrorV::IOError { error }, s2)),
            }
        } else {
            None
        },
    }
}

pub open spec fn dec_python_response(s: Seq<u8>) -> Option<(PythonResponseV, Seq<u8>)> {
    match dec_tag(s) {
        None => None,
        Some((t, s1)) => if t == 0 {
            Some((PythonResponseV::Output, s1))
        } else if t == 1 {
            match dec_python_error(s1) {
                None => None,
                Some((error, s2)) => Some((PythonResponseV::Failed { error }, s2)),
            }
        } else {
            None
        },
    }
}

/// A whole envelope body as one request: every byte must be consumed.
pub open spec fn python_request_of(s: Seq<u8>) -> Option<PythonRequestV> {
    match dec_python_request(s) {
        None => None,
        Some((r, rest)) => if rest.len() == 0 {
            Some(r)
        } else {
            None
        },
    }
}

/// A whole envelope body as one response: every byte must be consumed.
pub open spec fn python_response_of(s: Seq<u8>) -> Option<PythonResponseV> {
    match dec_python_response(s) {
        None => None,
        Some((r, rest)) => if rest.len() == 0 {
            Some(r)
        } else {
            None
        },
    }
}

// ---------------------------------------------------------------------------
// Round trips.
// ---------------------------------------------------------------------------

pub proof fn lemma_python_action_round(a: PythonActionV, rest: Seq<u8>)
    requires
        wf_python_action(a),
    ensures
        dec_python_action(enc_python_action(a) + rest) == Some((a, rest)),
{
    match a {
        PythonActionV::RunScript { script, func, args } => {
            let el = enc_list(args, enc_str_f());
            assert(enc_python_action(a) + rest =~= enc_tag(0) + (enc_str(script) + (enc_str(func)
                + (el + rest))));
            lemma_tag_round(0, enc_str(script) + (enc_str(func) + (el + rest)));
            lemma_str_round(script, enc_str(func) + (el + rest));
            lemma_str_round(func, el + rest);
            assert forall|x: Seq<char>, r: Seq<u8>| args.contains(x) implies #[trigger] dec_str_f()(
                enc_str_f()(x) + r,
            ) == Some((x, r)) by {
                lemma_str_round(x, r);
            }
            lemma_list_round(args, rest, enc_str_f(), dec_str_f());
        },
    }
}

pub proof fn lemma_python_request_round(r: PythonRequestV, rest: Seq<u8>)
    requires
        wf_python_request(r),
    ensures
        dec_python_request(enc_python_request(r) + rest) == Some((r, rest)),
{
    let e1 = enc_str(r.package_id.package_name);
    let e2 = enc_str(r.package_id.publisher_node);
    let e3 = enc_python_action(r.action);
    assert(enc_python_request(r) + rest =~= e1 + (e2 + (e3 + rest)));
    lemma_str_round(r.package_id.package_name, e2 + (e3 + rest));
    lemma_str_round(r.package_id.publisher_node, e3 + rest);
    lemma_python_action_round(r.action, rest);
}

/// Round-trip fidelity of the envelope codec for script-runner requests.
pub proof fn lemma_python_codec_round_trip(r: PythonRequestV)
    requires
        wf_python_request(r),
    ensures
        python_request_of(enc_python_request(r)) == Some(r),
{
    lemma_python_request_round(r, Seq::empty());
    assert(enc_python_request(r) + Seq::<u8>::empty() =~= enc_python_request(r));
}

pub proof fn lemma_python_error_round(e: PythonErrorV, rest: Seq<u8>)
    requires
        wf_python_error(e),
    ensures
        dec_python_error(enc_python_error(e) + rest) == Some((e, rest)),
{
    match e {
        PythonErrorV::NoCap { error } => {
            assert(enc_python_error(e) + rest =~= enc_tag(0) + (enc_str(error) + rest));
            lemma_tag_round(0, enc_str(error) + rest);
            lemma_str_round(error, rest);
        },
        PythonErrorV::InputError { error } => {
            assert(enc_python_error(e) + rest =~= enc_tag(1) + (enc_str(error) + rest));
            lemma_tag_round(1, enc_str(error) + rest);
            lemma_str_round(error, rest);
        },
        PythonErrorV::IOError { error } => {
            assert(enc_python_error(e) + rest =~= enc_tag(2) + (enc_str(error) + rest));
            lemma_tag_round(2, enc_str(error) + rest);
            lemma_str_round(error, rest);
        },
    }
}

/// Round-trip fidelity for script-runner responses: the codec is symmetric.
pub proof fn lemma_python_response_round_trip(r: PythonResponseV)
    requires
        wf_python_response(r),
    ensures
        python_response_of(enc_python_response(r)) == Some(r),
{
    match r {
        PythonResponseV::Output => {
            lemma_tag_round(0, Seq::empty());
            assert(enc_python_response(r) + Seq::<u8>::empty() =~= enc_python_response(r));
        },
        PythonResponseV::Failed { error } => {
            assert(enc_python_response(r) =~= enc_tag(1) + (enc_python_error(error)
                + Seq::<u8>::empty()));
            lemma_tag_round(1, enc_python_error(error) + Seq::empty());
            lemma_python_error_round(error, Seq::empty());
        },
    }
}

// ---------------------------------------------------------------------------
// Envelope codec: executable.
// ---------------------------------------------------------------------------

/// Serializes a request into its envelope body.
pub fn encode_python_request(r: &PythonRequest) -> (out: Vec<u8>)
    ensures
        out@ == enc_python_request(r@),
        wf_python_request(r@),
{
    let mut buf: Vec<u8> = Vec::new();
    w_str(&mut buf, r.package_id.package_name.as_str());
    w_str(&mut buf, r.package_id.publisher_node.as_str());
    match &r.action {
        PythonAction::RunScript { script, func, args } => {
            w_tag(&mut buf, 0);
            w_str(&mut buf, script.as_str());
            w_str(&mut buf, func.as_str());
            w_str_list(&mut buf, args);
        },
    }
    assert(buf@ =~= enc_python_request(r@));
    buf
}

/// Serializes a response into its envelope body.
pub fn encode_python_response(r: &PythonResponse) -> (out: Vec<u8>)
    ensures
        out@ == enc_python_response(r@),
        wf_python_response(r@),
{
    let mut buf: Vec<u8> = Vec::new();
    match r {
        PythonResponse::Output => {
            w_tag(&mut buf, 0);
        },
        PythonResponse::Failed { error } => {
            w_tag(&mut buf, 1);
            match error {
                PythonError::NoCap { error } => {
                    w_tag(&mut buf, 0);
                    w_str(&mut buf, error.as_str());
                },
                PythonError::InputError { error } => {
                    w_tag(&mut buf, 1);
                    w_str(&mut buf, error.as_str());
                },
                PythonError::IOError { error } => {
                    w_tag(&mut buf, 2);
                    w_str(&mut buf, error.as_str());
                },
            }
        },
    }
    assert(buf@ =~= enc_python_response(r@));
    buf
}

/// Parses an envelope body as a request. `None` on any structural fault or
/// trailing bytes.
pub fn decode_python_request(s: &[u8]) -> (r: Option<PythonRequest>)
    ensures
        match python_request_of(s@) {
            None => r is None,
            Some(rv) => r matches Some(req) && req@ == rv,
        },
{
    match r_str(s) {
        None => None,
        Some((package_name, s1)) => match r_str(s1) {
            None => None,
            Some((publisher_node, s2)) => match r_tag(s2) {
                None => None,
                Some((t, s3)) => {
                    if t == 0 {
                        match r_str(s3) {
                            None => None,
                            Some((script, s4)) => match r_str(s4) {
                                None => None,
                                Some((func, s5)) => match r_str_list(s5) {
                                    None => None,
                                    Some((args, s6)) => {
                                        if s6.len() == 0 {
                                            Some(
                                                PythonRequest {
                                                    package_id: PackageId {
                                                        package_name,
                                                        publisher_node,
                                                    },
                                                    action: PythonAction::RunScript {
                                                        script,
                                                        func,
                                                        args,
                                                    },
                                                },
                                            )
                                        } else {
                                            None
                                        }
                                    },
                                },
                            },
                        }
                    } else {
                        None
                    }
                },
            },
        },
    }
}

/// Parses an envelope body as a response. `None` on any structural fault or
/// trailing bytes.
pub fn decode_python_response(s: &[u8]) -> (r: Option<PythonResponse>)
    ensures
        match python_response_of(s@) {
            None => r is None,
            Some(rv) => r matches Some(resp) && resp@ == rv,
        },
{
    match r_tag(s) {
        None => None,
        Some((t, s1)) => {
            let body: Option<(PythonResponse, &[u8])> = if t == 0 {
                Some((PythonResponse::Output, s1))
            } else if t == 1 {
                match r_tag(s1) {
                    None => None,
                    Some((te, s2)) => {
                        if te == 0 {
                            match r_str(s2) {
                                None => None,
                                Some((error, s3)) => Some(
                                    (PythonResponse::Failed { error: PythonError::NoCap { error } }, s3),
                                ),
                            }
                        } else if te == 1 {
                            match r_str(s2) {
                                None => None,
                                Some((error, s3)) => Some(
                                    (
                                        PythonResponse::Failed {
                                            error: PythonError::InputError { error },
                                        },
                                        s3,
                                    ),
                                ),
                            }
                        } else if te == 2 {
                            match r_str(s2) {
                                None => None,
                                Some((error, s3)) => Some(
                                    (
                                        PythonResponse::Failed {
                                            error: PythonError::IOError { error },
                                        },
                                        s3,
                                    ),
                                ),
                            }
                        } else {
                            None
                        }
                    },
                }
            } else {
                None
            };
            match body {
                None => None,
                Some((resp, rest)) => {
                    if rest.len() == 0 {
                        Some(resp)
                    } else {
                        None
                    }
                },
            }
        },
    }
}

// ---------------------------------------------------------------------------
// The façade.
// ---------------------------------------------------------------------------

/// Handle on the script runner for one tenant.
#[derive(Debug, PartialEq, Eq)]
pub struct Python {
    pub package_id: PackageId,
}

pub struct PythonV {
    pub package_id: PackageIdV,
}

impl View for Python {
    type V = PythonV;

    open spec fn view(&self) -> PythonV {
        PythonV { package_id: self.package_id@ }
    }
}

/// The prepared call for a script-runner request.
pub open spec fn python_call(r: PythonRequestV) -> PreparedCallV {
    PreparedCallV {
        target: python_address(),
        body: enc_python_request(r),
        blob: None,
        timeout_secs: CALL_TIMEOUT_SECS,
    }
}

impl Python {
    /// A runner acting for `package_id`.
    pub fn new(package_id: PackageId) -> (r: Self)
        ensures
            r@ == (PythonV { package_id: package_id@ }),
    {
        Self { package_id }
    }

    /// Run `func` of `script` with `args`. The output comes back on the blob
    /// channel; resolve the outcome with [`resolve_run_script`].
    pub fn run_script(&self, script: String, func: String, args: Vec<String>) -> (r: PreparedCall)
        ensures
            r@ == (python_call(
                PythonRequestV {
                    package_id: self.package_id@,
                    action: PythonActionV::RunScript {
                        script: script@,
                        func: func@,
                        args: str_list_v(args@),
                    },
                },
            )),
    {
        let req = PythonRequest {
            package_id: self.package_id.dup(),
            action: PythonAction::RunScript { script, func, args },
        };
        let body = encode_python_request(&req);
        PreparedCall { target: python_target(), body, blob: None, timeout_secs: CALL_TIMEOUT_SECS }
    }
}

// ---------------------------------------------------------------------------
// Resolution.
// ---------------------------------------------------------------------------

/// Resolution for `run_script`: an `Output` response must carry the blob with
/// the script's output; a business error passes through typed; anything else
/// is a protocol violation.
pub open spec fn spec_resolve_run_script(o: CallOutcomeV) -> Result<
    Seq<u8>,
    CallErrorV<PythonErrorV>,
> {
    match spec_transport(o) {
        Err(t) => Err(CallErrorV::Transport(t)),
        Ok((body, blob)) => match python_response_of(body) {
            None => Err(CallErrorV::Protocol(ProtocolError::MalformedResponse)),
            Some(resp) => match resp {
                PythonResponseV::Output => match blob {
                    Some(b) => Ok(b),
                    None => Err(CallErrorV::Protocol(ProtocolError::MissingBlob)),
                },
                PythonResponseV::Failed { error } => Err(CallErrorV::Service(error)),
            },
        },
    }
}

/// Resolves the outcome of [`Python::run_script`] into the script's output.
pub fn resolve_run_script(o: CallOutcome) -> (r: Result<Vec<u8>, CallError<PythonError>>)
    ensures
        match spec_resolve_run_script(o@) {
            Ok(b) => r matches Ok(v) && v@ == b,
            Err(e) => r matches Err(x) && x@ == e,
        },
{
    match transport_result(o) {
        Err(t) => Err(CallError::Transport(t)),
        Ok((body, blob)) => match decode_python_response(body.as_slice()) {
            None => Err(CallError::Protocol(ProtocolError::MalformedResponse)),
            Some(resp) => match resp {
                PythonResponse::Output => match blob {
                    Some(b) => Ok(b),
                    None => Err(CallError::Protocol(ProtocolError::MissingBlob)),
                },
                PythonResponse::Failed { error } => Err(CallError::Service(error)),
            },
        },
    }
}

// ---------------------------------------------------------------------------
// Laws of resolution.
// ---------------------------------------------------------------------------

/// A call that times out resolves to the timeout transport error — never a
/// business error. A timed-out outcome carries no blob, so nothing is left
/// for a later call to consume.
pub proof fn lemma_python_timeout_is_transport_error()
    ensures
        spec_resolve_run_script(CallOutcomeV::Timeout) == Err::<
            Seq<u8>,
            CallErrorV<PythonErrorV>,
        >(CallErrorV::Transport(TransportErrorV::Timeout)),
{
}

/// A capability rejection resolves to the `NoCap` business error with the
/// rejected scope's reason intact.
pub proof fn lemma_python_nocap_passes_through(reason: Seq<char>, blob: Option<Seq<u8>>)
    requires
        wf_str(reason),
    ensures
        spec_resolve_run_script(
            CallOutcomeV::Response {
                body: enc_python_response(
                    PythonResponseV::Failed { error: PythonErrorV::NoCap { error: reason } },
                ),
                blob,
            },
        ) == Err::<Seq<u8>, CallErrorV<PythonErrorV>>(
            CallErrorV::Service(PythonErrorV::NoCap { error: reason }),
        ),
{
    lemma_python_response_round_trip(
        PythonResponseV::Failed { error: PythonErrorV::NoCap { error: reason } },
    );
}

} // verus!

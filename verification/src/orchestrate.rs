//! The copy orchestrator: an explicit state machine that sequences
//! decode, the primary clipboard attempt and the raw-protocol fallback
//! into exactly one outcome per request.
//!
//! `Idle -> Decoding -> PrimaryAttempt -> (Success | FallbackAttempt)
//! -> (Success | Failed)`.  A decode failure of the image container
//! affects only the primary (pixel) route: the fallback still runs on
//! the raw bytes.  Only a failure to reverse the text encoding — which
//! leaves no raw bytes at all — is terminal by itself.
//!
//! The driver that owns the worker thread performs the outside work
//! (the primary attempt is made here through the clipboard writer; the
//! helper process is the driver's) and feeds results back as plain
//! values; every decision between states is verified.

use vstd::prelude::*;
use crate::clipboard::PrimaryError;
use crate::clipboard::write_image_to_clipboard;
use crate::decode::DecodedImage;
use crate::decode::base64_decoding;
use crate::decode::decode_payload;
use crate::decode::decode_raster_image;
use crate::decode::raster_decoding;
use crate::fallback::FallbackError;
use crate::fallback::fallback_detail;

verus! {

/// The mathematical model of an orchestration state.
pub enum CopyModel {
    Idle,
    Decoding { encoded: Seq<char> },
    PrimaryAttempt { raw: Seq<u8>, width: u32, height: u32, pixels: Seq<u8> },
    FallbackAttempt { raw: Seq<u8> },
    Success,
    Failed { detail: Seq<char> },
}

/// An orchestration state, carrying the data the remaining stages
/// need: the raw payload bytes survive until the fallback no longer
/// needs them.
pub enum CopyState {
    Idle,
    Decoding { encoded: String },
    PrimaryAttempt { raw: Vec<u8>, image: DecodedImage },
    FallbackAttempt { raw: Vec<u8> },
    Success,
    Failed { detail: String },
}

impl View for CopyState {
    type V = CopyModel;

    open spec fn view(&self) -> CopyModel {
        match self {
            CopyState::Idle => CopyModel::Idle,
            CopyState::Decoding { encoded } => (CopyModel::Decoding { encoded: encoded@ }),
            CopyState::PrimaryAttempt { raw, image } => (CopyModel::PrimaryAttempt {
                raw: raw@,
                width: image.width,
                height: image.height,
                pixels: image.pixels@,
            }),
            CopyState::FallbackAttempt { raw } => (CopyModel::FallbackAttempt { raw: raw@ }),
            CopyState::Success => CopyModel::Success,
            CopyState::Failed { detail } => (CopyModel::Failed { detail: detail@ }),
        }
    }
}

impl CopyState {
    /// A primary attempt always carries a well-formed decoded image.
    pub open spec fn wf(&self) -> bool {
        self matches CopyState::PrimaryAttempt { image, .. } ==> image.wf()
    }
}

/// Receiving a request enters `Decoding`.
pub open spec fn model_start(encoded: Seq<char>) -> CopyModel {
    CopyModel::Decoding { encoded }
}

/// Where decoding leads.  `encoding_detail` stands for the error text
/// of a failed text decoding, which the contracts leave open: only a
/// malformed text encoding — after which no raw bytes exist — is
/// terminal.  An unrecognizable image container skips the primary
/// (pixel) route but still reaches the fallback with the raw bytes.
pub open spec fn model_after_decode(m: CopyModel, encoding_detail: Seq<char>) -> CopyModel
    recommends
        m is Decoding,
{
    match base64_decoding(m->Decoding_encoded) {
        None => (CopyModel::Failed { detail: encoding_detail }),
        Some(raw) => match raster_decoding(raw) {
            None => (CopyModel::FallbackAttempt { raw }),
            Some(t) => (CopyModel::PrimaryAttempt { raw, width: t.0, height: t.1, pixels: t.2 }),
        },
    }
}

/// Where the primary clipboard attempt leads: success is terminal for
/// the whole request; any primary failure proceeds to the fallback
/// with the raw payload bytes carried unchanged.
pub open spec fn model_apply_primary(m: CopyModel, ok: bool) -> CopyModel
    recommends
        m is PrimaryAttempt,
{
    if ok {
        CopyModel::Success
    } else {
        CopyModel::FallbackAttempt { raw: m->PrimaryAttempt_raw }
    }
}

/// Where the fallback attempt leads: the helper's success is the
/// request's success; any helper failure is terminal with that
/// failure's detail.
pub open spec fn model_apply_fallback(m: CopyModel, failure: Option<Seq<char>>) -> CopyModel
    recommends
        m is FallbackAttempt,
{
    match failure {
        None => CopyModel::Success,
        Some(detail) => (CopyModel::Failed { detail }),
    }
}

/// Enter the state machine with a received request payload.
pub fn start_request(encoded: String) -> (r: CopyState)
    ensures
        r@ == model_start(encoded@),
        r.wf(),
{
    CopyState::Decoding { encoded }
}

/// Run the image decoder and move to the state its result dictates.
pub fn advance_decoding(state: CopyState) -> (next: CopyState)
    requires
        state@ is Decoding,
        state.wf(),
    ensures
        next.wf(),
        base64_decoding(state@->Decoding_encoded) is None ==> next@ is Failed,
        base64_decoding(state@->Decoding_encoded) is Some ==> next@ == model_after_decode(
            state@,
            Seq::<char>::empty(),
        ),
{
    match state {
        CopyState::Decoding { encoded } => {
            let raw = match decode_payload(encoded.as_str()) {
                Ok(raw) => raw,
                Err(e) => {
                    return CopyState::Failed { detail: e.into_detail() };
                },
            };
            match decode_raster_image(&raw) {
                Ok(image) => CopyState::PrimaryAttempt { raw, image },
                Err(_) => CopyState::FallbackAttempt { raw },
            }
        },
        other => other,
    }
}

/// Move to the state the primary clipboard writer's result dictates.
/// A primary failure is not surfaced to the caller: it is superseded
/// by the fallback attempt on the same raw bytes.
pub fn apply_primary_result(state: CopyState, result: Result<(), PrimaryError>) -> (next: CopyState)
    requires
        state@ is PrimaryAttempt,
    ensures
        next@ == model_apply_primary(state@, result is Ok),
        next.wf(),
{
    match state {
        CopyState::PrimaryAttempt { raw, image: _ } => {
            match result {
                Ok(()) => CopyState::Success,
                Err(_) => CopyState::FallbackAttempt { raw },
            }
        },
        other => other,
    }
}

/// Move to the terminal state the fallback writer's result dictates.
pub fn apply_fallback_result(
    state: CopyState,
    result: Result<(), FallbackError>,
) -> (next: CopyState)
    requires
        state@ is FallbackAttempt,
    ensures
        next@ == model_apply_fallback(state@, fallback_detail(result)),
        next.wf(),
{
    match state {
        CopyState::FallbackAttempt { raw: _ } => {
            match result {
                Ok(()) => CopyState::Success,
                Err(e) => CopyState::Failed { detail: e.into_detail() },
            }
        },
        other => other,
    }
}

/// The single outcome of a copy request, tagged with the version the
/// request carried so a caller can discard stale outcomes.
pub struct CopyOutcome {
    pub succeeded: bool,
    pub failure_detail: Option<String>,
    pub version: u32,
}

/// The one outcome a terminal state yields.  Consuming the state makes
/// a second outcome for the same request impossible; a non-terminal
/// state yields none.
pub fn into_outcome(state: CopyState, version: u32) -> (r: Option<CopyOutcome>)
    ensures
        state@ is Success ==> ({
            &&& r matches Some(o)
            &&& o.succeeded
            &&& o.failure_detail is None
            &&& o.version == version
        }),
        state@ matches CopyModel::Failed { detail } ==> ({
            &&& r matches Some(o)
            &&& !o.succeeded
            &&& o.failure_detail matches Some(d)
            &&& d@ == detail
            &&& o.version == version
        }),
        !(state@ is Success || state@ is Failed) ==> r is None,
{
    match state {
        CopyState::Success => Some(
            CopyOutcome { succeeded: true, failure_detail: None, version },
        ),
        CopyState::Failed { detail } => Some(
            CopyOutcome { succeeded: false, failure_detail: Some(detail), version },
        ),
        _ => None,
    }
}

/// Law: a primary-writer success is terminal for the whole request —
/// from a successful primary attempt the machine reaches `Success`,
/// and the fallback writer is never entered.
pub proof fn lemma_primary_success_skips_fallback(m: CopyModel)
    requires
        m is PrimaryAttempt,
    ensures
        model_apply_primary(m, true) is Success,
        !(model_apply_primary(m, true) is FallbackAttempt),
{
}

/// Law: when the primary writer fails, the fallback attempt receives
/// exactly the raw bytes the request's text decoded to — the original
/// encoded container bytes, not a re-encoding of the decoded pixels.
pub proof fn lemma_fallback_gets_original_bytes(encoded: Seq<char>, encoding_detail: Seq<char>)
    requires
        base64_decoding(encoded) is Some,
        raster_decoding(base64_decoding(encoded).unwrap()) is Some,
    ensures
        ({
            let raw = base64_decoding(encoded).unwrap();
            let after_decode = model_after_decode(model_start(encoded), encoding_detail);
            &&& after_decode is PrimaryAttempt
            &&& after_decode->PrimaryAttempt_raw == raw
            &&& model_apply_primary(after_decode, false) == (CopyModel::FallbackAttempt { raw })
        }),
{
}

/// Decode the payload and make the primary clipboard attempt.  The
/// returned state is everything the driver still has to act on: either
/// a terminal state, or `FallbackAttempt` carrying exactly the raw
/// bytes the request's text decoded to — never a re-encoding.
pub fn run_primary_route(encoded: String) -> (r: CopyState)
    ensures
        r.wf(),
        base64_decoding(encoded@) is None ==> r@ is Failed,
        base64_decoding(encoded@) matches Some(raw) ==> (r@ is Success || r@ == (
        CopyModel::FallbackAttempt { raw })),
{
    let state = start_request(encoded);
    let state = advance_decoding(state);
    match state {
        CopyState::PrimaryAttempt { raw, image } => {
            let result = write_image_to_clipboard(&image);
            apply_primary_result(CopyState::PrimaryAttempt { raw, image }, result)
        },
        other => other,
    }
}

} // verus!

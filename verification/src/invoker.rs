//! The timed invoker: wraps one in-process backend invocation with wall-clock
//! timing and failure capture, packaging the elapsed time and the result into
//! a `BackendOutcome` on success and on failure alike — failure latency is a
//! benchmark signal of its own. Backends whose call must happen outside this
//! library (the subprocess tool, and the pure-library extractor behind its
//! fault barrier) hand their timed capture to a packaging function here.

use vstd::prelude::*;
use crate::cli_pdftotext::ProcessCapture;
use crate::cli_pdftotext::pdftotext_post;
use crate::cli_pdftotext::pdftotext_result;
use crate::lopdf_backend::lopdf_post;
use crate::lopdf_backend::run_lopdf;
use crate::outcome::BackendOutcome;
use crate::pdf_extract_backend::PdfExtractCall;
use crate::pdf_extract_backend::pdf_extract_post;
use crate::pdf_extract_backend::pdf_extract_result;
use crate::pdfium_backend::pdfium_post;
use crate::pdfium_backend::run_pdfium;
use crate::registry::BackendKind;
use crate::registry::BackendRegistration;

verus! {

/// A monotonic timestamp, opaque here.
#[verifier::external_type_specification]
#[verifier::external_body]
pub struct ExInstant(std::time::Instant);

/// Relies on std::time::Instant::now: an opaque reading of the monotonic
/// clock.
pub assume_specification[ std::time::Instant::now ]() -> std::time::Instant;

/// Relies on std::time::Instant::elapsed: the time since the timestamp was
/// taken.
pub assume_specification[ std::time::Instant::elapsed ](
    start: &std::time::Instant,
) -> core::time::Duration;

/// Relies on core::time::Duration::as_nanos: the duration in whole
/// nanoseconds.
pub assume_specification[ core::time::Duration::as_nanos ](d: &core::time::Duration) -> u128;

/// Invokes one in-process backend under the wall clock: reads the monotonic
/// clock, invokes the backend synchronously, reads the clock again, and
/// packages the elapsed nanoseconds with the result, captured on the failure
/// path exactly as on the success path. Backends whose call happens outside
/// this library — the subprocess tool, the fault-barriered pure-library
/// extractor, and any backend absent from this build — yield no outcome
/// here.
pub fn invoke_timed(reg: &BackendRegistration, bytes: &[u8], pdfium_lib_dir: &str) -> (o: Option<
    BackendOutcome,
>)
    ensures
        o matches Some(out) ==> out.backend_name@ == reg.name@,
        reg.kind is Lopdf ==> (o matches Some(out) && lopdf_post(out.result)),
        reg.kind is PdfiumRender ==> (o matches Some(out) && pdfium_post(out.result)),
        o is None <==> (reg.kind is PdfExtract || reg.kind is Poppler
            || reg.kind is PdftotextCli),
{
    match reg.kind {
        BackendKind::Lopdf => {
            let start = std::time::Instant::now();
            let result = run_lopdf(bytes);
            let nanos = start.elapsed().as_nanos();
            Some(
                BackendOutcome {
                    backend_name: reg.name.clone(),
                    duration_nanos: nanos,
                    result,
                },
            )
        },
        BackendKind::PdfiumRender => {
            let start = std::time::Instant::now();
            let result = run_pdfium(pdfium_lib_dir, bytes);
            let nanos = start.elapsed().as_nanos();
            Some(
                BackendOutcome {
                    backend_name: reg.name.clone(),
                    duration_nanos: nanos,
                    result,
                },
            )
        },
        BackendKind::PdfExtract => None,
        BackendKind::Poppler => None,
        BackendKind::PdftotextCli => None,
    }
}

/// Packages one timed, fault-barriered call of the pure-library extractor
/// into that backend's outcome, classifying the capture.
pub fn pdf_extract_outcome(
    reg: &BackendRegistration,
    duration_nanos: u128,
    call: &PdfExtractCall,
) -> (out: BackendOutcome)
    ensures
        out.backend_name@ == reg.name@,
        out.duration_nanos == duration_nanos,
        pdf_extract_post(*call, out.result),
{
    let result = pdf_extract_result(call);
    BackendOutcome { backend_name: reg.name.clone(), duration_nanos, result }
}

/// Packages what the harness captured from one timed subprocess invocation
/// into that backend's outcome, classifying the capture.
pub fn pdftotext_outcome(
    reg: &BackendRegistration,
    duration_nanos: u128,
    cap: &ProcessCapture,
) -> (out: BackendOutcome)
    ensures
        out.backend_name@ == reg.name@,
        out.duration_nanos == duration_nanos,
        pdftotext_post(*cap, out.result),
{
    let result = pdftotext_result(cap);
    BackendOutcome { backend_name: reg.name.clone(), duration_nanos, result }
}

} // verus!

//! The pure-library backend: the document is decoded entirely in memory and
//! all of its text extracted by `pdf_extract::extract_text_from_mem`. That
//! library can fault outright on malformed documents (it indexes page
//! objects, media boxes and font tables without checking), and a fault must
//! never cross a backend's boundary; since verified code may not catch one,
//! the harness makes the call behind a fault barrier and hands what happened
//! here as plain values. The classification below is verified for every
//! possible capture: the byte count and the form-feed page heuristic of the
//! extracted text, and a pinned decode error for a failure or a fault.

use vstd::prelude::*;
use vstd::utf8::encode_utf8;
use crate::outcome::ExtractionError;
use crate::outcome::ExtractionResult;
use crate::textstats::page_count_heuristic;
use crate::textstats::spec_page_count_heuristic;
use crate::textstats::utf8_byte_len;

verus! {

/// What one call of `pdf_extract::extract_text_from_mem` did: it returned
/// the extracted text, it returned an error (rendered to text), or it did
/// not return at all and the fault was caught and described.
pub enum PdfExtractCall {
    Text(String),
    Failed(String),
    Faulted(String),
}

/// The contract of this backend's classification: extracted text yields its
/// byte count and its form-feed page heuristic; a library error and a caught
/// fault each yield a decode error whose message is pinned.
pub open spec fn pdf_extract_post(
    call: PdfExtractCall,
    r: Result<ExtractionResult, ExtractionError>,
) -> bool {
    match call {
        PdfExtractCall::Text(text) => r matches Ok(res)
            && res.extracted_byte_count == encode_utf8(text@).len() as usize && (
        match res.page_count {
            Some(p) => spec_page_count_heuristic(text@) == Some(p as int),
            None => spec_page_count_heuristic(text@) is None,
        }),
        PdfExtractCall::Failed(e) => r matches Err(ExtractionError::Decode(m)) && m@
            == "pdf-extract error: "@ + e@,
        PdfExtractCall::Faulted(d) => r matches Err(ExtractionError::Decode(m)) && m@
            == "pdf-extract fault: "@ + d@,
    }
}

/// Classifies and measures one capture of the library call.
pub fn pdf_extract_result(call: &PdfExtractCall) -> (r: Result<ExtractionResult, ExtractionError>)
    ensures
        pdf_extract_post(*call, r),
{
    match call {
        PdfExtractCall::Text(text) => {
            let len = utf8_byte_len(text.as_str());
            let pages = page_count_heuristic(text.as_str());
            Ok(ExtractionResult { extracted_byte_count: len, page_count: pages })
        },
        PdfExtractCall::Failed(e) => {
            let mut m = String::from_str("pdf-extract error: ");
            m.append(e.as_str());
            Err(ExtractionError::Decode(m))
        },
        PdfExtractCall::Faulted(d) => {
            let mut m = String::from_str("pdf-extract fault: ");
            m.append(d.as_str());
            Err(ExtractionError::Decode(m))
        },
    }
}

/// Law: this backend's classification is idempotent on an unchanged capture:
/// any two results that meet its contract for the same capture share the
/// same success classification, the same byte count, and the same page
/// count.
pub proof fn lemma_pdf_extract_idempotent(
    call: PdfExtractCall,
    r1: Result<ExtractionResult, ExtractionError>,
    r2: Result<ExtractionResult, ExtractionError>,
)
    requires
        pdf_extract_post(call, r1),
        pdf_extract_post(call, r2),
    ensures
        r1 is Ok <==> r2 is Ok,
        r1 is Ok ==> r1->Ok_0.extracted_byte_count == r2->Ok_0.extracted_byte_count,
        r1 is Ok ==> r1->Ok_0.page_count == r2->Ok_0.page_count,
{
}

} // verus!

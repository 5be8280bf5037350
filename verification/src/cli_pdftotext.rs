//! The subprocess backend: an external pdftotext tool is launched with the
//! document path, its standard output is taken as the extracted text, and a
//! non-zero exit status is a failure. The launch itself happens outside this
//! library; what was captured is classified and measured here, so the
//! classification is verified for every possible capture. This backend family
//! has no page-boundary signal, so it never reports a page count.

use vstd::prelude::*;
use vstd::utf8::decode_utf8;
use vstd::utf8::encode_utf8;
use vstd::utf8::valid_utf8;
use crate::outcome::ExtractionError;
use crate::outcome::ExtractionResult;
use crate::textstats::lemma_encode_utf8_len;
use crate::textstats::utf8_byte_len;

verus! {

/// What `String::from_utf8_lossy` returns for the given bytes: their UTF-8
/// decoding with every invalid sequence replaced, a function of the bytes
/// alone.
pub uninterp spec fn utf8_lossy_of(bytes: Seq<u8>) -> Seq<char>;

/// Relies on String::from_utf8_lossy: decodes the bytes as UTF-8, replacing
/// each invalid sequence with the replacement character, so nonempty input
/// decodes to nonempty text and valid UTF-8 decodes exactly.
#[verifier::external_body]
fn utf8_lossy(bytes: &Vec<u8>) -> (r: String)
    ensures
        r@ == utf8_lossy_of(bytes@),
        bytes@.len() > 0 ==> r@.len() > 0,
        valid_utf8(bytes@) ==> r@ == decode_utf8(bytes@),
        encode_utf8(r@).len() <= usize::MAX,
{
    String::from_utf8_lossy(bytes.as_slice()).into_owned()
}

/// Everything the harness captured from one attempt to run the external
/// tool: whether it could be launched at all, how the launch failed, whether
/// it exited successfully, a description of its exit status, and its raw
/// standard output.
pub struct ProcessCapture {
    pub launched: bool,
    pub launch_error: String,
    pub exit_success: bool,
    pub exit_description: String,
    pub stdout: Vec<u8>,
}

/// The contract of the subprocess backend's classification: a launch failure
/// and a non-zero exit each yield their error with a pinned message; a
/// successful exit yields the byte count of the lossily decoded output and no
/// page count, and the count is positive whenever the tool wrote output.
pub open spec fn pdftotext_post(
    cap: ProcessCapture,
    r: Result<ExtractionResult, ExtractionError>,
) -> bool {
    if !cap.launched {
        r matches Err(ExtractionError::ProcessLaunch(m)) && m@ == "failed to run pdftotext: "@
            + cap.launch_error@
    } else if !cap.exit_success {
        r matches Err(ExtractionError::NonZeroExit(m)) && m@ == "pdftotext failed: "@
            + cap.exit_description@
    } else {
        r matches Ok(res) && res.page_count is None && res.extracted_byte_count == encode_utf8(
            utf8_lossy_of(cap.stdout@),
        ).len() && (cap.stdout@.len() > 0 ==> res.extracted_byte_count > 0)
    }
}

/// Classifies and measures one capture of the external tool.
pub fn pdftotext_result(cap: &ProcessCapture) -> (r: Result<ExtractionResult, ExtractionError>)
    ensures
        pdftotext_post(*cap, r),
{
    if !cap.launched {
        let mut m = String::from_str("failed to run pdftotext: ");
        m.append(cap.launch_error.as_str());
        Err(ExtractionError::ProcessLaunch(m))
    } else if !cap.exit_success {
        let mut m = String::from_str("pdftotext failed: ");
        m.append(cap.exit_description.as_str());
        Err(ExtractionError::NonZeroExit(m))
    } else {
        let text = utf8_lossy(&cap.stdout);
        proof {
            lemma_encode_utf8_len(text@);
        }
        let len = utf8_byte_len(text.as_str());
        Ok(ExtractionResult { extracted_byte_count: len, page_count: None })
    }
}

/// Law: the subprocess backend's classification is idempotent on an
/// unchanged capture: any two results that meet its contract for the same
/// capture share the same success classification, byte count, and page
/// count.
pub proof fn lemma_pdftotext_idempotent(
    cap: ProcessCapture,
    r1: Result<ExtractionResult, ExtractionError>,
    r2: Result<ExtractionResult, ExtractionError>,
)
    requires
        pdftotext_post(cap, r1),
        pdftotext_post(cap, r2),
    ensures
        r1 is Ok <==> r2 is Ok,
        r1 is Ok ==> r1->Ok_0.extracted_byte_count == r2->Ok_0.extracted_byte_count,
        r1 is Ok ==> r1->Ok_0.page_count == r2->Ok_0.page_count,
{
}

} // verus!

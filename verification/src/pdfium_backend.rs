//! The native-binding backend: binds the native library as a scoped resource
//! for the duration of the call, opens the document from bytes, iterates its
//! pages, and concatenates the per-page text. A failure to load or bind the
//! native library is scoped to this backend alone, like every other failure
//! here: it becomes an error in this backend's block and cannot disturb a
//! sibling invocation.

use vstd::prelude::*;
use crate::assemble::assemble_extraction;
use crate::outcome::ExtractionError;
use crate::outcome::ExtractionResult;
use crate::outcome::msg_with_prefix;

verus! {

/// The initialized native-library handle, opaque here.
#[verifier::external_type_specification]
#[verifier::external_body]
pub struct ExPdfium(pdfium_render::prelude::Pdfium);

/// A document opened by the native library, opaque here.
#[verifier::external_type_specification]
#[verifier::external_body]
pub struct ExPdfDocument<'a>(pdfium_render::prelude::PdfDocument<'a>);

/// A document's page collection, opaque here.
#[verifier::external_type_specification]
#[verifier::external_body]
pub struct ExPdfPages<'a>(pdfium_render::prelude::PdfPages<'a>);

/// One page of a document, opaque here.
#[verifier::external_type_specification]
#[verifier::external_body]
pub struct ExPdfPage<'a>(pdfium_render::prelude::PdfPage<'a>);

/// The text object of one page, opaque here.
#[verifier::external_type_specification]
#[verifier::external_body]
pub struct ExPdfPageText<'a>(pdfium_render::prelude::PdfPageText<'a>);

/// Relies on pdfium_render's Pdfium::pdfium_platform_library_name_at_path,
/// Pdfium::bind_to_library and Pdfium::new: resolves the platform's library
/// name under the given directory, loads and binds it, and initializes the
/// bindings; a failure is converted to its debug rendering. The values
/// between the three calls (a path, and a boxed bindings trait object)
/// cannot be named here, so the calls share this one boundary.
#[verifier::external_body]
fn pdfium_bind(lib_dir: &str) -> (r: Result<pdfium_render::prelude::Pdfium, String>)
{
    match pdfium_render::prelude::Pdfium::bind_to_library(
        pdfium_render::prelude::Pdfium::pdfium_platform_library_name_at_path(lib_dir),
    ) {
        Ok(bindings) => Ok(pdfium_render::prelude::Pdfium::new(bindings)),
        Err(e) => Err(format!("{:?}", e)),
    }
}

/// Relies on Pdfium::load_pdf_from_byte_slice: opens a document from the
/// byte buffer without a password; the error case is converted to its debug
/// rendering.
#[verifier::external_body]
fn pdfium_load<'a>(pdfium: &'a pdfium_render::prelude::Pdfium, bytes: &'a [u8]) -> (r: Result<
    pdfium_render::prelude::PdfDocument<'a>,
    String,
>)
{
    match pdfium.load_pdf_from_byte_slice(bytes, None) {
        Ok(doc) => Ok(doc),
        Err(e) => Err(format!("{:?}", e)),
    }
}

/// Relies on PdfDocument::pages: borrows the document's page collection.
#[verifier::external_body]
fn pdfium_pages<'a, 'b>(doc: &'b pdfium_render::prelude::PdfDocument<'a>) -> (r:
    &'b pdfium_render::prelude::PdfPages<'a>)
{
    doc.pages()
}

/// Relies on PdfPages::len: how many pages the document has, in the native
/// page-index width.
#[verifier::external_body]
fn pdfium_page_count(pages: &pdfium_render::prelude::PdfPages) -> (n: i32)
{
    pages.len()
}

/// Relies on PdfPages::get: borrows one page by index; the error case is
/// converted to its debug rendering.
#[verifier::external_body]
fn pdfium_page<'a>(pages: &pdfium_render::prelude::PdfPages<'a>, index: i32) -> (r: Result<
    pdfium_render::prelude::PdfPage<'a>,
    String,
>)
{
    match pages.get(index) {
        Ok(page) => Ok(page),
        Err(e) => Err(format!("{:?}", e)),
    }
}

/// Relies on PdfPage::text: the page's text object; the error case is
/// converted to its debug rendering.
#[verifier::external_body]
fn pdfium_page_text<'a, 'b>(page: &'b pdfium_render::prelude::PdfPage<'a>) -> (r: Result<
    pdfium_render::prelude::PdfPageText<'b>,
    String,
>)
{
    match page.text() {
        Ok(text) => Ok(text),
        Err(e) => Err(format!("{:?}", e)),
    }
}

/// Relies on PdfPageText::all: all text on the page as one string.
#[verifier::external_body]
fn pdfium_text_all(text: &pdfium_render::prelude::PdfPageText) -> (r: String)
{
    text.all()
}

/// What this backend guarantees of every outcome, whatever the native
/// library did: success always carries a page count; a failure is either the
/// native library failing to load — reported under a message naming the load
/// failure — or a decode failure naming the failed step, and either way it is
/// scoped to this one invocation.
pub open spec fn pdfium_post(r: Result<ExtractionResult, ExtractionError>) -> bool {
    match r {
        Ok(res) => res.page_count is Some,
        Err(e) => match e {
            ExtractionError::NativeLoad(m) => msg_with_prefix("pdfium load error: "@, m@),
            ExtractionError::Decode(m) => msg_with_prefix("pdfium load error: "@, m@)
                || msg_with_prefix("pdfium page error: "@, m@) || msg_with_prefix(
                "pdfium text error: "@,
                m@,
            ),
            _ => false,
        },
    }
}

/// Runs the native-binding backend: binds the native library found under
/// `lib_dir`, opens the document from bytes, and concatenates the text of
/// every page.
pub fn run_pdfium(lib_dir: &str, bytes: &[u8]) -> (r: Result<ExtractionResult, ExtractionError>)
    ensures
        pdfium_post(r),
{
    let pdfium = match pdfium_bind(lib_dir) {
        Ok(p) => p,
        Err(e) => {
            let mut m = String::from_str("pdfium load error: ");
            m.append(e.as_str());
            proof {
                assert(m@ == "pdfium load error: "@ + e@);
            }
            return Err(ExtractionError::NativeLoad(m));
        },
    };
    let doc = match pdfium_load(&pdfium, bytes) {
        Ok(doc) => doc,
        Err(e) => {
            let mut m = String::from_str("pdfium load error: ");
            m.append(e.as_str());
            proof {
                assert(m@ == "pdfium load error: "@ + e@);
            }
            return Err(ExtractionError::Decode(m));
        },
    };
    let pages = pdfium_pages(&doc);
    let n = pdfium_page_count(pages);
    let page_count: usize = if n <= 0 {
        0
    } else {
        n as usize
    };
    let mut texts: Vec<String> = Vec::new();
    let mut i: i32 = 0;
    while i < n
        invariant
            0 <= i,
            i <= n || n < 0,
        decreases n - i,
    {
        let page = match pdfium_page(pages, i) {
            Ok(page) => page,
            Err(e) => {
                let mut m = String::from_str("pdfium page error: ");
                m.append(e.as_str());
                proof {
                    assert(m@ == "pdfium page error: "@ + e@);
                }
                return Err(ExtractionError::Decode(m));
            },
        };
        let text = match pdfium_page_text(&page) {
            Ok(text) => text,
            Err(e) => {
                let mut m = String::from_str("pdfium text error: ");
                m.append(e.as_str());
                proof {
                    assert(m@ == "pdfium text error: "@ + e@);
                }
                return Err(ExtractionError::Decode(m));
            },
        };
        texts.push(pdfium_text_all(&text));
        i = i + 1;
    }
    Ok(assemble_extraction(&texts, page_count))
}

} // verus!

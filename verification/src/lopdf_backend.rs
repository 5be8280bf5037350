//! The low-level parsing backend: loads the document with lopdf, walks its
//! pages in order, extracts each page's text, and reports the byte count of
//! the concatenation and the number of pages. The library's answers are
//! gathered page by page as plain values, and every decision made on them is
//! verified in `lopdf_outcome`: a page whose object does not resolve fails
//! the whole invocation with a pinned message, a page whose text extraction
//! fails contributes nothing to the concatenation, and success reports the
//! byte count of the in-order concatenation and the number of pages listed.

use vstd::prelude::*;
use vstd::utf8::encode_utf8;
use crate::assemble::assemble_extraction;
use crate::outcome::ExtractionError;
use crate::outcome::ExtractionResult;
use crate::outcome::msg_with_prefix;
use crate::textstats::concat_views;

verus! {

/// lopdf's parsed document, opaque here: the logic only threads it through
/// the trusted wrappers below.
#[verifier::external_type_specification]
#[verifier::external_body]
pub struct ExLopdfDocument(lopdf::Document);

/// Relies on lopdf::Document::load_mem: parses a document from a byte
/// buffer; the error case is converted to its display rendering.
#[verifier::external_body]
fn lopdf_load(bytes: &[u8]) -> (r: Result<lopdf::Document, String>)
{
    match lopdf::Document::load_mem(bytes) {
        Ok(doc) => Ok(doc),
        Err(e) => Err(format!("{}", e)),
    }
}

/// Relies on lopdf::Document::get_pages: yields each page number with its
/// object id; the page numbers come out in strictly increasing order.
#[verifier::external_body]
fn lopdf_pages(doc: &lopdf::Document) -> (r: Vec<(u32, (u32, u16))>)
    ensures
        forall|i: int, j: int| 0 <= i < j < r@.len() ==> r@[i].0 < r@[j].0,
{
    doc.get_pages().into_iter().collect()
}

/// Relies on lopdf::Document::get_object: checks that the object id resolves
/// in the document, discarding the object itself; the error case is
/// converted to its display rendering.
#[verifier::external_body]
fn lopdf_get_object(doc: &lopdf::Document, id: (u32, u16)) -> (r: Result<(), String>)
{
    match doc.get_object(id) {
        Ok(_) => Ok(()),
        Err(e) => Err(format!("{}", e)),
    }
}

/// Relies on lopdf::Document::extract_text: the text of the given page; the
/// error case is converted to its display rendering.
#[verifier::external_body]
fn lopdf_extract_page_text(doc: &lopdf::Document, page: u32) -> (r: Result<String, String>)
{
    match doc.extract_text(&[page]) {
        Ok(text) => Ok(text),
        Err(e) => Err(format!("{}", e)),
    }
}

/// What the library answered for one listed page: whether its object
/// resolved (with the failure rendered when it did not), and what extracting
/// its text returned.
pub struct PageExtraction {
    pub page_number: u32,
    pub object_resolves: bool,
    pub resolve_error: String,
    pub extract: Result<String, String>,
}

/// The index of the first page whose object did not resolve, if any.
pub open spec fn first_unresolved(pages: Seq<PageExtraction>) -> Option<int>
    decreases pages.len(),
{
    if pages.len() == 0 {
        None
    } else if !pages[0].object_resolves {
        Some(0)
    } else {
        match first_unresolved(pages.drop_first()) {
            Some(i) => Some(i + 1),
            None => None,
        }
    }
}

/// The concatenation, in page order, of exactly the texts whose extraction
/// succeeded; a failed extraction contributes nothing.
pub open spec fn concat_extracted(pages: Seq<PageExtraction>) -> Seq<char>
    decreases pages.len(),
{
    if pages.len() == 0 {
        Seq::empty()
    } else {
        concat_extracted(pages.drop_last()) + (match pages.last().extract {
            Ok(text) => text@,
            Err(_) => Seq::empty(),
        })
    }
}

/// The contract of this backend's decisions on what the library handed back:
/// the invocation is a decode error, with a pinned message, exactly when some
/// page object failed to resolve (the first such, in order); otherwise it
/// succeeds with the number of pages listed — even zero — and the byte count
/// of the in-order concatenation of the successfully extracted texts.
pub open spec fn lopdf_pages_post(
    pages: Seq<PageExtraction>,
    r: Result<ExtractionResult, ExtractionError>,
) -> bool {
    match first_unresolved(pages) {
        Some(i) => r matches Err(ExtractionError::Decode(m)) && m@ == "get page error: "@
            + pages[i].resolve_error@,
        None => r matches Ok(res) && res.page_count matches Some(n) && n == pages.len()
            && res.extracted_byte_count == encode_utf8(concat_extracted(pages)).len() as usize,
    }
}

proof fn lemma_first_unresolved_none(pages: Seq<PageExtraction>)
    requires
        forall|j: int| 0 <= j < pages.len() ==> pages[j].object_resolves,
    ensures
        first_unresolved(pages) is None,
    decreases pages.len(),
{
    if pages.len() > 0 {
        lemma_first_unresolved_none(pages.drop_first());
    }
}

proof fn lemma_first_unresolved_at(pages: Seq<PageExtraction>, i: int)
    requires
        0 <= i < pages.len(),
        !pages[i].object_resolves,
        forall|j: int| 0 <= j < i ==> pages[j].object_resolves,
    ensures
        first_unresolved(pages) == Some(i),
    decreases i,
{
    if i > 0 {
        lemma_first_unresolved_at(pages.drop_first(), i - 1);
    }
}

/// Decides one invocation from the per-page answers.
pub fn lopdf_outcome(pages: &Vec<PageExtraction>) -> (r: Result<ExtractionResult, ExtractionError>)
    ensures
        lopdf_pages_post(pages@, r),
{
    let mut texts: Vec<String> = Vec::new();
    let mut i: usize = 0;
    while i < pages.len()
        invariant
            i <= pages@.len(),
            forall|j: int| 0 <= j < i ==> pages@[j].object_resolves,
            concat_views(texts@) == concat_extracted(pages@.take(i as int)),
        decreases pages@.len() - i,
    {
        proof {
            assert(pages@.take(i + 1).drop_last() =~= pages@.take(i as int));
            assert(texts@.push(pages@[i as int].extract->Ok_0).drop_last() =~= texts@);
        }
        if !pages[i].object_resolves {
            proof {
                lemma_first_unresolved_at(pages@, i as int);
            }
            let mut m = String::from_str("get page error: ");
            m.append(pages[i].resolve_error.as_str());
            return Err(ExtractionError::Decode(m));
        }
        match &pages[i].extract {
            Ok(text) => texts.push(text.clone()),
            Err(_) => {
                proof {
                    assert(concat_views(texts@) + Seq::<char>::empty() =~= concat_views(texts@));
                }
            },
        }
        i = i + 1;
    }
    proof {
        assert(pages@.take(pages@.len() as int) =~= pages@);
        lemma_first_unresolved_none(pages@);
    }
    Ok(assemble_extraction(&texts, pages.len()))
}

/// What every outcome of this backend satisfies, whatever the library
/// returned: success always carries a page count, and every failure is a
/// decode failure with a message naming the failed step.
pub open spec fn lopdf_post(r: Result<ExtractionResult, ExtractionError>) -> bool {
    match r {
        Ok(res) => res.page_count is Some,
        Err(e) => e matches ExtractionError::Decode(m) && (msg_with_prefix("lopdf load error: "@, m@)
            || msg_with_prefix("get page error: "@, m@)),
    }
}

/// Runs the low-level parsing backend on the document bytes: load, gather
/// the library's per-page answers in page order, then decide the outcome
/// with `lopdf_outcome`.
pub fn run_lopdf(bytes: &[u8]) -> (r: Result<ExtractionResult, ExtractionError>)
    ensures
        lopdf_post(r),
{
    let doc = match lopdf_load(bytes) {
        Ok(doc) => doc,
        Err(e) => {
            let mut m = String::from_str("lopdf load error: ");
            m.append(e.as_str());
            proof {
                assert(m@ == "lopdf load error: "@ + e@);
            }
            return Err(ExtractionError::Decode(m));
        },
    };
    let listed = lopdf_pages(&doc);
    let mut pages: Vec<PageExtraction> = Vec::new();
    let mut i: usize = 0;
    while i < listed.len()
        decreases listed@.len() - i,
    {
        let (page_number, object_id) = listed[i];
        let (object_resolves, resolve_error) = match lopdf_get_object(&doc, object_id) {
            Ok(()) => (true, String::new()),
            Err(e) => (false, e),
        };
        let extract = lopdf_extract_page_text(&doc, page_number);
        pages.push(PageExtraction { page_number, object_resolves, resolve_error, extract });
        i = i + 1;
    }
    let r = lopdf_outcome(&pages);
    proof {
        match first_unresolved(pages@) {
            Some(k) => {
                assert(r matches Err(ExtractionError::Decode(m)) && m@ == "get page error: "@
                    + pages@[k].resolve_error@);
            },
            None => {},
        }
    }
    r
}

/// Law: the decisions on the library's per-page answers are idempotent: any
/// two results that meet their contract for the same answers share the same
/// success classification, byte count, and page count.
pub proof fn lemma_lopdf_outcome_idempotent(
    pages: Seq<PageExtraction>,
    r1: Result<ExtractionResult, ExtractionError>,
    r2: Result<ExtractionResult, ExtractionError>,
)
    requires
        lopdf_pages_post(pages, r1),
        lopdf_pages_post(pages, r2),
    ensures
        r1 is Ok <==> r2 is Ok,
        r1 is Ok ==> r1->Ok_0.extracted_byte_count == r2->Ok_0.extracted_byte_count,
        r1 is Ok ==> r1->Ok_0.page_count == r2->Ok_0.page_count,
{
}

} // verus!

//! Packaging of per-page extraction output into an `ExtractionResult`: the
//! concatenated text's byte count together with a page count. Backends that
//! enumerate pages hand their page texts here, so this step is verified for
//! every value the outside libraries can return.

use vstd::prelude::*;
use vstd::utf8::encode_utf8;
use crate::outcome::ExtractionResult;
use crate::textstats::concat_views;
use crate::textstats::utf8_byte_len;

verus! {

/// Concatenates the per-page texts in order and packages their total byte
/// count with the given page count.
pub fn assemble_extraction(texts: &Vec<String>, pages: usize) -> (res: ExtractionResult)
    ensures
        res.extracted_byte_count == encode_utf8(concat_views(texts@)).len() as usize,
        res.page_count == Some(pages),
{
    let mut all = String::new();
    let mut i: usize = 0;
    while i < texts.len()
        invariant
            i <= texts@.len(),
            all@ == concat_views(texts@.take(i as int)),
        decreases texts@.len() - i,
    {
        proof {
            assert(texts@.take(i + 1).drop_last() =~= texts@.take(i as int));
        }
        all.append(texts[i].as_str());
        i = i + 1;
    }
    proof {
        assert(texts@.take(texts@.len() as int) =~= texts@);
    }
    let len = utf8_byte_len(all.as_str());
    ExtractionResult { extracted_byte_count: len, page_count: Some(pages) }
}

} // verus!

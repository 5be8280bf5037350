//! The report renderer: every attempted backend yields one fixed-shape,
//! human-readable block, whether it succeeded or failed, and disabled
//! backends yield a one-line notice. Rendering is deterministic: the lines
//! are pinned, character for character, by the specification functions here.

use vstd::prelude::*;
use crate::numfmt::decimal_string;
use crate::numfmt::millis_two_decimals;
use crate::numfmt::spec_decimal;
use crate::numfmt::spec_millis_two_decimals;
use crate::outcome::BackendOutcome;

verus! {

/// The lines of the report block for one backend outcome: a separator, the
/// backend's name, the elapsed time in milliseconds, the extracted byte count
/// (zero on failure), the page count when known, a success flag, and the
/// error message when the invocation failed.
pub open spec fn spec_report_lines(o: BackendOutcome) -> Seq<Seq<char>> {
    let head = seq![
        "---"@,
        "Backend: "@ + o.backend_name@,
        "  Time: "@ + spec_millis_two_decimals(o.duration_nanos as int) + " ms"@,
    ];
    match o.result {
        Ok(res) => {
            let with_bytes = head.push(
                "  Extracted bytes: "@ + spec_decimal(res.extracted_byte_count as int),
            );
            let with_pages = match res.page_count {
                Some(p) => with_bytes.push("  Pages: "@ + spec_decimal(p as int)),
                None => with_bytes,
            };
            with_pages.push("  Success: true"@)
        },
        Err(e) => head.push("  Extracted bytes: "@ + spec_decimal(0)).push(
            "  Success: false"@,
        ).push("  Error: "@ + e.spec_message()),
    }
}

/// Renders the report block for one outcome. Same outcome, same lines.
pub fn render_report(o: &BackendOutcome) -> (lines: Vec<String>)
    ensures
        lines@.len() == spec_report_lines(*o).len(),
        forall|i: int| 0 <= i < lines@.len() ==> lines@[i]@ == spec_report_lines(*o)[i],
{
    let mut lines: Vec<String> = Vec::new();
    lines.push(String::from_str("---"));
    let mut name_line = String::from_str("Backend: ");
    name_line.append(o.backend_name.as_str());
    lines.push(name_line);
    let mut time_line = String::from_str("  Time: ");
    let ms = millis_two_decimals(o.duration_nanos);
    time_line.append(ms.as_str());
    time_line.append(" ms");
    lines.push(time_line);
    match &o.result {
        Ok(res) => {
            let mut bytes_line = String::from_str("  Extracted bytes: ");
            let count = decimal_string(res.extracted_byte_count as u128);
            bytes_line.append(count.as_str());
            lines.push(bytes_line);
            if let Some(p) = res.page_count {
                let mut pages_line = String::from_str("  Pages: ");
                let pages = decimal_string(p as u128);
                pages_line.append(pages.as_str());
                lines.push(pages_line);
            }
            lines.push(String::from_str("  Success: true"));
        },
        Err(e) => {
            let mut bytes_line = String::from_str("  Extracted bytes: ");
            let zero = decimal_string(0);
            bytes_line.append(zero.as_str());
            lines.push(bytes_line);
            lines.push(String::from_str("  Success: false"));
            let mut err_line = String::from_str("  Error: ");
            err_line.append(e.message().as_str());
            lines.push(err_line);
        },
    }
    lines
}

/// The one-line notice emitted for a backend that is absent from the
/// configuration.
pub open spec fn spec_disabled_notice(name: Seq<char>) -> Seq<char> {
    "  - "@ + name + ": (disabled at compile time)"@
}

/// Renders the notice for a disabled backend.
pub fn disabled_notice(name: &String) -> (s: String)
    ensures
        s@ == spec_disabled_notice(name@),
{
    let mut s = String::from_str("  - ");
    s.append(name.as_str());
    s.append(": (disabled at compile time)");
    proof {
        assert(s@ =~= spec_disabled_notice(name@));
    }
    s
}

/// The header line naming the target file, printed once per run.
pub open spec fn spec_run_header(path: Seq<char>) -> Seq<char> {
    "PDF extraction benchmark for: "@ + path
}

/// Renders the run header for the given target path.
pub fn run_header(path: &String) -> (s: String)
    ensures
        s@ == spec_run_header(path@),
{
    let mut s = String::from_str("PDF extraction benchmark for: ");
    s.append(path.as_str());
    s
}

} // verus!

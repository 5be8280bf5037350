use pdfbench::numfmt::decimal_string;
use pdfbench::numfmt::millis_two_decimals;
use pdfbench::outcome::BackendOutcome;
use pdfbench::outcome::ExtractionError;
use pdfbench::outcome::ExtractionResult;
use pdfbench::render::disabled_notice;
use pdfbench::render::render_report;
use pdfbench::render::run_header;
use pdfbench::textstats::page_count_heuristic;

#[test]
fn decimal_string_values() {
    assert_eq!(decimal_string(0), "0");
    assert_eq!(decimal_string(7), "7");
    assert_eq!(decimal_string(10), "10");
    assert_eq!(decimal_string(12345), "12345");
    assert_eq!(
        decimal_string(u128::MAX),
        "340282366920938463463374607431768211455"
    );
}

#[test]
fn millis_two_decimal_values() {
    assert_eq!(millis_two_decimals(0), "0.00");
    assert_eq!(millis_two_decimals(4_999), "0.00");
    assert_eq!(millis_two_decimals(5_000), "0.01");
    assert_eq!(millis_two_decimals(1_234_567), "1.23");
    assert_eq!(millis_two_decimals(999_999), "1.00");
    assert_eq!(millis_two_decimals(10_550_000), "10.55");
}

#[test]
fn report_block_success_with_pages() {
    let outcome = BackendOutcome {
        backend_name: String::from("lopdf"),
        duration_nanos: 1_234_567,
        result: Ok(ExtractionResult { extracted_byte_count: 42, page_count: Some(3) }),
    };
    let lines = render_report(&outcome);
    assert_eq!(lines.len(), 6);
    assert_eq!(lines[0], "---");
    assert_eq!(lines[1], "Backend: lopdf");
    assert_eq!(lines[2], "  Time: 1.23 ms");
    assert_eq!(lines[3], "  Extracted bytes: 42");
    assert_eq!(lines[4], "  Pages: 3");
    assert_eq!(lines[5], "  Success: true");
}

#[test]
fn report_block_success_without_pages() {
    let outcome = BackendOutcome {
        backend_name: String::from("pdftotext (cli)"),
        duration_nanos: 0,
        result: Ok(ExtractionResult { extracted_byte_count: 5, page_count: None }),
    };
    let lines = render_report(&outcome);
    assert_eq!(lines.len(), 5);
    assert_eq!(lines[0], "---");
    assert_eq!(lines[1], "Backend: pdftotext (cli)");
    assert_eq!(lines[2], "  Time: 0.00 ms");
    assert_eq!(lines[3], "  Extracted bytes: 5");
    assert_eq!(lines[4], "  Success: true");
}

#[test]
fn report_block_failure_zeroes_bytes() {
    let outcome = BackendOutcome {
        backend_name: String::from("pdfium-render"),
        duration_nanos: 10_550_000,
        result: Err(ExtractionError::NativeLoad(String::from("no library"))),
    };
    let lines = render_report(&outcome);
    assert_eq!(lines.len(), 6);
    assert_eq!(lines[0], "---");
    assert_eq!(lines[1], "Backend: pdfium-render");
    assert_eq!(lines[2], "  Time: 10.55 ms");
    assert_eq!(lines[3], "  Extracted bytes: 0");
    assert_eq!(lines[4], "  Success: false");
    assert_eq!(lines[5], "  Error: no library");
}

#[test]
fn report_block_io_failure() {
    let outcome = BackendOutcome {
        backend_name: String::from("pdf-extract"),
        duration_nanos: 5_000,
        result: Err(ExtractionError::Io(String::from("read error: interrupted"))),
    };
    let lines = render_report(&outcome);
    assert_eq!(lines.len(), 6);
    assert_eq!(lines[3], "  Extracted bytes: 0");
    assert_eq!(lines[4], "  Success: false");
    assert_eq!(lines[5], "  Error: read error: interrupted");
}

#[test]
fn report_rendering_is_deterministic() {
    let make = || BackendOutcome {
        backend_name: String::from("pdf-extract"),
        duration_nanos: 777_777,
        result: Ok(ExtractionResult { extracted_byte_count: 9, page_count: None }),
    };
    assert_eq!(render_report(&make()), render_report(&make()));
}

#[test]
fn page_heuristic_counts_form_feeds() {
    assert_eq!(page_count_heuristic("one\x0Ctwo"), Some(1));
    assert_eq!(page_count_heuristic("one\x0Ctwo\x0C"), Some(2));
    assert_eq!(page_count_heuristic("no page breaks here"), None);
    assert_eq!(page_count_heuristic(""), None);
    // Multi-byte characters around the form feed do not disturb the count.
    assert_eq!(page_count_heuristic("h\u{00E9}llo\x0C\u{2603}"), Some(1));
}

#[test]
fn disabled_notice_text() {
    let notice = disabled_notice(&String::from("poppler-rs"));
    assert_eq!(notice, "  - poppler-rs: (disabled at compile time)");
}

#[test]
fn run_header_text() {
    let header = run_header(&String::from("/tmp/a.pdf"));
    assert_eq!(header, "PDF extraction benchmark for: /tmp/a.pdf");
}

use lopdf::Dictionary;
use lopdf::Document;
use lopdf::Object;
use lopdf::Stream;
use lopdf::content::Content;
use lopdf::content::Operation;
use pdfbench::cli_pdftotext::ProcessCapture;
use pdfbench::cli_pdftotext::pdftotext_result;
use pdfbench::invoker::invoke_timed;
use pdfbench::invoker::pdftotext_outcome;
use pdfbench::invoker::pdf_extract_outcome;
use pdfbench::lopdf_backend::PageExtraction;
use pdfbench::lopdf_backend::lopdf_outcome;
use pdfbench::lopdf_backend::run_lopdf;
use pdfbench::orchestrator::NextStep;
use pdfbench::orchestrator::Orchestrator;
use pdfbench::outcome::ExtractionError;
use pdfbench::pdf_extract_backend::PdfExtractCall;
use pdfbench::pdf_extract_backend::pdf_extract_result;
use pdfbench::pdfium_backend::run_pdfium;
use pdfbench::registry::BackendConfig;
use pdfbench::registry::BackendKind;
use pdfbench::registry::registry;

/// A one-page document whose only content is the text "Hello World!".
fn sample_pdf_bytes() -> Vec<u8> {
    let mut doc = Document::with_version("1.5");
    let pages_id = doc.new_object_id();
    let mut font = Dictionary::new();
    font.set("Type", "Font");
    font.set("Subtype", "Type1");
    font.set("BaseFont", "Courier");
    let font_id = doc.add_object(font);
    let mut fonts = Dictionary::new();
    fonts.set("F1", font_id);
    let mut resources = Dictionary::new();
    resources.set("Font", fonts);
    let resources_id = doc.add_object(resources);
    let content = Content {
        operations: vec![
            Operation::new("BT", vec![]),
            Operation::new("Tf", vec!["F1".into(), 48.into()]),
            Operation::new("Td", vec![100.into(), 600.into()]),
            Operation::new("Tj", vec![Object::string_literal("Hello World!")]),
            Operation::new("ET", vec![]),
        ],
    };
    let content_id = doc.add_object(Stream::new(Dictionary::new(), content.encode().unwrap()));
    let mut page = Dictionary::new();
    page.set("Type", "Page");
    page.set("Parent", pages_id);
    page.set("Contents", content_id);
    let page_id = doc.add_object(page);
    let mut pages = Dictionary::new();
    pages.set("Type", "Pages");
    pages.set("Kids", vec![Object::from(page_id)]);
    pages.set("Count", 1);
    pages.set("Resources", resources_id);
    pages.set("MediaBox", vec![0.into(), 0.into(), 595.into(), 842.into()]);
    doc.objects.insert(pages_id, Object::Dictionary(pages));
    let mut catalog = Dictionary::new();
    catalog.set("Type", "Catalog");
    catalog.set("Pages", pages_id);
    let catalog_id = doc.add_object(catalog);
    doc.trailer.set("Root", catalog_id);
    let mut bytes: Vec<u8> = Vec::new();
    doc.save_to(&mut bytes).unwrap();
    bytes
}

/// Calls the real library and shapes what came back as the harness would;
/// none of these inputs make it fault.
fn real_pdf_extract_call(bytes: &[u8]) -> PdfExtractCall {
    match pdf_extract::extract_text_from_mem(bytes) {
        Ok(text) => PdfExtractCall::Text(text),
        Err(e) => PdfExtractCall::Failed(format!("{:?}", e)),
    }
}

fn page(n: u32, resolves: bool, resolve_error: &str, extract: Result<&str, &str>) -> PageExtraction {
    PageExtraction {
        page_number: n,
        object_resolves: resolves,
        resolve_error: resolve_error.to_string(),
        extract: match extract {
            Ok(t) => Ok(t.to_string()),
            Err(e) => Err(e.to_string()),
        },
    }
}

#[test]
fn empty_input_is_backend_scoped_for_pdf_extract() {
    let r = pdf_extract_result(&real_pdf_extract_call(&[]));
    match r {
        Err(ExtractionError::Decode(m)) => assert!(m.starts_with("pdf-extract error: ")),
        _ => panic!("expected a decode error on an empty document"),
    }
}

#[test]
fn empty_input_is_backend_scoped_for_lopdf() {
    let r = run_lopdf(&[]);
    match r {
        Err(ExtractionError::Decode(m)) => assert!(m.starts_with("lopdf load error: ")),
        _ => panic!("expected a decode error on an empty document"),
    }
}

#[test]
fn lopdf_extracts_hello_world() {
    let bytes = sample_pdf_bytes();
    let res = run_lopdf(&bytes).unwrap();
    assert_eq!(res.extracted_byte_count, "Hello World!\n".len());
    assert_eq!(res.page_count, Some(1));
}

#[test]
fn pdf_extract_extracts_text() {
    let bytes = sample_pdf_bytes();
    let res = pdf_extract_result(&real_pdf_extract_call(&bytes)).unwrap();
    assert!(res.extracted_byte_count > 0);
    assert_eq!(res.page_count, None);
}

#[test]
fn pdf_extract_fault_is_scoped() {
    let r = pdf_extract_result(&PdfExtractCall::Faulted(String::from("page boundary")));
    match r {
        Err(ExtractionError::Decode(m)) => assert_eq!(m, "pdf-extract fault: page boundary"),
        _ => panic!("expected a decode error for a caught fault"),
    }
}

#[test]
fn pdf_extract_is_idempotent_on_unchanged_bytes() {
    let bytes = sample_pdf_bytes();
    let first = pdf_extract_result(&real_pdf_extract_call(&bytes)).unwrap();
    let second = pdf_extract_result(&real_pdf_extract_call(&bytes)).unwrap();
    assert_eq!(first.extracted_byte_count, second.extracted_byte_count);
    assert_eq!(first.page_count, second.page_count);
}

#[test]
fn lopdf_outcome_unresolved_page_fails() {
    let pages = vec![
        page(1, true, "", Ok("one")),
        page(2, false, "missing object", Ok("two")),
        page(3, true, "", Ok("three")),
    ];
    match lopdf_outcome(&pages) {
        Err(ExtractionError::Decode(m)) => assert_eq!(m, "get page error: missing object"),
        _ => panic!("expected a decode error for the unresolved page"),
    }
}

#[test]
fn lopdf_outcome_failed_extraction_contributes_nothing() {
    let pages = vec![
        page(1, true, "", Ok("ab")),
        page(2, true, "", Err("stream error")),
        page(3, true, "", Ok("cd")),
    ];
    let res = lopdf_outcome(&pages).unwrap();
    assert_eq!(res.extracted_byte_count, 4);
    assert_eq!(res.page_count, Some(3));
}

#[test]
fn lopdf_outcome_zero_pages_still_succeeds() {
    let res = lopdf_outcome(&Vec::new()).unwrap();
    assert_eq!(res.extracted_byte_count, 0);
    assert_eq!(res.page_count, Some(0));
}

#[test]
fn lopdf_is_idempotent_on_unchanged_bytes() {
    let bytes = sample_pdf_bytes();
    let first = run_lopdf(&bytes).unwrap();
    let second = run_lopdf(&bytes).unwrap();
    assert_eq!(first.extracted_byte_count, second.extracted_byte_count);
    assert_eq!(first.page_count, second.page_count);
}

#[test]
fn pdfium_native_load_failure_is_scoped() {
    let bytes = sample_pdf_bytes();
    let r = run_pdfium("./no-such-library-dir", &bytes);
    match r {
        Err(ExtractionError::NativeLoad(m)) => assert!(m.starts_with("pdfium load error: ")),
        _ => panic!("expected a native-load error without the library present"),
    }
}

#[test]
fn pdftotext_capture_success_has_bytes_and_no_pages() {
    let cap = ProcessCapture {
        launched: true,
        launch_error: String::new(),
        exit_success: true,
        exit_description: String::from("exit status: 0"),
        stdout: b"Hello".to_vec(),
    };
    let res = pdftotext_result(&cap).unwrap();
    assert_eq!(res.extracted_byte_count, 5);
    assert_eq!(res.page_count, None);
    assert!(res.extracted_byte_count > 0);
}

#[test]
fn pdftotext_invalid_utf8_is_decoded_lossily() {
    // Two invalid bytes become two replacement characters of three bytes
    // each, so the byte count is six, not two.
    let cap = ProcessCapture {
        launched: true,
        launch_error: String::new(),
        exit_success: true,
        exit_description: String::from("exit status: 0"),
        stdout: vec![0xFF, 0xFE],
    };
    let res = pdftotext_result(&cap).unwrap();
    assert_eq!(res.extracted_byte_count, 6);
    assert_eq!(res.page_count, None);
}

#[test]
fn pdftotext_launch_failure_message() {
    let cap = ProcessCapture {
        launched: false,
        launch_error: String::from("No such file or directory"),
        exit_success: false,
        exit_description: String::new(),
        stdout: Vec::new(),
    };
    match pdftotext_result(&cap) {
        Err(ExtractionError::ProcessLaunch(m)) => {
            assert_eq!(m, "failed to run pdftotext: No such file or directory");
        }
        _ => panic!("expected a process-launch error"),
    }
}

#[test]
fn pdftotext_nonzero_exit_message() {
    let cap = ProcessCapture {
        launched: true,
        launch_error: String::new(),
        exit_success: false,
        exit_description: String::from("exit status: 1"),
        stdout: Vec::new(),
    };
    match pdftotext_result(&cap) {
        Err(ExtractionError::NonZeroExit(m)) => {
            assert_eq!(m, "pdftotext failed: exit status: 1");
        }
        _ => panic!("expected a non-zero-exit error"),
    }
}

#[test]
fn empty_file_is_backend_scoped_everywhere() {
    let cfg = BackendConfig { pdf_extract: true, lopdf: true, pdfium_render: true, poppler: false };
    let mut orch = Orchestrator::new(registry(&cfg));
    loop {
        match orch.next_step() {
            NextStep::Invoke(i) => {
                let out = match invoke_timed(&orch.regs[i], &[], "./no-such-library-dir") {
                    Some(out) => out,
                    None if matches!(orch.regs[i].kind, BackendKind::PdfExtract) => {
                        pdf_extract_outcome(&orch.regs[i], 500, &real_pdf_extract_call(&[]))
                    }
                    None => {
                        let cap = ProcessCapture {
                            launched: true,
                            launch_error: String::new(),
                            exit_success: false,
                            exit_description: String::from("exit status: 1"),
                            stdout: Vec::new(),
                        };
                        pdftotext_outcome(&orch.regs[i], 500, &cap)
                    }
                };
                orch.record_outcome(out);
            }
            NextStep::Disabled(_) => {
                orch.skip_disabled();
            }
            NextStep::Finished => break,
        }
    }
    // The run completes with one outcome per attempted backend, every one of
    // them a backend-scoped failure.
    assert_eq!(orch.outcomes.len(), 4);
    assert!(orch.outcomes.iter().all(|o| o.result.is_err()));
    assert!(matches!(orch.outcomes[0].result, Err(ExtractionError::Decode(_))));
    assert!(matches!(orch.outcomes[1].result, Err(ExtractionError::Decode(_))));
}

#[test]
fn one_failing_backend_does_not_stop_the_rest() {
    let bytes = sample_pdf_bytes();
    let cfg = BackendConfig { pdf_extract: true, lopdf: true, pdfium_render: true, poppler: false };
    let mut orch = Orchestrator::new(registry(&cfg));
    loop {
        match orch.next_step() {
            NextStep::Invoke(i) => {
                let out = match invoke_timed(&orch.regs[i], &bytes, "./no-such-library-dir") {
                    Some(out) => out,
                    None if matches!(orch.regs[i].kind, BackendKind::PdfExtract) => {
                        pdf_extract_outcome(&orch.regs[i], 2_000, &real_pdf_extract_call(&bytes))
                    }
                    None => {
                        let cap = ProcessCapture {
                            launched: true,
                            launch_error: String::new(),
                            exit_success: true,
                            exit_description: String::from("exit status: 0"),
                            stdout: b"Hello World!\n".to_vec(),
                        };
                        pdftotext_outcome(&orch.regs[i], 2_000, &cap)
                    }
                };
                orch.record_outcome(out);
            }
            NextStep::Disabled(i) => {
                assert_eq!(i, 3);
                orch.skip_disabled();
            }
            NextStep::Finished => break,
        }
    }
    assert_eq!(orch.outcomes.len(), 4);
    assert_eq!(orch.outcomes[0].backend_name, "pdf-extract");
    assert_eq!(orch.outcomes[1].backend_name, "lopdf");
    assert_eq!(orch.outcomes[2].backend_name, "pdfium-render");
    assert_eq!(orch.outcomes[3].backend_name, "pdftotext (cli)");
    assert!(orch.outcomes[0].result.is_ok());
    assert!(orch.outcomes[1].result.is_ok());
    assert!(matches!(orch.outcomes[2].result, Err(ExtractionError::NativeLoad(_))));
    assert!(orch.outcomes[3].result.is_ok());
}

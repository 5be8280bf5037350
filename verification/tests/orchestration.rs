use pdfbench::cli::check_arg_count;
use pdfbench::cli::check_target;
use pdfbench::cli_pdftotext::ProcessCapture;
use pdfbench::invoker::pdftotext_outcome;
use pdfbench::orchestrator::NextStep;
use pdfbench::orchestrator::Orchestrator;
use pdfbench::registry::BackendConfig;
use pdfbench::registry::BackendKind;
use pdfbench::registry::registry;

#[test]
fn registry_lists_five_backends_in_order() {
    let cfg = BackendConfig { pdf_extract: true, lopdf: true, pdfium_render: true, poppler: true };
    let regs = registry(&cfg);
    assert_eq!(regs.len(), 5);
    assert_eq!(regs[0].name, "pdf-extract");
    assert_eq!(regs[1].name, "lopdf");
    assert_eq!(regs[2].name, "pdfium-render");
    assert_eq!(regs[3].name, "poppler-rs");
    assert_eq!(regs[4].name, "pdftotext (cli)");
    assert!(regs.iter().all(|r| r.available));
    assert!(matches!(regs[0].kind, BackendKind::PdfExtract));
    assert!(matches!(regs[1].kind, BackendKind::Lopdf));
    assert!(matches!(regs[2].kind, BackendKind::PdfiumRender));
    assert!(matches!(regs[3].kind, BackendKind::Poppler));
    assert!(matches!(regs[4].kind, BackendKind::PdftotextCli));
}

#[test]
fn registry_availability_follows_configuration() {
    let cfg = BackendConfig {
        pdf_extract: false,
        lopdf: true,
        pdfium_render: false,
        poppler: false,
    };
    let regs = registry(&cfg);
    assert!(!regs[0].available);
    assert!(regs[1].available);
    assert!(!regs[2].available);
    assert!(!regs[3].available);
    assert!(regs[4].available);
}

#[test]
fn disabled_backends_notice_and_no_outcome() {
    // Everything optional disabled: only the subprocess backend runs.
    let cfg = BackendConfig {
        pdf_extract: false,
        lopdf: false,
        pdfium_render: false,
        poppler: false,
    };
    let mut orch = Orchestrator::new(registry(&cfg));
    let mut notices: Vec<String> = Vec::new();
    loop {
        match orch.next_step() {
            NextStep::Invoke(i) => {
                assert_eq!(i, 4);
                let cap = ProcessCapture {
                    launched: true,
                    launch_error: String::new(),
                    exit_success: true,
                    exit_description: String::from("exit status: 0"),
                    stdout: b"hi".to_vec(),
                };
                let out = pdftotext_outcome(&orch.regs[i], 1_000, &cap);
                orch.record_outcome(out);
            }
            NextStep::Disabled(i) => {
                assert!(i < 4);
                notices.push(orch.skip_disabled());
            }
            NextStep::Finished => break,
        }
    }
    assert_eq!(notices.len(), 4);
    assert_eq!(notices[0], "  - pdf-extract: (disabled at compile time)");
    assert_eq!(notices[1], "  - lopdf: (disabled at compile time)");
    assert_eq!(notices[2], "  - pdfium-render: (disabled at compile time)");
    assert_eq!(notices[3], "  - poppler-rs: (disabled at compile time)");
    assert_eq!(orch.outcomes.len(), 1);
    assert_eq!(orch.outcomes[0].backend_name, "pdftotext (cli)");
    assert!(orch.outcomes[0].result.is_ok());
}

#[test]
fn wrong_argument_count_is_usage_error() {
    assert_eq!(check_arg_count(1), Err(2));
    assert_eq!(check_arg_count(3), Err(2));
    assert_eq!(check_arg_count(0), Err(2));
    assert_eq!(check_arg_count(2), Ok(()));
}

#[test]
fn inaccessible_target_is_fatal_with_status_one() {
    assert_eq!(check_target(false), Err(1));
    assert_eq!(check_target(true), Ok(()));
}

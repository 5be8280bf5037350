//! The backend registry: the fixed, ordered set of extraction backends in a
//! given build or configuration, each tagged with a stable display name and
//! an availability flag resolved once at startup.

use vstd::prelude::*;

verus! {

/// Which extraction technology a registration stands for.
pub enum BackendKind {
    /// In-process pure-library extraction.
    PdfExtract,
    /// In-process low-level parsing of content streams.
    Lopdf,
    /// In-process extraction through a native library binding.
    PdfiumRender,
    /// In-process extraction through a different native library binding.
    Poppler,
    /// Extraction by an external tool run as a subprocess.
    PdftotextCli,
}

/// Which optional backends this build or configuration includes. The external
/// pdftotext tool is always attempted, so it has no flag.
pub struct BackendConfig {
    pub pdf_extract: bool,
    pub lopdf: bool,
    pub pdfium_render: bool,
    pub poppler: bool,
}

/// One registry entry: a stable display name, the backend it stands for, and
/// whether this configuration includes it. Constructed once at process start
/// and never mutated during a run.
pub struct BackendRegistration {
    pub name: String,
    pub kind: BackendKind,
    pub available: bool,
}

/// No two registrations share a display name.
pub open spec fn distinct_names(regs: Seq<BackendRegistration>) -> bool {
    forall|i: int, j: int| 0 <= i < j < regs.len() ==> regs[i].name@ != regs[j].name@
}

/// The ordered registry for one run under `cfg`: five registrations with
/// fixed names and kinds, their availability taken from the configuration,
/// with the subprocess backend always available.
pub fn registry(cfg: &BackendConfig) -> (regs: Vec<BackendRegistration>)
    ensures
        regs@.len() == 5,
        regs@[0].name@ == "pdf-extract"@,
        regs@[0].kind is PdfExtract,
        regs@[0].available == cfg.pdf_extract,
        regs@[1].name@ == "lopdf"@,
        regs@[1].kind is Lopdf,
        regs@[1].available == cfg.lopdf,
        regs@[2].name@ == "pdfium-render"@,
        regs@[2].kind is PdfiumRender,
        regs@[2].available == cfg.pdfium_render,
        regs@[3].name@ == "poppler-rs"@,
        regs@[3].kind is Poppler,
        regs@[3].available == cfg.poppler,
        regs@[4].name@ == "pdftotext (cli)"@,
        regs@[4].kind is PdftotextCli,
        regs@[4].available,
        distinct_names(regs@),
{
    let mut regs: Vec<BackendRegistration> = Vec::new();
    regs.push(
        BackendRegistration {
            name: String::from_str("pdf-extract"),
            kind: BackendKind::PdfExtract,
            available: cfg.pdf_extract,
        },
    );
    regs.push(
        BackendRegistration {
            name: String::from_str("lopdf"),
            kind: BackendKind::Lopdf,
            available: cfg.lopdf,
        },
    );
    regs.push(
        BackendRegistration {
            name: String::from_str("pdfium-render"),
            kind: BackendKind::PdfiumRender,
            available: cfg.pdfium_render,
        },
    );
    regs.push(
        BackendRegistration {
            name: String::from_str("poppler-rs"),
            kind: BackendKind::Poppler,
            available: cfg.poppler,
        },
    );
    regs.push(
        BackendRegistration {
            name: String::from_str("pdftotext (cli)"),
            kind: BackendKind::PdftotextCli,
            available: true,
        },
    );
    proof {
        // The five names have five different lengths, so they are distinct.
        reveal_strlit("pdf-extract");
        reveal_strlit("lopdf");
        reveal_strlit("pdfium-render");
        reveal_strlit("poppler-rs");
        reveal_strlit("pdftotext (cli)");
        assert(regs@[0].name@.len() == 11);
        assert(regs@[1].name@.len() == 5);
        assert(regs@[2].name@.len() == 13);
        assert(regs@[3].name@.len() == 10);
        assert(regs@[4].name@.len() == 15);
        assert forall|i: int, j: int| 0 <= i < j < regs@.len() implies regs@[i].name@
            != regs@[j].name@ by {
            assert(regs@[i].name@.len() != regs@[j].name@.len());
        }
    }
    regs
}

} // verus!

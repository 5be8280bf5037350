//! A benchmarking harness for comparing text-extraction backends on a single
//! input document: a registry of backends, a timed invoker, an orchestrator
//! that isolates each backend's failures, and a deterministic report renderer.

pub mod assemble;
pub mod cli;
pub mod cli_pdftotext;
pub mod invoker;
pub mod lopdf_backend;
pub mod numfmt;
pub mod orchestrator;
pub mod outcome;
pub mod pdf_extract_backend;
pub mod pdfium_backend;
pub mod registry;
pub mod render;
pub mod textstats;

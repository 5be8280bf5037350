use vstd::prelude::*;

verus! {

/// A successful extraction: how many bytes of text came out, and the page
/// count when the backend can report one.
pub struct ExtractionResult {
    pub extracted_byte_count: usize,
    pub page_count: Option<usize>,
}

/// Why a single backend's invocation failed. Every failure is terminal for
/// that one invocation: it is reported in that backend's block and never
/// retried, and it never aborts the harness.
#[derive(Debug)]
pub enum ExtractionError {
    /// Reading the document failed inside the backend.
    Io(String),
    /// The document could not be parsed or decoded.
    Decode(String),
    /// The native library backing the backend could not be loaded or bound.
    NativeLoad(String),
    /// An external tool could not be launched.
    ProcessLaunch(String),
    /// An external tool ran but exited with a non-zero status.
    NonZeroExit(String),
}

impl ExtractionError {
    /// The descriptive message carried by the error, whatever its kind.
    pub open spec fn spec_message(self) -> Seq<char> {
        match self {
            ExtractionError::Io(m) => m@,
            ExtractionError::Decode(m) => m@,
            ExtractionError::NativeLoad(m) => m@,
            ExtractionError::ProcessLaunch(m) => m@,
            ExtractionError::NonZeroExit(m) => m@,
        }
    }

    /// Read access to the message, for rendering.
    pub fn message(&self) -> (m: &String)
        ensures
            m@ == self.spec_message(),
    {
        match self {
            ExtractionError::Io(m) => m,
            ExtractionError::Decode(m) => m,
            ExtractionError::NativeLoad(m) => m,
            ExtractionError::ProcessLaunch(m) => m,
            ExtractionError::NonZeroExit(m) => m,
        }
    }
}

/// Whether `m` starts with `prefix`: error contracts use this to pin which
/// failure a message describes.
pub open spec fn msg_with_prefix(prefix: Seq<char>, m: Seq<char>) -> bool {
    exists|rest: Seq<char>| m == prefix + rest
}

/// The timed result of invoking one backend once: exactly one of these is
/// produced per available backend per run, whether the invocation succeeded
/// or failed.
pub struct BackendOutcome {
    pub backend_name: String,
    pub duration_nanos: u128,
    pub result: Result<ExtractionResult, ExtractionError>,
}

} // verus!

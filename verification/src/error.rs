//! Error taxonomy of the tool and the exit code each error maps to.

use vstd::prelude::*;

use crate::text::{append_str, debug_quoted, debug_text, string_of};

verus! {

/// Errors related to runtime (Figma) operations.
#[derive(Debug, Clone)]
pub enum RuntimeError {
    ProbeFailed,
    TargetNotFound,
    AttachFailed,
    Timeout,
    EvaluateFailed(String),
    SnapshotFailed,
}

/// Errors related to the extract, normalize and report pipeline.
#[derive(Debug, Clone, Copy, PartialEq, Eq)]
pub enum PipelineError {
    RawMappingFailed,
    FeatureExtractionFailed,
    NormalizeFailed,
    ClassificationFailed,
    ReportFailed,
    WriteFailed,
}

/// Top-level error of a figex command; each variant carries the exit code
/// that the process ends with.
#[derive(Debug, Clone)]
pub enum FigexError {
    /// exit 10: cannot connect to the runtime
    ConnectionFailed(RuntimeError),
    /// exit 11: target process not found
    TargetNotFound(RuntimeError),
    /// exit 12: snapshot acquisition failed
    SnapshotFailed(RuntimeError),
    /// exit 20: the requested frame does not exist
    FrameNotFound,
    /// exit 21: data inconsistency
    DataInconsistency(PipelineError),
    /// exit 30: normalizer failed
    NormalizeFailed(PipelineError),
    /// exit 31: classifier failed
    ClassifyFailed(PipelineError),
    /// exit 40: file write failed
    WriteFailed(PipelineError),
    /// exit 50: invalid configuration
    ConfigInvalid(String),
}

impl RuntimeError {
    /// The human-readable message of the error.
    pub open spec fn message_spec(&self) -> Seq<char> {
        match self {
            RuntimeError::ProbeFailed => "probe failed"@,
            RuntimeError::TargetNotFound => "target not found"@,
            RuntimeError::AttachFailed => "attach failed"@,
            RuntimeError::Timeout => "timed out"@,
            RuntimeError::EvaluateFailed(m) => "evaluate failed: "@ + m@,
            RuntimeError::SnapshotFailed => "snapshot failed"@,
        }
    }

    /// The error as its `Debug` formatting writes it.
    pub open spec fn debug_spec(&self) -> Seq<char> {
        match self {
            RuntimeError::ProbeFailed => "ProbeFailed"@,
            RuntimeError::TargetNotFound => "TargetNotFound"@,
            RuntimeError::AttachFailed => "AttachFailed"@,
            RuntimeError::Timeout => "Timeout"@,
            RuntimeError::EvaluateFailed(m) => "EvaluateFailed("@ + debug_text(m@) + ")"@,
            RuntimeError::SnapshotFailed => "SnapshotFailed"@,
        }
    }

    /// The human-readable message of the error.
    pub fn message(&self) -> (res: String)
        ensures
            res@ == self.message_spec(),
    {
        match self {
            RuntimeError::ProbeFailed => string_of("probe failed"),
            RuntimeError::TargetNotFound => string_of("target not found"),
            RuntimeError::AttachFailed => string_of("attach failed"),
            RuntimeError::Timeout => string_of("timed out"),
            RuntimeError::EvaluateFailed(m) => {
                let mut s = string_of("evaluate failed: ");
                append_str(&mut s, m.as_str());
                s
            },
            RuntimeError::SnapshotFailed => string_of("snapshot failed"),
        }
    }

    /// The error as its `Debug` formatting writes it, such as `AttachFailed`.
    pub fn debug_name(&self) -> (res: String)
        ensures
            res@ == self.debug_spec(),
    {
        match self {
            RuntimeError::ProbeFailed => string_of("ProbeFailed"),
            RuntimeError::TargetNotFound => string_of("TargetNotFound"),
            RuntimeError::AttachFailed => string_of("AttachFailed"),
            RuntimeError::Timeout => string_of("Timeout"),
            RuntimeError::EvaluateFailed(m) => {
                let mut s = string_of("EvaluateFailed(");
                let q = debug_quoted(m.as_str());
                append_str(&mut s, q.as_str());
                append_str(&mut s, ")");
                s
            },
            RuntimeError::SnapshotFailed => string_of("SnapshotFailed"),
        }
    }
}

impl PipelineError {
    /// The human-readable message of the error.
    pub open spec fn message_spec(&self) -> Seq<char> {
        match self {
            PipelineError::RawMappingFailed => "raw mapping failed"@,
            PipelineError::FeatureExtractionFailed => "feature extraction failed"@,
            PipelineError::NormalizeFailed => "normalize failed"@,
            PipelineError::ClassificationFailed => "classification failed"@,
            PipelineError::ReportFailed => "report failed"@,
            PipelineError::WriteFailed => "write failed"@,
        }
    }

    /// The human-readable message of the error.
    pub fn message(&self) -> (res: String)
        ensures
            res@ == self.message_spec(),
    {
        match self {
            PipelineError::RawMappingFailed => string_of("raw mapping failed"),
            PipelineError::FeatureExtractionFailed => string_of("feature extraction failed"),
            PipelineError::NormalizeFailed => string_of("normalize failed"),
            PipelineError::ClassificationFailed => string_of("classification failed"),
            PipelineError::ReportFailed => string_of("report failed"),
            PipelineError::WriteFailed => string_of("write failed"),
        }
    }
}

/// The exit code that each kind of error ends the process with.
pub open spec fn exit_code_spec(e: FigexError) -> i32 {
    match e {
        FigexError::ConnectionFailed(_) => 10,
        FigexError::TargetNotFound(_) => 11,
        FigexError::SnapshotFailed(_) => 12,
        FigexError::FrameNotFound => 20,
        FigexError::DataInconsistency(_) => 21,
        FigexError::NormalizeFailed(_) => 30,
        FigexError::ClassifyFailed(_) => 31,
        FigexError::WriteFailed(_) => 40,
        FigexError::ConfigInvalid(_) => 50,
    }
}

/// The kind of an error, ignoring what it carries.
pub open spec fn error_kind(e: FigexError) -> int {
    match e {
        FigexError::ConnectionFailed(_) => 0,
        FigexError::TargetNotFound(_) => 1,
        FigexError::SnapshotFailed(_) => 2,
        FigexError::FrameNotFound => 3,
        FigexError::DataInconsistency(_) => 4,
        FigexError::NormalizeFailed(_) => 5,
        FigexError::ClassifyFailed(_) => 6,
        FigexError::WriteFailed(_) => 7,
        FigexError::ConfigInvalid(_) => 8,
    }
}

/// Every exit code tells the kind of error apart: two errors share an exit
/// code exactly when they are of the same kind, and no error exits with 0,
/// the code of success.
pub proof fn law_exit_codes_identify_error_kinds(a: FigexError, b: FigexError)
    ensures
        exit_code_spec(a) == exit_code_spec(b) <==> error_kind(a) == error_kind(b),
        exit_code_spec(a) != 0,
{
}

impl FigexError {
    /// The error's own message, without its cause.
    pub open spec fn message_spec(&self) -> Seq<char> {
        match self {
            FigexError::ConnectionFailed(e) => "connection error: "@ + e.message_spec(),
            FigexError::TargetNotFound(e) => "target not found: "@ + e.message_spec(),
            FigexError::SnapshotFailed(e) => "snapshot error: "@ + e.message_spec(),
            FigexError::FrameNotFound => "frame not found"@,
            FigexError::DataInconsistency(e) => "data inconsistency: "@ + e.message_spec(),
            FigexError::NormalizeFailed(e) => "normalize error: "@ + e.message_spec(),
            FigexError::ClassifyFailed(e) => "classify error: "@ + e.message_spec(),
            FigexError::WriteFailed(e) => "write error: "@ + e.message_spec(),
            FigexError::ConfigInvalid(s) => "config error: "@ + s@,
        }
    }

    /// The message of the error's cause, where it has one.
    pub open spec fn source_message_spec(&self) -> Option<Seq<char>> {
        match self {
            FigexError::ConnectionFailed(e) => Some(e.message_spec()),
            FigexError::TargetNotFound(e) => Some(e.message_spec()),
            FigexError::SnapshotFailed(e) => Some(e.message_spec()),
            FigexError::FrameNotFound => None,
            FigexError::DataInconsistency(e) => Some(e.message_spec()),
            FigexError::NormalizeFailed(e) => Some(e.message_spec()),
            FigexError::ClassifyFailed(e) => Some(e.message_spec()),
            FigexError::WriteFailed(e) => Some(e.message_spec()),
            FigexError::ConfigInvalid(_) => None,
        }
    }

    /// The error and its cause, joined by `": "`, as an error report shows it.
    pub open spec fn report_spec(&self) -> Seq<char> {
        match self.source_message_spec() {
            Some(src) => self.message_spec() + ": "@ + src,
            None => self.message_spec(),
        }
    }

    /// Map an error variant to the exit code defined in the architecture spec.
    pub fn exit_code(&self) -> (code: i32)
        ensures
            code == exit_code_spec(*self),
    {
        match self {
            FigexError::ConnectionFailed(_) => 10,
            FigexError::TargetNotFound(_) => 11,
            FigexError::SnapshotFailed(_) => 12,
            FigexError::FrameNotFound => 20,
            FigexError::DataInconsistency(_) => 21,
            FigexError::NormalizeFailed(_) => 30,
            FigexError::ClassifyFailed(_) => 31,
            FigexError::WriteFailed(_) => 40,
            FigexError::ConfigInvalid(_) => 50,
        }
    }

    /// The error's own message, without its cause.
    pub fn message(&self) -> (res: String)
        ensures
            res@ == self.message_spec(),
    {
        let (prefix, inner) = match self {
            FigexError::ConnectionFailed(e) => ("connection error: ", e.message()),
            FigexError::TargetNotFound(e) => ("target not found: ", e.message()),
            FigexError::SnapshotFailed(e) => ("snapshot error: ", e.message()),
            FigexError::FrameNotFound => ("frame not found", String::new()),
            FigexError::DataInconsistency(e) => ("data inconsistency: ", e.message()),
            FigexError::NormalizeFailed(e) => ("normalize error: ", e.message()),
            FigexError::ClassifyFailed(e) => ("classify error: ", e.message()),
            FigexError::WriteFailed(e) => ("write error: ", e.message()),
            FigexError::ConfigInvalid(s) => ("config error: ", s.clone()),
        };
        let mut out = string_of(prefix);
        append_str(&mut out, inner.as_str());
        proof {
            assert(out@ =~= self.message_spec());
        }
        out
    }

    /// The error followed by its cause, each separated by `": "`.
    pub fn report(&self) -> (res: String)
        ensures
            res@ == self.report_spec(),
    {
        let mut out = self.message();
        let src = match self {
            FigexError::ConnectionFailed(e) => Some(e.message()),
            FigexError::TargetNotFound(e) => Some(e.message()),
            FigexError::SnapshotFailed(e) => Some(e.message()),
            FigexError::FrameNotFound => None,
            FigexError::DataInconsistency(e) => Some(e.message()),
            FigexError::NormalizeFailed(e) => Some(e.message()),
            FigexError::ClassifyFailed(e) => Some(e.message()),
            FigexError::WriteFailed(e) => Some(e.message()),
            FigexError::ConfigInvalid(_) => None,
        };
        match src {
            Some(m) => {
                append_str(&mut out, ": ");
                append_str(&mut out, m.as_str());
            },
            None => {},
        }
        out
    }

    /// The error that a failed attach becomes: a missing target keeps its
    /// own kind, every other failure is a connection failure.
    pub fn from_attach_error(e: RuntimeError) -> (res: FigexError)
        ensures
            res == (match e {
                RuntimeError::TargetNotFound => FigexError::TargetNotFound(e),
                _ => FigexError::ConnectionFailed(e),
            }),
    {
        match e {
            RuntimeError::TargetNotFound => FigexError::TargetNotFound(e),
            _ => FigexError::ConnectionFailed(e),
        }
    }
}

} // verus!

//! Detection and redaction of personal and health identifiers in free text.
//!
//! A fixed, ordered list of detectors (see [`patterns`]) is applied one after
//! another to a working copy of the text; each detector sees the text as the
//! detectors before it left it (see [`scanner`]).

pub mod patterns;
pub mod scanner;

pub use patterns::{Detector, Registry, RuleError, REDACTION_TOKEN};
pub use scanner::{Finding, ScanResult};

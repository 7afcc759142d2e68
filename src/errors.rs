//! The library's error type.
use vstd::prelude::*;

verus! {

/// What can go wrong in the engine; each variant carries the text that
/// names the offending item.
#[derive(Debug, Clone)]
pub enum HylaeanError {
    ToolNotFound { name: String },
    UnsupportedFormat { format: String },
    ConversionFailed { source_format: String, target_format: String },
    InstallationFailed { tool: String },
    ConfigError { message: String },
    InvalidPath { path: String },
    ToolExecutionFailed { tool: String, message: String },
    Unknown { message: String },
}

} // verus!

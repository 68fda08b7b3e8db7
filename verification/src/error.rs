//! Error taxonomy: fatal setup errors abort a batch before any job is
//! admitted; per-job errors are converted into job outcomes and never
//! abort sibling jobs.

use vstd::prelude::*;

verus! {

/// Every failure the engine can report, as plain data.
#[derive(Debug, Clone)]
pub enum CompressError {
    /// Configuration problem (unknown preset, bad selection), fatal at setup.
    Config { message: String },
    /// The input file is missing or not a regular file.
    InvalidInput { path: String },
    /// A format or codec the engine cannot produce.
    UnsupportedFormat { format: String },
    /// A required external tool is not installed.
    MissingDependency { dependency: String },
    /// A user-supplied parameter is out of range or malformed.
    InvalidParameter { parameter: String, value: String },
    /// The output file exists and overwriting was not allowed.
    FileExists { path: String },
    /// The external process could not even be started.
    SpawnFailed { message: String },
    /// The external process ran but exited with a non-zero status.
    ProcessExited { code: i32 },
    /// Infrastructure failure around a job (permit or join failure).
    ProcessFailed { command: String },
    /// A recognized progress marker carried a non-numeric value.
    ProgressParse { message: String },
    /// An I/O failure reported by the surrounding environment.
    Io { message: String },
}

impl CompressError {
    /// Error for an input path that does not exist or is not readable.
    pub fn invalid_input(path: &str) -> (e: Self)
        ensures
            e matches CompressError::InvalidInput { path: p } && p@ == path@,
    {
        CompressError::InvalidInput { path: path.to_owned() }
    }

    /// Error for refusing to overwrite an existing output file.
    pub fn file_exists(path: &str) -> (e: Self)
        ensures
            e matches CompressError::FileExists { path: p } && p@ == path@,
    {
        CompressError::FileExists { path: path.to_owned() }
    }

    /// Error for an invalid value of a named parameter.
    pub fn invalid_parameter(param: &str, value: &str) -> (e: Self)
        ensures
            e matches CompressError::InvalidParameter { parameter: p, value: v }
                && p@ == param@ && v@ == value@,
    {
        CompressError::InvalidParameter { parameter: param.to_owned(), value: value.to_owned() }
    }

    /// Error for a missing external tool.
    pub fn missing_dependency(dependency: &str) -> (e: Self)
        ensures
            e matches CompressError::MissingDependency { dependency: d } && d@ == dependency@,
    {
        CompressError::MissingDependency { dependency: dependency.to_owned() }
    }

    /// Error for an output format the engine cannot produce.
    pub fn unsupported_format(format: &str) -> (e: Self)
        ensures
            e matches CompressError::UnsupportedFormat { format: f } && f@ == format@,
    {
        CompressError::UnsupportedFormat { format: format.to_owned() }
    }

    /// Error for a configuration problem.
    pub fn config(message: &str) -> (e: Self)
        ensures
            e matches CompressError::Config { message: m } && m@ == message@,
    {
        CompressError::Config { message: message.to_owned() }
    }

    /// Error for an infrastructure failure around a job.
    pub fn process_failed(command: &str) -> (e: Self)
        ensures
            e matches CompressError::ProcessFailed { command: c } && c@ == command@,
    {
        CompressError::ProcessFailed { command: command.to_owned() }
    }
}

} // verus!

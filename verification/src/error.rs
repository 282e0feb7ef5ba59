use vstd::prelude::*;

verus! {

/// Error taxonomy of the reconciliation engine.
///
/// Invocation failures (`PowershellError`, `CommandError`, `TempDirError`,
/// `CsvError`) mean an external tool could not be started, waited on, or its
/// raw output could not be obtained; adapters report them with a message
/// describing the failed invocation.  Parse failures (`MMTParseError`,
/// `ADCParseError`) mean a tool ran but produced output that does not match
/// the required shape.  Either kind aborts the convergence loop immediately:
/// a failing tool will not self-heal across attempts.
#[derive(Debug, Clone, PartialEq)]
pub enum Error {
    /// The audio scripting host could not be invoked.
    PowershellError(String),
    /// An external command could not be started or waited on.
    CommandError(String),
    /// A scratch directory for a tool's report file could not be created.
    TempDirError(String),
    /// A row of the monitor tool's tabular report has the wrong shape.
    MMTParseError(MMTParseError),
    /// The audio scripting host's readout has the wrong shape.
    ADCParseError(ADCParseError),
    /// The monitor tool's tabular report could not be read as records.
    CsvError(String),
}

/// Detail of a malformed row in the monitor tool's tabular report: the
/// offending row's fields, the index of the column that failed, and the
/// shape that column was expected to have.
#[derive(Debug, Clone, PartialEq)]
pub struct MMTParseError {
    pub output: Vec<String>,
    pub index: usize,
    pub description: &'static str,
}

/// Detail of a malformed audio readout: the offending output and the shape
/// it was expected to contain.
#[derive(Debug, Clone, PartialEq)]
pub struct ADCParseError {
    pub output: String,
    pub description: &'static str,
}

} // verus!

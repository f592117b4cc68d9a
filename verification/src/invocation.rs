//! The decision core of one invocation.
//!
//! The surrounding binary parses the command line, asks the operating system
//! to canonicalize the input path, and hands the outcome here as plain
//! values.  [`plan_invocation`] then decides everything that does not touch
//! the machine: the formatted text, which sinks receive it, and the fatal
//! diagnostic when resolution failed.  The binary only carries the plan out.

use vstd::prelude::*;

use crate::uri::formatted_chars;
use crate::uri::format_path;

verus! {

/// One parsed command line: the required input path, an optional output
/// file, and the two formatting and delivery flags.
pub struct Request {
    /// Input file path.
    pub input: String,
    /// Output file path, when the result goes to a file.
    pub output: Option<String>,
    /// Render the result as a `file://` URI.
    pub uri: bool,
    /// Also copy the result to the system clipboard.
    pub clipboard: bool,
}

/// What one invocation must do once resolution has been attempted.
pub enum Plan {
    /// Resolution failed: report `error_line` on standard error and exit
    /// with a non-zero status.
    Fail { error_line: String },
    /// Resolution succeeded: `formatted` is the text every sink receives.
    /// When `file` is set it is written there; when `clipboard` is set a
    /// clipboard copy is attempted; standard output always shows the text
    /// or, for a file sink, the written-confirmation line.
    Emit { formatted: String, file: Option<String>, clipboard: bool },
}

/// The fatal diagnostic for a path the operating system could not resolve.
pub fn resolution_error_line(cause: &str) -> (line: String)
    ensures
        line@ == "Error getting full path: "@ + cause@,
{
    String::from_str("Error getting full path: ").concat(cause)
}

/// The fatal diagnostic for an output file that could not be written.
pub fn write_error_line(output: &str, cause: &str) -> (line: String)
    ensures
        line@ == "Unable to write to "@ + output@ + ": "@ + cause@,
{
    String::from_str("Unable to write to ").concat(output).concat(": ").concat(cause)
}

/// The confirmation printed after the result was written to a file.
pub fn written_confirmation(output: &str) -> (line: String)
    ensures
        line@ == "Full path written to "@ + output@,
{
    String::from_str("Full path written to ").concat(output)
}

/// The confirmation printed after the result reached the clipboard.
pub fn clipboard_confirmation() -> (line: String)
    ensures
        line@ == "Full path copied to clipboard"@,
{
    String::from_str("Full path copied to clipboard")
}

/// The non-fatal warning printed when the clipboard copy failed; the
/// invocation still succeeds and the result is still printed.
pub fn clipboard_warning(cause: &str) -> (line: String)
    ensures
        line@ == "Warning: Failed to copy to clipboard: "@ + cause@,
{
    String::from_str("Warning: Failed to copy to clipboard: ").concat(cause)
}

/// Decide the whole invocation from the parsed request and the outcome of
/// canonicalization: `resolved` carries the canonical path, or the
/// operating system's diagnostic when the input could not be resolved.
/// Exactly the failures fail, and a success formats the canonical path by
/// the request's flags and addresses the sinks the request named.
pub fn plan_invocation(req: Request, resolved: Result<String, String>, windows: bool) -> (p: Plan)
    ensures
        resolved matches Err(cause) ==> p matches Plan::Fail { error_line }
            && error_line@ == "Error getting full path: "@ + cause@,
        resolved matches Ok(path) ==> p matches Plan::Emit { formatted, file, clipboard }
            && formatted@ == formatted_chars(path@, req.uri, windows)
            && file == req.output
            && clipboard == req.clipboard,
{
    match resolved {
        Ok(path) => {
            let formatted = format_path(path.as_str(), req.uri, windows);
            Plan::Emit { formatted, file: req.output, clipboard: req.clipboard }
        },
        Err(cause) => Plan::Fail { error_line: resolution_error_line(cause.as_str()) },
    }
}

} // verus!

//! The ways a rendering run can fail, and the message reported for each.
use vstd::prelude::*;
use vstd::string::StringExecFns;

verus! {

/// A fatal failure of a run. Every failure ends the run; none is retried.
pub enum Failure {
    /// The HTML input at this path could not be read.
    ReadHtml(String),
    /// The renderer handed back no image bytes.
    EmptyImage,
    /// The image could not be written to this path.
    WritePng(String),
    /// The layout manifest could not be written to this path.
    WriteJson(String),
}

/// The message reported for a failure.
pub open spec fn failure_message(f: Failure) -> Seq<char> {
    match f {
        Failure::ReadHtml(p) => "Failed to read HTML: "@ + p@,
        Failure::EmptyImage => "render_to_buffer returned empty image"@,
        Failure::WritePng(p) => "Failed to write PNG: "@ + p@,
        Failure::WriteJson(p) => "Failed to write JSON: "@ + p@,
    }
}

impl Failure {
    /// The human-readable message for this failure, naming the operation
    /// and, where there is one, the offending path.
    pub fn message(&self) -> (r: String)
        ensures
            r@ == failure_message(*self),
    {
        match self {
            Failure::ReadHtml(p) => String::from_str("Failed to read HTML: ").concat(p.as_str()),
            Failure::EmptyImage => String::from_str("render_to_buffer returned empty image"),
            Failure::WritePng(p) => String::from_str("Failed to write PNG: ").concat(p.as_str()),
            Failure::WriteJson(p) => String::from_str("Failed to write JSON: ").concat(p.as_str()),
        }
    }
}

} // verus!

//! Draining the backend's diagnostic stream: every line is forwarded under a
//! fixed prefix, and the drain ends with the stream, or with the first read
//! error, which is reported once and goes no further.

use vstd::prelude::*;
use vstd::string::*;

verus! {

/// What one read of the diagnostic stream produced.
#[derive(Debug, PartialEq, Eq)]
pub enum StreamRead {
    /// A line, without its terminator.
    Line(String),
    /// The end of the stream.
    Closed,
    /// A read error, described by the text.
    Failed(String),
}

/// What the drain does with one read.
#[derive(Debug, PartialEq, Eq)]
pub struct DrainStep {
    /// Text for the host's diagnostic output, if any.
    pub forward: Option<String>,
    /// Text for the host's error output, if any.
    pub report: Option<String>,
    /// Whether the drain reads on.
    pub go_on: bool,
}

/// What stands before every forwarded line.
pub open spec fn line_prefix() -> Seq<char> {
    "API server stderr: "@
}

/// What stands before the text of a read error.
pub open spec fn error_prefix() -> Seq<char> {
    "Error reading API server stderr error: "@
}

/// The notice that ends every drain.
pub open spec fn closed_notice() -> Seq<char> {
    "[API server log] stderr stream closed."@
}

/// The text forwarded for one read.
pub open spec fn forwarded(read: StreamRead) -> Seq<char> {
    match read {
        StreamRead::Line(line) => line_prefix() + line@,
        _ => closed_notice(),
    }
}

/// The text reported as an error for one read, if any.
pub open spec fn reported(read: StreamRead) -> Option<Seq<char>> {
    match read {
        StreamRead::Failed(why) => Some(error_prefix() + why@),
        _ => None,
    }
}

/// Forwards a line under the prefix that names its origin.
pub fn forward_line(line: &str) -> (text: String)
    ensures
        text@ == line_prefix() + line@,
{
    let mut text = String::from_str("API server stderr: ");
    text.append(line);
    text
}

/// Decides what to do with one read: a line is forwarded and the drain reads
/// on; the end of the stream ends the drain with the closing notice; a read
/// error is reported, and then ends the drain in the same way.
pub fn drain_step(read: &StreamRead) -> (step: DrainStep)
    ensures
        step.go_on == (*read is Line),
        step.forward matches Some(text) && text@ == forwarded(*read),
        match step.report {
            Some(text) => Some(text@) == reported(*read),
            None => reported(*read) is None,
        },
{
    match read {
        StreamRead::Line(line) => DrainStep {
            forward: Some(forward_line(line.as_str())),
            report: None,
            go_on: true,
        },
        StreamRead::Closed => DrainStep {
            forward: Some(String::from_str("[API server log] stderr stream closed.")),
            report: None,
            go_on: false,
        },
        StreamRead::Failed(why) => {
            let mut text = String::from_str("Error reading API server stderr error: ");
            text.append(why.as_str());
            DrainStep {
                forward: Some(String::from_str("[API server log] stderr stream closed.")),
                report: Some(text),
                go_on: false,
            }
        },
    }
}

} // verus!

//! The lines that the tool prints, as values.

use crate::request::{ConversionRequest, RequestView};
use vstd::prelude::*;

verus! {

/// The stream a line goes to.
#[derive(Clone, Copy, Debug, PartialEq, Eq, Structural)]
pub enum Stream {
    /// Standard output.
    Stdout,
    /// Standard error.
    Stderr,
}

/// One line for the console, without its newline.
#[derive(Debug, PartialEq, Eq)]
pub struct Line {
    pub stream: Stream,
    pub text: String,
}

/// A line as a stream and a text.
pub struct LineView {
    pub stream: Stream,
    pub text: Seq<char>,
}

impl View for Line {
    type V = LineView;

    open spec fn view(&self) -> LineView {
        LineView { stream: self.stream, text: self.text@ }
    }
}

/// The text that std's `Debug` for `str` writes for `text`: the text between
/// double quotes, with quotes, backslashes and unprintable characters escaped.
pub uninterp spec fn debug_text(text: Seq<char>) -> Seq<char>;

/// Formats `text` with `{:?}`, that is with std's `Debug` for `str`.
///
/// Not proved: that the result is [`debug_text`] of the text, which claims
/// only that the escaping is a function of the characters.
#[verifier::external_body]
fn debug_quoted(text: &str) -> (quoted: String)
    ensures
        quoted@ == debug_text(text@),
{
    format!("{:?}", text)
}

/// Announces a finished conversion, with both paths.
pub open spec fn converted_line(request: RequestView) -> LineView {
    LineView {
        stream: Stream::Stdout,
        text: "✅ Converted "@ + debug_text(request.input) + " → "@ + debug_text(request.output),
    }
}

/// Reports that the input could not be read, with its path and the error.
pub open spec fn read_failed_line(request: RequestView, error: Seq<char>) -> LineView {
    LineView {
        stream: Stream::Stderr,
        text: "❌ Failed to read "@ + debug_text(request.input) + ": "@ + error,
    }
}

/// Reports that the output could not be written, with its path and the error.
pub open spec fn write_failed_line(request: RequestView, error: Seq<char>) -> LineView {
    LineView {
        stream: Stream::Stderr,
        text: "❌ Failed to write to "@ + debug_text(request.output) + ": "@ + error,
    }
}

/// Announces that the input is being watched.
pub open spec fn watching_line(request: RequestView) -> LineView {
    LineView {
        stream: Stream::Stdout,
        text: "👀 Watching "@ + debug_text(request.input) + " for changes..."@,
    }
}

/// Announces a detected change, before the render that it starts.
pub open spec fn changed_line() -> LineView {
    LineView { stream: Stream::Stdout, text: "🔁 File changed, re-rendering..."@ }
}

/// Reports that the watcher failed to deliver a notification, with the error.
pub open spec fn watch_failed_line(error: Seq<char>) -> LineView {
    LineView { stream: Stream::Stderr, text: "❌ Watch error: "@ + error }
}

/// Reports that the input could not be watched.
pub open spec fn setup_failed_line(error: Seq<char>) -> LineView {
    LineView { stream: Stream::Stderr, text: "Error: "@ + error }
}

impl Line {
    /// The line for a finished conversion.
    pub fn converted(request: &ConversionRequest) -> (line: Line)
        ensures
            line@ == converted_line(request@),
    {
        let mut text = String::from_str("✅ Converted ");
        text.append(debug_quoted(request.input.as_str()).as_str());
        text.append(" → ");
        text.append(debug_quoted(request.output.as_str()).as_str());
        Line { stream: Stream::Stdout, text }
    }

    /// The line for a failed read.
    pub fn read_failed(request: &ConversionRequest, error: &str) -> (line: Line)
        ensures
            line@ == read_failed_line(request@, error@),
    {
        let mut text = String::from_str("❌ Failed to read ");
        text.append(debug_quoted(request.input.as_str()).as_str());
        text.append(": ");
        text.append(error);
        Line { stream: Stream::Stderr, text }
    }

    /// The line for a failed write.
    pub fn write_failed(request: &ConversionRequest, error: &str) -> (line: Line)
        ensures
            line@ == write_failed_line(request@, error@),
    {
        let mut text = String::from_str("❌ Failed to write to ");
        text.append(debug_quoted(request.output.as_str()).as_str());
        text.append(": ");
        text.append(error);
        Line { stream: Stream::Stderr, text }
    }

    /// The line that opens watch mode.
    pub fn watching(request: &ConversionRequest) -> (line: Line)
        ensures
            line@ == watching_line(request@),
    {
        let mut text = String::from_str("👀 Watching ");
        text.append(debug_quoted(request.input.as_str()).as_str());
        text.append(" for changes...");
        Line { stream: Stream::Stdout, text }
    }

    /// The line for a detected change.
    pub fn changed() -> (line: Line)
        ensures
            line@ == changed_line(),
    {
        Line { stream: Stream::Stdout, text: String::from_str("🔁 File changed, re-rendering...") }
    }

    /// The line for a notification that could not be delivered.
    pub fn watch_failed(error: &str) -> (line: Line)
        ensures
            line@ == watch_failed_line(error@),
    {
        let mut text = String::from_str("❌ Watch error: ");
        text.append(error);
        Line { stream: Stream::Stderr, text }
    }

    /// The line for a failed subscription.
    pub fn setup_failed(error: &str) -> (line: Line)
        ensures
            line@ == setup_failed_line(error@),
    {
        let mut text = String::from_str("Error: ");
        text.append(error);
        Line { stream: Stream::Stderr, text }
    }
}

} // verus!

//! The conversion request: the two paths that one run works on.

use vstd::prelude::*;

verus! {

/// The input and output locations of one run. The library never opens them:
/// it names them in what it prints, and the caller reads the one and writes
/// the other.
#[derive(Debug, PartialEq, Eq)]
pub struct ConversionRequest {
    /// The Markdown file to read.
    pub input: String,
    /// The HTML file to write.
    pub output: String,
}

/// A request as two texts.
pub struct RequestView {
    pub input: Seq<char>,
    pub output: Seq<char>,
}

impl View for ConversionRequest {
    type V = RequestView;

    open spec fn view(&self) -> RequestView {
        RequestView { input: self.input@, output: self.output@ }
    }
}

impl ConversionRequest {
    /// A request to convert `input` into `output`.
    pub fn new(input: String, output: String) -> (request: ConversionRequest)
        ensures
            request@ == (RequestView { input: input@, output: output@ }),
    {
        ConversionRequest { input, output }
    }
}

} // verus!

//! What the analysis reports.
use crate::mir::Span;
use vstd::prelude::*;

verus! {

/// A call of a sink that receives a value that may be tainted.
#[derive(Debug, PartialEq, Eq)]
pub struct TaintedSink {
    /// The name of the sink.
    pub fn_name: String,
    /// Where the call stands in the source text.
    pub span: Span,
}

impl View for TaintedSink {
    type V = (Seq<char>, Span);

    open spec fn view(&self) -> (Seq<char>, Span) {
        (self.fn_name@, self.span)
    }
}

/// The name and place of a finding, if there is one.
pub open spec fn finding_view(finding: Option<TaintedSink>) -> Option<(Seq<char>, Span)> {
    match finding {
        Some(f) => Some(f@),
        None => None,
    }
}

} // verus!

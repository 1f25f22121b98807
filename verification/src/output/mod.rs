//! Reports laid out for reading. The layout is text in styled spans; what a
//! style looks like on a terminal is the caller's matter.

pub mod listing;
pub mod span;
pub mod terminal;

pub use listing::rule_listing;
pub use span::{Span, SpanView, Style};
pub use terminal::{format_issue, format_score_bar, TerminalOutput};

use crate::analyzer::report::Report;
use vstd::prelude::*;

verus! {

/// A way to write a report as text.
pub trait OutputFormatter {
    /// Whether `report` can be written: what the way to write it asks of it.
    spec fn accepts(&self, report: &Report) -> bool;

    /// The text of `report`.
    spec fn text(&self, report: &Report) -> Seq<char>;

    /// Writes `report` as text.
    fn format(&self, report: &Report) -> (out: String)
        requires
            self.accepts(report),
        ensures
            out@ == self.text(report),
    ;
}

} // verus!

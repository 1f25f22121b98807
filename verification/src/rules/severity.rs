//! How much an issue matters.

use vstd::prelude::*;

verus! {

/// The severity of an issue. The order of the variants is the order of the
/// severities: `Suggestion < Warning < Critical`.
#[derive(Debug, Clone, Copy, PartialEq, Eq, Structural, PartialOrd, Ord, Hash)]
pub enum Severity {
    /// Nice to have.
    Suggestion,
    /// Should be fixed.
    Warning,
    /// Must be fixed.
    Critical,
}

impl Severity {
    /// The place of the severity in the order: 0 for the least severe.
    pub open spec fn spec_rank(self) -> nat {
        match self {
            Severity::Suggestion => 0,
            Severity::Warning => 1,
            Severity::Critical => 2,
        }
    }

    /// The name of the severity in words.
    pub open spec fn spec_display(self) -> Seq<char> {
        match self {
            Severity::Critical => "Critical"@,
            Severity::Warning => "Warning"@,
            Severity::Suggestion => "Suggestion"@,
        }
    }

    /// The sign that stands for the severity in reports.
    pub open spec fn spec_symbol(self) -> Seq<char> {
        match self {
            Severity::Critical => "✗"@,
            Severity::Warning => "⚠"@,
            Severity::Suggestion => "ℹ"@,
        }
    }

    /// The place of the severity in the order: 0 for the least severe.
    pub fn rank(self) -> (r: u8)
        ensures
            r == self.spec_rank(),
    {
        match self {
            Severity::Suggestion => 0,
            Severity::Warning => 1,
            Severity::Critical => 2,
        }
    }

    /// Whether `self` is at least as severe as `other`.
    pub fn at_least(self, other: Severity) -> (r: bool)
        ensures
            r == (self.spec_rank() >= other.spec_rank()),
    {
        self.rank() >= other.rank()
    }

    /// The name of the severity in words.
    pub fn display(&self) -> (r: String)
        ensures
            r@ == self.spec_display(),
    {
        match self {
            Severity::Critical => "Critical".to_owned(),
            Severity::Warning => "Warning".to_owned(),
            Severity::Suggestion => "Suggestion".to_owned(),
        }
    }

    /// The sign that stands for the severity in reports.
    pub fn symbol(&self) -> (r: &'static str)
        ensures
            r@ == self.spec_symbol(),
    {
        match self {
            Severity::Critical => "✗",
            Severity::Warning => "⚠",
            Severity::Suggestion => "ℹ",
        }
    }
}

} // verus!

//! Running the rules on a parsed file and assembling the report.

pub mod detect;
pub mod engine;
pub mod error;
pub mod report;

pub use detect::FileKind;
pub use engine::Analyzer;
pub use error::AnalyzerError;
pub use report::{any_at_least, retain_at_least, sort_by_severity, Report, ReportView};

//! Assembles a small HTML report: headings, paragraphs, figures and ready-made
//! tables are rendered to markup fragments and collected in order, style rules
//! are collected in one buffer, and both are serialised into a single page.

pub mod decimal;
pub mod nodes;
pub mod page;
pub mod report;
pub mod style;

pub use nodes::{Figure, Header, Paragraph};
pub use report::HTMLReport;

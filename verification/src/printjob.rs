//! Print jobs: what is printed and how, and the command stream it becomes.

pub mod job;
pub mod printjob_builder;

pub use job::{CutBehavior, PrintJob, PrintJobParts, PrintJobView};
pub use printjob_builder::{HasImages, NoImages, PrintJobBuilder, PrintJobBuilderView};

//! Want to search things? Here's your place.

pub mod searchjob;

pub use searchjob::SearchJob;
pub use searchjob::SearchResult;

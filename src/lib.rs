//! Extraction of salvage reward records from asset documents.
//!
//! An asset document is read into a [`document::Node`] tree; the record is
//! pulled out of it along a fixed path of fields with total coercions, and each
//! record renders as one summary line.

pub mod document;
pub mod record;
pub mod extract;
pub mod run;
pub mod yaml;

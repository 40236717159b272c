//! Directory listings: records built from filesystem metadata, a breadth-first
//! walk over pending directories, and the text shown for each directory.

pub mod date;
pub mod decimal;
pub mod entry;
pub mod json;
pub mod listing;
pub mod size;
pub mod table;
pub mod text;
pub mod walk;
pub mod warn;

//! Read-only decoder for the HFS Plus volume format (Apple Technical Note
//! TN1150): volume header, allocation extents, the Catalog B-tree, path
//! reconstruction from thread records, and extraction of file contents.
//!
//! A run over an image goes from `volume` (the header) to `extents` (the
//! bytes of the catalog file), `btree` and `catalog` (nodes and leaf
//! records), `scan` and `index` (every record under its key), `path` (names
//! from thread records) and `extract` (a report for each file).

pub mod allocation;
pub mod btree;
pub mod bytes;
pub mod catalog;
pub mod codes;
pub mod digest;
pub mod error;
pub mod extents;
pub mod extract;
pub mod index;
pub mod journal;
pub mod overflow;
pub mod path;
pub mod raw;
pub mod scan;
pub mod text;
pub mod volume;

//! Persistence and caching core for a desktop records manager.
//!
//! Each logical dataset (contracts, planning items, meeting minutes, ...) is
//! kept on disk as one self-describing columnar file under a `database`
//! directory derived from a single base directory.  This crate holds the parts
//! with real invariants: the path registry, the per-dataset column schemas,
//! the table model, the byte-level codec for the on-disk format, the
//! session-scoped dataset cache, and the shape-only change detector.  The
//! surrounding application performs the actual file reads and writes and
//! drives the load-or-create protocol with the plans and parsers defined here.

pub mod ids;
pub mod table;
pub mod schema;
pub mod paths;
pub mod codec;
pub mod store;
pub mod cache;
pub mod shape;
pub mod records;
pub mod view_state;

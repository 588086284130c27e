//! Streams filesystem metadata rows into fixed-schema columnar batches.
//!
//! Paths arrive one per line from an outside source; each resolves to one
//! row of nine columns (path, type, permissions, ownership, size and
//! modification time).  Rows accumulate in per-column builders until a
//! configurable row threshold is reached or input runs out, at which point
//! one batch is assembled and yielded.

pub mod model;
pub mod meta;
pub mod columns;
pub mod builder;
pub mod stream;

//! Normalization core for heterogeneous gateway events: a path-based field
//! extraction mechanism over structured documents, per-event processors that
//! assemble strongly-typed normalized records, and a dispatch fleet keyed by
//! event discriminant.

pub mod context;
pub mod decimal;
pub mod document;
pub mod event;
pub mod extract;
pub mod fleet;
pub mod path;
pub mod processors;
pub mod time;

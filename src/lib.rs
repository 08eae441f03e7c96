//! Typed image records built from a container engine's image list, and the
//! filters that the `images` query applies to them.

mod engine;
pub mod query;
pub mod record;

//! Persistence core of a block-metadata export plugin.
//!
//! A host process delivers one block-replica event per finalized block. The
//! [`row`] module converts such an event into the canonical row persisted in
//! the `block` table; the [`sink`] module owns the lifecycle of the prepared
//! upsert statement, stamps each write with an `updated_on` timestamp it
//! originates itself, and classifies preparation and execution failures into
//! a closed set of typed errors.

pub mod row;
pub mod sink;

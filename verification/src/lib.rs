//! A thin, verified forwarding layer for bulk-copy operations against an
//! external database connectivity module.
//!
//! The heart of the crate is [`adapter::BulkCopyWrapper`], which holds an
//! opaque connection, probes it for a bulk-copy capability, forwards the
//! call, and classifies every failure into a [`errors::BulkError`] with an
//! exactly specified message.  The connection itself is abstracted by the
//! [`adapter::Connection`] trait; the host-language glue that talks to the
//! real connectivity module lives outside this crate and hands plain values
//! in and out.
//!
//! Alongside the adapter, [`sample`] carries a small demonstration
//! connection type and helper functions, and [`params`] a verified
//! connection-string parser.

pub mod adapter;
pub mod errors;
pub mod params;
pub mod sample;

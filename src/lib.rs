//! Adapter between an Avro decode engine and a dataflow change stream.
//!
//! The decode engine itself is a collaborator: each entry point takes the
//! engine's result for one record and decides what is emitted, what is
//! counted and which error is reported.

pub mod counts;
pub mod avro;

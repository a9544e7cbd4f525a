//! Foreign-callable boundary over a publish/subscribe message bus.
//!
//! The crate models the discipline of such a boundary: opaque handles that own
//! one heap value each, an untyped context word duplicated into every derived
//! handle and callback, conversion between raw byte records and validated
//! internal records, persistent callback registrations, and a single error
//! translator that collapses every internal failure to one generic status.
//! The bus transport itself and per-domain business logic are outside this
//! layer; the boundary only converts values and forwards calls.

pub mod facade;
pub mod handler;
pub mod message;
pub mod status;
pub mod text;
pub mod user_data;

//! Frozen schema snapshots of a transaction-result record, with a verified
//! binary codec for the wire format the generated bindings target, and
//! verified construction of the sample set that covers every enum variant.
//!
//! `v1` is the older snapshot (no optional inner-instruction list); `v2` is
//! the newer one, which adds that optional field and grows both error
//! enumerations. `wire` holds the shared encoding primitives, and `compat`
//! proves that data encoded under `v1` decodes under `v2`.
pub mod compat;
pub mod v1;
pub mod v1_codec;
pub mod v1_samples;
pub mod v2;
pub mod v2_codec;
pub mod v2_samples;
pub mod wire;

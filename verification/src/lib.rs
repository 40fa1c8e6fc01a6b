//! On-ledger logic of a non-fungible-asset registry: a fixed-layout metadata
//! record bound to a deterministically derived address, a price update
//! restricted to the record's beneficial owner, and an atomic purchase that
//! settles payment before any field mutation.

pub mod address;
pub mod codec;
pub mod error;
pub mod instruction;
pub mod processor;
pub mod state;

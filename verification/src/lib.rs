//! A registry of uniquely identified asset records.
//!
//! Each record carries a fixed classification, a fixed identifier that the
//! registry allocates, and a value that can be updated. The registry hands out
//! identifiers 1, 2, 3, ... in the order of its successful mints, and never
//! reuses one.

pub mod counter;
pub mod error;
pub mod model;
pub mod record;
pub mod registry;
pub mod store;

pub use counter::IdentifierCounter;
pub use error::RegistryError;
pub use model::{Operation, RegistryState};
pub use record::{AssetData, AssetDataView};
pub use registry::{AssetCollection, BearerUnit, Capabilities, DepositOutcome, Rejection};
pub use store::AssetStore;

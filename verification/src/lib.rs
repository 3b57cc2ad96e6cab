//! A deterministic ledger of uniquely identified digital assets ("kitties"):
//! minting, genetic-style breeding, transfer, and a fixed-price marketplace,
//! together with a chained, versioned migration engine that carries the
//! persisted record layout across schema changes.
//!
//! The surrounding runtime supplies three collaborators, each modelled at its
//! interface: a currency ledger ([`currency::Balances`]), a per-epoch
//! randomness source feeding the entropy synthesizer
//! ([`entropy::Synthesizer`]), and the persistent store itself, held here as
//! the fields of [`registry::Pallet`] and [`migrations::StoredRecords`].

pub mod currency;
pub mod entropy;
pub mod migrations;
pub mod registry;

pub use currency::AccountId;
pub use currency::Balance;
pub use currency::Balances;
pub use entropy::Synthesizer;
pub use migrations::v2::Kitty;
pub use migrations::v2::KittyId;
pub use registry::Config;
pub use registry::Error;
pub use registry::Event;
pub use registry::Pallet;

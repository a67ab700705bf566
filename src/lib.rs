//! A two-counter record store: one shared counter and one counter per
//! identity, each kept at an address derived from a seed, created on first
//! use and guarded by an ownership rule on every mutation.

pub mod address;
pub mod errors;
pub mod laws;
pub mod ledger;
pub mod program;
pub mod pubkey;
pub mod record;

pub use address::{derive_address, personal_counter_address, public_counter_address};
pub use errors::Errors;
pub use ledger::{Ledger, StoredAccount};
pub use program::{add_personal, add_public, AddPersonal, AddPublic};
pub use pubkey::Pubkey;
pub use record::{PersonalCounter, PublicCounter};

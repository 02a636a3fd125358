//! A kitty registry: kitties are minted or bred, priced by their owner,
//! transferred between accounts and bought, with every account owning at
//! most a bounded number of them.

pub mod types;
pub mod hashing;
pub mod owned;
pub mod table;
pub mod dna;
pub mod model;
pub mod pallet;
pub mod genesis;
pub mod laws;

//! A registry that mints uniquely identified records ("kitties"), assigns each
//! to an owner and bounds how many records one owner may hold.

pub mod dna;
pub mod pallet;


pub mod laws;

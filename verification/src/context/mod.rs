//! The accounts each operation works on, and the movements it decides.

pub mod delist;
pub mod list;
pub mod purchase;

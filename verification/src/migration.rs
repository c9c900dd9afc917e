//! The migration itself: from the records of a Zecwallet Lite wallet to the
//! interchange model.

pub mod migrate;
pub mod sapling;
pub mod seed;
pub mod transaction;
pub mod transparent;

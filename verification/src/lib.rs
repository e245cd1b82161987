//! Verified logic of three runtime modules and their test runtime: a proof-of-existence
//! claim registry, a collectible "kitties" module, and an off-chain price feed.

pub mod origin;
pub mod hashing;
pub mod kitties;
pub mod poe;
pub mod json;
pub mod ocw;
pub mod mock;

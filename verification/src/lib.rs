//! Verified core of the Bad Piggies level and save editor: terrain and
//! background lookups, Unity prefab text scanning, the asset index, and the
//! save file cryptography.

pub mod text;
pub mod number;
pub mod order;
pub mod assets;
pub mod data;
pub mod diagnostics;
pub mod crypto;
pub mod save_viewer;
pub mod filter;
pub mod tree;

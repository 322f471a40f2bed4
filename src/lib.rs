//! Output descriptors and key derivation for a cold-storage wallet: single-key
//! script templates, the key metadata a signer needs for each derivation leaf,
//! and absolute lock-time values whose type fixes how their number is read.

pub mod descriptors;
pub mod keys;
pub mod locktime;
pub mod text;

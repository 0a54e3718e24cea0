//! Messages of the Universal Money Address protocol: building them, signing them and
//! checking the signatures of the other side.
pub mod ambient;
pub mod encryption;
pub mod error;
pub mod hexadecimal;
pub mod json;
pub mod laws;
pub mod protocol;
pub mod public_key_cache;
pub mod signature;
pub mod text;
pub mod uma;
pub mod version;
pub mod web;

//! Key handling and entry points for a lattice-based signature scheme: keypair
//! generation, constant-time secret comparison, wiping of secrets on release, and
//! length-checked signing and verification.
pub mod params;
mod primitive;
pub mod api;
pub mod render;

pub use api::{verify, Keypair, SignError};
pub use params::{PUBLICKEYBYTES, SECRETKEYBYTES, SEEDBYTES, SIGNBYTES};

//! A local, single-user secret keeper.
//!
//! Secrets are stored by name, encrypted under a public key; reading one
//! back needs the matching private key and the passphrase that protects it.
//!
//! This library is the part that decides. Whatever touches a disk, a
//! terminal, a clipboard or the secret store is described as an
//! [`protocol::Action`] and carried out by the host program, which reports
//! what came of it as an [`protocol::Event`]. The cryptography is done in
//! here, between two actions of the host.
//!
//! - [`protocol`]: operations, actions and events.
//! - [`machine`]: the operations as a state machine.
//! - [`crypto`]: key pairs, encryption and decryption.
//! - [`engine`]: the machine run up to the next action of the host.
//! - [`model`] and [`laws`]: what holds of every operation against an
//!   honest host.
//! - [`text`] and [`error`]: trimming of typed lines; diagnostics.
pub mod crypto;
pub mod engine;
pub mod error;
pub mod laws;
pub mod machine;
pub mod model;
pub mod protocol;
pub mod text;

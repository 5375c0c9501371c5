//! A closed registry of chain runtime configurations, a resolver that maps a
//! runtime-identity string to the matching configuration, and per-scheme
//! signers (SR25519 and ECDSA) built from a human-readable seed-URI.
//!
//! The registry is a closed world: each configuration has a unique canonical
//! name and is bound to exactly one signer scheme.  The resolver matches an
//! identity string exactly (case-sensitively) against the canonical names and
//! either selects the configuration or fails with an error whose message
//! lists every registered name.  A signer is built from a secret string by the
//! scheme's key derivation, exposes account-id and address derivation, and
//! signs arbitrary payloads; a signature it produces verifies under the
//! signer's own public key.

pub mod error;
pub mod registry;
pub mod resolver;
pub mod signer;

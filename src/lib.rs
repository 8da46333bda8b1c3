//! A registry of certificates: issued under sequential identifiers, looked up
//! by anyone, and revoked only by the identity that issued them.
pub mod certificate;
pub mod laws;
pub mod registry;

//! Staged construction of MLS KeyPackages with an external binding.
//!
//! A KeyPackage is prepared and frozen first, its canonical binding bytes
//! (the TLS serialization of the KeyPackageTBS with the designated binding
//! extension absent) are handed out, an externally derived binding is inserted
//! as exactly one top-level unknown extension, and only then is the outer
//! KeyPackage signature produced and the bundle stored.

pub mod builder;
pub mod ciphersuite;
pub mod clock;
pub mod codec;
pub mod crypto;
pub mod decoding;
pub mod errors;
pub mod tls;
pub mod extension_type;
pub mod extensions;
pub mod key_package;
pub mod key_package_in;
pub mod laws;
pub mod leaf_node;
pub mod staged;
pub mod staging;
pub mod storage;
pub mod structure_codec;


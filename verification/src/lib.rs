//! ECDH-ES key management for JWE: direct key agreement and the three
//! AES Key Wrap variants, with the Concat KDF key derivation step.

pub mod alg;
pub mod backend;
pub mod claims;
pub mod curves;
pub mod decrypter;
pub mod encrypter;
pub mod errors;
pub mod jwk;
pub mod kdf;
pub mod key_wrap;

pub use alg::EcdhEsJweAlgorithm;
pub use claims::{EpkMap, EpkValue, JweHeader, ParamValue};
pub use curves::{EcCurve, EcdhEsKeyType, XCurve};
pub use decrypter::EcdhEsJweDecrypter;
pub use encrypter::EcdhEsJweEncrypter;
pub use errors::{AgreementInfo, JoseError, KeyParam, Reason};
pub use jwk::Jwk;

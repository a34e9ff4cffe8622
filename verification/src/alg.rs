use vstd::prelude::*;

verus! {

/// The four ECDH-ES key-management algorithm variants.
#[derive(Debug, Eq, PartialEq, Copy, Clone)]
pub enum EcdhEsJweAlgorithm {
    /// Elliptic Curve Diffie-Hellman Ephemeral Static key agreement using Concat KDF
    EcdhEs,
    /// ECDH-ES using Concat KDF and CEK wrapped with "A128KW"
    EcdhEsA128Kw,
    /// ECDH-ES using Concat KDF and CEK wrapped with "A192KW"
    EcdhEsA192Kw,
    /// ECDH-ES using Concat KDF and CEK wrapped with "A256KW"
    EcdhEsA256Kw,
}

impl EcdhEsJweAlgorithm {
    /// The canonical algorithm name, as a mathematical sequence of characters.
    pub open spec fn name_spec(&self) -> Seq<char> {
        match self {
            EcdhEsJweAlgorithm::EcdhEs => "ECDH-ES"@,
            EcdhEsJweAlgorithm::EcdhEsA128Kw => "ECDH-ES+A128KW"@,
            EcdhEsJweAlgorithm::EcdhEsA192Kw => "ECDH-ES+A192KW"@,
            EcdhEsJweAlgorithm::EcdhEsA256Kw => "ECDH-ES+A256KW"@,
        }
    }

    /// The canonical algorithm name.
    pub fn name(&self) -> (r: &str)
        ensures
            r@ == self.name_spec(),
    {
        match self {
            EcdhEsJweAlgorithm::EcdhEs => "ECDH-ES",
            EcdhEsJweAlgorithm::EcdhEsA128Kw => "ECDH-ES+A128KW",
            EcdhEsJweAlgorithm::EcdhEsA192Kw => "ECDH-ES+A192KW",
            EcdhEsJweAlgorithm::EcdhEsA256Kw => "ECDH-ES+A256KW",
        }
    }

    /// True only for the plain (direct key agreement) variant.
    pub open spec fn is_direct_spec(&self) -> bool {
        self is EcdhEs
    }

    /// Whether the variant uses the derived key directly as the content
    /// encryption key, with no key wrapping.
    pub fn is_direct(&self) -> (r: bool)
        ensures
            r == self.is_direct_spec(),
    {
        match self {
            EcdhEsJweAlgorithm::EcdhEs => true,
            _ => false,
        }
    }

    /// The AES key-wrap key width of a wrapping variant, in bytes. The
    /// direct variant wraps nothing and has no width.
    pub open spec fn wrap_key_len_spec(&self) -> usize {
        match self {
            EcdhEsJweAlgorithm::EcdhEs => 0usize,
            EcdhEsJweAlgorithm::EcdhEsA128Kw => 16usize,
            EcdhEsJweAlgorithm::EcdhEsA192Kw => 24usize,
            EcdhEsJweAlgorithm::EcdhEsA256Kw => 32usize,
        }
    }

    /// The byte length of the key that the Concat KDF derives for a
    /// wrapping variant: the width of its AES key-wrap key.
    pub fn wrap_key_len(&self) -> (r: usize)
        ensures
            r == self.wrap_key_len_spec(),
    {
        match self {
            EcdhEsJweAlgorithm::EcdhEs => 0,
            EcdhEsJweAlgorithm::EcdhEsA128Kw => 16,
            EcdhEsJweAlgorithm::EcdhEsA192Kw => 24,
            EcdhEsJweAlgorithm::EcdhEsA256Kw => 32,
        }
    }
}

} // verus!

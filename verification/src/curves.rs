use vstd::prelude::*;

use crate::backend::str_eq;
use crate::errors::{JoseError, Reason};

verus! {

/// The supported named elliptic curves.
#[derive(Debug, Eq, PartialEq, Copy, Clone, Structural)]
pub enum EcCurve {
    P256,
    P384,
    P521,
    Secp256K1,
}

impl EcCurve {
    /// The curve's canonical name.
    pub open spec fn name_spec(&self) -> Seq<char> {
        match self {
            EcCurve::P256 => "P-256"@,
            EcCurve::P384 => "P-384"@,
            EcCurve::P521 => "P-521"@,
            EcCurve::Secp256K1 => "secp256k1"@,
        }
    }

    pub fn name(&self) -> (r: &str)
        ensures
            r@ == self.name_spec(),
    {
        match self {
            EcCurve::P256 => "P-256",
            EcCurve::P384 => "P-384",
            EcCurve::P521 => "P-521",
            EcCurve::Secp256K1 => "secp256k1",
        }
    }

    /// The byte length of one affine coordinate: the curve's field size,
    /// rounded up to whole bytes.
    pub open spec fn coordinate_len_spec(&self) -> usize {
        match self {
            EcCurve::P256 => 32usize,
            EcCurve::P384 => 48usize,
            EcCurve::P521 => 66usize,
            EcCurve::Secp256K1 => 32usize,
        }
    }

    pub fn coordinate_len(&self) -> (r: usize)
        ensures
            r == self.coordinate_len_spec(),
    {
        match self {
            EcCurve::P256 => 32,
            EcCurve::P384 => 48,
            EcCurve::P521 => 66,
            EcCurve::Secp256K1 => 32,
        }
    }
}

/// The supported Montgomery curves.
#[derive(Debug, Eq, PartialEq, Copy, Clone, Structural)]
pub enum XCurve {
    X25519,
    X448,
}

impl XCurve {
    /// The curve's canonical name.
    pub open spec fn name_spec(&self) -> Seq<char> {
        match self {
            XCurve::X25519 => "X25519"@,
            XCurve::X448 => "X448"@,
        }
    }

    pub fn name(&self) -> (r: &str)
        ensures
            r@ == self.name_spec(),
    {
        match self {
            XCurve::X25519 => "X25519",
            XCurve::X448 => "X448",
        }
    }

    /// The byte length of a raw public value on this curve.
    pub open spec fn key_len_spec(&self) -> usize {
        match self {
            XCurve::X25519 => 32usize,
            XCurve::X448 => 56usize,
        }
    }

    pub fn key_len(&self) -> (r: usize)
        ensures
            r == self.key_len_spec(),
    {
        match self {
            XCurve::X25519 => 32,
            XCurve::X448 => 56,
        }
    }
}

/// The key family of an encrypter or decrypter: a named elliptic curve or a
/// Montgomery curve. Fixed at construction and never changed.
#[derive(Debug, Eq, PartialEq, Copy, Clone, Structural)]
pub enum EcdhEsKeyType {
    Ec(EcCurve),
    X(XCurve),
}

impl EcdhEsKeyType {
    /// The key-type discriminator written into JWK and "epk" structures.
    pub open spec fn key_type_spec(&self) -> Seq<char> {
        match self {
            EcdhEsKeyType::Ec(_) => "EC"@,
            EcdhEsKeyType::X(_) => "OKP"@,
        }
    }

    pub fn key_type(&self) -> (r: &str)
        ensures
            r@ == self.key_type_spec(),
    {
        match self {
            EcdhEsKeyType::Ec(_) => "EC",
            EcdhEsKeyType::X(_) => "OKP",
        }
    }

    /// The curve name written into JWK and "epk" structures.
    pub open spec fn curve_name_spec(&self) -> Seq<char> {
        match self {
            EcdhEsKeyType::Ec(c) => c.name_spec(),
            EcdhEsKeyType::X(c) => c.name_spec(),
        }
    }

    pub fn curve_name(&self) -> (r: &str)
        ensures
            r@ == self.curve_name_spec(),
    {
        match self {
            EcdhEsKeyType::Ec(c) => c.name(),
            EcdhEsKeyType::X(c) => c.name(),
        }
    }

    /// The byte length a decoded key or "epk" parameter must have: the
    /// curve's coordinate size for a named curve, its raw key size for a
    /// Montgomery curve.
    pub open spec fn param_len_spec(&self) -> usize {
        match self {
            EcdhEsKeyType::Ec(c) => c.coordinate_len_spec(),
            EcdhEsKeyType::X(c) => c.key_len_spec(),
        }
    }

    pub fn param_len(&self) -> (r: usize)
        ensures
            r == self.param_len_spec(),
    {
        match self {
            EcdhEsKeyType::Ec(c) => c.coordinate_len(),
            EcdhEsKeyType::X(c) => c.key_len(),
        }
    }
}

/// The named curve that a "crv" value denotes, if any.
pub open spec fn ec_curve_of_name(crv: Seq<char>) -> Option<EcCurve> {
    if crv == "P-256"@ {
        Some(EcCurve::P256)
    } else if crv == "P-384"@ {
        Some(EcCurve::P384)
    } else if crv == "P-521"@ {
        Some(EcCurve::P521)
    } else if crv == "secp256k1"@ {
        Some(EcCurve::Secp256K1)
    } else {
        None
    }
}

/// The Montgomery curve that a "crv" value denotes, if any.
pub open spec fn x_curve_of_name(crv: Seq<char>) -> Option<XCurve> {
    if crv == "X25519"@ {
        Some(XCurve::X25519)
    } else if crv == "X448"@ {
        Some(XCurve::X448)
    } else {
        None
    }
}

/// The key family that a ("kty", "crv") pair of strings denotes, if the
/// combination is supported.
pub open spec fn key_type_of_names(kty: Seq<char>, crv: Seq<char>) -> Option<EcdhEsKeyType> {
    if kty == "EC"@ {
        match ec_curve_of_name(crv) {
            Some(c) => Some(EcdhEsKeyType::Ec(c)),
            None => None,
        }
    } else if kty == "OKP"@ {
        match x_curve_of_name(crv) {
            Some(c) => Some(EcdhEsKeyType::X(c)),
            None => None,
        }
    } else {
        None
    }
}

fn ec_curve_from_name(crv: &str) -> (r: Option<EcCurve>)
    ensures
        r == ec_curve_of_name(crv@),
{
    if str_eq(crv, "P-256") {
        Some(EcCurve::P256)
    } else if str_eq(crv, "P-384") {
        Some(EcCurve::P384)
    } else if str_eq(crv, "P-521") {
        Some(EcCurve::P521)
    } else if str_eq(crv, "secp256k1") {
        Some(EcCurve::Secp256K1)
    } else {
        None
    }
}

fn x_curve_from_name(crv: &str) -> (r: Option<XCurve>)
    ensures
        r == x_curve_of_name(crv@),
{
    if str_eq(crv, "X25519") {
        Some(XCurve::X25519)
    } else if str_eq(crv, "X448") {
        Some(XCurve::X448)
    } else {
        None
    }
}

/// Resolves a key-family discriminator and a curve name to the strongly
/// typed key family, or says which of the two strings is at fault.
pub fn resolve_key_type(kty: &str, crv: &str) -> (r: Result<EcdhEsKeyType, JoseError>)
    ensures
        match r {
            Ok(kt) => key_type_of_names(kty@, crv@) == Some(kt),
            Err(e) => key_type_of_names(kty@, crv@) is None && e == (
            if kty@ == "EC"@ || kty@ == "OKP"@ {
                JoseError::InvalidKeyFormat(Reason::CrvUnsupported)
            } else {
                JoseError::InvalidKeyFormat(Reason::KtyNotSupported)
            }),
        },
{
    if str_eq(kty, "EC") {
        match ec_curve_from_name(crv) {
            Some(c) => Ok(EcdhEsKeyType::Ec(c)),
            None => Err(JoseError::InvalidKeyFormat(Reason::CrvUnsupported)),
        }
    } else if str_eq(kty, "OKP") {
        match x_curve_from_name(crv) {
            Some(c) => Ok(EcdhEsKeyType::X(c)),
            None => Err(JoseError::InvalidKeyFormat(Reason::CrvUnsupported)),
        }
    } else {
        Err(JoseError::InvalidKeyFormat(Reason::KtyNotSupported))
    }
}

} // verus!

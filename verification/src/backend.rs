//! The boundary to the cryptographic backend and to the base64url codec.
//! Every function here is a trusted wrapper around an outside call; the
//! rest of the library is verified against the contracts stated here.

use vstd::prelude::*;

use crate::curves::{EcCurve, XCurve};
use openssl::aes;
use openssl::bn::{BigNum, BigNumContext};
use openssl::ec::{EcGroup, EcKey, EcPoint};
use openssl::hash::MessageDigest;
use openssl::nid::Nid;
use openssl::pkey::{Id, PKey};

verus! {

#[verifier::external_type_specification]
#[verifier::external_body]
#[verifier::reject_recursive_types(T)]
pub struct ExPKey<T>(openssl::pkey::PKey<T>);

#[verifier::external_type_specification]
#[verifier::external_body]
pub struct ExPublic(openssl::pkey::Public);

#[verifier::external_type_specification]
#[verifier::external_body]
pub struct ExPrivate(openssl::pkey::Private);

#[verifier::external_type_specification]
#[verifier::external_body]
pub struct ExErrorStack(openssl::error::ErrorStack);

#[verifier::external_type_specification]
#[verifier::external_body]
pub struct ExKeyError(openssl::aes::KeyError);

#[verifier::external_type_specification]
#[verifier::external_body]
pub struct ExDecodeError(base64::DecodeError);

/// The SHA-256 digest of a byte sequence.
pub uninterp spec fn sha256_of(data: Seq<u8>) -> Seq<u8>;

/// The unpadded base64url encoding of a byte sequence.
pub uninterp spec fn base64url_of(data: Seq<u8>) -> Seq<char>;

/// What unpadded base64url decoding yields on a character sequence:
/// the decoded bytes, or nothing if the text is not valid base64url.
pub uninterp spec fn decoded_base64url(text: Seq<char>) -> Option<Seq<u8>>;

/// The RFC 3394 AES Key Wrap of `data` under the key-encryption key `kek`
/// with the default initial value.
pub uninterp spec fn aes_wrapped(kek: Seq<u8>, data: Seq<u8>) -> Seq<u8>;

/// Whether the backend accepts these affine coordinates as a public point
/// on the named curve: a function of the curve and the bytes alone.
pub uninterp spec fn ec_pub_accepted(curve: EcCurve, x: Seq<u8>, y: Seq<u8>) -> bool;

/// Whether the backend accepts these bytes as a private scalar on the
/// named curve: a function of the curve and the bytes alone.
pub uninterp spec fn ec_priv_accepted(curve: EcCurve, d: Seq<u8>) -> bool;

/// Relies on openssl::pkey: cloning a key handle yields a handle to the
/// same key. The handle is opaque here, so nothing is stated of it.
pub assume_specification<T>[ <openssl::pkey::PKey<T> as core::clone::Clone>::clone ](
    key: &openssl::pkey::PKey<T>,
) -> openssl::pkey::PKey<T>;

/// Relies on str's `PartialEq`: two `&str` are equal exactly when their
/// character sequences are.
#[verifier::external_body]
pub(crate) fn str_eq(a: &str, b: &str) -> (r: bool)
    ensures
        r == (a@ == b@),
{
    a == b
}

/// Relies on base64::encode_config with URL_SAFE_NO_PAD, and on decoding
/// being its inverse.
#[verifier::external_body]
pub(crate) fn b64url_encode(data: &[u8]) -> (r: String)
    ensures
        r@ == base64url_of(data@),
        decoded_base64url(r@) == Some(data@),
{
    base64::encode_config(data, base64::URL_SAFE_NO_PAD)
}

/// Relies on base64::decode_config with URL_SAFE_NO_PAD: it decodes exactly
/// the valid unpadded base64url strings.
#[verifier::external_body]
pub(crate) fn b64url_decode(text: &str) -> (r: Result<Vec<u8>, base64::DecodeError>)
    ensures
        match r {
            Ok(v) => decoded_base64url(text@) == Some(v@),
            Err(_) => decoded_base64url(text@) is None,
        },
{
    base64::decode_config(text, base64::URL_SAFE_NO_PAD)
}

/// Relies on openssl::hash::hash with SHA-256, whose digest is 32 bytes and
/// depends on the input alone.
#[verifier::external_body]
pub(crate) fn sha256(data: &Vec<u8>) -> (r: Result<Vec<u8>, openssl::error::ErrorStack>)
    ensures
        match r {
            Ok(v) => v@ == sha256_of(data@) && v@.len() == 32,
            Err(_) => true,
        },
{
    let digest = openssl::hash::hash(MessageDigest::sha256(), data)?;
    Ok(digest.to_vec())
}

/// Relies on openssl::rand::rand_bytes: a cryptographically secure source.
/// Nothing can be promised of the bytes themselves. The bound keeps the
/// request under the byte count the call asserts on.
#[verifier::external_body]
pub(crate) fn random_bytes(len: usize) -> (r: Result<Vec<u8>, openssl::error::ErrorStack>)
    requires
        len <= 0x7fffffff,
    ensures
        match r {
            Ok(v) => v@.len() == len,
            Err(_) => true,
        },
{
    let mut buf = vec![0u8; len];
    openssl::rand::rand_bytes(&mut buf)?;
    Ok(buf)
}

/// Relies on openssl::aes (AesKey::new_encrypt, wrap_key): RFC 3394 AES Key
/// Wrap, deterministic in the key and the payload, eight bytes longer than
/// the payload; it fails only on sizes outside the algorithm (a key that
/// is not 16, 24 or 32 bytes, or a payload under 16 bytes or off the
/// eight-byte grid). The bounds keep the key under the bit count the key
/// schedule asserts on and the written length within the signed 32-bit
/// range of the call and of the wrap implementation itself.
#[verifier::external_body]
pub(crate) fn aes_wrap(kek: &Vec<u8>, data: &Vec<u8>) -> (r: Result<Vec<u8>, openssl::aes::KeyError>)
    requires
        kek@.len() <= 0xfffffff,
        data@.len() + 8 <= 0x7fffffff,
    ensures
        match r {
            Ok(w) => w@ == aes_wrapped(kek@, data@) && w@.len() == data@.len() + 8,
            Err(_) => !((kek@.len() == 16 || kek@.len() == 24 || kek@.len() == 32) && data@.len()
                >= 16 && data@.len() % 8 == 0),
        },
{
    let key = aes::AesKey::new_encrypt(kek)?;
    let mut out = vec![0u8; data.len() + 8];
    let n = aes::wrap_key(&key, None, &mut out, data)?;
    out.truncate(n);
    Ok(out)
}

/// Relies on openssl::aes (AesKey::new_decrypt, unwrap_key): RFC 3394 AES
/// Key Unwrap is the inverse of the wrap, and succeeds exactly on the
/// wrapped images, for a wrapping key of a valid AES size and a payload of
/// a valid wrap length. The bounds keep the key under the bit count the
/// key schedule asserts on and the input within the signed 32-bit range
/// of the call and of the unwrap implementation itself.
#[verifier::external_body]
pub(crate) fn aes_unwrap(kek: &Vec<u8>, wrapped: &Vec<u8>) -> (r: Result<
    Vec<u8>,
    openssl::aes::KeyError,
>)
    requires
        kek@.len() <= 0xfffffff,
        8 <= wrapped@.len() <= 0x7fffffff,
    ensures
        match r {
            Ok(k) => k@.len() + 8 == wrapped@.len() && wrapped@ == aes_wrapped(kek@, k@) && (
            forall|p: Seq<u8>|
                p.len() >= 16 && p.len() % 8 == 0 && wrapped@ == aes_wrapped(kek@, p) ==> k@ == p),
            Err(_) => forall|p: Seq<u8>|
                !((kek@.len() == 16 || kek@.len() == 24 || kek@.len() == 32) && p.len() >= 16
                    && p.len() % 8 == 0 && wrapped@ == aes_wrapped(kek@, p)),
        },
{
    let key = aes::AesKey::new_decrypt(kek)?;
    let mut out = vec![0u8; wrapped.len() - 8];
    let n = aes::unwrap_key(&key, None, &mut out, wrapped)?;
    out.truncate(n);
    Ok(out)
}

/// Relies on openssl::ec (EcKey::generate) and openssl::bn
/// (to_vec_padded): a fresh key pair on the named curve, with its public
/// affine coordinates padded to the requested length.
#[verifier::external_body]
pub(crate) fn ec_generate_keypair(curve: EcCurve, coord_len: usize) -> (r: Result<
    (PKey<openssl::pkey::Private>, Vec<u8>, Vec<u8>),
    openssl::error::ErrorStack,
>)
    requires
        coord_len <= 0x7fffffff,
    ensures
        match r {
            Ok(t) => t.1@.len() == coord_len && t.2@.len() == coord_len,
            Err(_) => true,
        },
{
    let nid = match curve {
        EcCurve::P256 => Nid::X9_62_PRIME256V1,
        EcCurve::P384 => Nid::SECP384R1,
        EcCurve::P521 => Nid::SECP521R1,
        EcCurve::Secp256K1 => Nid::SECP256K1,
    };
    let group = EcGroup::from_curve_name(nid)?;
    let ec = EcKey::generate(&group)?;
    let mut ctx = BigNumContext::new()?;
    let mut x = BigNum::new()?;
    let mut y = BigNum::new()?;
    ec.public_key().affine_coordinates(&group, &mut x, &mut y, &mut ctx)?;
    let xv = x.to_vec_padded(coord_len as i32)?;
    let yv = y.to_vec_padded(coord_len as i32)?;
    Ok((PKey::from_ec_key(ec)?, xv, yv))
}

/// Relies on openssl::ec (EcKey::from_public_key_affine_coordinates),
/// which checks, as a function of the curve and the bytes alone, that the
/// coordinates name a point on the curve. The bounds keep the byte strings
/// under the length the big-number conversion asserts on.
#[verifier::external_body]
pub(crate) fn ec_public_key_from_coords(curve: EcCurve, x: &Vec<u8>, y: &Vec<u8>) -> (r: Result<
    PKey<openssl::pkey::Public>,
    openssl::error::ErrorStack,
>)
    requires
        x@.len() <= 0x7fffffff,
        y@.len() <= 0x7fffffff,
    ensures
        r is Ok <==> ec_pub_accepted(curve, x@, y@),
{
    let nid = match curve {
        EcCurve::P256 => Nid::X9_62_PRIME256V1,
        EcCurve::P384 => Nid::SECP384R1,
        EcCurve::P521 => Nid::SECP521R1,
        EcCurve::Secp256K1 => Nid::SECP256K1,
    };
    let group = EcGroup::from_curve_name(nid)?;
    let xb = BigNum::from_slice(x)?;
    let yb = BigNum::from_slice(y)?;
    let ec = EcKey::from_public_key_affine_coordinates(&group, &xb, &yb)?;
    PKey::from_ec_key(ec)
}

/// Relies on openssl::ec (EcPoint::mul_generator2,
/// EcKey::from_private_components): rebuilds the key pair of a private
/// scalar on the named curve; acceptance is a function of the curve and
/// the bytes alone. The bound keeps the byte string under the length the
/// big-number conversion asserts on.
#[verifier::external_body]
pub(crate) fn ec_private_key_from_scalar(curve: EcCurve, d: &Vec<u8>) -> (r: Result<
    PKey<openssl::pkey::Private>,
    openssl::error::ErrorStack,
>)
    requires
        d@.len() <= 0x7fffffff,
    ensures
        r is Ok <==> ec_priv_accepted(curve, d@),
{
    let nid = match curve {
        EcCurve::P256 => Nid::X9_62_PRIME256V1,
        EcCurve::P384 => Nid::SECP384R1,
        EcCurve::P521 => Nid::SECP521R1,
        EcCurve::Secp256K1 => Nid::SECP256K1,
    };
    let group = EcGroup::from_curve_name(nid)?;
    let scalar = BigNum::from_slice(d)?;
    let mut ctx = BigNumContext::new()?;
    let mut point = EcPoint::new(&group)?;
    point.mul_generator2(&group, &scalar, &mut ctx)?;
    let ec = EcKey::from_private_components(&group, &scalar, &point)?;
    PKey::from_ec_key(ec)
}

/// Relies on openssl::pkey (PKey::generate_x25519, PKey::generate_x448,
/// raw_public_key): a fresh Montgomery key pair and its raw public value,
/// whose length is the curve's key size.
#[verifier::external_body]
pub(crate) fn x_generate_keypair(curve: XCurve) -> (r: Result<
    (PKey<openssl::pkey::Private>, Vec<u8>),
    openssl::error::ErrorStack,
>)
    ensures
        match r {
            Ok(t) => t.1@.len() == curve.key_len_spec(),
            Err(_) => true,
        },
{
    let key = match curve {
        XCurve::X25519 => PKey::generate_x25519()?,
        XCurve::X448 => PKey::generate_x448()?,
    };
    let x = key.raw_public_key()?;
    Ok((key, x))
}

/// Relies on openssl::pkey (PKey::public_key_from_raw_bytes), which
/// accepts exactly the byte strings of the curve's raw key length.
#[verifier::external_body]
pub(crate) fn x_public_key_from_bytes(curve: XCurve, x: &Vec<u8>) -> (r: Result<
    PKey<openssl::pkey::Public>,
    openssl::error::ErrorStack,
>)
    ensures
        r is Ok <==> x@.len() == curve.key_len_spec(),
{
    let id = match curve {
        XCurve::X25519 => Id::X25519,
        XCurve::X448 => Id::X448,
    };
    PKey::public_key_from_raw_bytes(x, id)
}

/// Relies on openssl::pkey (PKey::private_key_from_raw_bytes), which
/// accepts exactly the byte strings of the curve's raw key length.
#[verifier::external_body]
pub(crate) fn x_private_key_from_bytes(curve: XCurve, d: &Vec<u8>) -> (r: Result<
    PKey<openssl::pkey::Private>,
    openssl::error::ErrorStack,
>)
    ensures
        r is Ok <==> d@.len() == curve.key_len_spec(),
{
    let id = match curve {
        XCurve::X25519 => Id::X25519,
        XCurve::X448 => Id::X448,
    };
    PKey::private_key_from_raw_bytes(d, id)
}

/// Relies on openssl::derive::Deriver (new, set_peer, derive_to_vec):
/// Diffie-Hellman agreement between a private and a public key. The raw
/// shared secret is stated nowhere: every caller must hold for every
/// outcome.
#[verifier::external_body]
pub(crate) fn ecdh_shared_secret(
    private_key: &PKey<openssl::pkey::Private>,
    public_key: &PKey<openssl::pkey::Public>,
) -> (r: Result<Vec<u8>, openssl::error::ErrorStack>) {
    let mut deriver = openssl::derive::Deriver::new(private_key)?;
    deriver.set_peer(public_key)?;
    deriver.derive_to_vec()
}

} // verus!

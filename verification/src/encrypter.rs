//! The encrypter: holds the recipient's public key, and on each call
//! generates a fresh ephemeral pair, derives the shared secret, runs the
//! Concat KDF, and either returns the derived key directly or wraps a
//! fresh content key with it.

use vstd::prelude::*;

use crate::alg::EcdhEsJweAlgorithm;
use crate::backend::{
    aes_wrapped, b64url_encode, ec_generate_keypair, ec_pub_accepted, ec_public_key_from_coords,
    ecdh_shared_secret, random_bytes, x_generate_keypair, x_public_key_from_bytes,
};
use crate::claims::{
    agreement_rejection, decode_agreement_claims, decoded_param, epk_written_for, EpkMap,
    EpkValue, JweHeader, ParamValue,
};
use crate::curves::{resolve_key_type, EcdhEsKeyType};
use crate::errors::{JoseError, KeyParam, Reason};
use crate::jwk::{check_jwk_common, decode_key_param, jwk_rejection, Jwk};
use crate::kdf::{concat_kdf, concat_kdf_spec, max_kdf_len};
use crate::key_wrap::wrap_content_key;
use openssl::pkey::PKey;
use vstd::pervasive::unreached;

verus! {

/// Encrypts (derives or wraps) content-encryption keys for one recipient
/// public key. Immutable after construction but for the key identifier.
#[derive(Debug, Clone)]
pub struct EcdhEsJweEncrypter {
    pub(crate) algorithm: EcdhEsJweAlgorithm,
    pub(crate) key_type: EcdhEsKeyType,
    pub(crate) public_key: PKey<openssl::pkey::Public>,
    pub(crate) key_id: Option<String>,
}

impl EcdhEsJweEncrypter {
    /// The algorithm variant fixed at construction.
    pub closed spec fn algorithm_spec(&self) -> EcdhEsJweAlgorithm {
        self.algorithm
    }

    /// The key family fixed at construction.
    pub closed spec fn key_type_spec(&self) -> EcdhEsKeyType {
        self.key_type
    }

    /// The optional key identifier.
    pub closed spec fn key_id_spec(&self) -> Option<Seq<char>> {
        match self.key_id {
            Some(s) => Some(s@),
            None => None,
        }
    }

    /// The recipient's public key handle, opaque but comparable, so that
    /// contracts can say it is kept.
    pub closed spec fn public_key_spec(&self) -> PKey<openssl::pkey::Public> {
        self.public_key
    }

    pub fn algorithm(&self) -> (r: &EcdhEsJweAlgorithm)
        ensures
            *r == self.algorithm_spec(),
    {
        &self.algorithm
    }

    pub fn key_id(&self) -> (r: Option<&str>)
        ensures
            match r {
                Some(s) => self.key_id_spec() == Some(s@),
                None => self.key_id_spec() is None,
            },
    {
        match &self.key_id {
            Some(s) => Some(s.as_str()),
            None => None,
        }
    }

    pub fn set_key_id(&mut self, key_id: Option<String>)
        ensures
            final(self).key_id_spec() == (match key_id {
                Some(s) => Some(s@),
                None => None::<Seq<char>>,
            }),
            final(self).algorithm_spec() == old(self).algorithm_spec(),
            final(self).key_type_spec() == old(self).key_type_spec(),
            final(self).public_key_spec() == old(self).public_key_spec(),
    {
        match key_id {
            Some(v) => {
                self.key_id = Some(v);
            },
            None => {
                self.key_id = None;
            },
        }
    }

    /// Generates a fresh ephemeral key pair on the encrypter's curve and
    /// the "epk" object carrying its public half.
    fn generate_ephemeral(&self) -> (r: Result<
        (PKey<openssl::pkey::Private>, EpkMap),
        JoseError,
    >)
        ensures
            match r {
                Ok(t) => epk_written_for(t.1, self.key_type_spec()),
                Err(e) => e == JoseError::InvalidKeyFormat(Reason::BackendFailure),
            },
    {
        match self.key_type {
            EcdhEsKeyType::Ec(curve) => {
                let coord_len = curve.coordinate_len();
                let generated = match ec_generate_keypair(curve, coord_len) {
                    Ok(t) => t,
                    Err(_) => {
                        return Err(JoseError::InvalidKeyFormat(Reason::BackendFailure));
                    },
                };
                let xs = b64url_encode(generated.1.as_slice());
                let ys = b64url_encode(generated.2.as_slice());
                let m = EpkMap {
                    kty: Some(ParamValue::Text(self.key_type.key_type().to_owned())),
                    crv: Some(ParamValue::Text(self.key_type.curve_name().to_owned())),
                    x: Some(ParamValue::Text(xs)),
                    y: Some(ParamValue::Text(ys)),
                };
                Ok((generated.0, m))
            },
            EcdhEsKeyType::X(curve) => {
                let generated = match x_generate_keypair(curve) {
                    Ok(t) => t,
                    Err(_) => {
                        return Err(JoseError::InvalidKeyFormat(Reason::BackendFailure));
                    },
                };
                let xs = b64url_encode(generated.1.as_slice());
                let m = EpkMap {
                    kty: Some(ParamValue::Text(self.key_type.key_type().to_owned())),
                    crv: Some(ParamValue::Text(self.key_type.curve_name().to_owned())),
                    x: Some(ParamValue::Text(xs)),
                    y: None,
                };
                Ok((generated.0, m))
            },
        }
    }

    /// How a successful `encrypt` leaves the header: the algorithm name
    /// and a fresh "epk" are written; every other claim is untouched.
    pub open spec fn encrypt_header_written(self, prev: JweHeader, cur: JweHeader) -> bool {
        &&& cur.enc == prev.enc
        &&& cur.apu == prev.apu
        &&& cur.apv == prev.apv
        &&& cur.alg matches Some(a) && a@ == self.algorithm_spec().name_spec()
        &&& cur.epk matches Some(EpkValue::Object(m)) && epk_written_for(m, self.key_type_spec())
    }

    /// What a successful `encrypt` returns: a content key of the requested
    /// length that is, for the direct variant, the Concat KDF output for
    /// some shared secret and no wrapped key; for a wrapping variant, a
    /// fresh key together with its wrap under the KDF output.
    pub open spec fn encrypt_keys_derived(
        self,
        prev: JweHeader,
        t: (Vec<u8>, Option<Vec<u8>>),
        key_len: usize,
    ) -> bool {
        &&& t.0@.len() == key_len
        &&& !self.algorithm_spec().is_direct_spec() ==> (key_len % 8 == 0 && key_len >= 16)
        &&& if self.algorithm_spec().is_direct_spec() {
            t.1 is None && (exists|z: Seq<u8>|
                t.0@ == concat_kdf_spec(
                    z,
                    vstd::utf8::encode_utf8(prev.enc->0@),
                    decoded_param(prev.apu),
                    decoded_param(prev.apv),
                    key_len,
                ))
        } else {
            t.1 matches Some(w) && w@.len() == key_len + 8 && (exists|z: Seq<u8>|
                w@ == aes_wrapped(
                    concat_kdf_spec(
                        z,
                        vstd::utf8::encode_utf8(prev.enc->0@),
                        decoded_param(prev.apu),
                        decoded_param(prev.apv),
                        self.algorithm_spec().wrap_key_len_spec(),
                    ),
                    t.0@,
                ))
        }
    }

    /// Which error a failed `encrypt` returns: a claim fault exactly as
    /// `agreement_rejection` orders them, an unsuitable content-key length
    /// for a wrapping variant, else a backend failure.
    pub open spec fn encrypt_error_is(self, e: JoseError, prev: JweHeader, key_len: usize) -> bool {
        match agreement_rejection(prev.apu, prev.apv) {
            Some(rea) => e == JoseError::InvalidKeyFormat(rea),
            None => if !self.algorithm_spec().is_direct_spec() && (key_len % 8 != 0 || key_len
                < 16) {
                e == JoseError::InvalidKeyFormat(Reason::CekLengthUnsuitable)
            } else {
                e == JoseError::InvalidKeyFormat(Reason::BackendFailure)
            },
        }
    }

    /// Derives the content-encryption key for one encryption operation.
    ///
    /// Validates the "apu"/"apv" claims, generates a fresh ephemeral key
    /// pair, derives the shared secret, runs the Concat KDF, and for the
    /// wrapping variants wraps a fresh random content key. On success the
    /// header carries the algorithm name and the ephemeral public key; on
    /// failure it is unchanged.
    pub fn encrypt(&self, header: &mut JweHeader, key_len: usize) -> (r: Result<
        (Vec<u8>, Option<Vec<u8>>),
        JoseError,
    >)
        requires
            old(header).enc is Some,
            key_len <= max_kdf_len(),
        ensures
            match r {
                Ok(t) => agreement_rejection(old(header).apu, old(header).apv) is None
                    && self.encrypt_header_written(*old(header), *final(header))
                    && self.encrypt_keys_derived(*old(header), t, key_len),
                Err(e) => *final(header) == *old(header) && self.encrypt_error_is(
                    e,
                    *old(header),
                    key_len,
                ),
            },
    {
        let decoded = match decode_agreement_claims(&header.apu, &header.apv) {
            Ok(t) => t,
            Err(rea) => {
                return Err(JoseError::InvalidKeyFormat(rea));
            },
        };
        let apu = decoded.0;
        let apv = decoded.1;
        let direct = self.algorithm.is_direct();
        if !direct && (key_len % 8 != 0 || key_len < 16) {
            return Err(JoseError::InvalidKeyFormat(Reason::CekLengthUnsuitable));
        }
        let ephemeral = match self.generate_ephemeral() {
            Ok(t) => t,
            Err(e) => {
                return Err(e);
            },
        };
        let z = match ecdh_shared_secret(&ephemeral.0, &self.public_key) {
            Ok(v) => v,
            Err(_) => {
                return Err(JoseError::InvalidKeyFormat(Reason::BackendFailure));
            },
        };
        let enc_string: String = match &header.enc {
            Some(s) => s.clone(),
            None => unreached(),
        };
        let derived_len = if direct {
            key_len
        } else {
            self.algorithm.wrap_key_len()
        };
        let derived = match concat_kdf(
            &z,
            enc_string.as_str(),
            apu.as_ref(),
            apv.as_ref(),
            derived_len,
        ) {
            Ok(v) => v,
            Err(rea) => {
                return Err(JoseError::InvalidKeyFormat(rea));
            },
        };
        let result: (Vec<u8>, Option<Vec<u8>>) = if direct {
            (derived, None)
        } else {
            let cek = match random_bytes(key_len) {
                Ok(v) => v,
                Err(_) => {
                    return Err(JoseError::InvalidKeyFormat(Reason::BackendFailure));
                },
            };
            let wrapped = match wrap_content_key(&derived, &cek) {
                Ok(w) => w,
                Err(_) => unreached(),
            };
            (cek, Some(wrapped))
        };
        header.alg = Some(self.algorithm.name().to_owned());
        header.epk = Some(EpkValue::Object(ephemeral.1));
        Ok(result)
    }
}

/// Whether the backend accepts the public key a representation declares:
/// for a named curve, acceptance of the decoded coordinates as a point on
/// it; a Montgomery public value of the validated exact length is always
/// accepted.
pub open spec fn jwk_public_key_accepted(jwk: Jwk) -> bool {
    match jwk.declared_key_type() {
        Some(EcdhEsKeyType::Ec(c)) => ec_pub_accepted(
            c,
            decoded_param(jwk.x)->0,
            decoded_param(jwk.y)->0,
        ),
        Some(EcdhEsKeyType::X(_)) => true,
        None => false,
    }
}

impl EcdhEsJweAlgorithm {
    /// Builds an encrypter from a public key representation: `Ok` exactly
    /// when the validation spelled out by `jwk_rejection` passes and the
    /// backend accepts the declared public key; `KeyRejected` exactly when
    /// only the latter fails.
    pub fn encrypter_from_jwk(&self, jwk: &Jwk) -> (r: Result<EcdhEsJweEncrypter, JoseError>)
        ensures
            match r {
                Ok(enc) => jwk_rejection(*jwk, *self, false) is None && jwk_public_key_accepted(
                    *jwk,
                ) && enc.algorithm_spec() == *self && Some(enc.key_type_spec())
                    == jwk.declared_key_type() && enc.key_id_spec() == (match jwk.kid {
                    Some(k) => Some(k@),
                    None => None::<Seq<char>>,
                }),
                Err(e) => match jwk_rejection(*jwk, *self, false) {
                    Some(rea) => e == JoseError::InvalidKeyFormat(rea),
                    None => e == JoseError::InvalidKeyFormat(Reason::KeyRejected)
                        && !jwk_public_key_accepted(*jwk),
                },
            },
    {
        match check_jwk_common(jwk, self) {
            Some(rea) => {
                return Err(JoseError::InvalidKeyFormat(rea));
            },
            None => (),
        }
        let crv: &String = match &jwk.crv {
            None => {
                return Err(JoseError::InvalidKeyFormat(Reason::CrvMissing));
            },
            Some(ParamValue::NotText) => {
                return Err(JoseError::InvalidKeyFormat(Reason::CrvNotText));
            },
            Some(ParamValue::Text(c)) => c,
        };
        let kt = match resolve_key_type(jwk.kty.as_str(), crv.as_str()) {
            Ok(kt) => kt,
            Err(e) => {
                return Err(e);
            },
        };
        let len = kt.param_len();
        let public_key = match kt {
            EcdhEsKeyType::Ec(curve) => {
                let x = match decode_key_param(&jwk.x, KeyParam::X, len) {
                    Ok(b) => b,
                    Err(rea) => {
                        return Err(JoseError::InvalidKeyFormat(rea));
                    },
                };
                let y = match decode_key_param(&jwk.y, KeyParam::Y, len) {
                    Ok(b) => b,
                    Err(rea) => {
                        return Err(JoseError::InvalidKeyFormat(rea));
                    },
                };
                match ec_public_key_from_coords(curve, &x, &y) {
                    Ok(k) => k,
                    Err(_) => {
                        return Err(JoseError::InvalidKeyFormat(Reason::KeyRejected));
                    },
                }
            },
            EcdhEsKeyType::X(curve) => {
                let x = match decode_key_param(&jwk.x, KeyParam::X, len) {
                    Ok(b) => b,
                    Err(rea) => {
                        return Err(JoseError::InvalidKeyFormat(rea));
                    },
                };
                match x_public_key_from_bytes(curve, &x) {
                    Ok(k) => k,
                    Err(_) => unreached(),
                }
            },
        };
        let key_id: Option<String> = match &jwk.kid {
            Some(k) => Some(k.clone()),
            None => None,
        };
        Ok(EcdhEsJweEncrypter { algorithm: *self, key_type: kt, public_key, key_id })
    }
}

} // verus!

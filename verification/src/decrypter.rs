//! The decrypter: holds its own private key, validates the received
//! header, rebuilds the sender's ephemeral public key, derives the shared
//! secret, runs the Concat KDF, and either returns the derived key
//! directly or unwraps the supplied wrapped key with it.

use vstd::prelude::*;

use crate::alg::EcdhEsJweAlgorithm;
use crate::backend::{
    aes_wrapped, ec_private_key_from_scalar, ec_public_key_from_coords, ecdh_shared_secret,
    x_private_key_from_bytes, x_public_key_from_bytes,
};
use crate::claims::{
    agreement_rejection, decode_agreement_claims, decode_epk_param, decoded_param, epk_accepted,
    epk_rejection, EpkMap, EpkValue, JweHeader, ParamValue,
};
use crate::curves::{resolve_key_type, EcdhEsKeyType};
use crate::errors::{JoseError, KeyParam, Reason};
use crate::jwk::{check_jwk_common, decode_key_param, jwk_rejection, Jwk};
use crate::kdf::{concat_kdf, concat_kdf_spec, max_kdf_len, opt_view};
use crate::key_wrap::unwrap_content_key;
use openssl::pkey::PKey;
use vstd::pervasive::unreached;

verus! {

/// Decrypts (derives or unwraps) content-encryption keys with one private
/// key. Immutable after construction but for the key identifier.
#[derive(Debug, Clone)]
pub struct EcdhEsJweDecrypter {
    pub(crate) algorithm: EcdhEsJweAlgorithm,
    pub(crate) key_type: EcdhEsKeyType,
    pub(crate) private_key: PKey<openssl::pkey::Private>,
    pub(crate) key_id: Option<String>,
}

impl EcdhEsJweDecrypter {
    /// The algorithm variant fixed at construction.
    pub closed spec fn algorithm_spec(&self) -> EcdhEsJweAlgorithm {
        self.algorithm
    }

    /// The key family fixed at construction.
    pub closed spec fn key_type_spec(&self) -> EcdhEsKeyType {
        self.key_type
    }

    /// The optional key identifier.
    pub closed spec fn key_id_spec(&self) -> Option<Seq<char>> {
        match self.key_id {
            Some(s) => Some(s@),
            None => None,
        }
    }

    /// The decrypter's private key handle, opaque but comparable, so that
    /// contracts can say it is kept.
    pub closed spec fn private_key_spec(&self) -> PKey<openssl::pkey::Private> {
        self.private_key
    }

    pub fn algorithm(&self) -> (r: &EcdhEsJweAlgorithm)
        ensures
            *r == self.algorithm_spec(),
    {
        &self.algorithm
    }

    pub fn key_id(&self) -> (r: Option<&str>)
        ensures
            match r {
                Some(s) => self.key_id_spec() == Some(s@),
                None => self.key_id_spec() is None,
            },
    {
        match &self.key_id {
            Some(s) => Some(s.as_str()),
            None => None,
        }
    }

    pub fn set_key_id(&mut self, key_id: Option<String>)
        ensures
            final(self).key_id_spec() == (match key_id {
                Some(s) => Some(s@),
                None => None::<Seq<char>>,
            }),
            final(self).algorithm_spec() == old(self).algorithm_spec(),
            final(self).key_type_spec() == old(self).key_type_spec(),
            final(self).private_key_spec() == old(self).private_key_spec(),
    {
        match key_id {
            Some(v) => {
                self.key_id = Some(v);
            },
            None => {
                self.key_id = None;
            },
        }
    }

    /// The first fault `decrypt` finds, in the order it looks: the wrapped
    /// key's presence must match the variant and, for a wrapping variant,
    /// its length and the requested length must suit AES Key Wrap; then
    /// the "apu"/"apv" claims; then the "epk" claim checked against the
    /// decrypter's key family.
    pub open spec fn decrypt_rejection(
        self,
        header: JweHeader,
        encrypted_key: Option<Seq<u8>>,
        key_len: usize,
    ) -> Option<Reason> {
        let direct = self.algorithm_spec().is_direct_spec();
        if direct && encrypted_key is Some {
            Some(Reason::EncryptedKeyUnexpected)
        } else if !direct && encrypted_key is None {
            Some(Reason::EncryptedKeyMissing)
        } else if !direct && encrypted_key->0.len() != key_len + 8 {
            Some(Reason::EncryptedKeyWrongLength)
        } else if !direct && (key_len % 8 != 0 || key_len < 16) {
            Some(Reason::CekLengthUnsuitable)
        } else {
            match agreement_rejection(header.apu, header.apv) {
                Some(rea) => Some(rea),
                None => match header.epk {
                    None => Some(Reason::EpkMissing),
                    Some(EpkValue::NotObject) => Some(Reason::EpkNotObject),
                    Some(EpkValue::Object(m)) => epk_rejection(m, self.key_type_spec()),
                },
            }
        }
    }

    /// What a successful `decrypt` returns: a key of the requested length
    /// that is, for the direct variant, the Concat KDF output for some
    /// shared secret; for a wrapping variant, a key whose wrap under the
    /// KDF output is exactly the supplied wrapped key.
    pub open spec fn decrypt_key_derived(
        self,
        header: JweHeader,
        encrypted_key: Option<Seq<u8>>,
        key_len: usize,
        k: Vec<u8>,
    ) -> bool {
        &&& k@.len() == key_len
        &&& if self.algorithm_spec().is_direct_spec() {
            exists|z: Seq<u8>|
                k@ == concat_kdf_spec(
                    z,
                    vstd::utf8::encode_utf8(header.enc->0@),
                    decoded_param(header.apu),
                    decoded_param(header.apv),
                    key_len,
                )
        } else {
            exists|z: Seq<u8>|
                encrypted_key->0 == aes_wrapped(
                    concat_kdf_spec(
                        z,
                        vstd::utf8::encode_utf8(header.enc->0@),
                        decoded_param(header.apu),
                        decoded_param(header.apv),
                        self.algorithm_spec().wrap_key_len_spec(),
                    ),
                    k@,
                )
        }
    }

    /// Rebuilds the sender's ephemeral public key from a structurally
    /// valid "epk" object: the backend accepts it exactly when
    /// `epk_accepted` holds of its decoded coordinates.
    fn load_epk(&self, m: &EpkMap) -> (r: Result<PKey<openssl::pkey::Public>, Reason>)
        requires
            epk_rejection(*m, self.key_type_spec()) is None,
        ensures
            match r {
                Ok(_) => epk_accepted(*m, self.key_type_spec()),
                Err(rea) => rea == Reason::KeyRejected && !epk_accepted(*m, self.key_type_spec()),
            },
    {
        let len = self.key_type.param_len();
        match self.key_type {
            EcdhEsKeyType::Ec(curve) => {
                let x = match decode_epk_param(&m.x, KeyParam::X, len) {
                    Ok(b) => b,
                    Err(_) => unreached(),
                };
                let y = match decode_epk_param(&m.y, KeyParam::Y, len) {
                    Ok(b) => b,
                    Err(_) => unreached(),
                };
                match ec_public_key_from_coords(curve, &x, &y) {
                    Ok(k) => Ok(k),
                    Err(_) => Err(Reason::KeyRejected),
                }
            },
            EcdhEsKeyType::X(curve) => {
                let x = match decode_epk_param(&m.x, KeyParam::X, len) {
                    Ok(b) => b,
                    Err(_) => unreached(),
                };
                match x_public_key_from_bytes(curve, &x) {
                    Ok(k) => Ok(k),
                    Err(_) => unreached(),
                }
            },
        }
    }

    /// Recovers the content-encryption key for one decryption operation.
    ///
    /// Checks the wrapped key's presence against the variant, validates
    /// the header claims against the decrypter's key family before any
    /// cryptography runs, then derives the shared secret with the sender's
    /// ephemeral public key, runs the Concat KDF, and for the wrapping
    /// variants unwraps the supplied key.
    pub fn decrypt(&self, header: &JweHeader, encrypted_key: Option<&Vec<u8>>, key_len: usize) -> (r:
        Result<Vec<u8>, JoseError>)
        requires
            header.enc is Some,
            key_len <= max_kdf_len(),
        ensures
            match r {
                Ok(k) => self.decrypt_rejection(*header, opt_view(encrypted_key), key_len) is None
                    && epk_accepted(header.epk->0->Object_0, self.key_type_spec())
                    && self.decrypt_key_derived(*header, opt_view(encrypted_key), key_len, k),
                Err(e) => match self.decrypt_rejection(*header, opt_view(encrypted_key), key_len) {
                    Some(rea) => e == JoseError::InvalidJweFormat(rea),
                    None => if !epk_accepted(header.epk->0->Object_0, self.key_type_spec()) {
                        e == JoseError::InvalidJweFormat(Reason::KeyRejected)
                    } else {
                        e == JoseError::InvalidJweFormat(Reason::BackendFailure) || (
                        !self.algorithm_spec().is_direct_spec() && e == JoseError::InvalidJweFormat(
                            Reason::UnwrapFailed,
                        ))
                    },
                },
            },
    {
        let direct = self.algorithm.is_direct();
        let wrapped: Option<&Vec<u8>> = match encrypted_key {
            Some(w) => {
                if direct {
                    return Err(JoseError::InvalidJweFormat(Reason::EncryptedKeyUnexpected));
                }
                if w.len() != key_len + 8 {
                    return Err(JoseError::InvalidJweFormat(Reason::EncryptedKeyWrongLength));
                }
                if key_len % 8 != 0 || key_len < 16 {
                    return Err(JoseError::InvalidJweFormat(Reason::CekLengthUnsuitable));
                }
                Some(w)
            },
            None => {
                if !direct {
                    return Err(JoseError::InvalidJweFormat(Reason::EncryptedKeyMissing));
                }
                None
            },
        };
        let decoded = match decode_agreement_claims(&header.apu, &header.apv) {
            Ok(t) => t,
            Err(rea) => {
                return Err(JoseError::InvalidJweFormat(rea));
            },
        };
        let apu = decoded.0;
        let apv = decoded.1;
        let epk_map: &EpkMap = match &header.epk {
            None => {
                return Err(JoseError::InvalidJweFormat(Reason::EpkMissing));
            },
            Some(EpkValue::NotObject) => {
                return Err(JoseError::InvalidJweFormat(Reason::EpkNotObject));
            },
            Some(EpkValue::Object(m)) => m,
        };
        match &epk_map.kty {
            None => {
                return Err(JoseError::InvalidJweFormat(Reason::EpkKtyMissing));
            },
            Some(ParamValue::NotText) => {
                return Err(JoseError::InvalidJweFormat(Reason::EpkKtyNotText));
            },
            Some(ParamValue::Text(k)) => {
                if !crate::backend::str_eq(k.as_str(), self.key_type.key_type()) {
                    return Err(JoseError::InvalidJweFormat(Reason::EpkKtyMismatch));
                }
            },
        }
        match &epk_map.crv {
            None => {
                return Err(JoseError::InvalidJweFormat(Reason::EpkCrvMissing));
            },
            Some(ParamValue::NotText) => {
                return Err(JoseError::InvalidJweFormat(Reason::EpkCrvNotText));
            },
            Some(ParamValue::Text(c)) => {
                if !crate::backend::str_eq(c.as_str(), self.key_type.curve_name()) {
                    return Err(JoseError::InvalidJweFormat(Reason::EpkCrvMismatch));
                }
            },
        }
        let coord_len = self.key_type.param_len();
        match decode_epk_param(&epk_map.x, KeyParam::X, coord_len) {
            Ok(_) => (),
            Err(rea) => {
                return Err(JoseError::InvalidJweFormat(rea));
            },
        }
        match self.key_type {
            EcdhEsKeyType::Ec(_) => {
                match decode_epk_param(&epk_map.y, KeyParam::Y, coord_len) {
                    Ok(_) => (),
                    Err(rea) => {
                        return Err(JoseError::InvalidJweFormat(rea));
                    },
                }
            },
            EcdhEsKeyType::X(_) => (),
        }
        let peer = match self.load_epk(epk_map) {
            Ok(k) => k,
            Err(rea) => {
                return Err(JoseError::InvalidJweFormat(rea));
            },
        };
        let z = match ecdh_shared_secret(&self.private_key, &peer) {
            Ok(v) => v,
            Err(_) => {
                return Err(JoseError::InvalidJweFormat(Reason::BackendFailure));
            },
        };
        let enc_string: String = match &header.enc {
            Some(s) => s.clone(),
            None => unreached(),
        };
        let derived_len = if direct {
            key_len
        } else {
            self.algorithm.wrap_key_len()
        };
        let derived = match concat_kdf(
            &z,
            enc_string.as_str(),
            apu.as_ref(),
            apv.as_ref(),
            derived_len,
        ) {
            Ok(v) => v,
            Err(_) => {
                return Err(JoseError::InvalidJweFormat(Reason::BackendFailure));
            },
        };
        if direct {
            Ok(derived)
        } else {
            let w: &Vec<u8> = match wrapped {
                Some(w) => w,
                None => unreached(),
            };
            match unwrap_content_key(&derived, w) {
                Ok(k) => Ok(k),
                Err(_) => Err(JoseError::InvalidJweFormat(Reason::UnwrapFailed)),
            }
        }
    }
}

/// Whether the backend accepts the private key a representation declares:
/// for a named curve, acceptance of the decoded scalar; a Montgomery
/// private value of the validated exact length is always accepted.
pub open spec fn jwk_private_key_accepted(jwk: Jwk) -> bool {
    match jwk.declared_key_type() {
        Some(EcdhEsKeyType::Ec(c)) => crate::backend::ec_priv_accepted(
            c,
            decoded_param(jwk.d)->0,
        ),
        Some(EcdhEsKeyType::X(_)) => true,
        None => false,
    }
}

impl EcdhEsJweAlgorithm {
    /// Builds a decrypter from a private key representation: `Ok` exactly
    /// when the validation spelled out by `jwk_rejection` passes and the
    /// backend accepts the declared private key; `KeyRejected` exactly
    /// when only the latter fails.
    pub fn decrypter_from_jwk(&self, jwk: &Jwk) -> (r: Result<EcdhEsJweDecrypter, JoseError>)
        ensures
            match r {
                Ok(dec) => jwk_rejection(*jwk, *self, true) is None && jwk_private_key_accepted(
                    *jwk,
                ) && dec.algorithm_spec() == *self && Some(dec.key_type_spec())
                    == jwk.declared_key_type() && dec.key_id_spec() == (match jwk.kid {
                    Some(k) => Some(k@),
                    None => None::<Seq<char>>,
                }),
                Err(e) => match jwk_rejection(*jwk, *self, true) {
                    Some(rea) => e == JoseError::InvalidKeyFormat(rea),
                    None => e == JoseError::InvalidKeyFormat(Reason::KeyRejected)
                        && !jwk_private_key_accepted(*jwk),
                },
            },
    {
        match check_jwk_common(jwk, self) {
            Some(rea) => {
                return Err(JoseError::InvalidKeyFormat(rea));
            },
            None => (),
        }
        let crv: &String = match &jwk.crv {
            None => {
                return Err(JoseError::InvalidKeyFormat(Reason::CrvMissing));
            },
            Some(ParamValue::NotText) => {
                return Err(JoseError::InvalidKeyFormat(Reason::CrvNotText));
            },
            Some(ParamValue::Text(c)) => c,
        };
        let kt = match resolve_key_type(jwk.kty.as_str(), crv.as_str()) {
            Ok(kt) => kt,
            Err(e) => {
                return Err(e);
            },
        };
        let d = match decode_key_param(&jwk.d, KeyParam::D, kt.param_len()) {
            Ok(b) => b,
            Err(rea) => {
                return Err(JoseError::InvalidKeyFormat(rea));
            },
        };
        let private_key = match kt {
            EcdhEsKeyType::Ec(curve) => {
                match ec_private_key_from_scalar(curve, &d) {
                    Ok(k) => k,
                    Err(_) => {
                        return Err(JoseError::InvalidKeyFormat(Reason::KeyRejected));
                    },
                }
            },
            EcdhEsKeyType::X(curve) => {
                match x_private_key_from_bytes(curve, &d) {
                    Ok(k) => k,
                    Err(_) => unreached(),
                }
            },
        };
        let key_id: Option<String> = match &jwk.kid {
            Some(k) => Some(k.clone()),
            None => None,
        };
        Ok(EcdhEsJweDecrypter { algorithm: *self, key_type: kt, private_key, key_id })
    }
}

/// What a successful `encrypt` hands over, a matching decrypter accepts:
/// a header written by an encrypter, together with the wrapped key it
/// returned, passes every validation that `decrypt` runs before its
/// cryptography, whenever the two sides share the algorithm variant and
/// the key family.
pub proof fn lemma_encrypted_header_accepted(
    e: crate::encrypter::EcdhEsJweEncrypter,
    d: EcdhEsJweDecrypter,
    prev: JweHeader,
    cur: JweHeader,
    t: (Vec<u8>, Option<Vec<u8>>),
    key_len: usize,
)
    requires
        d.algorithm_spec() == e.algorithm_spec(),
        d.key_type_spec() == e.key_type_spec(),
        agreement_rejection(prev.apu, prev.apv) is None,
        e.encrypt_header_written(prev, cur),
        e.encrypt_keys_derived(prev, t, key_len),
    ensures
        d.decrypt_rejection(cur, crate::claims::opt_vec_view(t.1), key_len) is None,
{
    let m = cur.epk->0->Object_0;
    crate::claims::lemma_written_epk_accepted(m, d.key_type_spec());
}

} // verus!

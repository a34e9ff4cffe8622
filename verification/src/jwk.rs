use vstd::prelude::*;

use crate::alg::EcdhEsJweAlgorithm;
use crate::backend::{b64url_decode, decoded_base64url, str_eq};
use crate::claims::{decoded_param, ParamValue};
use crate::curves::{key_type_of_names, EcdhEsKeyType};
use crate::errors::{KeyParam, Reason};

verus! {

/// The parameters of a key representation that the ECDH-ES algorithms
/// read. `kty` is the required key-type discriminator; the coordinate
/// parameters may arrive with any JSON shape.
#[derive(Debug, Clone)]
pub struct Jwk {
    pub kty: String,
    pub key_use: Option<String>,
    pub key_ops: Option<Vec<String>>,
    pub alg: Option<String>,
    pub kid: Option<String>,
    pub crv: Option<ParamValue>,
    pub x: Option<ParamValue>,
    pub y: Option<ParamValue>,
    pub d: Option<ParamValue>,
}

impl Jwk {
    /// Whether the key's declared operations permit `op`: a key that
    /// declares no operations list permits every operation; one that
    /// declares a list permits exactly what the list holds.
    pub open spec fn permits_operation(&self, op: Seq<char>) -> bool {
        self.key_ops is None || (exists|i: int|
            #![trigger self.key_ops->0@[i]]
            0 <= i < self.key_ops->0@.len() && self.key_ops->0@[i]@ == op)
    }

    pub fn is_for_key_operation(&self, op: &str) -> (r: bool)
        ensures
            r == self.permits_operation(op@),
    {
        let ops: &Vec<String> = match self.key_ops.as_ref() {
            None => {
                return true;
            },
            Some(v) => v,
        };
        let n = ops.len();
        let mut i: usize = 0;
        while i < n
            invariant
                self.key_ops is Some,
                ops@ == self.key_ops->0@,
                n == ops@.len(),
                i <= n,
                forall|j: int| 0 <= j < i ==> (#[trigger] self.key_ops->0@[j])@ != op@,
            decreases n - i,
        {
            let item: &String = vstd::slice::slice_index_get(ops.as_slice(), i);
            if str_eq(item.as_str(), op) {
                proof {
                    assert(self.key_ops->0@[i as int]@ == op@);
                }
                return true;
            }
            i = i + 1;
        }
        false
    }

    /// The key family the representation's "kty" and "crv" declare, if the
    /// combination is supported.
    pub open spec fn declared_key_type(&self) -> Option<EcdhEsKeyType> {
        match self.crv {
            Some(ParamValue::Text(c)) => key_type_of_names(self.kty@, c@),
            _ => None,
        }
    }
}

/// The first fault in a required key parameter: it must be present, a
/// string, valid unpadded base64url, and decode to the curve's exact byte
/// length.
pub open spec fn param_rejection(v: Option<ParamValue>, which: KeyParam, len: usize) -> Option<
    Reason,
> {
    match v {
        None => Some(Reason::ParamMissing(which)),
        Some(ParamValue::NotText) => Some(Reason::ParamNotText(which)),
        Some(ParamValue::Text(s)) => match decoded_base64url(s@) {
            None => Some(Reason::ParamNotBase64(which)),
            Some(b) => if b.len() != len {
                Some(Reason::ParamWrongLength(which))
            } else {
                None
            },
        },
    }
}

/// The first fault among the coordinate parameters a construction needs: a
/// private key needs "d"; a public named-curve key needs "x" and "y"; a
/// public Montgomery key needs "x".
pub open spec fn jwk_params_rejection(jwk: Jwk, kt: EcdhEsKeyType, private: bool) -> Option<
    Reason,
> {
    let len = kt.param_len_spec();
    if private {
        param_rejection(jwk.d, KeyParam::D, len)
    } else {
        match kt {
            EcdhEsKeyType::Ec(_) => match param_rejection(jwk.x, KeyParam::X, len) {
                Some(rea) => Some(rea),
                None => param_rejection(jwk.y, KeyParam::Y, len),
            },
            EcdhEsKeyType::X(_) => param_rejection(jwk.x, KeyParam::X, len),
        }
    }
}

/// The first fault in a key representation checked for use with an ECDH-ES
/// variant, in the order the parameters are read: "kty", "use", the key
/// operations, "alg", "crv", then the coordinate parameters.
pub open spec fn jwk_rejection(jwk: Jwk, alg: EcdhEsJweAlgorithm, private: bool) -> Option<
    Reason,
> {
    if jwk.kty@ != "EC"@ && jwk.kty@ != "OKP"@ {
        Some(Reason::KtyNotSupported)
    } else if jwk.key_use matches Some(u) && u@ != "enc"@ {
        Some(Reason::UseNotEnc)
    } else if !jwk.permits_operation("deriveKey"@) {
        Some(Reason::DeriveKeyOperationMissing)
    } else if jwk.alg matches Some(a) && a@ != alg.name_spec() {
        Some(Reason::AlgMismatch)
    } else {
        match jwk.crv {
            None => Some(Reason::CrvMissing),
            Some(ParamValue::NotText) => Some(Reason::CrvNotText),
            Some(ParamValue::Text(c)) => match key_type_of_names(jwk.kty@, c@) {
                None => Some(Reason::CrvUnsupported),
                Some(kt) => jwk_params_rejection(jwk, kt, private),
            },
        }
    }
}

/// Reads and base64url-decodes one required key parameter, and checks it
/// against the curve's exact byte length.
pub fn decode_key_param(v: &Option<ParamValue>, which: KeyParam, len: usize) -> (r: Result<
    Vec<u8>,
    Reason,
>)
    ensures
        match r {
            Ok(b) => param_rejection(*v, which, len) is None && decoded_param(*v) == Some(b@)
                && b@.len() == len,
            Err(rea) => param_rejection(*v, which, len) == Some(rea),
        },
{
    match v {
        None => Err(Reason::ParamMissing(which)),
        Some(ParamValue::NotText) => Err(Reason::ParamNotText(which)),
        Some(ParamValue::Text(s)) => match b64url_decode(s.as_str()) {
            Ok(b) => if b.len() != len {
                Err(Reason::ParamWrongLength(which))
            } else {
                Ok(b)
            },
            Err(_) => Err(Reason::ParamNotBase64(which)),
        },
    }
}

/// Checks the shared leading parameters of a key representation: "kty",
/// "use", the key operations, and "alg". Leaves "crv" and the coordinates
/// to the caller.
pub fn check_jwk_common(jwk: &Jwk, alg: &EcdhEsJweAlgorithm) -> (r: Option<Reason>)
    ensures
        match r {
            Some(rea) => jwk_rejection(*jwk, *alg, false) == Some(rea) && jwk_rejection(
                *jwk,
                *alg,
                true,
            ) == Some(rea) && (rea == Reason::KtyNotSupported || rea == Reason::UseNotEnc || rea
                == Reason::DeriveKeyOperationMissing || rea == Reason::AlgMismatch),
            None => (jwk.kty@ == "EC"@ || jwk.kty@ == "OKP"@) && !(jwk.key_use matches Some(u)
                && u@ != "enc"@) && jwk.permits_operation("deriveKey"@) && !(jwk.alg matches Some(
                a,
            ) && a@ != alg.name_spec()),
        },
{
    let is_ec = str_eq(jwk.kty.as_str(), "EC");
    let is_okp = str_eq(jwk.kty.as_str(), "OKP");
    if !is_ec && !is_okp {
        return Some(Reason::KtyNotSupported);
    }
    match &jwk.key_use {
        Some(u) => if !str_eq(u.as_str(), "enc") {
            return Some(Reason::UseNotEnc);
        },
        None => (),
    }
    if !jwk.is_for_key_operation("deriveKey") {
        return Some(Reason::DeriveKeyOperationMissing);
    }
    match &jwk.alg {
        Some(a) => if !str_eq(a.as_str(), alg.name()) {
            return Some(Reason::AlgMismatch);
        },
        None => (),
    }
    None
}

} // verus!

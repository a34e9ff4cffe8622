use vstd::prelude::*;

use crate::backend::decoded_base64url;
use crate::curves::EcdhEsKeyType;
use crate::errors::{KeyParam, Reason};

verus! {

/// A JSON parameter value as far as this library inspects one: a string,
/// or anything else, whose content never matters here.
#[derive(Debug, Clone)]
pub enum ParamValue {
    Text(String),
    NotText,
}

/// The members of an "epk" (ephemeral public key) header claim that this
/// library reads or writes.
#[derive(Debug, Clone)]
pub struct EpkMap {
    pub kty: Option<ParamValue>,
    pub crv: Option<ParamValue>,
    pub x: Option<ParamValue>,
    pub y: Option<ParamValue>,
}

/// The "epk" header claim: an object, or anything else.
#[derive(Debug, Clone)]
pub enum EpkValue {
    Object(EpkMap),
    NotObject,
}

/// The header claims that the ECDH-ES algorithms read or write. `alg` and
/// `enc` are canonical string claims; "apu", "apv" and "epk" may arrive
/// from the wire with any JSON shape.
#[derive(Debug, Clone)]
pub struct JweHeader {
    pub alg: Option<String>,
    pub enc: Option<String>,
    pub apu: Option<ParamValue>,
    pub apv: Option<ParamValue>,
    pub epk: Option<EpkValue>,
}

impl JweHeader {
    /// A header with no claims set.
    pub fn new() -> (r: JweHeader)
        ensures
            r.alg is None && r.enc is None && r.apu is None && r.apv is None && r.epk is None,
    {
        JweHeader { alg: None, enc: None, apu: None, apv: None, epk: None }
    }

    /// The content-encryption algorithm claim, if set.
    pub fn content_encryption(&self) -> (r: Option<&str>)
        ensures
            match r {
                Some(s) => self.enc matches Some(e) && e@ == s@,
                None => self.enc is None,
            },
    {
        match &self.enc {
            Some(s) => Some(s.as_str()),
            None => None,
        }
    }
}

/// The first fault in an "apu"/"apv" claim pair, in the order the claims
/// are read: each must be absent or a base64url string.
pub open spec fn agreement_rejection(apu: Option<ParamValue>, apv: Option<ParamValue>) -> Option<
    Reason,
> {
    match apu {
        Some(ParamValue::NotText) => Some(Reason::ClaimNotText(crate::errors::AgreementInfo::Apu)),
        Some(ParamValue::Text(s)) => if decoded_base64url(s@) is None {
            Some(Reason::ClaimNotBase64(crate::errors::AgreementInfo::Apu))
        } else {
            agreement_rejection_apv(apv)
        },
        None => agreement_rejection_apv(apv),
    }
}

pub open spec fn agreement_rejection_apv(apv: Option<ParamValue>) -> Option<Reason> {
    match apv {
        Some(ParamValue::NotText) => Some(Reason::ClaimNotText(crate::errors::AgreementInfo::Apv)),
        Some(ParamValue::Text(s)) => if decoded_base64url(s@) is None {
            Some(Reason::ClaimNotBase64(crate::errors::AgreementInfo::Apv))
        } else {
            None
        },
        None => None,
    }
}

/// The decoded bytes of a string-valued parameter, defined when the value
/// is a base64url string.
pub open spec fn decoded_param(v: Option<ParamValue>) -> Option<Seq<u8>> {
    match v {
        Some(ParamValue::Text(s)) => decoded_base64url(s@),
        _ => None,
    }
}

/// The view of an optional owned byte string.
pub open spec fn opt_vec_view(o: Option<Vec<u8>>) -> Option<Seq<u8>> {
    match o {
        Some(v) => Some(v@),
        None => None,
    }
}

/// Reads and base64url-decodes the "apu"/"apv" claim pair, in that order.
pub fn decode_agreement_claims(apu: &Option<ParamValue>, apv: &Option<ParamValue>) -> (r: Result<
    (Option<Vec<u8>>, Option<Vec<u8>>),
    Reason,
>)
    ensures
        match r {
            Ok(t) => agreement_rejection(*apu, *apv) is None && opt_vec_view(t.0) == decoded_param(
                *apu,
            ) && opt_vec_view(t.1) == decoded_param(*apv),
            Err(rea) => agreement_rejection(*apu, *apv) == Some(rea),
        },
{
    let apu_bytes: Option<Vec<u8>> = match apu {
        Some(ParamValue::Text(s)) => match crate::backend::b64url_decode(s.as_str()) {
            Ok(v) => Some(v),
            Err(_) => {
                return Err(Reason::ClaimNotBase64(crate::errors::AgreementInfo::Apu));
            },
        },
        Some(ParamValue::NotText) => {
            return Err(Reason::ClaimNotText(crate::errors::AgreementInfo::Apu));
        },
        None => None,
    };
    let apv_bytes: Option<Vec<u8>> = match apv {
        Some(ParamValue::Text(s)) => match crate::backend::b64url_decode(s.as_str()) {
            Ok(v) => Some(v),
            Err(_) => {
                return Err(Reason::ClaimNotBase64(crate::errors::AgreementInfo::Apv));
            },
        },
        Some(ParamValue::NotText) => {
            return Err(Reason::ClaimNotText(crate::errors::AgreementInfo::Apv));
        },
        None => None,
    };
    Ok((apu_bytes, apv_bytes))
}

/// Reads and base64url-decodes one coordinate member of an "epk" object,
/// and checks it against the curve's exact byte length.
pub fn decode_epk_param(v: &Option<ParamValue>, which: KeyParam, len: usize) -> (r: Result<
    Vec<u8>,
    Reason,
>)
    ensures
        match r {
            Ok(b) => epk_coord_rejection(*v, which, len) is None && decoded_param(*v) == Some(b@)
                && b@.len() == len,
            Err(rea) => epk_coord_rejection(*v, which, len) == Some(rea),
        },
{
    match v {
        None => Err(Reason::EpkParamMissing(which)),
        Some(ParamValue::NotText) => Err(Reason::EpkParamNotText(which)),
        Some(ParamValue::Text(s)) => match crate::backend::b64url_decode(s.as_str()) {
            Ok(b) => if b.len() != len {
                Err(Reason::EpkParamWrongLength(which))
            } else {
                Ok(b)
            },
            Err(_) => Err(Reason::EpkParamNotBase64(which)),
        },
    }
}

/// The first fault in an "epk" object checked against a key family, in the
/// order the members are read: "kty" and "crv" must be strings matching the
/// family, and the family's coordinate members must be base64url strings.
pub open spec fn epk_rejection(m: EpkMap, kt: EcdhEsKeyType) -> Option<Reason> {
    match m.kty {
        None => Some(Reason::EpkKtyMissing),
        Some(ParamValue::NotText) => Some(Reason::EpkKtyNotText),
        Some(ParamValue::Text(k)) => if k@ != kt.key_type_spec() {
            Some(Reason::EpkKtyMismatch)
        } else {
            epk_rejection_crv(m, kt)
        },
    }
}

pub open spec fn epk_rejection_crv(m: EpkMap, kt: EcdhEsKeyType) -> Option<Reason> {
    match m.crv {
        None => Some(Reason::EpkCrvMissing),
        Some(ParamValue::NotText) => Some(Reason::EpkCrvNotText),
        Some(ParamValue::Text(c)) => if c@ != kt.curve_name_spec() {
            Some(Reason::EpkCrvMismatch)
        } else {
            epk_rejection_coords(m, kt)
        },
    }
}

pub open spec fn epk_rejection_coords(m: EpkMap, kt: EcdhEsKeyType) -> Option<Reason> {
    let len = kt.param_len_spec();
    match epk_coord_rejection(m.x, KeyParam::X, len) {
        Some(rea) => Some(rea),
        None => match kt {
            EcdhEsKeyType::Ec(_) => epk_coord_rejection(m.y, KeyParam::Y, len),
            EcdhEsKeyType::X(_) => None,
        },
    }
}

pub open spec fn epk_coord_rejection(v: Option<ParamValue>, which: KeyParam, len: usize) -> Option<
    Reason,
> {
    match v {
        None => Some(Reason::EpkParamMissing(which)),
        Some(ParamValue::NotText) => Some(Reason::EpkParamNotText(which)),
        Some(ParamValue::Text(s)) => match decoded_base64url(s@) {
            None => Some(Reason::EpkParamNotBase64(which)),
            Some(b) => if b.len() != len {
                Some(Reason::EpkParamWrongLength(which))
            } else {
                None
            },
        },
    }
}

/// Whether the backend accepts the ephemeral public key an "epk" object
/// carries: for a named curve, acceptance of the decoded coordinates as a
/// point on it; a Montgomery public value of the validated exact length is
/// always accepted.
pub open spec fn epk_accepted(m: EpkMap, kt: EcdhEsKeyType) -> bool {
    match kt {
        EcdhEsKeyType::Ec(c) => crate::backend::ec_pub_accepted(
            c,
            decoded_param(m.x)->0,
            decoded_param(m.y)->0,
        ),
        EcdhEsKeyType::X(_) => true,
    }
}

/// What `encrypt` writes as the "epk" claim: the encrypter's key type and
/// curve name as strings, and base64url coordinates that decode to values
/// of the curve's exact coordinate size.
pub open spec fn epk_written_for(m: EpkMap, kt: EcdhEsKeyType) -> bool {
    &&& m.kty matches Some(ParamValue::Text(s)) && s@ == kt.key_type_spec()
    &&& m.crv matches Some(ParamValue::Text(s)) && s@ == kt.curve_name_spec()
    &&& match kt {
        EcdhEsKeyType::Ec(c) => {
            &&& m.x matches Some(ParamValue::Text(sx)) && decoded_base64url(sx@) matches Some(xb)
                && xb.len() == c.coordinate_len_spec()
            &&& m.y matches Some(ParamValue::Text(sy)) && decoded_base64url(sy@) matches Some(yb)
                && yb.len() == c.coordinate_len_spec()
        },
        EcdhEsKeyType::X(c) => {
            &&& m.x matches Some(ParamValue::Text(sx)) && decoded_base64url(sx@) matches Some(xb)
                && xb.len() == c.key_len_spec()
            &&& m.y is None
        },
    }
}

/// An "epk" claim as the encrypter writes it passes the decrypter's
/// structural validation whenever the two sides agree on the key family.
pub proof fn lemma_written_epk_accepted(m: EpkMap, kt: EcdhEsKeyType)
    requires
        epk_written_for(m, kt),
    ensures
        epk_rejection(m, kt) is None,
{
}

} // verus!

use ecdh_es::{
    AgreementInfo, EcdhEsJweAlgorithm, EpkMap, EpkValue, JoseError, Jwk, JweHeader, KeyParam,
    ParamValue, Reason,
};

use openssl::bn::{BigNum, BigNumContext};
use openssl::ec::{EcGroup, EcKey};
use openssl::nid::Nid;
use openssl::pkey::PKey;

fn b64(data: &[u8]) -> String {
    base64::encode_config(data, base64::URL_SAFE_NO_PAD)
}

fn text(s: &str) -> Option<ParamValue> {
    Some(ParamValue::Text(s.to_string()))
}

fn empty_jwk(kty: &str) -> Jwk {
    Jwk {
        kty: kty.to_string(),
        key_use: None,
        key_ops: None,
        alg: None,
        kid: None,
        crv: None,
        x: None,
        y: None,
        d: None,
    }
}

/// Generates a named-curve key pair and returns its public and private
/// JWK forms.
fn ec_jwk_pair(nid: Nid, crv: &str, coord_len: i32) -> (Jwk, Jwk) {
    let group = EcGroup::from_curve_name(nid).unwrap();
    let ec = EcKey::generate(&group).unwrap();
    let mut ctx = BigNumContext::new().unwrap();
    let mut x = BigNum::new().unwrap();
    let mut y = BigNum::new().unwrap();
    ec.public_key()
        .affine_coordinates(&group, &mut x, &mut y, &mut ctx)
        .unwrap();
    let xv = x.to_vec_padded(coord_len).unwrap();
    let yv = y.to_vec_padded(coord_len).unwrap();
    let dv = ec.private_key().to_vec_padded(coord_len).unwrap();
    let mut public = empty_jwk("EC");
    public.crv = text(crv);
    public.x = text(&b64(&xv));
    public.y = text(&b64(&yv));
    let mut private = empty_jwk("EC");
    private.crv = text(crv);
    private.d = text(&b64(&dv));
    (public, private)
}

/// Generates a Montgomery-curve key pair and returns its public and
/// private JWK forms.
fn x_jwk_pair(crv: &str) -> (Jwk, Jwk) {
    let key = if crv == "X25519" {
        PKey::generate_x25519().unwrap()
    } else {
        PKey::generate_x448().unwrap()
    };
    let xv = key.raw_public_key().unwrap();
    let dv = key.raw_private_key().unwrap();
    let mut public = empty_jwk("OKP");
    public.crv = text(crv);
    public.x = text(&b64(&xv));
    let mut private = empty_jwk("OKP");
    private.crv = text(crv);
    private.d = text(&b64(&dv));
    (public, private)
}

fn header_with_enc(enc: &str) -> JweHeader {
    JweHeader {
        alg: None,
        enc: Some(enc.to_string()),
        apu: None,
        apv: None,
        epk: None,
    }
}

fn run_round_trip(alg: EcdhEsJweAlgorithm, public: &Jwk, private: &Jwk, key_len: usize) {
    let encrypter = alg.encrypter_from_jwk(public).unwrap();
    let decrypter = alg.decrypter_from_jwk(private).unwrap();
    let mut header = header_with_enc("A128GCM");
    let (key, wrapped) = encrypter.encrypt(&mut header, key_len).unwrap();
    assert_eq!(key.len(), key_len);
    let recovered = decrypter
        .decrypt(&header, wrapped.as_ref(), key_len)
        .unwrap();
    assert_eq!(recovered, key);
}

#[test]
fn round_trip_p256_all_variants() {
    let (public, private) = ec_jwk_pair(Nid::X9_62_PRIME256V1, "P-256", 32);
    run_round_trip(EcdhEsJweAlgorithm::EcdhEs, &public, &private, 32);
    run_round_trip(EcdhEsJweAlgorithm::EcdhEsA128Kw, &public, &private, 16);
    run_round_trip(EcdhEsJweAlgorithm::EcdhEsA192Kw, &public, &private, 24);
    run_round_trip(EcdhEsJweAlgorithm::EcdhEsA256Kw, &public, &private, 32);
}

#[test]
fn round_trip_p384() {
    let (public, private) = ec_jwk_pair(Nid::SECP384R1, "P-384", 48);
    run_round_trip(EcdhEsJweAlgorithm::EcdhEs, &public, &private, 16);
    run_round_trip(EcdhEsJweAlgorithm::EcdhEsA192Kw, &public, &private, 24);
}

#[test]
fn round_trip_p521() {
    let (public, private) = ec_jwk_pair(Nid::SECP521R1, "P-521", 66);
    run_round_trip(EcdhEsJweAlgorithm::EcdhEsA256Kw, &public, &private, 32);
}

#[test]
fn round_trip_secp256k1() {
    let (public, private) = ec_jwk_pair(Nid::SECP256K1, "secp256k1", 32);
    run_round_trip(EcdhEsJweAlgorithm::EcdhEs, &public, &private, 48);
}

#[test]
fn round_trip_x25519() {
    let (public, private) = x_jwk_pair("X25519");
    run_round_trip(EcdhEsJweAlgorithm::EcdhEs, &public, &private, 32);
    run_round_trip(EcdhEsJweAlgorithm::EcdhEsA128Kw, &public, &private, 16);
}

#[test]
fn round_trip_x448() {
    let (public, private) = x_jwk_pair("X448");
    run_round_trip(EcdhEsJweAlgorithm::EcdhEsA256Kw, &public, &private, 32);
}

#[test]
fn round_trip_with_party_info() {
    let (public, private) = ec_jwk_pair(Nid::X9_62_PRIME256V1, "P-256", 32);
    let alg = EcdhEsJweAlgorithm::EcdhEsA128Kw;
    let encrypter = alg.encrypter_from_jwk(&public).unwrap();
    let decrypter = alg.decrypter_from_jwk(&private).unwrap();
    for (apu, apv) in [
        (None, None),
        (Some(b64(b"Alice")), None),
        (None, Some(b64(b"Bob"))),
        (Some(b64(b"Alice")), Some(b64(b"Bob"))),
    ] {
        let mut header = header_with_enc("A128GCM");
        header.apu = apu.map(ParamValue::Text);
        header.apv = apv.map(ParamValue::Text);
        let (key, wrapped) = encrypter.encrypt(&mut header, 16).unwrap();
        let recovered = decrypter.decrypt(&header, wrapped.as_ref(), 16).unwrap();
        assert_eq!(recovered, key);
    }
}

/// Named curve P-256, variant ECDH-ES+A128KW, 16-byte content key,
/// content encryption "A128GCM": decrypt returns the identical key.
#[test]
fn round_trip_example_a128kw() {
    let (public, private) = ec_jwk_pair(Nid::X9_62_PRIME256V1, "P-256", 32);
    let alg = EcdhEsJweAlgorithm::EcdhEsA128Kw;
    let encrypter = alg.encrypter_from_jwk(&public).unwrap();
    let decrypter = alg.decrypter_from_jwk(&private).unwrap();
    let mut header = header_with_enc("A128GCM");
    let (key, wrapped) = encrypter.encrypt(&mut header, 16).unwrap();
    assert_eq!(key.len(), 16);
    let wrapped = wrapped.expect("wrapping variant must wrap");
    assert_eq!(wrapped.len(), 24);
    assert_eq!(header.alg.as_deref(), Some("ECDH-ES+A128KW"));
    let recovered = decrypter.decrypt(&header, Some(&wrapped), 16).unwrap();
    assert_eq!(recovered, key);
}

#[test]
fn direct_variant_returns_no_wrapped_key() {
    let (public, _) = ec_jwk_pair(Nid::X9_62_PRIME256V1, "P-256", 32);
    let encrypter = EcdhEsJweAlgorithm::EcdhEs.encrypter_from_jwk(&public).unwrap();
    let mut header = header_with_enc("A256GCM");
    let (key, wrapped) = encrypter.encrypt(&mut header, 32).unwrap();
    assert_eq!(key.len(), 32);
    assert!(wrapped.is_none());
}

#[test]
fn wrapping_variant_wraps_with_eight_extra_bytes() {
    let (public, _) = ec_jwk_pair(Nid::X9_62_PRIME256V1, "P-256", 32);
    let encrypter = EcdhEsJweAlgorithm::EcdhEsA256Kw
        .encrypter_from_jwk(&public)
        .unwrap();
    let mut header = header_with_enc("A256GCM");
    let (key, wrapped) = encrypter.encrypt(&mut header, 32).unwrap();
    let wrapped = wrapped.unwrap();
    assert_eq!(wrapped.len(), 40);
    assert_ne!(&wrapped[..32], key.as_slice());
}

#[test]
fn decrypt_direct_rejects_wrapped_key() {
    let (_, private) = ec_jwk_pair(Nid::X9_62_PRIME256V1, "P-256", 32);
    let decrypter = EcdhEsJweAlgorithm::EcdhEs.decrypter_from_jwk(&private).unwrap();
    let header = header_with_enc("A128GCM");
    let bogus = vec![0u8; 24];
    assert_eq!(
        decrypter.decrypt(&header, Some(&bogus), 16),
        Err(JoseError::InvalidJweFormat(Reason::EncryptedKeyUnexpected))
    );
}

#[test]
fn decrypt_wrapping_requires_wrapped_key() {
    let (_, private) = ec_jwk_pair(Nid::X9_62_PRIME256V1, "P-256", 32);
    let decrypter = EcdhEsJweAlgorithm::EcdhEsA128Kw
        .decrypter_from_jwk(&private)
        .unwrap();
    let header = header_with_enc("A128GCM");
    assert_eq!(
        decrypter.decrypt(&header, None, 16),
        Err(JoseError::InvalidJweFormat(Reason::EncryptedKeyMissing))
    );
}

#[test]
fn decrypt_rejects_non_text_party_info() {
    let (_, private) = ec_jwk_pair(Nid::X9_62_PRIME256V1, "P-256", 32);
    let decrypter = EcdhEsJweAlgorithm::EcdhEs.decrypter_from_jwk(&private).unwrap();
    let mut header = header_with_enc("A128GCM");
    header.apu = Some(ParamValue::NotText);
    assert_eq!(
        decrypter.decrypt(&header, None, 16),
        Err(JoseError::InvalidJweFormat(Reason::ClaimNotText(AgreementInfo::Apu)))
    );
}

#[test]
fn decrypt_rejects_unsuitable_content_key_length() {
    let (_, private) = ec_jwk_pair(Nid::X9_62_PRIME256V1, "P-256", 32);
    let decrypter = EcdhEsJweAlgorithm::EcdhEsA128Kw
        .decrypter_from_jwk(&private)
        .unwrap();
    let header = header_with_enc("A128GCM");
    let wrapped = vec![0u8; 20];
    assert_eq!(
        decrypter.decrypt(&header, Some(&wrapped), 12),
        Err(JoseError::InvalidJweFormat(Reason::CekLengthUnsuitable))
    );
}

#[test]
fn decrypt_rejects_wrong_wrapped_length() {
    let (_, private) = ec_jwk_pair(Nid::X9_62_PRIME256V1, "P-256", 32);
    let decrypter = EcdhEsJweAlgorithm::EcdhEsA128Kw
        .decrypter_from_jwk(&private)
        .unwrap();
    let header = header_with_enc("A128GCM");
    let short = vec![0u8; 17];
    assert_eq!(
        decrypter.decrypt(&header, Some(&short), 16),
        Err(JoseError::InvalidJweFormat(Reason::EncryptedKeyWrongLength))
    );
}

#[test]
fn decrypt_rejects_curve_mismatch_in_epk() {
    let (public384, _) = ec_jwk_pair(Nid::SECP384R1, "P-384", 48);
    let (_, private256) = ec_jwk_pair(Nid::X9_62_PRIME256V1, "P-256", 32);
    let alg = EcdhEsJweAlgorithm::EcdhEs;
    let encrypter = alg.encrypter_from_jwk(&public384).unwrap();
    let decrypter = alg.decrypter_from_jwk(&private256).unwrap();
    let mut header = header_with_enc("A128GCM");
    encrypter.encrypt(&mut header, 16).unwrap();
    assert_eq!(
        decrypter.decrypt(&header, None, 16),
        Err(JoseError::InvalidJweFormat(Reason::EpkCrvMismatch))
    );
}

#[test]
fn decrypt_rejects_kty_mismatch_in_epk() {
    let (public_x, _) = x_jwk_pair("X25519");
    let (_, private256) = ec_jwk_pair(Nid::X9_62_PRIME256V1, "P-256", 32);
    let alg = EcdhEsJweAlgorithm::EcdhEs;
    let encrypter = alg.encrypter_from_jwk(&public_x).unwrap();
    let decrypter = alg.decrypter_from_jwk(&private256).unwrap();
    let mut header = header_with_enc("A128GCM");
    encrypter.encrypt(&mut header, 16).unwrap();
    assert_eq!(
        decrypter.decrypt(&header, None, 16),
        Err(JoseError::InvalidJweFormat(Reason::EpkKtyMismatch))
    );
}

#[test]
fn decrypt_rejects_missing_epk() {
    let (_, private) = ec_jwk_pair(Nid::X9_62_PRIME256V1, "P-256", 32);
    let decrypter = EcdhEsJweAlgorithm::EcdhEs.decrypter_from_jwk(&private).unwrap();
    let header = header_with_enc("A128GCM");
    assert_eq!(
        decrypter.decrypt(&header, None, 16),
        Err(JoseError::InvalidJweFormat(Reason::EpkMissing))
    );
}

#[test]
fn decrypt_rejects_epk_that_is_not_an_object() {
    let (_, private) = ec_jwk_pair(Nid::X9_62_PRIME256V1, "P-256", 32);
    let decrypter = EcdhEsJweAlgorithm::EcdhEs.decrypter_from_jwk(&private).unwrap();
    let mut header = header_with_enc("A128GCM");
    header.epk = Some(EpkValue::NotObject);
    assert_eq!(
        decrypter.decrypt(&header, None, 16),
        Err(JoseError::InvalidJweFormat(Reason::EpkNotObject))
    );
}

#[test]
fn decrypt_rejects_epk_with_bad_coordinate() {
    let (_, private) = ec_jwk_pair(Nid::X9_62_PRIME256V1, "P-256", 32);
    let decrypter = EcdhEsJweAlgorithm::EcdhEs.decrypter_from_jwk(&private).unwrap();
    let mut header = header_with_enc("A128GCM");
    header.epk = Some(EpkValue::Object(EpkMap {
        kty: text("EC"),
        crv: text("P-256"),
        x: text("%%%%"),
        y: text("AA"),
    }));
    assert_eq!(
        decrypter.decrypt(&header, None, 16),
        Err(JoseError::InvalidJweFormat(Reason::EpkParamNotBase64(KeyParam::X)))
    );
}

#[test]
fn decrypt_rejects_epk_with_wrong_length_coordinate() {
    let (_, private) = ec_jwk_pair(Nid::X9_62_PRIME256V1, "P-256", 32);
    let decrypter = EcdhEsJweAlgorithm::EcdhEs.decrypter_from_jwk(&private).unwrap();
    let mut header = header_with_enc("A128GCM");
    header.epk = Some(EpkValue::Object(EpkMap {
        kty: text("EC"),
        crv: text("P-256"),
        x: text(&b64(&[1u8; 31])),
        y: text(&b64(&[2u8; 32])),
    }));
    assert_eq!(
        decrypter.decrypt(&header, None, 16),
        Err(JoseError::InvalidJweFormat(Reason::EpkParamWrongLength(KeyParam::X)))
    );
}

#[test]
fn decrypt_rejects_tampered_wrapped_key() {
    let (public, private) = ec_jwk_pair(Nid::X9_62_PRIME256V1, "P-256", 32);
    let alg = EcdhEsJweAlgorithm::EcdhEsA128Kw;
    let encrypter = alg.encrypter_from_jwk(&public).unwrap();
    let decrypter = alg.decrypter_from_jwk(&private).unwrap();
    let mut header = header_with_enc("A128GCM");
    let (_, wrapped) = encrypter.encrypt(&mut header, 16).unwrap();
    let mut tampered = wrapped.unwrap();
    tampered[0] ^= 0xff;
    assert_eq!(
        decrypter.decrypt(&header, Some(&tampered), 16),
        Err(JoseError::InvalidJweFormat(Reason::UnwrapFailed))
    );
}

#[test]
fn encrypt_rejects_unsuitable_content_key_length() {
    let (public, _) = ec_jwk_pair(Nid::X9_62_PRIME256V1, "P-256", 32);
    let encrypter = EcdhEsJweAlgorithm::EcdhEsA128Kw
        .encrypter_from_jwk(&public)
        .unwrap();
    let mut header = header_with_enc("A128GCM");
    assert_eq!(
        encrypter.encrypt(&mut header, 15),
        Err(JoseError::InvalidKeyFormat(Reason::CekLengthUnsuitable))
    );
    assert!(header.epk.is_none());
}

#[test]
fn encrypt_rejects_non_text_party_info() {
    let (public, _) = ec_jwk_pair(Nid::X9_62_PRIME256V1, "P-256", 32);
    let encrypter = EcdhEsJweAlgorithm::EcdhEs.encrypter_from_jwk(&public).unwrap();
    let mut header = header_with_enc("A128GCM");
    header.apu = Some(ParamValue::NotText);
    assert_eq!(
        encrypter.encrypt(&mut header, 16),
        Err(JoseError::InvalidKeyFormat(Reason::ClaimNotText(AgreementInfo::Apu)))
    );
    let mut header = header_with_enc("A128GCM");
    header.apv = Some(ParamValue::Text("not base64url!".to_string()));
    assert_eq!(
        encrypter.encrypt(&mut header, 16),
        Err(JoseError::InvalidKeyFormat(Reason::ClaimNotBase64(AgreementInfo::Apv)))
    );
}

#[test]
fn ephemeral_keys_and_derived_keys_never_repeat() {
    let (public, _) = ec_jwk_pair(Nid::X9_62_PRIME256V1, "P-256", 32);
    let encrypter = EcdhEsJweAlgorithm::EcdhEs.encrypter_from_jwk(&public).unwrap();
    let mut header1 = header_with_enc("A128GCM");
    let mut header2 = header_with_enc("A128GCM");
    let (key1, _) = encrypter.encrypt(&mut header1, 32).unwrap();
    let (key2, _) = encrypter.encrypt(&mut header2, 32).unwrap();
    assert_ne!(key1, key2);
    let x_of = |h: &JweHeader| match h.epk.as_ref().unwrap() {
        EpkValue::Object(m) => match m.x.as_ref().unwrap() {
            ParamValue::Text(s) => s.clone(),
            _ => panic!("epk x must be text"),
        },
        _ => panic!("epk must be an object"),
    };
    assert_ne!(x_of(&header1), x_of(&header2));
}

#[test]
fn epk_coordinates_are_base64_of_field_sized_values() {
    let (public, _) = ec_jwk_pair(Nid::X9_62_PRIME256V1, "P-256", 32);
    let encrypter = EcdhEsJweAlgorithm::EcdhEs.encrypter_from_jwk(&public).unwrap();
    let mut header = header_with_enc("A128GCM");
    encrypter.encrypt(&mut header, 16).unwrap();
    match header.epk.as_ref().unwrap() {
        EpkValue::Object(m) => {
            match (m.kty.as_ref().unwrap(), m.crv.as_ref().unwrap()) {
                (ParamValue::Text(kty), ParamValue::Text(crv)) => {
                    assert_eq!(kty, "EC");
                    assert_eq!(crv, "P-256");
                }
                _ => panic!("kty and crv must be text"),
            }
            for coord in [m.x.as_ref().unwrap(), m.y.as_ref().unwrap()] {
                match coord {
                    ParamValue::Text(s) => {
                        let decoded =
                            base64::decode_config(s, base64::URL_SAFE_NO_PAD).unwrap();
                        assert_eq!(decoded.len(), 32);
                    }
                    _ => panic!("coordinates must be text"),
                }
            }
        }
        _ => panic!("epk must be an object"),
    }
}

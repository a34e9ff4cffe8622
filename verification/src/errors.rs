use vstd::prelude::*;

verus! {

/// A coordinate or scalar parameter of a key representation or of an
/// "epk" header claim.
#[derive(Debug, Eq, PartialEq, Copy, Clone, Structural)]
pub enum KeyParam {
    X,
    Y,
    D,
}

/// One of the two optional agreement-party-info header claims.
#[derive(Debug, Eq, PartialEq, Copy, Clone, Structural)]
pub enum AgreementInfo {
    Apu,
    Apv,
}

/// Why a key representation, a header, or a backend step was rejected.
/// Each variant names the offending field; none carries secret bytes.
#[derive(Debug, Eq, PartialEq, Copy, Clone, Structural)]
pub enum Reason {
    /// The key-type discriminator is neither "EC" nor "OKP".
    KtyNotSupported,
    /// A "use" parameter is present and is not "enc".
    UseNotEnc,
    /// The declared key operations do not include "deriveKey".
    DeriveKeyOperationMissing,
    /// An "alg" parameter is present and differs from the variant's name.
    AlgMismatch,
    /// The "crv" parameter is absent.
    CrvMissing,
    /// The "crv" parameter is not a string.
    CrvNotText,
    /// The "crv" value is not a supported curve for the declared key type.
    CrvUnsupported,
    /// A required key parameter is absent.
    ParamMissing(KeyParam),
    /// A key parameter is present but not a string.
    ParamNotText(KeyParam),
    /// A key parameter is not valid unpadded base64url.
    ParamNotBase64(KeyParam),
    /// A key parameter does not decode to the curve's exact byte length.
    ParamWrongLength(KeyParam),
    /// An "apu"/"apv" header claim is present but not a string.
    ClaimNotText(AgreementInfo),
    /// An "apu"/"apv" header claim is not valid unpadded base64url.
    ClaimNotBase64(AgreementInfo),
    /// The "epk" header claim is absent.
    EpkMissing,
    /// The "epk" header claim is not an object.
    EpkNotObject,
    /// The "kty" member of "epk" is absent.
    EpkKtyMissing,
    /// The "kty" member of "epk" is not a string.
    EpkKtyNotText,
    /// The "kty" member of "epk" differs from the decrypter's key type.
    EpkKtyMismatch,
    /// The "crv" member of "epk" is absent.
    EpkCrvMissing,
    /// The "crv" member of "epk" is not a string.
    EpkCrvNotText,
    /// The "crv" member of "epk" differs from the decrypter's curve.
    EpkCrvMismatch,
    /// A required coordinate member of "epk" is absent.
    EpkParamMissing(KeyParam),
    /// A coordinate member of "epk" is not a string.
    EpkParamNotText(KeyParam),
    /// A coordinate member of "epk" is not valid unpadded base64url.
    EpkParamNotBase64(KeyParam),
    /// A coordinate member of "epk" does not decode to the curve's exact
    /// byte length.
    EpkParamWrongLength(KeyParam),
    /// A wrapped key was supplied to the direct variant.
    EncryptedKeyUnexpected,
    /// A wrapping variant was given no wrapped key.
    EncryptedKeyMissing,
    /// The wrapped key does not have the expected length.
    EncryptedKeyWrongLength,
    /// The requested content-key length cannot be AES-key-wrapped.
    CekLengthUnsuitable,
    /// The cryptographic backend refused the key material.
    KeyRejected,
    /// AES key wrapping failed in the backend.
    WrapFailed,
    /// AES key unwrapping failed its integrity check.
    UnwrapFailed,
    /// A backend operation (generation, agreement, hashing) failed.
    BackendFailure,
}

/// The two error kinds surfaced to callers: malformed or semantically wrong
/// key material, and malformed or inconsistent protocol headers.
#[derive(Debug, Eq, PartialEq, Copy, Clone, Structural)]
pub enum JoseError {
    InvalidKeyFormat(Reason),
    InvalidJweFormat(Reason),
}

} // verus!

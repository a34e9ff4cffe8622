//! AES Key Wrap selection: for the wrapping variants the derived key is a
//! key-encryption key that wraps or unwraps a separately supplied content
//! key; the direct variant never touches this module.

use vstd::prelude::*;

use crate::backend::{aes_unwrap, aes_wrap, aes_wrapped};
use crate::errors::Reason;

verus! {

/// Wraps a content-encryption key under the derived key-encryption key.
/// On success the result is the RFC 3394 wrap of `cek`, eight bytes longer
/// than it; success is owed whenever the key has a valid AES size and the
/// payload a valid wrap length.
pub fn wrap_content_key(kek: &Vec<u8>, cek: &Vec<u8>) -> (r: Result<Vec<u8>, Reason>)
    requires
        kek@.len() <= 0xfffffff,
        cek@.len() + 8 <= 0x7fffffff,
    ensures
        match r {
            Ok(w) => w@ == aes_wrapped(kek@, cek@) && w@.len() == cek@.len() + 8,
            Err(rea) => rea == Reason::WrapFailed && !((kek@.len() == 16 || kek@.len() == 24
                || kek@.len() == 32) && cek@.len() >= 16 && cek@.len() % 8 == 0),
        },
{
    match aes_wrap(kek, cek) {
        Ok(w) => Ok(w),
        Err(_) => Err(Reason::WrapFailed),
    }
}

/// Unwraps a received wrapped key under the derived key-encryption key.
/// Success yields a key eight bytes shorter than the input whose wrap is
/// the input; in particular, whenever the input is the wrap of a content
/// key of a valid AES-wrap length under a `kek` of a valid AES key size,
/// exactly that content key comes back.
pub fn unwrap_content_key(kek: &Vec<u8>, wrapped: &Vec<u8>) -> (r: Result<Vec<u8>, Reason>)
    requires
        kek@.len() <= 0xfffffff,
        8 <= wrapped@.len() <= 0x7fffffff,
    ensures
        match r {
            Ok(k) => k@.len() + 8 == wrapped@.len() && wrapped@ == aes_wrapped(kek@, k@) && (
            forall|p: Seq<u8>|
                p.len() >= 16 && p.len() % 8 == 0 && wrapped@ == aes_wrapped(kek@, p) ==> k@ == p),
            Err(rea) => rea == Reason::UnwrapFailed && (forall|p: Seq<u8>|
                !((kek@.len() == 16 || kek@.len() == 24 || kek@.len() == 32) && p.len() >= 16
                    && p.len() % 8 == 0 && wrapped@ == aes_wrapped(kek@, p))),
        },
{
    match aes_unwrap(kek, wrapped) {
        Ok(k) => Ok(k),
        Err(_) => Err(Reason::UnwrapFailed),
    }
}

} // verus!

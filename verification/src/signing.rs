//! HMAC-SHA-256 signatures of Jupyter messages, computed by the `hmac` and
//! `sha2` crates.
use hmac::{Hmac, Mac};
use sha2::Sha256;
use vstd::prelude::*;

verus! {

/// The HMAC-SHA-256 tag of `message` under `key`.
pub uninterp spec fn hmac_sha256_tag(key: Seq<u8>, message: Seq<u8>) -> Seq<u8>;

/// `Hmac::<Sha256>::new_from_slice`, one `update` with `message`, then
/// `finalize`. The contract claims that keying succeeds for every key (the
/// crate's `KeyInit` for HMAC hashes or pads any key and returns `Ok`), that
/// the tag is the named HMAC of the key and message, and that it is 32
/// bytes long (SHA-256's output size).
#[verifier::external_body]
pub(crate) fn hmac_sha256(key: &[u8], message: &[u8]) -> (r: Result<Vec<u8>, String>)
    ensures
        r is Ok,
        r matches Ok(tag) ==> tag@ == hmac_sha256_tag(key@, message@),
        r matches Ok(tag) ==> tag@.len() == 32,
{
    let mut mac = <Hmac<Sha256> as Mac>::new_from_slice(key).map_err(|error| error.to_string())?;
    mac.update(message);
    Ok(mac.finalize().into_bytes().to_vec())
}

/// `Hmac::<Sha256>::new_from_slice`, one `update` with `message`, then
/// `verify_slice(tag)`. The contract claims that keying succeeds for every
/// key and that the check passes exactly when `tag` equals the named HMAC
/// (the crate refuses a tag of another length and compares the rest in
/// constant time).
#[verifier::external_body]
pub(crate) fn hmac_sha256_verify(key: &[u8], message: &[u8], tag: &[u8]) -> (r: Result<bool, String>)
    ensures
        r is Ok,
        r matches Ok(valid) ==> valid == (tag@ == hmac_sha256_tag(key@, message@)),
{
    let mut mac = <Hmac<Sha256> as Mac>::new_from_slice(key).map_err(|error| error.to_string())?;
    mac.update(message);
    Ok(mac.verify_slice(tag).is_ok())
}

} // verus!

//! The hash chain: SHA-256 over the previous link and an item id, carried as
//! URL-safe base64 without padding.
use vstd::prelude::*;
use vstd::utf8::encode_utf8;
use base64::Engine;
use sha2::Digest;

verus! {

/// The SHA-256 digest of `data`.
pub uninterp spec fn sha256_of(data: Seq<u8>) -> Seq<u8>;

/// The URL-safe, unpadded base64 text of `data`.
pub uninterp spec fn b64url_encode_of(data: Seq<u8>) -> Seq<char>;

/// The bytes that the URL-safe, unpadded base64 text `text` stands for, or
/// `None` where `text` is not such an encoding.
pub uninterp spec fn b64url_decode_of(text: Seq<char>) -> Option<Seq<u8>>;

/// Relies on `sha2::Sha256::digest`: the 32-byte SHA-256 digest of the input.
#[verifier::external_body]
fn sha256(data: &[u8]) -> (r: Vec<u8>)
    ensures
        r@ == sha256_of(data@),
        r@.len() == 32,
{
    sha2::Sha256::digest(data).to_vec()
}

/// Relies on `base64::Engine::encode` with the `URL_SAFE_NO_PAD` engine, which
/// panics only where the output length overflows `usize`.
#[verifier::external_body]
fn b64url_encode(data: &[u8]) -> (r: String)
    requires
        data@.len() <= 0x1000_0000,
    ensures
        r@ == b64url_encode_of(data@),
{
    base64::engine::general_purpose::URL_SAFE_NO_PAD.encode(data)
}

/// Relies on `base64::Engine::decode` with the `URL_SAFE_NO_PAD` engine: the
/// decoded bytes, or an error on text that is no such encoding.
#[verifier::external_body]
fn b64url_decode(text: &str) -> (r: Option<Vec<u8>>)
    ensures
        match r {
            Some(v) => b64url_decode_of(text@) == Some(v@),
            None => b64url_decode_of(text@) is None,
        },
{
    base64::engine::general_purpose::URL_SAFE_NO_PAD.decode(text).ok()
}

/// The first link of a process's chain: the digest of the process id's bytes.
pub open spec fn seed_link(process_id: Seq<char>) -> Seq<char> {
    b64url_encode_of(sha256_of(encode_utf8(process_id)))
}

/// The link after `prev` for the item `item_id`: the digest of the decoded
/// previous link followed by the id's bytes; `None` where `prev` does not
/// decode.
pub open spec fn next_link(prev: Seq<char>, item_id: Seq<char>) -> Option<Seq<char>> {
    match b64url_decode_of(prev) {
        Some(p) => Some(b64url_encode_of(sha256_of(p + encode_utf8(item_id)))),
        None => None,
    }
}

/// Computes the first link of the chain of `process_id`.
pub fn seed_hash_chain(process_id: &str) -> (r: String)
    ensures
        r@ == seed_link(process_id@),
{
    let digest = sha256(process_id.as_bytes());
    b64url_encode(digest.as_slice())
}

/// Computes the link after `prev` for the item `item_id`.
pub fn hash_step(prev: &str, item_id: &str) -> (r: Option<String>)
    ensures
        r matches Some(s) ==> next_link(prev@, item_id@) == Some(s@),
        r is None ==> next_link(prev@, item_id@) is None,
{
    match b64url_decode(prev) {
        None => None,
        Some(prev_bytes) => {
            let mut input = prev_bytes;
            let id_bytes = item_id.as_bytes();
            let mut i: usize = 0;
            let ghost base = input@;
            while i < id_bytes.len()
                invariant
                    0 <= i <= id_bytes@.len(),
                    input@ == base + id_bytes@.subrange(0, i as int),
                decreases id_bytes@.len() - i,
            {
                input.push(id_bytes[i]);
                i = i + 1;
                assert(input@ =~= base + id_bytes@.subrange(0, i as int));
            }
            assert(id_bytes@.subrange(0, id_bytes@.len() as int) =~= id_bytes@);
            let digest = sha256(input.as_slice());
            Some(b64url_encode(digest.as_slice()))
        }
    }
}

} // verus!

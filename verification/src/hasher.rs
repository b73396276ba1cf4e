//! The canonical hasher: the fingerprint of a deployment definition is the
//! SHA-256 digest of its canonical encoding, written in lower-case hexadecimal.

use crate::errors::Failure;
use crate::hex::{hex_lower, lemma_hex_lower_injective};
use vstd::prelude::*;
use vstd::utf8::encode_utf8;

verus! {

/// The SHA-256 digest of a byte string.
pub uninterp spec fn sha256(data: Seq<u8>) -> Seq<u8>;

/// The fingerprint of a canonical encoding.
pub open spec fn fingerprint(encoding: Seq<u8>) -> Seq<char> {
    hex_lower(sha256(encoding))
}

/// `ring::digest::digest` with `ring::digest::SHA256`: the digest is a
/// function of the data alone and is 32 bytes long.
#[verifier::external_body]
fn sha256_digest(data: &[u8]) -> (digest: Vec<u8>)
    ensures
        digest@ == sha256(data@),
        digest@.len() == 32,
{
    ring::digest::digest(&ring::digest::SHA256, data).as_ref().to_vec()
}

/// `hex::encode`: two lower-case hexadecimal digits for each byte, in order.
#[verifier::external_body]
fn hex_encode(data: &Vec<u8>) -> (text: String)
    ensures
        text@ == hex_lower(data@),
{
    hex::encode(data)
}

/// The fingerprint of a definition, from its canonical encoding. Where the
/// definition could not be encoded, `encoded` holds the encoder's reason and
/// the result is the failure that reports it.
pub fn generate_hash(encoded: Result<String, String>) -> (hash: Result<String, Failure>)
    ensures
        match encoded {
            Ok(text) => hash matches Ok(h) && h@ == fingerprint(encode_utf8(text@)) && h@.len()
                == 64,
            Err(reason) => hash == Err::<String, Failure>(Failure::Encoding(reason)),
        },
{
    match encoded {
        Ok(text) => {
            let digest = sha256_digest(text.as_str().as_bytes());
            Ok(hex_encode(&digest))
        },
        Err(reason) => Err(Failure::Encoding(reason)),
    }
}

/// Two encodings with different digests have different fingerprints.
pub proof fn lemma_fingerprint_distinct(first: Seq<u8>, second: Seq<u8>)
    requires
        sha256(first) != sha256(second),
    ensures
        fingerprint(first) != fingerprint(second),
{
    if fingerprint(first) == fingerprint(second) {
        lemma_hex_lower_injective(sha256(first), sha256(second));
    }
}

} // verus!

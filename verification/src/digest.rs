//! SHA-256 digests of the byte strings that identifiers are bound to.

use sha2::Digest;
use vstd::prelude::*;
use vstd::string::*;

use crate::text::{bytes_to_hex, hex_bytes};

verus! {

/// The SHA-256 digest of `data`.
pub uninterp spec fn sha256_of(data: Seq<u8>) -> Seq<u8>;

/// Calls `sha2::Sha256::digest`. The digest depends on the input bytes alone
/// and is named [`sha256_of`]; nothing more is claimed of it.
#[verifier::external_body]
pub(crate) fn sha256(data: &[u8]) -> (digest: Vec<u8>)
    ensures
        digest@ == sha256_of(data@),
{
    sha2::Sha256::digest(data).to_vec()
}

/// The lowest `width` bytes of `n`, most significant first.
pub open spec fn be_bytes(n: nat, width: nat) -> Seq<u8>
    decreases width,
{
    if width == 0 {
        Seq::empty()
    } else {
        be_bytes(n / 256, (width - 1) as nat).push((n % 256) as u8)
    }
}

/// The lower-case hexadecimal rendering of the SHA-256 digest of `data`.
pub open spec fn sha256_hex(data: Seq<u8>) -> Seq<char> {
    hex_bytes(sha256_of(data))
}

/// The eight bytes of `n`, most significant first.
pub fn u64_be_bytes(n: u64) -> (out: Vec<u8>)
    ensures
        out@ == be_bytes(n as nat, 8),
        out@.len() == 8,
{
    let mut out: Vec<u8> = Vec::new();
    let mut rest: u64 = n;
    let mut k: usize = 0;
    while k < 8
        invariant
            k <= 8,
            out@.len() == k,
            be_bytes(n as nat, 8) == be_bytes(rest as nat, (8 - k) as nat) + out@,
        decreases 8 - k,
    {
        let b: u8 = (rest % 256) as u8;
        let ghost before = out@;
        out.insert(0, b);
        proof {
            let next = (rest / 256) as nat;
            let w = (8 - k - 1) as nat;
            assert(be_bytes(rest as nat, (8 - k) as nat) == be_bytes(next, w).push(b));
            assert(be_bytes(next, w).push(b) + before =~= be_bytes(next, w) + out@);
        }
        rest = rest / 256;
        k = k + 1;
    }
    assert(be_bytes(rest as nat, 0) + out@ =~= out@);
    out
}

/// Hashes `data` and renders the digest in lower-case hexadecimal.
pub fn digest_hex(data: &Vec<u8>) -> (out: String)
    ensures
        out@ == sha256_hex(data@),
{
    let digest = sha256(data.as_slice());
    bytes_to_hex(&digest)
}

/// Hashes the UTF-8 bytes of `text` and renders the digest in lower-case
/// hexadecimal.
pub fn text_digest_hex(text: &String) -> (out: String)
    ensures
        out@ == sha256_hex(vstd::utf8::encode_utf8(text@)),
{
    let digest = sha256(text.as_str().as_bytes());
    bytes_to_hex(&digest)
}

} // verus!

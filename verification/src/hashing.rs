//! The cryptographic commitment scheme: `sha256(address|value|salt)`,
//! rendered as lowercase hex. The digest itself is an outside computation;
//! the preimage layout and the hex rendering are specified exactly.

use vstd::prelude::*;
use vstd::string::StringExecFns;
use vstd::utf8::encode_utf8;
use sha2::Digest;

verus! {

/// The SHA-256 digest of a byte sequence. The digest depends on the input
/// bytes alone, so the result may be named without being written out.
pub uninterp spec fn sha256_of(bytes: Seq<u8>) -> Seq<u8>;

/// Relies on `sha2::Sha256::digest`: a 256-bit (32-byte) digest that is a
/// function of the input bytes alone.
#[verifier::external_body]
pub(crate) fn sha256(data: &[u8]) -> (r: Vec<u8>)
    ensures
        r@ == sha256_of(data@),
        r@.len() == 32,
{
    sha2::Sha256::digest(data).to_vec()
}

/// The sixteen lowercase hex digit characters, in value order.
pub open spec fn hex_digits() -> Seq<char> {
    seq!['0', '1', '2', '3', '4', '5', '6', '7', '8', '9', 'a', 'b', 'c', 'd', 'e', 'f']
}

/// Lowercase hex rendering: each byte becomes two digits, high nibble first.
pub open spec fn hex_of(bytes: Seq<u8>) -> Seq<char>
    decreases bytes.len(),
{
    if bytes.len() == 0 {
        Seq::empty()
    } else {
        seq![
            hex_digits()[(bytes[0] >> 4) as int],
            hex_digits()[(bytes[0] & 0x0f) as int],
        ] + hex_of(bytes.drop_first())
    }
}

/// Relies on `hex::encode`: renders each byte as two digits from
/// `0123456789abcdef`, high nibble first.
#[verifier::external_body]
pub(crate) fn hex_encode(data: &[u8]) -> (r: String)
    ensures
        r@ == hex_of(data@),
{
    hex::encode(data)
}

/// The canonical commitment for a voter: the lowercase hex SHA-256 digest of
/// the UTF-8 bytes of `address|value|salt`.
pub open spec fn commitment_hash(addr: Seq<char>, value: Seq<char>, salt: Seq<char>) -> Seq<char> {
    hex_of(sha256_of(encode_utf8(addr + "|"@ + value + "|"@ + salt)))
}

/// Computes the commitment for a voter from its address and the disclosed
/// value and salt.
pub fn compute_commitment(addr: &str, value: &str, salt: &str) -> (r: String)
    ensures
        r@ == commitment_hash(addr@, value@, salt@),
{
    let mut preimage: String = addr.to_owned();
    preimage.append("|");
    preimage.append(value);
    preimage.append("|");
    preimage.append(salt);
    assert(preimage@ =~= addr@ + "|"@ + value@ + "|"@ + salt@);
    let digest = sha256(preimage.as_str().as_bytes());
    hex_encode(digest.as_slice())
}

} // verus!

//! Names of the entries of a compilation archive: files and units are
//! stored under the lower-case hex SHA-256 digest of their contents.

use vstd::prelude::*;
use sha2::{Digest, Sha256};

verus! {

/// The SHA-256 digest of a byte string.
pub uninterp spec fn sha256_of(b: Seq<u8>) -> Seq<u8>;

/// Relies on `sha2::Sha256` (`new`, `update`, `finalize`): the 32-byte
/// digest of `bytes`.
#[verifier::external_body]
fn sha256(bytes: &[u8]) -> (r: Vec<u8>)
    ensures
        r@ == sha256_of(bytes@),
        r@.len() == 32,
{
    let mut hasher = Sha256::new();
    hasher.update(bytes);
    hasher.finalize().to_vec()
}

/// The lower-case hexadecimal digit of `d`.
pub open spec fn lower_hex_digit(d: nat) -> char {
    if d < 10 {
        ((d + 48) as u8) as char
    } else {
        ((d + 87) as u8) as char
    }
}

/// Two lower-case hexadecimal digits per byte.
pub open spec fn hex_lower(b: Seq<u8>) -> Seq<char>
    decreases b.len(),
{
    if b.len() == 0 {
        Seq::empty()
    } else {
        hex_lower(b.drop_last()) + seq![lower_hex_digit(b.last() as nat / 16), lower_hex_digit(b.last() as nat % 16)]
    }
}

/// Relies on `hex::encode`: two lower-case hexadecimal digits per byte.
#[verifier::external_body]
fn hex_encode(bytes: &[u8]) -> (r: String)
    ensures
        r@ == hex_lower(bytes@),
{
    hex::encode(bytes)
}

/// The digest of `bytes` as lower-case hex.
pub fn sha256digest(bytes: &[u8]) -> (r: String)
    ensures
        r@ == hex_lower(sha256_of(bytes@)),
        r@.len() == 64,
{
    let d = sha256(bytes);
    let r = hex_encode(d.as_slice());
    proof {
        lemma_hex_len(d@);
    }
    r
}

proof fn lemma_hex_len(b: Seq<u8>)
    ensures
        hex_lower(b).len() == 2 * b.len(),
    decreases b.len(),
{
    if b.len() > 0 {
        lemma_hex_len(b.drop_last());
    }
}

/// The archive entry that holds a file with these contents.
pub fn file_entry_name(contents: &[u8]) -> (r: String)
    ensures
        r@ == "root/files/"@ + hex_lower(sha256_of(contents@)),
{
    let mut name = String::from_str("root/files/");
    name.append(sha256digest(contents).as_str());
    name
}

/// The archive entry that holds a compilation unit with this encoding.
pub fn unit_entry_name(encoded: &[u8]) -> (r: String)
    ensures
        r@ == "root/units/"@ + hex_lower(sha256_of(encoded@)),
{
    let mut name = String::from_str("root/units/");
    name.append(sha256digest(encoded).as_str());
    name
}

} // verus!

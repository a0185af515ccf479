use vstd::prelude::*;
use vstd::string::StringExecFns;

verus! {

/// The hex digest that the hashing primitive assigns to a string.
///
/// The digest of a string is a pure function of its characters; nothing else
/// about it is assumed here, so the hash-chain contracts are stated over this
/// name alone.
pub uninterp spec fn digest_of(s: Seq<char>) -> Seq<char>;

/// The hash stored in a block: the digest of timestamp, payload and previous
/// hash concatenated in that order, with no separators.
pub open spec fn calc_hash_spec(
    time_stamp: Seq<char>,
    data_to_hash: Seq<char>,
    prev_hash: Seq<char>,
) -> Seq<char> {
    digest_of(time_stamp + data_to_hash + prev_hash)
}

/// Relies on sha256::digest: the hex digest of a string depends on its
/// contents alone, and a SHA-256 digest rendered in hex is 64 characters.
#[verifier::external_body]
fn sha256_hex(input: String) -> (r: String)
    ensures
        r@ == digest_of(input@),
        r@.len() == 64,
{
    sha256::digest(input)
}

/// Digest of the concatenation `time_stamp ++ data_to_hash ++ prev_hash`,
/// in that exact order with no delimiters.
pub fn calc_hash(time_stamp: String, data_to_hash: String, prev_hash: String) -> (r: String)
    ensures
        r@ == calc_hash_spec(time_stamp@, data_to_hash@, prev_hash@),
        r@.len() == 64,
{
    let joined = time_stamp.concat(data_to_hash.as_str()).concat(prev_hash.as_str());
    sha256_hex(joined)
}

/// Law: the digest is deterministic. Identical timestamp, payload and
/// previous-hash triples always produce the identical hash; nothing about the
/// hash depends on anything but those three strings.
pub proof fn lemma_digest_deterministic(
    time_stamp1: Seq<char>,
    data1: Seq<char>,
    prev_hash1: Seq<char>,
    time_stamp2: Seq<char>,
    data2: Seq<char>,
    prev_hash2: Seq<char>,
)
    requires
        time_stamp1 == time_stamp2,
        data1 == data2,
        prev_hash1 == prev_hash2,
    ensures
        calc_hash_spec(time_stamp1, data1, prev_hash1) == calc_hash_spec(
            time_stamp2,
            data2,
            prev_hash2,
        ),
{
}

} // verus!

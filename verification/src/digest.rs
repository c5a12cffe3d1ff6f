use vstd::prelude::*;

verus! {

/// The SHA-256 digest of a byte sequence.
pub uninterp spec fn sha256(data: Seq<u8>) -> Seq<u8>;

/// The lower-case hexadecimal character of a value below sixteen.
pub open spec fn hex_char(v: int) -> char {
    if v < 10 {
        (48 + v) as char
    } else {
        (87 + v) as char
    }
}

/// Lower-case hexadecimal text of a byte sequence, two characters per byte,
/// high nibble first.
pub open spec fn lower_hex(bytes: Seq<u8>) -> Seq<char>
    decreases bytes.len(),
{
    if bytes.len() == 0 {
        seq![]
    } else {
        seq![hex_char(bytes[0] as int / 16), hex_char(bytes[0] as int % 16)] + lower_hex(
            bytes.drop_first(),
        )
    }
}

/// Calls `sha2::Sha256::digest`: the result is the named SHA-256 digest of
/// the input, thirty-two bytes long.
#[verifier::external_body]
fn sha256_digest(data: &[u8]) -> (r: Vec<u8>)
    ensures
        r@ == sha256(data@),
        r@.len() == 32,
{
    <sha2::Sha256 as sha2::Digest>::digest(data).to_vec()
}

/// Calls `hex::encode`, which writes each byte as two lower-case hexadecimal
/// characters, high nibble first.
#[verifier::external_body]
fn hex_encode(bytes: &[u8]) -> (r: String)
    ensures
        r@ == lower_hex(bytes@),
{
    hex::encode(bytes)
}

/// The checksum that identifies a file's content: the lower-case hex text of
/// its SHA-256 digest.
pub open spec fn checksum_of(data: Seq<u8>) -> Seq<char> {
    lower_hex(sha256(data))
}

/// Computes the content checksum of an upload.
pub fn file_checksum(data: &[u8]) -> (r: String)
    ensures
        r@ == checksum_of(data@),
        r@.len() == 64,
{
    let digest = sha256_digest(data);
    proof {
        lemma_lower_hex_len(digest@);
    }
    hex_encode(digest.as_slice())
}

/// Hex text is twice as long as the bytes it encodes.
pub proof fn lemma_lower_hex_len(bytes: Seq<u8>)
    ensures
        lower_hex(bytes).len() == 2 * bytes.len(),
    decreases bytes.len(),
{
    if bytes.len() > 0 {
        lemma_lower_hex_len(bytes.drop_first());
    }
}

} // verus!

use vstd::prelude::*;

use crate::text::{chars_of, same_chars};

verus! {

/// The MD5 digest of `data`, as `md5::compute` gives it (sixteen bytes).
pub uninterp spec fn md5_digest(data: Seq<u8>) -> Seq<u8>;

/// Calls `md5::compute` on the bytes and returns the digest's bytes.
/// Trusted: the result is taken to be `md5_digest` of the input; nothing
/// else is claimed of the MD5 algorithm.
#[verifier::external_body]
fn md5_compute(data: &[u8]) -> (digest: [u8; 16])
    ensures
        digest@ == md5_digest(data@),
{
    md5::compute(data).0
}

/// The lowercase hexadecimal digit of a value below sixteen.
pub open spec fn hex_digit(n: int) -> char {
    if n < 10 {
        (48 + n) as char
    } else {
        (87 + n) as char
    }
}

/// Bytes written out as `{:02x}` writes each of them: two lowercase
/// hexadecimal digits per byte, the high one first.
pub open spec fn lower_hex(bytes: Seq<u8>) -> Seq<char>
    decreases bytes.len(),
{
    if bytes.len() == 0 {
        Seq::empty()
    } else {
        let last = bytes.last() as int;
        lower_hex(bytes.drop_last()) + seq![hex_digit(last / 16), hex_digit(last % 16)]
    }
}

/// A lowercase hexadecimal digit: '0' to '9' or 'a' to 'f'.
pub open spec fn is_lower_hex_digit(c: char) -> bool {
    ('0' <= c && c <= '9') || ('a' <= c && c <= 'f')
}

/// The lowercase hexadecimal text of some bytes has two digits per byte,
/// all of them lowercase hexadecimal digits.
pub proof fn lemma_lower_hex_shape(bytes: Seq<u8>)
    ensures
        lower_hex(bytes).len() == 2 * bytes.len(),
        forall|i: int| 0 <= i < lower_hex(bytes).len() ==> is_lower_hex_digit(
            #[trigger] lower_hex(bytes)[i],
        ),
    decreases bytes.len(),
{
    if bytes.len() > 0 {
        let rest = bytes.drop_last();
        lemma_lower_hex_shape(rest);
        let last = bytes.last() as int;
        let tail = seq![hex_digit(last / 16), hex_digit(last % 16)];
        assert(lower_hex(bytes) == lower_hex(rest) + tail);
        assert(is_lower_hex_digit(hex_digit(last / 16)));
        assert(is_lower_hex_digit(hex_digit(last % 16)));
        assert forall|i: int| 0 <= i < lower_hex(bytes).len() implies is_lower_hex_digit(
            #[trigger] lower_hex(bytes)[i],
        ) by {
            if i < lower_hex(rest).len() {
                assert(lower_hex(bytes)[i] == lower_hex(rest)[i]);
            } else {
                assert(lower_hex(bytes)[i] == tail[i - lower_hex(rest).len()]);
            }
        }
    }
}

fn hex_char(n: u8) -> (c: char)
    requires
        n < 16,
    ensures
        c == hex_digit(n as int),
{
    if n < 10 {
        (48u8 + n) as char
    } else {
        (87u8 + n) as char
    }
}

/// Writes the bytes in lowercase hexadecimal, as the `LowerHex` format of an
/// MD5 digest does.
pub fn to_lower_hex(bytes: &[u8]) -> (r: Vec<char>)
    ensures
        r@ == lower_hex(bytes@),
{
    let mut r: Vec<char> = Vec::new();
    let n = bytes.len();
    let mut i: usize = 0;
    while i < n
        invariant
            n == bytes@.len(),
            i <= n,
            r@ == lower_hex(bytes@.subrange(0, i as int)),
        decreases n - i,
    {
        let b = bytes[i];
        r.push(hex_char(b / 16));
        r.push(hex_char(b % 16));
        assert(bytes@.subrange(0, i + 1).drop_last() =~= bytes@.subrange(0, i as int));
        i = i + 1;
    }
    assert(bytes@.subrange(0, n as int) =~= bytes@);
    r
}

/// Whether a digest, written in lowercase hexadecimal, is the expected text.
pub fn digest_matches(digest: &[u8; 16], expected: &str) -> (r: bool)
    ensures
        r == (lower_hex(digest@) == expected@),
{
    let hex = to_lower_hex(digest);
    let want = chars_of(expected);
    same_chars(&hex, &want)
}

/// Whether the MD5 digest of the file's contents, in lowercase hexadecimal,
/// is the expected checksum.
pub fn checksum_matches(contents: &[u8], expected: &str) -> (r: bool)
    ensures
        md5_digest(contents@).len() == 16,
        r == (lower_hex(md5_digest(contents@)) == expected@),
{
    let digest = md5_compute(contents);
    digest_matches(&digest, expected)
}

} // verus!

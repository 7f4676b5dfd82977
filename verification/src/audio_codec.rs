//! 16-bit little-endian PCM framing and the base64 transport of audio blocks.
use base64::{engine::general_purpose, Engine as _};
use vstd::prelude::*;

verus! {

/// The sample whose little-endian two's-complement bytes are `lo`, `hi`.
pub open spec fn sample_from_le(lo: u8, hi: u8) -> i16 {
    let u = lo as int + 256 * hi as int;
    (if u >= 32768 { u - 65536 } else { u }) as i16
}

/// The unsigned 16-bit pattern of a sample.
pub open spec fn sample_bits(s: i16) -> int {
    if s < 0 { s as int + 65536 } else { s as int }
}

/// The low byte of a sample in little-endian order.
pub open spec fn low_byte(s: i16) -> u8 {
    (sample_bits(s) % 256) as u8
}

/// The high byte of a sample in little-endian order.
pub open spec fn high_byte(s: i16) -> u8 {
    (sample_bits(s) / 256) as u8
}

/// Samples read from consecutive byte pairs; a trailing odd byte is dropped.
pub open spec fn samples_of(bytes: Seq<u8>) -> Seq<i16> {
    Seq::new(bytes.len() / 2, |i: int| sample_from_le(bytes[2 * i], bytes[2 * i + 1]))
}

/// The little-endian byte encoding of a sequence of samples.
pub open spec fn bytes_of(samples: Seq<i16>) -> Seq<u8> {
    Seq::new(
        2 * samples.len(),
        |j: int| if j % 2 == 0 { low_byte(samples[j / 2]) } else { high_byte(samples[j / 2]) },
    )
}

/// Samples travel as two's-complement little-endian byte pairs: the low
/// byte comes first, the value is the low byte plus 256 times the high
/// byte, less 65536 when the high byte's top bit (the sign) is set.
pub proof fn law_little_endian(s: i16)
    ensures
        s as int == low_byte(s) as int + 256 * high_byte(s) as int - if high_byte(s) >= 128 { 65536int } else { 0int },
        (s < 0) == (high_byte(s) >= 128),
        bytes_of(seq![s]) == seq![low_byte(s), high_byte(s)],
{
    assert(bytes_of(seq![s]) =~= seq![low_byte(s), high_byte(s)]);
}

/// Reads a little-endian 16-bit sample.
pub fn sample_from_le_bytes(lo: u8, hi: u8) -> (s: i16)
    ensures
        s == sample_from_le(lo, hi),
{
    let u: i32 = lo as i32 + 256 * (hi as i32);
    if u >= 32768 {
        (u - 65536) as i16
    } else {
        u as i16
    }
}

/// Writes a sample as two little-endian bytes.
pub fn sample_to_le_bytes(s: i16) -> (r: (u8, u8))
    ensures
        r.0 == low_byte(s),
        r.1 == high_byte(s),
{
    let u: i32 = if s < 0 { s as i32 + 65536 } else { s as i32 };
    ((u % 256) as u8, (u / 256) as u8)
}

/// Splits a byte buffer into little-endian 16-bit samples, dropping a
/// trailing odd byte.
pub fn bytes_to_samples(bytes: &[u8]) -> (out: Vec<i16>)
    ensures
        out@ == samples_of(bytes@),
{
    let blen = bytes.len();
    let n = blen / 2;
    let mut out: Vec<i16> = Vec::new();
    let mut i: usize = 0;
    while i < n
        invariant
            n == bytes@.len() / 2,
            blen == bytes@.len(),
            i <= n,
            out@.len() == i,
            forall|j: int| 0 <= j < i ==> #[trigger] out@[j] == sample_from_le(bytes@[2 * j], bytes@[2 * j + 1]),
        decreases n - i,
    {
        assert(2 * i + 1 < bytes@.len());
        let s = sample_from_le_bytes(bytes[2 * i], bytes[2 * i + 1]);
        out.push(s);
        i = i + 1;
    }
    assert(out@ =~= samples_of(bytes@));
    out
}

/// Serialises samples as little-endian byte pairs.
pub fn samples_to_bytes(samples: &[i16]) -> (out: Vec<u8>)
    requires
        2 * samples@.len() <= usize::MAX,
    ensures
        out@ == bytes_of(samples@),
{
    let mut out: Vec<u8> = Vec::new();
    let mut i: usize = 0;
    while i < samples.len()
        invariant
            2 * samples@.len() <= usize::MAX,
            i <= samples@.len(),
            out@.len() == 2 * i,
            forall|j: int| 0 <= j < 2 * i ==> #[trigger] out@[j] == bytes_of(samples@)[j],
        decreases samples@.len() - i,
    {
        let (lo, hi) = sample_to_le_bytes(samples[i]);
        out.push(lo);
        out.push(hi);
        proof {
            assert forall|j: int| 0 <= j < 2 * (i + 1) implies #[trigger] out@[j] == bytes_of(samples@)[j] by {
                if j >= 2 * i {
                    if j == 2 * i {
                        assert(j / 2 == i);
                    } else {
                        assert(j / 2 == i);
                    }
                }
            }
        }
        i = i + 1;
    }
    assert(out@ =~= bytes_of(samples@));
    out
}

/// Reading back the bytes of a sample gives the sample.
pub proof fn lemma_sample_le_roundtrip(s: i16)
    ensures
        sample_from_le(low_byte(s), high_byte(s)) == s,
{
    let u = sample_bits(s);
    assert(0 <= u < 65536);
    assert(low_byte(s) as int == u % 256);
    assert(high_byte(s) as int == u / 256);
    assert(u % 256 + 256 * (u / 256) == u);
}

/// Writing the bytes of a sample read from two bytes gives those bytes.
pub proof fn lemma_le_sample_roundtrip(lo: u8, hi: u8)
    ensures
        low_byte(sample_from_le(lo, hi)) == lo,
        high_byte(sample_from_le(lo, hi)) == hi,
{
    let u = lo as int + 256 * hi as int;
    assert(sample_bits(sample_from_le(lo, hi)) == u);
    assert((lo as int + 256 * hi as int) % 256 == lo as int) by (nonlinear_arith)
        requires 0 <= lo < 256, 0 <= hi < 256;
    assert((lo as int + 256 * hi as int) / 256 == hi as int) by (nonlinear_arith)
        requires 0 <= lo < 256, 0 <= hi < 256;
}

/// Decoding the bytes of a block of samples gives the block back.
pub proof fn lemma_samples_bytes_roundtrip(samples: Seq<i16>)
    ensures
        samples_of(bytes_of(samples)) == samples,
{
    let b = bytes_of(samples);
    assert forall|i: int| 0 <= i < samples.len() implies #[trigger] samples_of(b)[i] == samples[i] by {
        assert((2 * i) / 2 == i);
        assert((2 * i + 1) / 2 == i);
        assert((2 * i) % 2 == 0);
        assert((2 * i + 1) % 2 == 1);
        lemma_sample_le_roundtrip(samples[i]);
    }
    assert(samples_of(b) =~= samples);
}

/// Encoding the samples read from a buffer gives the buffer back, without
/// its trailing odd byte.
pub proof fn lemma_bytes_samples_roundtrip(bytes: Seq<u8>)
    ensures
        bytes_of(samples_of(bytes)) == bytes.subrange(0, 2 * (bytes.len() / 2) as int),
{
    let s = samples_of(bytes);
    let even = bytes.subrange(0, 2 * (bytes.len() / 2) as int);
    assert forall|j: int| 0 <= j < even.len() implies #[trigger] bytes_of(s)[j] == even[j] by {
        let i = j / 2;
        assert(0 <= i < s.len());
        lemma_le_sample_roundtrip(bytes[2 * i], bytes[2 * i + 1]);
        if j % 2 == 0 {
            assert(j == 2 * i);
        } else {
            assert(j == 2 * i + 1);
        }
    }
    assert(bytes_of(s) =~= even);
}

/// What the standard (padded, RFC 4648) base64 engine decodes `text` to,
/// `None` where it reports an error.
pub uninterp spec fn base64_standard_decode(text: Seq<char>) -> Option<Seq<u8>>;

/// The character of the standard base64 alphabet for the 6-bit value `v`.
pub open spec fn base64_char(v: int) -> char {
    if v < 26 {
        (65 + v) as char
    } else if v < 52 {
        (97 + v - 26) as char
    } else if v < 62 {
        (48 + v - 52) as char
    } else if v == 62 {
        '+'
    } else {
        '/'
    }
}

/// Standard base64 (RFC 4648 alphabet, padded with `=`): every three bytes
/// give four characters of six bits each; a last group of one or two bytes
/// gives two or three characters and the padding.
pub open spec fn base64_encoding(bytes: Seq<u8>) -> Seq<char>
    decreases bytes.len(),
{
    if bytes.len() == 0 {
        Seq::<char>::empty()
    } else if bytes.len() == 1 {
        let a = bytes[0] as int;
        seq![base64_char(a / 4), base64_char((a % 4) * 16), '=', '=']
    } else if bytes.len() == 2 {
        let a = bytes[0] as int;
        let b = bytes[1] as int;
        seq![base64_char(a / 4), base64_char((a % 4) * 16 + b / 16), base64_char((b % 16) * 4), '=']
    } else {
        let a = bytes[0] as int;
        let b = bytes[1] as int;
        let c = bytes[2] as int;
        seq![
            base64_char(a / 4),
            base64_char((a % 4) * 16 + b / 16),
            base64_char((b % 16) * 4 + c / 64),
            base64_char(c % 64),
        ] + base64_encoding(bytes.subrange(3, bytes.len() as int))
    }
}

/// Length of the padded base64 text for `n` input bytes.
pub open spec fn base64_padded_len(n: int) -> int {
    (n / 3) * 4 + if n % 3 > 0 { 4int } else { 0int }
}

/// Calls `base64::engine::general_purpose::STANDARD.decode`. Claims that
/// the result is the named decoding of the text (`None` stands for the
/// engine's error), and that a decoding is no longer than the text, since
/// every 4 characters decode to at most 3 bytes.
#[verifier::external_body]
pub(crate) fn decode_base64(text: &str) -> (r: Option<Vec<u8>>)
    ensures
        match r {
            Some(b) => base64_standard_decode(text@) == Some(b@),
            None => base64_standard_decode(text@).is_none(),
        },
        r matches Some(b) ==> b@.len() <= text@.len(),
{
    match general_purpose::STANDARD.decode(text) {
        Ok(b) => Some(b),
        Err(_) => None,
    }
}

/// Calls `base64::engine::general_purpose::STANDARD.encode`, which panics
/// when the padded output length overflows `usize` (hence the `requires`).
/// Claims that the text is the standard padded base64 of the bytes and
/// that the same engine decodes it back to those bytes.
#[verifier::external_body]
pub(crate) fn encode_base64(bytes: &[u8]) -> (r: String)
    requires
        base64_padded_len(bytes@.len() as int) <= usize::MAX,
    ensures
        r@ == base64_encoding(bytes@),
        base64_standard_decode(r@) == Some(bytes@),
{
    general_purpose::STANDARD.encode(bytes)
}

} // verus!

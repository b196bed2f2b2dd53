//! Lowercase hexadecimal encoding of bytes, and the decoding that Jupyter
//! signatures and connection keys go through.
use vstd::prelude::*;
use vstd::string::StringSliceAdditionalSpecFns;
use vstd::utf8::{decode_utf8, valid_utf8};

verus! {

/// The ASCII byte of the lowercase hexadecimal digit `d` (`d < 16`).
pub open spec fn hex_digit(d: nat) -> u8 {
    if d < 10 {
        (48 + d) as u8
    } else {
        (87 + d) as u8
    }
}

/// The lowercase hexadecimal text of `bytes`, two ASCII bytes per byte,
/// as `format!("{byte:02x}")` writes each of them.
pub open spec fn hex_ascii(bytes: Seq<u8>) -> Seq<u8> {
    Seq::new(
        2 * bytes.len(),
        |i: int|
            if i % 2 == 0 {
                hex_digit((bytes[i / 2] / 16) as nat)
            } else {
                hex_digit((bytes[i / 2] % 16) as nat)
            },
    )
}

/// The same text as characters.
pub open spec fn hex_chars(bytes: Seq<u8>) -> Seq<char> {
    hex_ascii(bytes).map_values(|b: u8| b as char)
}

/// The value of an ASCII hexadecimal digit of either case.
pub open spec fn hex_value(b: u8) -> Option<u8> {
    if 48 <= b <= 57 {
        Some((b - 48) as u8)
    } else if 97 <= b <= 102 {
        Some((b - 87) as u8)
    } else if 65 <= b <= 70 {
        Some((b - 55) as u8)
    } else {
        None
    }
}

/// Whether `b` is an ASCII hexadecimal digit (`u8::is_ascii_hexdigit`).
pub open spec fn is_hex_digit(b: u8) -> bool {
    hex_value(b) is Some
}

/// How `u8::from_str_radix` reads a two-byte text in base 16: a leading
/// `+` is allowed before a single digit, otherwise both bytes are digits.
pub open spec fn pair_value(a: u8, b: u8) -> Option<u8> {
    if a == 43 {
        hex_value(b)
    } else {
        match (hex_value(a), hex_value(b)) {
            (Some(x), Some(y)) => Some((16 * x + y) as u8),
            _ => None,
        }
    }
}

/// The outcome of decoding a hexadecimal text pair by pair.
pub enum HexDecoding {
    /// Every pair decoded; these are the bytes.
    Bytes(Seq<u8>),
    /// The text has an odd number of bytes.
    OddLength,
    /// The first pair that fails is not UTF-8; it is given.
    BadUtf8(Seq<u8>),
    /// The first pair that fails is UTF-8 but not a base-16 number.
    BadDigit,
}

/// Decodes `bytes` as consecutive pairs: each pair must be UTF-8 and then a
/// base-16 number; the first pair that fails decides the outcome.
pub open spec fn hex_decoding(bytes: Seq<u8>) -> HexDecoding
    decreases bytes.len(),
{
    if bytes.len() % 2 == 1 {
        HexDecoding::OddLength
    } else if bytes.len() == 0 {
        HexDecoding::Bytes(seq![])
    } else {
        let pair = bytes.subrange(0, 2);
        if !valid_utf8(pair) {
            HexDecoding::BadUtf8(pair)
        } else if pair_value(bytes[0], bytes[1]) is None {
            HexDecoding::BadDigit
        } else {
            match hex_decoding(bytes.subrange(2, bytes.len() as int)) {
                HexDecoding::Bytes(rest) => HexDecoding::Bytes(
                    seq![pair_value(bytes[0], bytes[1])->0] + rest,
                ),
                other => other,
            }
        }
    }
}

/// The message of std's `Utf8Error` for bytes that are not UTF-8.
pub uninterp spec fn utf8_error_text(bytes: Seq<u8>) -> Seq<char>;

/// std's `str::from_utf8`: the text when `bytes` are UTF-8, else the
/// display of the error. The contract claims that the check is exactly
/// vstd's `valid_utf8`, that the text is `decode_utf8` of the bytes, and
/// that the error text depends on the bytes alone.
#[verifier::external_body]
pub(crate) fn utf8_text(bytes: &[u8]) -> (r: Result<String, String>)
    ensures
        valid_utf8(bytes@) <==> r is Ok,
        r matches Ok(s) ==> s@ == decode_utf8(bytes@),
        r matches Err(e) ==> e@ == utf8_error_text(bytes@),
{
    match std::str::from_utf8(bytes) {
        Ok(text) => Ok(text.to_owned()),
        Err(error) => Err(error.to_string()),
    }
}

fn hex_value_of(b: u8) -> (r: Option<u8>)
    ensures
        r == hex_value(b),
{
    if 48 <= b && b <= 57 {
        Some(b - 48)
    } else if 97 <= b && b <= 102 {
        Some(b - 87)
    } else if 65 <= b && b <= 70 {
        Some(b - 55)
    } else {
        None
    }
}

fn pair_value_of(a: u8, b: u8) -> (r: Option<u8>)
    ensures
        r == pair_value(a, b),
{
    if a == 43 {
        hex_value_of(b)
    } else {
        match (hex_value_of(a), hex_value_of(b)) {
            (Some(x), Some(y)) => Some(16 * x + y),
            _ => None,
        }
    }
}

fn hex_digit_of(d: u8) -> (r: u8)
    requires
        d < 16,
    ensures
        r == hex_digit(d as nat),
{
    if d < 10 {
        48 + d
    } else {
        87 + d
    }
}

/// Lowercase hexadecimal text of `bytes`, as ASCII bytes.
pub fn hex_encode(bytes: &[u8]) -> (out: Vec<u8>)
    requires
        2 * bytes@.len() <= usize::MAX,
    ensures
        out@ == hex_ascii(bytes@),
{
    let mut out: Vec<u8> = Vec::new();
    let mut i: usize = 0;
    while i < bytes.len()
        invariant
            i <= bytes@.len(),
            2 * bytes@.len() <= usize::MAX,
            out@.len() == 2 * i,
            forall|j: int| 0 <= j < 2 * i ==> out@[j] == #[trigger] hex_ascii(bytes@)[j],
        decreases bytes@.len() - i,
    {
        let b = bytes[i];
        out.push(hex_digit_of(b / 16));
        out.push(hex_digit_of(b % 16));
        proof {
            assert(hex_ascii(bytes@)[2 * i as int] == hex_digit((b / 16) as nat));
            assert(hex_ascii(bytes@)[2 * i + 1] == hex_digit((b % 16) as nat));
        }
        i = i + 1;
    }
    assert(out@ =~= hex_ascii(bytes@));
    out
}

/// Lowercase hexadecimal text of `bytes`, as a string.
pub fn hex_string(bytes: &[u8]) -> (s: String)
    requires
        2 * bytes@.len() <= usize::MAX,
    ensures
        s@ == hex_chars(bytes@),
{
    let ascii = hex_encode(bytes);
    let mut s = String::new();
    let mut i: usize = 0;
    while i < ascii.len()
        invariant
            i <= ascii@.len(),
            ascii@ == hex_ascii(bytes@),
            s@ == hex_chars(bytes@).subrange(0, i as int),
        decreases ascii@.len() - i,
    {
        crate::text::push_char(&mut s, ascii[i] as char);
        assert(s@ =~= hex_chars(bytes@).subrange(0, i + 1));
        i = i + 1;
    }
    assert(s@ =~= hex_chars(bytes@));
    s
}

/// The bytes of a pair decoded after the prefix `done`, continued by the
/// outcome of decoding the rest.
pub open spec fn after_prefix(done: Seq<u8>, rest: HexDecoding) -> HexDecoding {
    match rest {
        HexDecoding::Bytes(r) => HexDecoding::Bytes(done + r),
        other => other,
    }
}

proof fn lemma_hex_decoding_step(bytes: Seq<u8>, i: int)
    requires
        0 <= i,
        i + 2 <= bytes.len(),
        bytes.len() % 2 == 0,
        i % 2 == 0,
    ensures
        ({
            let s = bytes.subrange(i, bytes.len() as int);
            let pair = bytes.subrange(i, i + 2);
            &&& s.subrange(0, 2) == pair
            &&& s[0] == bytes[i]
            &&& s[1] == bytes[i + 1]
            &&& s.subrange(2, s.len() as int) == bytes.subrange(i + 2, bytes.len() as int)
            &&& hex_decoding(s) == (if !valid_utf8(pair) {
                HexDecoding::BadUtf8(pair)
            } else if pair_value(bytes[i], bytes[i + 1]) is None {
                HexDecoding::BadDigit
            } else {
                after_prefix(
                    seq![pair_value(bytes[i], bytes[i + 1])->0],
                    hex_decoding(bytes.subrange(i + 2, bytes.len() as int)),
                )
            })
        }),
{
    let s = bytes.subrange(i, bytes.len() as int);
    assert(s.subrange(0, 2) =~= bytes.subrange(i, i + 2));
    assert(s.subrange(2, s.len() as int) =~= bytes.subrange(i + 2, bytes.len() as int));
}

/// What decoding a hexadecimal text gives: its bytes, or the message of
/// the first failure.
pub open spec fn hex_decode_result(bytes: Seq<u8>) -> Result<Seq<u8>, Seq<char>> {
    match hex_decoding(bytes) {
        HexDecoding::Bytes(v) => Ok(v),
        HexDecoding::OddLength => Err("hex value has an odd length"@),
        HexDecoding::BadUtf8(pair) => Err(utf8_error_text(pair)),
        HexDecoding::BadDigit => Err("invalid digit found in string"@),
    }
}

/// A byte result seen through the views of its parts.
pub open spec fn bytes_result_view(r: Result<Vec<u8>, String>) -> Result<Seq<u8>, Seq<char>> {
    match r {
        Ok(v) => Ok(v@),
        Err(e) => Err(e@),
    }
}

/// Decodes a hexadecimal text pair by pair: odd lengths are refused, then
/// each pair must be UTF-8 and a base-16 number.
pub fn decode_hex(value: &str) -> (r: Result<Vec<u8>, String>)
    ensures
        bytes_result_view(r) == hex_decode_result(value.spec_bytes()),
{
    decode_hex_bytes(value.as_bytes())
}

/// `decode_hex` on the bytes of a text.
pub fn decode_hex_bytes(bytes: &[u8]) -> (r: Result<Vec<u8>, String>)
    ensures
        bytes_result_view(r) == hex_decode_result(bytes@),
{
    let n = bytes.len();
    if n % 2 == 1 {
        return Err("hex value has an odd length".to_owned());
    }
    let mut out: Vec<u8> = Vec::new();
    let mut i: usize = 0;
    assert(bytes@.subrange(0, n as int) =~= bytes@);
    while i < n
        invariant
            n == bytes@.len(),
            n % 2 == 0,
            i % 2 == 0,
            i <= n,
            hex_decoding(bytes@) == after_prefix(
                out@,
                hex_decoding(bytes@.subrange(i as int, n as int)),
            ),
        decreases n - i,
    {
        proof {
            lemma_hex_decoding_step(bytes@, i as int);
        }
        let pair = vstd::slice::slice_subrange(bytes, i, i + 2);
        match utf8_text(pair) {
            Ok(_) => {},
            Err(error) => {
                return Err(error);
            },
        }
        match pair_value_of(bytes[i], bytes[i + 1]) {
            Some(v) => {
                proof {
                    let rest = hex_decoding(bytes@.subrange(i + 2, n as int));
                    match rest {
                        HexDecoding::Bytes(r) => {
                            assert(out@ + (seq![v] + r) =~= out@.push(v) + r);
                        },
                        _ => {},
                    }
                }
                out.push(v);
            },
            None => {
                return Err("invalid digit found in string".to_owned());
            },
        }
        i = i + 2;
    }
    proof {
        assert(bytes@.subrange(n as int, n as int) =~= Seq::<u8>::empty());
        assert(out@ + Seq::<u8>::empty() =~= out@);
    }
    Ok(out)
}


/// Whether every byte of `k` is an ASCII hexadecimal digit.
pub open spec fn all_hex_digits(k: Seq<u8>) -> bool {
    forall|i: int| 0 <= i < k.len() ==> is_hex_digit(#[trigger] k[i])
}

/// The bytes that consecutive pairs of hexadecimal digits stand for.
pub open spec fn hex_pairs(k: Seq<u8>) -> Seq<u8> {
    Seq::new(
        k.len() / 2,
        |i: int| (16 * hex_value(k[2 * i])->0 + hex_value(k[2 * i + 1])->0) as u8,
    )
}

/// The signing key that a connection's `key` text stands for: nothing for
/// an empty text, the decoded bytes for an even-length hexadecimal text,
/// and otherwise the text's own bytes.
pub open spec fn decoded_key(k: Seq<u8>) -> Seq<u8> {
    if k.len() == 0 {
        seq![]
    } else if k.len() % 2 == 0 && all_hex_digits(k) {
        hex_pairs(k)
    } else {
        k
    }
}

proof fn lemma_ascii_pair_is_utf8(a: u8, b: u8)
    requires
        a < 128,
        b < 128,
    ensures
        valid_utf8(seq![a, b]),
{
    let s = seq![a, b];
    reveal_with_fuel(valid_utf8, 3);
    let t = vstd::utf8::pop_first_scalar(s);
    assert(t =~= seq![b]);
    let u = vstd::utf8::pop_first_scalar(t);
    assert(u =~= Seq::<u8>::empty());
}

/// A text of hexadecimal digits of even length decodes to its pairs.
pub proof fn lemma_hex_digits_decode(k: Seq<u8>)
    requires
        k.len() % 2 == 0,
        all_hex_digits(k),
    ensures
        hex_decoding(k) == HexDecoding::Bytes(hex_pairs(k)),
    decreases k.len(),
{
    if k.len() > 0 {
        let rest = k.subrange(2, k.len() as int);
        assert(is_hex_digit(k[0]) && is_hex_digit(k[1]));
        assert forall|i: int| 0 <= i < rest.len() implies is_hex_digit(#[trigger] rest[i]) by {
            assert(rest[i] == k[i + 2]);
        }
        lemma_hex_digits_decode(rest);
        lemma_ascii_pair_is_utf8(k[0], k[1]);
        assert(k.subrange(0, 2) =~= seq![k[0], k[1]]);
        assert(seq![pair_value(k[0], k[1])->0] + hex_pairs(rest) =~= hex_pairs(k)) by {
            assert forall|i: int| 1 <= i < hex_pairs(k).len() implies hex_pairs(k)[i] == hex_pairs(
                rest,
            )[i - 1] by {
                assert(rest[2 * (i - 1)] == k[2 * i]);
                assert(rest[2 * (i - 1) + 1] == k[2 * i + 1]);
            }
        }
    } else {
        assert(hex_pairs(k) =~= Seq::<u8>::empty());
    }
}

/// Encoding bytes as hexadecimal and decoding the text gives them back.
pub proof fn lemma_hex_round_trip(bytes: Seq<u8>)
    ensures
        hex_ascii(bytes).len() % 2 == 0,
        all_hex_digits(hex_ascii(bytes)),
        hex_pairs(hex_ascii(bytes)) == bytes,
        hex_decoding(hex_ascii(bytes)) == HexDecoding::Bytes(bytes),
{
    let h = hex_ascii(bytes);
    assert forall|i: int| 0 <= i < h.len() implies is_hex_digit(#[trigger] h[i]) by {
        let b = bytes[i / 2];
        assert(b / 16 < 16 && b % 16 < 16);
    }
    assert forall|i: int| 0 <= i < bytes.len() implies #[trigger] hex_pairs(h)[i] == bytes[i] by {
        let b = bytes[i];
        assert(h[2 * i] == hex_digit((b / 16) as nat));
        assert(h[2 * i + 1] == hex_digit((b % 16) as nat));
        assert(hex_value(hex_digit((b / 16) as nat)) == Some((b / 16) as u8));
        assert(hex_value(hex_digit((b % 16) as nat)) == Some((b % 16) as u8));
    }
    assert(hex_pairs(h) =~= bytes);
    lemma_hex_digits_decode(h);
}

fn all_hex_digits_of(bytes: &[u8]) -> (r: bool)
    ensures
        r == all_hex_digits(bytes@),
{
    let mut i: usize = 0;
    while i < bytes.len()
        invariant
            i <= bytes@.len(),
            forall|j: int| 0 <= j < i ==> is_hex_digit(#[trigger] bytes@[j]),
        decreases bytes@.len() - i,
    {
        if hex_value_of(bytes[i]).is_none() {
            return false;
        }
        i = i + 1;
    }
    true
}

/// Decodes a connection key: an empty key signs nothing, an even-length
/// hexadecimal key is decoded, and any other key is used as its bytes.
/// Decoding never fails.
pub fn decode_key(key: &str) -> (r: Result<Vec<u8>, String>)
    ensures
        r matches Ok(v) && v@ == decoded_key(key.spec_bytes()),
{
    let bytes = key.as_bytes();
    if bytes.len() == 0 {
        return Ok(Vec::new());
    }
    if bytes.len() % 2 == 0 && all_hex_digits_of(bytes) {
        proof {
            lemma_hex_digits_decode(bytes@);
        }
        return decode_hex(key);
    }
    Ok(vstd::slice::slice_to_vec(bytes))
}

/// A key text that is not an even-length run of hexadecimal digits is
/// used as it stands: a key of odd length, or one holding any byte outside
/// `0`-`9`, `a`-`f` and `A`-`F`, signs with exactly its own bytes, whatever
/// its length; only the empty key signs with nothing.
pub proof fn lemma_other_keys_are_their_bytes(k: Seq<u8>)
    ensures
        k.len() % 2 == 1 ==> decoded_key(k) == k,
        (exists|i: int|
            0 <= i < k.len() && !(48 <= #[trigger] k[i] <= 57 || 97 <= k[i] <= 102 || 65 <= k[i]
                <= 70)) ==> decoded_key(k) == k,
        decoded_key(k).len() == 0 <==> k.len() == 0,
{
    if exists|i: int|
        0 <= i < k.len() && !(48 <= #[trigger] k[i] <= 57 || 97 <= k[i] <= 102 || 65 <= k[i]
            <= 70) {
        let i = choose|i: int|
            0 <= i < k.len() && !(48 <= #[trigger] k[i] <= 57 || 97 <= k[i] <= 102 || 65
                <= k[i] <= 70);
        assert(!is_hex_digit(k[i]));
    }
}

} // verus!

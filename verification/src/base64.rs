//! Base64 with the standard alphabet and `=` padding: bytes to printable
//! text and back.
//!
//! Three bytes make four characters of six bits each. A last group of one or
//! two bytes is filled with zero bits and closed with `==` or `=`. Decoding
//! accepts exactly the texts that encoding produces, so the two are inverse
//! to each other.
use vstd::prelude::*;
use vstd::string::*;

verus! {

/// The character that stands for a six-bit value: `A`-`Z`, `a`-`z`, `0`-`9`,
/// `+` and `/`, in this order.
pub open spec fn sextet_char(v: int) -> char {
    if v < 26 {
        (65 + v) as u8 as char
    } else if v < 52 {
        (71 + v) as u8 as char
    } else if v < 62 {
        (v - 4) as u8 as char
    } else if v == 62 {
        '+'
    } else {
        '/'
    }
}

/// The six-bit value that a character stands for, if it is of the alphabet.
pub open spec fn char_sextet(c: char) -> Option<int> {
    if 'A' <= c <= 'Z' {
        Some(c as int - 65)
    } else if 'a' <= c <= 'z' {
        Some(c as int - 71)
    } else if '0' <= c <= '9' {
        Some(c as int + 4)
    } else if c == '+' {
        Some(62)
    } else if c == '/' {
        Some(63)
    } else {
        None
    }
}

/// The byte at index `i`, or zero past the end: the bits that fill a last,
/// incomplete group.
pub open spec fn byte_or_zero(data: Seq<u8>, i: int) -> int {
    if 0 <= i < data.len() {
        data[i] as int
    } else {
        0
    }
}

/// The number of characters that `n` bytes encode to.
pub open spec fn encoded_len(n: nat) -> nat {
    4 * ((n + 2) / 3)
}

/// The character at index `i` of the encoding of `data`.
pub open spec fn encoded_char(data: Seq<u8>, i: int) -> char {
    let first = 3 * (i / 4);
    let b0 = byte_or_zero(data, first);
    let b1 = byte_or_zero(data, first + 1);
    let b2 = byte_or_zero(data, first + 2);
    if i % 4 == 0 {
        sextet_char(b0 / 4)
    } else if i % 4 == 1 {
        sextet_char((b0 % 4) * 16 + b1 / 16)
    } else if i % 4 == 2 {
        if first + 1 < data.len() {
            sextet_char((b1 % 16) * 4 + b2 / 64)
        } else {
            '='
        }
    } else {
        if first + 2 < data.len() {
            sextet_char(b2 % 64)
        } else {
            '='
        }
    }
}

/// The Base64 encoding of `data`.
pub open spec fn base64_text(data: Seq<u8>) -> Seq<char> {
    Seq::new(encoded_len(data.len()), |i: int| encoded_char(data, i))
}

/// How many of the last two characters of `text` are padding.
pub open spec fn padding(text: Seq<char>) -> int {
    if text.len() >= 2 && text[text.len() - 1] == '=' {
        if text[text.len() - 2] == '=' {
            2
        } else {
            1
        }
    } else {
        0
    }
}

/// The six-bit value of the character at index `i` of `text`; zero where the
/// character is not of the alphabet.
pub open spec fn sextet_at(text: Seq<char>, i: int) -> int {
    match char_sextet(text[i]) {
        Some(v) => v,
        None => 0,
    }
}

/// Whether `text` is the encoding of some bytes: its length is a multiple of
/// four, everything before the padding is of the alphabet, and the bits that
/// fill the last group are zero.
pub open spec fn is_base64(text: Seq<char>) -> bool {
    &&& text.len() % 4 == 0
    &&& forall|i: int| 0 <= i < text.len() - padding(text) ==> char_sextet(#[trigger] text[i]) is Some
    &&& padding(text) == 1 ==> sextet_at(text, text.len() - 2) % 4 == 0
    &&& padding(text) == 2 ==> sextet_at(text, text.len() - 3) % 16 == 0
}

/// The number of bytes that `text` decodes to.
pub open spec fn decoded_len(text: Seq<char>) -> int {
    3 * (text.len() / 4) - padding(text)
}

/// The byte at index `k` of the decoding of `text`.
pub open spec fn decoded_byte(text: Seq<char>, k: int) -> u8 {
    let first = 4 * (k / 3);
    let s0 = sextet_at(text, first);
    let s1 = sextet_at(text, first + 1);
    let s2 = sextet_at(text, first + 2);
    let s3 = sextet_at(text, first + 3);
    if k % 3 == 0 {
        (s0 * 4 + s1 / 16) as u8
    } else if k % 3 == 1 {
        ((s1 % 16) * 16 + s2 / 4) as u8
    } else {
        ((s2 % 4) * 64 + s3) as u8
    }
}

/// The bytes that `text` encodes, or `None` where it encodes none.
pub open spec fn base64_bytes(text: Seq<char>) -> Option<Seq<u8>> {
    if is_base64(text) {
        Some(Seq::new(decoded_len(text) as nat, |k: int| decoded_byte(text, k)))
    } else {
        None
    }
}

/// Every six-bit value has a character of the alphabet, which is not the
/// padding character and stands for that value again.
pub proof fn lemma_sextet_char(v: int)
    requires
        0 <= v < 64,
    ensures
        char_sextet(sextet_char(v)) == Some(v),
        sextet_char(v) != '=',
        sextet_char(v) <= '\u{7f}',
{
}

fn sextet_to_char(v: u8) -> (c: char)
    requires
        v < 64,
    ensures
        c == sextet_char(v as int),
{
    if v < 26 {
        (65 + v) as char
    } else if v < 52 {
        (71 + v) as char
    } else if v < 62 {
        (v - 4) as char
    } else if v == 62 {
        '+'
    } else {
        '/'
    }
}

/// Encodes `data` as Base64 text.
pub fn base64_encode(data: &[u8]) -> (text: String)
    ensures
        text@ == base64_text(data@),
{
    let n = data.len();
    let groups = n / 3;
    let mut out = String::new();
    let mut g: usize = 0;
    while g < groups
        invariant
            n == data@.len(),
            groups == n / 3,
            g <= groups,
            out@.len() == 4 * g,
            forall|j: int| 0 <= j < out@.len() ==> out@[j] == encoded_char(data@, j),
        decreases groups - g,
    {
        let b0 = data[3 * g];
        let b1 = data[3 * g + 1];
        let b2 = data[3 * g + 2];
        out.push(sextet_to_char(b0 / 4));
        out.push(sextet_to_char((b0 % 4) * 16 + b1 / 16));
        out.push(sextet_to_char((b1 % 16) * 4 + b2 / 64));
        out.push(sextet_to_char(b2 % 64));
        g += 1;
    }
    if n % 3 == 1 {
        let b0 = data[3 * groups];
        out.push(sextet_to_char(b0 / 4));
        out.push(sextet_to_char((b0 % 4) * 16));
        out.push('=');
        out.push('=');
    } else if n % 3 == 2 {
        let b0 = data[3 * groups];
        let b1 = data[3 * groups + 1];
        out.push(sextet_to_char(b0 / 4));
        out.push(sextet_to_char((b0 % 4) * 16 + b1 / 16));
        out.push(sextet_to_char((b1 % 16) * 4));
        out.push('=');
    }
    assert(out@ =~= base64_text(data@));
    out
}

/// The six-bit value of an ASCII character of the alphabet.
fn char_to_sextet(b: u8) -> (v: Option<u8>)
    requires
        b < 128,
    ensures
        match v {
            Some(s) => char_sextet(b as char) == Some(s as int) && s < 64,
            None => char_sextet(b as char) is None,
        },
{
    if 65 <= b && b <= 90 {
        Some(b - 65)
    } else if 97 <= b && b <= 122 {
        Some(b - 71)
    } else if 48 <= b && b <= 57 {
        Some(b + 4)
    } else if b == 43 {
        Some(62)
    } else if b == 47 {
        Some(63)
    } else {
        None
    }
}

/// Decodes Base64 text. Returns `None` exactly where `text` is the encoding
/// of no byte sequence.
pub fn base64_decode(text: &str) -> (data: Option<Vec<u8>>)
    ensures
        match data {
            Some(bytes) => base64_bytes(text@) == Some(bytes@),
            None => base64_bytes(text@) is None,
        },
{
    broadcast use is_ascii_spec_bytes;

    if !text.is_ascii() {
        proof {
            lemma_not_ascii_not_base64(text@);
        }
        return None;
    }
    let chars = text.as_bytes();
    let n = chars.len();
    assert(n == text@.len());
    assert(forall|i: int| 0 <= i < n ==> chars@[i] < 128 && chars@[i] as char == #[trigger] text@[i]);
    if n % 4 != 0 {
        return None;
    }
    let pad: usize = if n >= 2 && chars[n - 1] == 61 {
        if chars[n - 2] == 61 {
            2
        } else {
            1
        }
    } else {
        0
    };
    assert(pad == padding(text@));
    let full = if pad == 0 {
        n / 4
    } else {
        n / 4 - 1
    };
    let mut out: Vec<u8> = Vec::new();
    let mut g: usize = 0;
    while g < full
        invariant
            n == text@.len(),
            n == chars@.len(),
            n % 4 == 0,
            pad == padding(text@),
            full + (if pad == 0 { 0int } else { 1int }) == n / 4,
            g <= full,
            forall|i: int| 0 <= i < n ==> chars@[i] < 128 && chars@[i] as char == #[trigger] text@[i],
            out@.len() == 3 * g,
            forall|k: int| 0 <= k < out@.len() ==> out@[k] == decoded_byte(text@, k),
            forall|i: int| 0 <= i < 4 * g ==> char_sextet(#[trigger] text@[i]) is Some,
        decreases full - g,
    {
        let s0 = char_to_sextet(chars[4 * g]);
        let s1 = char_to_sextet(chars[4 * g + 1]);
        let s2 = char_to_sextet(chars[4 * g + 2]);
        let s3 = char_to_sextet(chars[4 * g + 3]);
        match (s0, s1, s2, s3) {
            (Some(s0), Some(s1), Some(s2), Some(s3)) => {
                out.push(s0 * 4 + s1 / 16);
                out.push((s1 % 16) * 16 + s2 / 4);
                out.push((s2 % 4) * 64 + s3);
            },
            _ => {
                assert(!is_base64(text@)) by {
                    assert(char_sextet(text@[4 * g as int]) is None || char_sextet(
                        text@[4 * g + 1],
                    ) is None || char_sextet(text@[4 * g + 2]) is None || char_sextet(
                        text@[4 * g + 3],
                    ) is None);
                }
                return None;
            },
        }
        g += 1;
    }
    if pad == 1 {
        let s0 = char_to_sextet(chars[n - 4]);
        let s1 = char_to_sextet(chars[n - 3]);
        let s2 = char_to_sextet(chars[n - 2]);
        match (s0, s1, s2) {
            (Some(s0), Some(s1), Some(s2)) => {
                if s2 % 4 != 0 {
                    return None;
                }
                out.push(s0 * 4 + s1 / 16);
                out.push((s1 % 16) * 16 + s2 / 4);
            },
            _ => {
                assert(!is_base64(text@)) by {
                    assert(char_sextet(text@[n - 4]) is None || char_sextet(text@[n - 3]) is None
                        || char_sextet(text@[n - 2]) is None);
                }
                return None;
            },
        }
    } else if pad == 2 {
        let s0 = char_to_sextet(chars[n - 4]);
        let s1 = char_to_sextet(chars[n - 3]);
        match (s0, s1) {
            (Some(s0), Some(s1)) => {
                if s1 % 16 != 0 {
                    return None;
                }
                out.push(s0 * 4 + s1 / 16);
            },
            _ => {
                assert(!is_base64(text@)) by {
                    assert(char_sextet(text@[n - 4]) is None || char_sextet(text@[n - 3]) is None);
                }
                return None;
            },
        }
    }
    assert(is_base64(text@));
    assert(out@ =~= base64_bytes(text@)->0);
    Some(out)
}

/// Text with a character outside ASCII is no Base64.
proof fn lemma_not_ascii_not_base64(text: Seq<char>)
    requires
        !vstd::utf8::is_ascii_chars(text),
    ensures
        !is_base64(text),
{
    let i = choose|i: int| 0 <= i < text.len() && !('\0' <= #[trigger] text[i] <= '\u{7f}');
    assert(char_sextet(text[i]) is None);
    assert(i < text.len() - padding(text));
}

/// Decoding undoes encoding: the encoding of any bytes is well formed and
/// decodes to those bytes.
pub proof fn lemma_decode_encode(data: Seq<u8>)
    ensures
        is_base64(base64_text(data)),
        base64_bytes(base64_text(data)) == Some(data),
{
    let text = base64_text(data);
    lemma_encoding_is_base64(data);
    lemma_encoding_padding(data);
    assert forall|k: int| 0 <= k < data.len() implies decoded_byte(text, k) == data[k] by {
        lemma_decoded_byte(data, k);
    }
    assert(base64_bytes(text)->0 =~= data);
}

/// Every encoding is well formed.
proof fn lemma_encoding_is_base64(data: Seq<u8>)
    ensures
        is_base64(base64_text(data)),
{
    let text = base64_text(data);
    let n = data.len() as int;
    lemma_encoding_padding(data);
    assert forall|i: int| 0 <= i < text.len() - padding(text) implies char_sextet(
        #[trigger] text[i],
    ) is Some by {
        lemma_encoded_group(data, i / 4);
    }
    if n % 3 != 0 {
        lemma_encoded_group(data, n / 3);
    }
}

/// The byte at index `k` of the decoding of an encoding is the byte that was
/// encoded.
proof fn lemma_decoded_byte(data: Seq<u8>, k: int)
    requires
        0 <= k < data.len(),
    ensures
        decoded_byte(base64_text(data), k) == data[k],
{
    lemma_encoded_group(data, k / 3);
}

/// Encoding undoes decoding: a well-formed text is the encoding of the bytes
/// that it decodes to, and of no others.
pub proof fn lemma_encode_decode(text: Seq<char>)
    requires
        is_base64(text),
    ensures
        base64_text(base64_bytes(text)->0) == text,
{
    let data = base64_bytes(text)->0;
    assert(encoded_len(data.len()) == text.len());
    assert forall|i: int| 0 <= i < text.len() implies encoded_char(data, i) == text[i] by {
        lemma_reencoded_char(text, i);
    }
    assert(base64_text(data) =~= text);
}

/// A character of the alphabet is the character of the six bits that it
/// stands for.
proof fn lemma_char_sextet(c: char)
    requires
        char_sextet(c) is Some,
    ensures
        0 <= char_sextet(c)->0 < 64,
        sextet_char(char_sextet(c)->0) == c,
{
}

/// The character at index `i` of a well-formed text is the one that encoding
/// its bytes puts there.
proof fn lemma_reencoded_char(text: Seq<char>, i: int)
    requires
        is_base64(text),
        0 <= i < text.len(),
    ensures
        encoded_char(base64_bytes(text)->0, i) == text[i],
{
    let data = base64_bytes(text)->0;
    let g = i / 4;
    lemma_decoded_group(text, g);
    let s0 = sextet_at(text, 4 * g);
    let s1 = sextet_at(text, 4 * g + 1);
    let s2 = sextet_at(text, 4 * g + 2);
    let s3 = sextet_at(text, 4 * g + 3);
    let b0 = byte_or_zero(data, 3 * g);
    let b1 = byte_or_zero(data, 3 * g + 1);
    let b2 = byte_or_zero(data, 3 * g + 2);
    lemma_regroup(
        s0,
        s1,
        if 3 * g + 1 < data.len() { s2 } else { 0 },
        if 3 * g + 2 < data.len() { s3 } else { 0 },
    );
}

/// Four six-bit values, packed into three bytes and unpacked again, are the
/// same four values.
proof fn lemma_regroup(s0: int, s1: int, s2: int, s3: int)
    requires
        0 <= s0 < 64,
        0 <= s1 < 64,
        0 <= s2 < 64,
        0 <= s3 < 64,
    ensures
        ({
            let b0 = s0 * 4 + s1 / 16;
            let b1 = (s1 % 16) * 16 + s2 / 4;
            let b2 = (s2 % 4) * 64 + s3;
            &&& 0 <= b0 < 256 && 0 <= b1 < 256 && 0 <= b2 < 256
            &&& b0 / 4 == s0
            &&& (b0 % 4) * 16 + b1 / 16 == s1
            &&& (b1 % 16) * 4 + b2 / 64 == s2
            &&& b2 % 64 == s3
        }),
{
}

/// The group of a well-formed text that starts at `4 * g`: its characters
/// are those of its six-bit values or padding, the bits that fill it are
/// zero, and the bytes it decodes to are packed from those values.
proof fn lemma_decoded_group(text: Seq<char>, g: int)
    requires
        is_base64(text),
        0 <= g,
        4 * g < text.len(),
    ensures
        ({
            let data = base64_bytes(text)->0;
            let s0 = sextet_at(text, 4 * g);
            let s1 = sextet_at(text, 4 * g + 1);
            let s2 = sextet_at(text, 4 * g + 2);
            let s3 = sextet_at(text, 4 * g + 3);
            &&& encoded_len(data.len()) == text.len()
            &&& 3 * g < data.len()
            &&& 0 <= s0 < 64 && 0 <= s1 < 64 && 0 <= s2 < 64 && 0 <= s3 < 64
            &&& text[4 * g] == sextet_char(s0)
            &&& text[4 * g + 1] == sextet_char(s1)
            &&& data[3 * g] as int == s0 * 4 + s1 / 16
            &&& if 3 * g + 1 < data.len() {
                &&& text[4 * g + 2] == sextet_char(s2)
                &&& data[3 * g + 1] as int == (s1 % 16) * 16 + s2 / 4
            } else {
                text[4 * g + 2] == '=' && s1 % 16 == 0
            }
            &&& if 3 * g + 2 < data.len() {
                &&& text[4 * g + 3] == sextet_char(s3)
                &&& data[3 * g + 2] as int == (s2 % 4) * 64 + s3
            } else {
                text[4 * g + 3] == '=' && (3 * g + 1 < data.len() ==> s2 % 4 == 0)
            }
        }),
{
    let data = base64_bytes(text)->0;
    let pad = padding(text);
    let s0 = sextet_at(text, 4 * g);
    let s1 = sextet_at(text, 4 * g + 1);
    let s2 = sextet_at(text, 4 * g + 2);
    let s3 = sextet_at(text, 4 * g + 3);
    assert(data.len() == 3 * (text.len() / 4) - pad);
    assert(char_sextet(text[4 * g]) is Some);
    assert(char_sextet(text[4 * g + 1]) is Some);
    lemma_char_sextet(text[4 * g]);
    lemma_char_sextet(text[4 * g + 1]);
    if char_sextet(text[4 * g + 2]) is Some {
        lemma_char_sextet(text[4 * g + 2]);
    }
    if char_sextet(text[4 * g + 3]) is Some {
        lemma_char_sextet(text[4 * g + 3]);
    }
    lemma_regroup(s0, s1, s2, s3);
    assert(data[3 * g] == decoded_byte(text, 3 * g));
    if 3 * g + 1 < data.len() {
        assert(char_sextet(text[4 * g + 2]) is Some);
        assert(data[3 * g + 1] == decoded_byte(text, 3 * g + 1));
    }
    if 3 * g + 2 < data.len() {
        assert(char_sextet(text[4 * g + 3]) is Some);
        assert(data[3 * g + 2] == decoded_byte(text, 3 * g + 2));
    }
}

/// The encoding of `n` bytes ends in as many padding characters as bytes
/// are missing from its last group.
proof fn lemma_encoding_padding(data: Seq<u8>)
    ensures
        padding(base64_text(data)) == (3 - data.len() % 3) % 3,
{
    let n = data.len() as int;
    if n > 0 {
        lemma_encoded_group(data, (n - 1) / 3);
    }
}

/// The four characters that encode the group of bytes starting at `3 * g`:
/// which six bits each stands for, and which of them are padding.
proof fn lemma_encoded_group(data: Seq<u8>, g: int)
    requires
        0 <= g,
        3 * g < data.len(),
    ensures
        ({
            let text = base64_text(data);
            let b0 = byte_or_zero(data, 3 * g);
            let b1 = byte_or_zero(data, 3 * g + 1);
            let b2 = byte_or_zero(data, 3 * g + 2);
            &&& 4 * g + 3 < text.len()
            &&& char_sextet(text[4 * g]) == Some(b0 / 4)
            &&& char_sextet(text[4 * g + 1]) == Some((b0 % 4) * 16 + b1 / 16)
            &&& if 3 * g + 1 < data.len() {
                char_sextet(text[4 * g + 2]) == Some((b1 % 16) * 4 + b2 / 64)
            } else {
                text[4 * g + 2] == '='
            }
            &&& if 3 * g + 2 < data.len() {
                char_sextet(text[4 * g + 3]) == Some(b2 % 64)
            } else {
                text[4 * g + 3] == '='
            }
        }),
{
    let text = base64_text(data);
    let b0 = byte_or_zero(data, 3 * g);
    let b1 = byte_or_zero(data, 3 * g + 1);
    let b2 = byte_or_zero(data, 3 * g + 2);
    lemma_sextet_char(b0 / 4);
    lemma_sextet_char((b0 % 4) * 16 + b1 / 16);
    lemma_sextet_char((b1 % 16) * 4 + b2 / 64);
    lemma_sextet_char(b2 % 64);
    assert(text[4 * g] == encoded_char(data, 4 * g));
    assert(text[4 * g + 1] == encoded_char(data, 4 * g + 1));
    assert(text[4 * g + 2] == encoded_char(data, 4 * g + 2));
    assert(text[4 * g + 3] == encoded_char(data, 4 * g + 3));
}

} // verus!

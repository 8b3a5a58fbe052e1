//! Text handling for the C ABI: NUL-terminated byte buffers, lossy UTF-8 decoding and the
//! decimal and hexadecimal renderings used in human-readable messages.

use vstd::prelude::*;
use vstd::utf8::*;

verus! {

/// What `String::from_utf8_lossy` produces for a byte sequence that is not valid UTF-8.
pub uninterp spec fn lossy_utf8(bytes: Seq<u8>) -> Seq<char>;

/// What `String::from_utf8_lossy` produces: a valid UTF-8 sequence decoded as it is,
/// anything else as the named lossy decoding.
pub open spec fn utf8_lossy(bytes: Seq<u8>) -> Seq<char> {
    if valid_utf8(bytes) {
        decode_utf8(bytes)
    } else {
        lossy_utf8(bytes)
    }
}

/// Calls `String::from_utf8_lossy` and takes ownership of the result.
///
/// Trusted: by the std documentation, a valid UTF-8 sequence is returned unchanged, that is
/// decoded as it is; for any other sequence the result is the named lossy decoding of the
/// bytes. How invalid sequences are replaced by U+FFFD is left unsaid.
#[verifier::external_body]
pub(crate) fn decode_utf8_lossy(bytes: &[u8]) -> (s: String)
    ensures
        s@ == if valid_utf8(bytes@) {
            decode_utf8(bytes@)
        } else {
            lossy_utf8(bytes@)
        },
{
    String::from_utf8_lossy(bytes).into_owned()
}

/// Calls `String::push`.
///
/// Trusted: the character is appended at the end and nothing else changes.
#[verifier::external_body]
pub(crate) fn push_char(s: &mut String, c: char)
    ensures
        final(s)@ == old(s)@.push(c),
{
    s.push(c)
}

/// Number of bytes before the first NUL byte, or the whole length if there is none.
pub open spec fn c_str_len(bytes: Seq<u8>) -> nat
    decreases bytes.len(),
{
    if bytes.len() == 0 || bytes[0] == 0 {
        0
    } else {
        1 + c_str_len(bytes.drop_first())
    }
}

/// The text that a fixed-size, NUL-terminated native buffer holds.
pub open spec fn spec_text(bytes: Seq<u8>) -> Seq<char> {
    utf8_lossy(bytes.take(c_str_len(bytes) as int))
}

/// Properties that pin `c_str_len` down: no NUL before it, and a NUL at it unless it is
/// the end of the buffer.
pub proof fn lemma_c_str_len(bytes: Seq<u8>)
    ensures
        c_str_len(bytes) <= bytes.len(),
        forall|i: int| 0 <= i < c_str_len(bytes) ==> bytes[i] != 0,
        c_str_len(bytes) < bytes.len() ==> bytes[c_str_len(bytes) as int] == 0,
    decreases bytes.len(),
{
    if bytes.len() != 0 && bytes[0] != 0 {
        lemma_c_str_len(bytes.drop_first());
        assert forall|i: int| 0 <= i < c_str_len(bytes) implies bytes[i] != 0 by {
            if i > 0 {
                assert(bytes[i] == bytes.drop_first()[i - 1]);
            }
        }
    }
}

/// A buffer without any NUL byte is taken whole as text.
pub proof fn lemma_c_str_len_no_nul(bytes: Seq<u8>)
    requires
        forall|i: int| 0 <= i < bytes.len() ==> bytes[i] != 0,
    ensures
        c_str_len(bytes) == bytes.len(),
        spec_text(bytes) == utf8_lossy(bytes),
    decreases bytes.len(),
{
    if bytes.len() != 0 {
        assert forall|i: int| 0 <= i < bytes.drop_first().len() implies bytes.drop_first()[i] != 0 by {
            assert(bytes.drop_first()[i] == bytes[i + 1]);
        }
        lemma_c_str_len_no_nul(bytes.drop_first());
    }
    assert(bytes.take(bytes.len() as int) =~= bytes);
}

/// The NUL terminator ends the string: whatever follows it is ignored.
pub proof fn lemma_c_str_len_terminated(prefix: Seq<u8>, rest: Seq<u8>)
    requires
        forall|i: int| 0 <= i < prefix.len() ==> prefix[i] != 0,
    ensures
        c_str_len(prefix.push(0u8) + rest) == prefix.len(),
    decreases prefix.len(),
{
    let whole = prefix.push(0u8) + rest;
    if prefix.len() == 0 {
        assert(whole[0] == 0);
    } else {
        assert(whole[0] == prefix[0]);
        let tail = prefix.drop_first();
        assert forall|i: int| 0 <= i < tail.len() implies tail[i] != 0 by {
            assert(tail[i] == prefix[i + 1]);
        }
        lemma_c_str_len_terminated(tail, rest);
        assert(whole.drop_first() =~= tail.push(0u8) + rest);
    }
}

/// A text without NUL characters that is handed to the native layer as a NUL-terminated
/// UTF-8 buffer reads back unchanged, whatever the buffer holds after the terminator
/// (such as the zero padding of a fixed-size native field).
pub proof fn lemma_c_string_round_trip(s: Seq<char>, rest: Seq<u8>)
    requires
        !encode_utf8(s).contains(0u8),
    ensures
        spec_text(encode_utf8(s).push(0u8) + rest) == s,
{
    let bytes = encode_utf8(s);
    assert forall|i: int| 0 <= i < bytes.len() implies bytes[i] != 0 by {
        if bytes[i] == 0 {
            assert(bytes.contains(0u8));
        }
    }
    lemma_c_str_len_terminated(bytes, rest);
    assert((bytes.push(0u8) + rest).take(bytes.len() as int) =~= bytes);
    encode_utf8_valid_utf8(s);
    encode_utf8_decode_utf8(s);
}

/// The text of a buffer depends only on the bytes before its first NUL: a valid UTF-8
/// prefix without NUL, followed by a NUL and anything at all, reads as that prefix decoded.
pub proof fn lemma_text_ignores_bytes_after_nul(prefix: Seq<u8>, rest: Seq<u8>)
    requires
        forall|i: int| 0 <= i < prefix.len() ==> prefix[i] != 0,
        valid_utf8(prefix),
    ensures
        spec_text(prefix.push(0u8) + rest) == decode_utf8(prefix),
        spec_text(prefix.push(0u8) + rest) == spec_text(prefix.push(0u8)),
{
    lemma_c_str_len_terminated(prefix, rest);
    lemma_c_str_len_terminated(prefix, Seq::empty());
    assert((prefix.push(0u8) + rest).take(prefix.len() as int) =~= prefix);
    assert((prefix.push(0u8) + Seq::<u8>::empty()) =~= prefix.push(0u8));
    assert(prefix.push(0u8).take(prefix.len() as int) =~= prefix);
}

/// Decodes a native, NUL-terminated text buffer into an owned string.
///
/// The text ends at the first NUL byte (or at the end of the buffer if it holds none);
/// the bytes before it are decoded as UTF-8, invalid sequences being replaced.
pub fn text(bytes: &[u8]) -> (s: String)
    ensures
        s@ == spec_text(bytes@),
        forall|k: int|
            #![trigger bytes@.take(k)]
            0 <= k <= bytes@.len() && (forall|j: int| 0 <= j < k ==> bytes@[j] != 0) && (k
                == bytes@.len() || bytes@[k] == 0) && valid_utf8(bytes@.take(k)) ==> s@
                == decode_utf8(bytes@.take(k)),
{
    proof {
        lemma_c_str_len(bytes@);
    }
    let mut prefix: Vec<u8> = Vec::new();
    let mut i: usize = 0;
    while i < bytes.len() && bytes[i] != 0
        invariant
            i <= bytes.len(),
            i <= c_str_len(bytes@),
            prefix@ == bytes@.take(i as int),
            c_str_len(bytes@) <= bytes@.len(),
            forall|k: int| 0 <= k < c_str_len(bytes@) ==> bytes@[k] != 0,
            c_str_len(bytes@) < bytes@.len() ==> bytes@[c_str_len(bytes@) as int] == 0,
        decreases bytes.len() - i,
    {
        prefix.push(bytes[i]);
        i = i + 1;
        assert(prefix@ =~= bytes@.take(i as int));
    }
    assert(i == c_str_len(bytes@));
    assert forall|k: int|
        #![trigger bytes@.take(k)]
        0 <= k <= bytes@.len() && (forall|j: int| 0 <= j < k ==> bytes@[j] != 0) && (k
            == bytes@.len() || bytes@[k] == 0) implies k == i by {
        if k < i {
            assert(bytes@[k] != 0);
        } else if k > i {
            assert(bytes@[i as int] == 0);
        }
    }
    decode_utf8_lossy(prefix.as_slice())
}

/// The decimal digit character for a value below ten.
pub open spec fn decimal_digit(d: nat) -> char {
    (48 + d) as char
}

/// Decimal rendering of a natural number, without leading zeros.
pub open spec fn decimal(v: nat) -> Seq<char>
    decreases v,
{
    if v < 10 {
        seq![decimal_digit(v)]
    } else {
        decimal(v / 10).push(decimal_digit(v % 10))
    }
}

/// The upper-case hexadecimal digit character for a value below sixteen.
pub open spec fn hex_digit(d: nat) -> char {
    if d < 10 {
        (48 + d) as char
    } else {
        (55 + d) as char
    }
}

/// The last `width` hexadecimal digits of `v`, upper case, padded with leading zeros.
pub open spec fn hex(v: nat, width: nat) -> Seq<char>
    decreases width,
{
    if width == 0 {
        Seq::empty()
    } else {
        hex(v / 16, (width - 1) as nat).push(hex_digit(v % 16))
    }
}

fn digit_char(d: u32) -> (c: char)
    requires
        d < 16,
    ensures
        c == hex_digit(d as nat),
        d < 10 ==> c == decimal_digit(d as nat),
{
    match d {
        0 => '0',
        1 => '1',
        2 => '2',
        3 => '3',
        4 => '4',
        5 => '5',
        6 => '6',
        7 => '7',
        8 => '8',
        9 => '9',
        10 => 'A',
        11 => 'B',
        12 => 'C',
        13 => 'D',
        14 => 'E',
        _ => 'F',
    }
}

/// Appends the decimal rendering of `v`.
pub fn push_decimal(s: &mut String, v: u32)
    ensures
        final(s)@ == old(s)@ + decimal(v as nat),
    decreases v,
{
    if v >= 10 {
        push_decimal(s, v / 10);
    }
    let c = digit_char(v % 10);
    push_char(s, c);
    assert(s@ =~= old(s)@ + decimal(v as nat));
}

/// Appends the last `width` upper-case hexadecimal digits of `v`, zero-padded.
pub fn push_hex(s: &mut String, v: u32, width: u32)
    ensures
        final(s)@ == old(s)@ + hex(v as nat, width as nat),
    decreases width,
{
    if width > 0 {
        push_hex(s, v / 16, width - 1);
        let c = digit_char(v % 16);
        push_char(s, c);
        assert(s@ =~= old(s)@ + hex(v as nat, width as nat));
    }
}

} // verus!

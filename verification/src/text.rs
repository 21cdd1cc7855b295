//! Decoding of the text buffers that Pdfium fills: UTF-16LE for most strings, UTF-8 for
//! font names. Strings returned from Pdfium are generally terminated by a null character,
//! which is trimmed away.

use vstd::prelude::*;
use vstd::utf8::{decode_utf8, valid_utf8};

verus! {

/// The characters of `s` without any trailing null characters.
pub open spec fn spec_trim_trailing_nul(s: Seq<char>) -> Seq<char>
    decreases s.len(),
{
    if s.len() > 0 && s.last() == '\0' {
        spec_trim_trailing_nul(s.drop_last())
    } else {
        s
    }
}

/// The 16-bit code units of a little-endian byte buffer; a trailing odd byte is ignored.
pub open spec fn spec_utf16le_units(bytes: Seq<u8>) -> Seq<u16> {
    Seq::new(bytes.len() / 2, |i: int| (bytes[2 * i] + 0x100 * bytes[2 * i + 1]) as u16)
}

/// The string Pdfium's null-terminated UTF-16LE buffer holds, with trailing null characters
/// trimmed, if the buffer is the UTF-16 encoding of some string (which is then unique: see
/// [lemma_utf16_encode_injective]).
pub open spec fn spec_utf16le_string(bytes: Seq<u8>) -> Option<Seq<char>> {
    let units = spec_utf16le_units(bytes);
    if exists|s: Seq<char>| #[trigger] spec_utf16_encode(s) == units {
        Some(spec_trim_trailing_nul(choose|s: Seq<char>| #[trigger] spec_utf16_encode(s) == units))
    } else {
        None
    }
}

/// The string Pdfium answers with, given the null-terminated UTF-16LE bytes it writes: none
/// when it writes nothing (or more than a buffer can hold), otherwise the string the bytes
/// hold, if they hold valid UTF-16.
pub open spec fn spec_pdfium_utf16le_result(bytes: Seq<u8>) -> Option<Seq<char>> {
    if bytes.len() == 0 || bytes.len() > usize::MAX {
        None
    } else {
        spec_utf16le_string(bytes)
    }
}

/// The string Pdfium answers with, given the null-terminated UTF-8 bytes it writes: empty
/// when it writes nothing (or more than a buffer can hold), otherwise the string the bytes
/// hold, or empty if they are not valid UTF-8.
pub open spec fn spec_pdfium_utf8_result(bytes: Seq<u8>) -> Seq<char> {
    if bytes.len() == 0 || bytes.len() > usize::MAX {
        Seq::empty()
    } else {
        spec_utf8_string(bytes)
    }
}

/// The string Pdfium's null-terminated UTF-8 buffer holds; an invalid buffer gives the
/// empty string.
pub open spec fn spec_utf8_string(bytes: Seq<u8>) -> Seq<char> {
    if valid_utf8(bytes) {
        spec_trim_trailing_nul(decode_utf8(bytes))
    } else {
        Seq::empty()
    }
}

/// Decodes UTF-16 code units with std's `String::from_utf16`: the string whose UTF-16
/// encoding the units are, or `None` when the units hold invalid data, that is, when they are
/// the encoding of no string.
#[verifier::external_body]
fn decode_utf16(units: &[u16]) -> (r: Option<String>)
    ensures
        r matches Some(s) ==> spec_utf16_encode(s@) == units@,
        r is None ==> forall|t: Seq<char>| #[trigger] spec_utf16_encode(t) != units@,
{
    String::from_utf16(units).ok()
}

/// Decodes a UTF-8 byte buffer with std's `String::from_utf8`, which accepts exactly the
/// valid UTF-8 byte sequences and decodes them into their characters.
#[verifier::external_body]
fn decode_utf8_bytes(bytes: Vec<u8>) -> (r: Option<String>)
    ensures
        r is Some <==> valid_utf8(bytes@),
        r matches Some(s) ==> s@ == decode_utf8(bytes@),
{
    String::from_utf8(bytes).ok()
}

/// Returns `s` without any trailing null characters.
pub fn trim_trailing_nul(s: &str) -> (r: String)
    ensures
        r@ == spec_trim_trailing_nul(s@),
{
    let mut end = s.unicode_len();
    proof {
        lemma_trim_prefix(s@, s@.len() as int);
    }
    while end > 0 && s.get_char(end - 1) == '\0'
        invariant
            end <= s@.len(),
            spec_trim_trailing_nul(s@.subrange(0, end as int)) == spec_trim_trailing_nul(s@),
        decreases end,
    {
        proof {
            assert(s@.subrange(0, end as int).drop_last() =~= s@.subrange(0, end - 1));
        }
        end = end - 1;
    }
    s.substring_char(0, end).to_owned()
}

proof fn lemma_trim_prefix(s: Seq<char>, n: int)
    requires
        n == s.len(),
    ensures
        s.subrange(0, n) == s,
{
    assert(s.subrange(0, n) =~= s);
}

/// Converts Pdfium's little-endian byte buffer into 16-bit code units.
pub fn utf16le_units(bytes: &[u8]) -> (r: Vec<u16>)
    ensures
        r@ == spec_utf16le_units(bytes@),
{
    let len = bytes.len();
    let n = len / 2;
    let mut units: Vec<u16> = Vec::new();
    let mut i: usize = 0;
    while i < n
        invariant
            len == bytes@.len(),
            n == len / 2,
            i <= n,
            units@.len() == i,
            forall|j: int| 0 <= j < i ==> units@[j] == spec_utf16le_units(bytes@)[j],
        decreases n - i,
    {
        assert(2 * i + 1 < len);
        let lo = bytes[2 * i] as u16;
        let hi = bytes[2 * i + 1] as u16;
        units.push(lo + 0x100 * hi);
        i = i + 1;
    }
    assert(units@ =~= spec_utf16le_units(bytes@));
    units
}

/// Returns the string held in a UTF-16LE byte buffer filled by Pdfium, with trailing null
/// characters trimmed, or `None` if the buffer does not hold valid UTF-16.
pub fn get_string_from_pdfium_utf16le_bytes(buffer: &[u8]) -> (r: Option<String>)
    ensures
        match r {
            Some(s) => spec_utf16le_string(buffer@) == Some(s@),
            None => spec_utf16le_string(buffer@) is None,
        },
{
    let units = utf16le_units(buffer);
    match decode_utf16(units.as_slice()) {
        Some(s) => {
            proof {
                let c = choose|t: Seq<char>| #[trigger] spec_utf16_encode(t) == units@;
                lemma_utf16_encode_injective(c, s@);
            }
            Some(trim_trailing_nul(s.as_str()))
        },
        None => None,
    }
}

/// Returns the string held in a UTF-8 byte buffer filled by Pdfium, with trailing null
/// characters trimmed; an invalid buffer gives the empty string.
pub fn get_string_from_pdfium_utf8_bytes(buffer: Vec<u8>) -> (r: String)
    ensures
        r@ == spec_utf8_string(buffer@),
{
    match decode_utf8_bytes(buffer) {
        Some(s) => trim_trailing_nul(s.as_str()),
        None => String::new(),
    }
}

/// The UTF-16 code units of one character: the character itself below `0x10000`, otherwise
/// a high surrogate followed by a low surrogate.
pub open spec fn spec_utf16_units_of_char(c: char) -> Seq<u16> {
    let v = c as int;
    if v < 0x10000 {
        seq![v as u16]
    } else {
        let u = v - 0x10000;
        seq![(0xD800 + u / 0x400) as u16, (0xDC00 + u % 0x400) as u16]
    }
}

/// The UTF-16 code units of a string.
pub open spec fn spec_utf16_encode(s: Seq<char>) -> Seq<u16>
    decreases s.len(),
{
    if s.len() == 0 {
        Seq::empty()
    } else {
        spec_utf16_encode(s.drop_last()) + spec_utf16_units_of_char(s.last())
    }
}

/// The little-endian bytes of 16-bit code units.
pub open spec fn spec_utf16le_bytes(units: Seq<u16>) -> Seq<u8> {
    Seq::new(
        2 * units.len(),
        |i: int|
            if i % 2 == 0 {
                (units[i / 2] % 0x100) as u8
            } else {
                (units[i / 2] / 0x100) as u8
            },
    )
}

/// Returns the UTF-16 code units of a string.
pub fn utf16_units(s: &str) -> (r: Vec<u16>)
    ensures
        r@ == spec_utf16_encode(s@),
{
    let n = s.unicode_len();
    let mut units: Vec<u16> = Vec::new();
    let mut i: usize = 0;
    while i < n
        invariant
            n == s@.len(),
            i <= n,
            units@ == spec_utf16_encode(s@.subrange(0, i as int)),
        decreases n - i,
    {
        let c = s.get_char(i);
        let v = c as u32;
        let ghost before = units@;
        if v < 0x10000 {
            units.push(v as u16);
        } else {
            let u = v - 0x10000;
            assert(u < 0x100000) by {
                assert(v <= 0x10FFFF);
            }
            units.push((0xD800 + u / 0x400) as u16);
            units.push((0xDC00 + u % 0x400) as u16);
        }
        proof {
            let t = s@.subrange(0, i + 1);
            assert(t.drop_last() =~= s@.subrange(0, i as int));
            assert(t.last() == c);
            assert(units@ =~= before + spec_utf16_units_of_char(c));
        }
        i = i + 1;
    }
    assert(s@.subrange(0, n as int) =~= s@);
    units
}

/// Returns a string as Pdfium's null-terminated UTF-16LE byte buffer.
pub fn get_pdfium_utf16le_bytes_from_str(s: &str) -> (r: Vec<u8>)
    ensures
        r@ == spec_utf16le_bytes(spec_utf16_encode(s@).push(0)),
{
    let mut units = utf16_units(s);
    units.push(0);
    let n = units.len();
    let mut bytes: Vec<u8> = Vec::new();
    let mut i: usize = 0;
    while i < n
        invariant
            n == units@.len(),
            i <= n,
            bytes@.len() == 2 * i,
            forall|j: int| 0 <= j < 2 * i ==> bytes@[j] == spec_utf16le_bytes(units@)[j],
        decreases n - i,
    {
        let unit = units[i];
        bytes.push((unit % 0x100) as u8);
        bytes.push((unit / 0x100) as u8);
        proof {
            assert forall|j: int| 2 * i <= j < 2 * i + 2 implies bytes@[j] == spec_utf16le_bytes(
                units@,
            )[j] by {
                assert(j / 2 == i);
            }
        }
        i = i + 1;
    }
    assert(bytes@ =~= spec_utf16le_bytes(units@));
    bytes
}

/// What the code units of one character look like: a single unit that is not a low
/// surrogate and stands for the character itself, or a high surrogate followed by a low
/// surrogate from which the character is recovered.
proof fn lemma_utf16_units_of_char(c: char)
    ensures
        ({
            let units = spec_utf16_units_of_char(c);
            let v = c as int;
            &&& units.len() == 1 || units.len() == 2
            &&& units.len() == 1 ==> units[0] as int == v && !(0xDC00 <= units[0] <= 0xDFFF)
            &&& units.len() == 2 ==> 0xD800 <= units[0] <= 0xDBFF && 0xDC00 <= units[1] <= 0xDFFF
                && v == 0x10000 + (units[0] - 0xD800) * 0x400 + (units[1] - 0xDC00)
        }),
{
    let v = c as int;
    if v >= 0x10000 {
        let u = v - 0x10000;
        assert(u < 0x100000);
        vstd::arithmetic::div_mod::lemma_fundamental_div_mod(u, 0x400);
        vstd::arithmetic::div_mod::lemma_mod_bound(u, 0x400);
        vstd::arithmetic::div_mod::lemma_div_is_ordered(u, 0xFFFFF, 0x400);
        assert(0xFFFFFint / 0x400 == 0x3FF);
    }
}

/// A string has at least as many UTF-16 code units as characters.
proof fn lemma_utf16_encode_len(s: Seq<char>)
    ensures
        spec_utf16_encode(s).len() >= s.len(),
    decreases s.len(),
{
    if s.len() > 0 {
        lemma_utf16_encode_len(s.drop_last());
        lemma_utf16_units_of_char(s.last());
    }
}

/// Different strings have different UTF-16 encodings.
pub proof fn lemma_utf16_encode_injective(s: Seq<char>, t: Seq<char>)
    requires
        spec_utf16_encode(s) == spec_utf16_encode(t),
    ensures
        s == t,
    decreases s.len(),
{
    let e = spec_utf16_encode(s);
    if s.len() == 0 {
        lemma_utf16_encode_len(t);
        assert(t =~= s);
    } else if t.len() == 0 {
        lemma_utf16_encode_len(s);
    } else {
        let c = s.last();
        let d = t.last();
        let uc = spec_utf16_units_of_char(c);
        let ud = spec_utf16_units_of_char(d);
        let ps = spec_utf16_encode(s.drop_last());
        let pt = spec_utf16_encode(t.drop_last());
        lemma_utf16_units_of_char(c);
        lemma_utf16_units_of_char(d);
        assert(e == ps + uc);
        assert(e == pt + ud);
        assert(e.last() == uc.last());
        assert(e.last() == ud.last());
        assert(uc.len() == ud.len());
        if uc.len() == 1 {
            assert(uc[0] == e[e.len() - 1]);
            assert(ud[0] == e[e.len() - 1]);
        } else {
            assert(uc[0] == e[e.len() - 2]);
            assert(ud[0] == e[e.len() - 2]);
            assert(uc[1] == e[e.len() - 1]);
            assert(ud[1] == e[e.len() - 1]);
        }
        assert(c == d);
        assert(ps =~= e.subrange(0, e.len() - uc.len()));
        assert(pt =~= e.subrange(0, e.len() - ud.len()));
        lemma_utf16_encode_injective(s.drop_last(), t.drop_last());
        assert(s =~= s.drop_last().push(c));
        assert(t =~= t.drop_last().push(d));
    }
}

/// The 16-bit code units read back from the little-endian bytes of code units are those units.
proof fn lemma_utf16le_bytes_round_trip(units: Seq<u16>)
    ensures
        spec_utf16le_units(spec_utf16le_bytes(units)) == units,
{
    let bytes = spec_utf16le_bytes(units);
    let back = spec_utf16le_units(bytes);
    assert forall|i: int| 0 <= i < units.len() implies back[i] == units[i] by {
        assert((2 * i) / 2 == i);
        assert((2 * i + 1) / 2 == i);
        assert((2 * i) % 2 == 0);
        assert((2 * i + 1) % 2 == 1);
        let u = units[i];
        assert(bytes[2 * i] == (u % 0x100) as u8);
        assert(bytes[2 * i + 1] == (u / 0x100) as u8);
        assert((u % 0x100) + 0x100 * (u / 0x100) == u) by {
            vstd::arithmetic::div_mod::lemma_fundamental_div_mod(u as int, 0x100);
        }
    }
    assert(back =~= units);
}

/// A string written into a buffer for Pdfium, as [get_pdfium_utf16le_bytes_from_str] writes
/// it, is read back from that buffer, as [get_string_from_pdfium_utf16le_bytes] reads it, as
/// the same string without its trailing null characters.
pub proof fn lemma_utf16le_string_round_trip(s: Seq<char>)
    ensures
        spec_utf16le_string(spec_utf16le_bytes(spec_utf16_encode(s).push(0))) == Some(
            spec_trim_trailing_nul(s),
        ),
{
    let with_nul = s.push('\0');
    assert(with_nul.drop_last() =~= s);
    assert(spec_utf16_units_of_char('\0') =~= seq![0u16]);
    assert(spec_utf16_encode(with_nul) =~= spec_utf16_encode(s).push(0));
    let units = spec_utf16_encode(s).push(0);
    lemma_utf16le_bytes_round_trip(units);
    assert(spec_utf16_encode(with_nul) == units);
    let c = choose|t: Seq<char>| #[trigger] spec_utf16_encode(t) == units;
    lemma_utf16_encode_injective(c, with_nul);
    assert(spec_trim_trailing_nul(with_nul) == spec_trim_trailing_nul(s));
}

} // verus!

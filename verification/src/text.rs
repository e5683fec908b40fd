//! Decoding of the two string encodings a replay uses.
//!
//! A length-prefixed replay string is either Windows-1252 (one byte per
//! character) or UTF-16 little-endian (two bytes per code unit, with
//! surrogate pairs). Both decoders are total: Windows-1252 maps every byte to
//! a character, and malformed UTF-16 (an unpaired surrogate) yields the
//! replacement character.

use vstd::prelude::*;

verus! {

/// Relies on std's String::push: appends one character to the string.
#[verifier::external_body]
pub fn push_char(s: &mut String, c: char)
    ensures
        final(s)@ == old(s)@.push(c),
{
    s.push(c)
}

/// Relies on std's char::from_u32: returns Some exactly for Unicode scalar
/// values (all code points except the surrogate range), and the character's
/// code point is the argument.
#[verifier::external_body]
fn char_from_u32(v: u32) -> (r: Option<char>)
    ensures
        r is Some <==> (v < 0xD800 || (0xDFFF < v && v <= 0x10FFFF)),
        r is Some ==> r->0 == v as char,
{
    char::from_u32(v)
}

/// The character a Windows-1252 byte decodes to. Bytes 0x80..=0x9F hold the
/// punctuation and letter block that differs from Latin-1; every other byte
/// maps to the code point of the same value. The five bytes that
/// Windows-1252 leaves undefined decode to the control characters of their
/// own value.
pub open spec fn win1252_char(b: u8) -> char {
    if b == 0x80 {
        '\u{20AC}'
    } else if b == 0x82 {
        '\u{201A}'
    } else if b == 0x83 {
        '\u{0192}'
    } else if b == 0x84 {
        '\u{201E}'
    } else if b == 0x85 {
        '\u{2026}'
    } else if b == 0x86 {
        '\u{2020}'
    } else if b == 0x87 {
        '\u{2021}'
    } else if b == 0x88 {
        '\u{02C6}'
    } else if b == 0x89 {
        '\u{2030}'
    } else if b == 0x8A {
        '\u{0160}'
    } else if b == 0x8B {
        '\u{2039}'
    } else if b == 0x8C {
        '\u{0152}'
    } else if b == 0x8E {
        '\u{017D}'
    } else if b == 0x91 {
        '\u{2018}'
    } else if b == 0x92 {
        '\u{2019}'
    } else if b == 0x93 {
        '\u{201C}'
    } else if b == 0x94 {
        '\u{201D}'
    } else if b == 0x95 {
        '\u{2022}'
    } else if b == 0x96 {
        '\u{2013}'
    } else if b == 0x97 {
        '\u{2014}'
    } else if b == 0x98 {
        '\u{02DC}'
    } else if b == 0x99 {
        '\u{2122}'
    } else if b == 0x9A {
        '\u{0161}'
    } else if b == 0x9B {
        '\u{203A}'
    } else if b == 0x9C {
        '\u{0153}'
    } else if b == 0x9E {
        '\u{017E}'
    } else if b == 0x9F {
        '\u{0178}'
    } else {
        b as char
    }
}

/// The character sequence a Windows-1252 byte sequence decodes to.
pub open spec fn win1252_seq(s: Seq<u8>) -> Seq<char> {
    Seq::new(s.len(), |i: int| win1252_char(s[i]))
}

fn win1252_char_exec(b: u8) -> (c: char)
    ensures
        c == win1252_char(b),
{
    if b == 0x80 {
        '\u{20AC}'
    } else if b == 0x82 {
        '\u{201A}'
    } else if b == 0x83 {
        '\u{0192}'
    } else if b == 0x84 {
        '\u{201E}'
    } else if b == 0x85 {
        '\u{2026}'
    } else if b == 0x86 {
        '\u{2020}'
    } else if b == 0x87 {
        '\u{2021}'
    } else if b == 0x88 {
        '\u{02C6}'
    } else if b == 0x89 {
        '\u{2030}'
    } else if b == 0x8A {
        '\u{0160}'
    } else if b == 0x8B {
        '\u{2039}'
    } else if b == 0x8C {
        '\u{0152}'
    } else if b == 0x8E {
        '\u{017D}'
    } else if b == 0x91 {
        '\u{2018}'
    } else if b == 0x92 {
        '\u{2019}'
    } else if b == 0x93 {
        '\u{201C}'
    } else if b == 0x94 {
        '\u{201D}'
    } else if b == 0x95 {
        '\u{2022}'
    } else if b == 0x96 {
        '\u{2013}'
    } else if b == 0x97 {
        '\u{2014}'
    } else if b == 0x98 {
        '\u{02DC}'
    } else if b == 0x99 {
        '\u{2122}'
    } else if b == 0x9A {
        '\u{0161}'
    } else if b == 0x9B {
        '\u{203A}'
    } else if b == 0x9C {
        '\u{0153}'
    } else if b == 0x9E {
        '\u{017E}'
    } else if b == 0x9F {
        '\u{0178}'
    } else {
        b as char
    }
}

/// Decodes a Windows-1252 byte slice to an owned string.
pub fn decode_windows1252(bytes: &[u8]) -> (s: String)
    ensures
        s@ == win1252_seq(bytes@),
{
    let mut s = String::new();
    let n = bytes.len();
    let mut i: usize = 0;
    while i < n
        invariant
            n == bytes@.len(),
            i <= n,
            s@ =~= win1252_seq(bytes@.take(i as int)),
        decreases n - i,
    {
        let b = *vstd::slice::slice_index_get(bytes, i);
        let c = win1252_char_exec(b);
        push_char(&mut s, c);
        proof {
            assert(s@ =~= win1252_seq(bytes@.take(i + 1)));
        }
        i = i + 1;
    }
    proof {
        assert(bytes@.take(n as int) =~= bytes@);
    }
    s
}

/// The 16-bit code units of a little-endian byte sequence; a trailing odd
/// byte is ignored.
pub open spec fn utf16_units(s: Seq<u8>) -> Seq<u16> {
    Seq::new(s.len() / 2, |i: int| (s[2 * i] + 256 * s[2 * i + 1]) as u16)
}

/// Whether a code unit is a leading (high) surrogate.
pub open spec fn is_high_surrogate(u: u16) -> bool {
    0xD800 <= u <= 0xDBFF
}

/// Whether a code unit is a trailing (low) surrogate.
pub open spec fn is_low_surrogate(u: u16) -> bool {
    0xDC00 <= u <= 0xDFFF
}

/// The scalar value of a surrogate pair.
pub open spec fn surrogate_scalar(hi: u16, lo: u16) -> u32 {
    (0x10000 + (hi - 0xD800) * 0x400 + (lo - 0xDC00)) as u32
}

/// The characters a UTF-16 code-unit sequence decodes to: a high surrogate
/// followed by a low one forms one character; any unpaired surrogate decodes
/// to the replacement character.
pub open spec fn utf16_chars(units: Seq<u16>) -> Seq<char>
    decreases units.len(),
{
    if units.len() == 0 {
        Seq::empty()
    } else if is_high_surrogate(units[0]) {
        if units.len() >= 2 && is_low_surrogate(units[1]) {
            seq![surrogate_scalar(units[0], units[1]) as char] + utf16_chars(units.skip(2))
        } else {
            seq!['\u{FFFD}'] + utf16_chars(units.skip(1))
        }
    } else if is_low_surrogate(units[0]) {
        seq!['\u{FFFD}'] + utf16_chars(units.skip(1))
    } else {
        seq![(units[0] as u32) as char] + utf16_chars(units.skip(1))
    }
}

/// The character sequence a UTF-16 little-endian byte sequence decodes to.
pub open spec fn utf16_le_seq(s: Seq<u8>) -> Seq<char> {
    utf16_chars(utf16_units(s))
}

/// Decodes a UTF-16 little-endian byte slice to an owned string; unpaired
/// surrogates become the replacement character.
pub fn decode_utf16le(bytes: &[u8]) -> (s: String)
    ensures
        s@ == utf16_le_seq(bytes@),
{
    let n = bytes.len();
    let units_len = n / 2;
    let mut units: Vec<u16> = Vec::new();
    let mut i: usize = 0;
    while i < units_len
        invariant
            n == bytes@.len(),
            units_len == n / 2,
            i <= units_len,
            units@ =~= utf16_units(bytes@).take(i as int),
        decreases units_len - i,
    {
        let lo = *vstd::slice::slice_index_get(bytes, 2 * i);
        let hi = *vstd::slice::slice_index_get(bytes, 2 * i + 1);
        let u: u16 = (lo as u16) + 256 * (hi as u16);
        units.push(u);
        proof {
            assert(units@ =~= utf16_units(bytes@).take(i + 1));
        }
        i = i + 1;
    }
    proof {
        assert(units@ =~= utf16_units(bytes@));
    }
    let mut s = String::new();
    let mut j: usize = 0;
    while j < units_len
        invariant
            units_len == units@.len(),
            j <= units_len,
            s@ + utf16_chars(units@.skip(j as int)) == utf16_chars(units@),
        decreases units_len - j,
    {
        let ghost pre = s@;
        let u = units[j];
        if 0xD800 <= u && u <= 0xDBFF {
            let lo_unit: u16 = if j + 1 < units_len {
                units[j + 1]
            } else {
                0
            };
            if j + 1 < units_len && 0xDC00 <= lo_unit && lo_unit <= 0xDFFF {
                let v: u32 = 0x10000 + ((u as u32) - 0xD800) * 0x400 + ((lo_unit as u32) - 0xDC00);
                let c = match char_from_u32(v) {
                    Some(c) => c,
                    None => {
                        proof {
                            assert(false);
                        }
                        '\u{FFFD}'
                    },
                };
                push_char(&mut s, c);
                proof {
                    assert(units@.skip(j as int).skip(2) =~= units@.skip(j + 2));
                    assert(utf16_chars(units@.skip(j as int)) =~= seq![c] + utf16_chars(
                        units@.skip(j + 2),
                    ));
                    assert(s@ + utf16_chars(units@.skip(j + 2)) =~= utf16_chars(units@));
                }
                j = j + 2;
            } else {
                push_char(&mut s, '\u{FFFD}');
                proof {
                    assert(units@.skip(j as int).skip(1) =~= units@.skip(j + 1));
                    assert(utf16_chars(units@.skip(j as int)) =~= seq!['\u{FFFD}'] + utf16_chars(
                        units@.skip(j + 1),
                    ));
                    assert(s@ + utf16_chars(units@.skip(j + 1)) =~= utf16_chars(units@));
                }
                j = j + 1;
            }
        } else if 0xDC00 <= u && u <= 0xDFFF {
            push_char(&mut s, '\u{FFFD}');
            proof {
                assert(units@.skip(j as int).skip(1) =~= units@.skip(j + 1));
                assert(utf16_chars(units@.skip(j as int)) =~= seq!['\u{FFFD}'] + utf16_chars(
                    units@.skip(j + 1),
                ));
                assert(s@ + utf16_chars(units@.skip(j + 1)) =~= utf16_chars(units@));
            }
            j = j + 1;
        } else {
            let c = match char_from_u32(u as u32) {
                Some(c) => c,
                None => {
                    proof {
                        assert(false);
                    }
                    '\u{FFFD}'
                },
            };
            push_char(&mut s, c);
            proof {
                assert(units@.skip(j as int).skip(1) =~= units@.skip(j + 1));
                assert(utf16_chars(units@.skip(j as int)) =~= seq![c] + utf16_chars(
                    units@.skip(j + 1),
                ));
                assert(s@ + utf16_chars(units@.skip(j + 1)) =~= utf16_chars(units@));
            }
            j = j + 1;
        }
    }
    proof {
        assert(units@.skip(units_len as int) =~= Seq::<u16>::empty());
        assert(s@ =~= utf16_chars(units@));
    }
    s
}

/// Compares two string slices by their character sequences.
pub fn str_eq(a: &str, b: &str) -> (r: bool)
    ensures
        r == (a@ == b@),
{
    let la = a.unicode_len();
    let lb = b.unicode_len();
    if la != lb {
        proof {
            assert(a@ != b@);
        }
        return false;
    }
    let mut i: usize = 0;
    while i < la
        invariant
            la == a@.len(),
            lb == b@.len(),
            la == lb,
            i <= la,
            forall|j: int| 0 <= j < i ==> a@[j] == b@[j],
        decreases la - i,
    {
        let ca = a.get_char(i);
        let cb = b.get_char(i);
        if ca != cb {
            proof {
                assert(a@[i as int] != b@[i as int]);
            }
            return false;
        }
        i = i + 1;
    }
    proof {
        assert(a@ =~= b@);
    }
    true
}

} // verus!

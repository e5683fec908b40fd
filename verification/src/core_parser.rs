//! Cursor over the replay's bytes with bounds-checked little-endian reads.
//!
//! Every read either returns the decoded value and advances the cursor, or
//! returns an error and leaves the cursor where the failed read began. Each
//! operation is specified against a spec-level decoder over the byte
//! sequence, so a caller knows exactly which value a successful read yields
//! and exactly when a read fails.

use vstd::prelude::*;

use crate::errors::ParseError;
use crate::text::{decode_utf16le, decode_windows1252, utf16_le_seq, win1252_seq};

verus! {

/// The unsigned little-endian value of a byte sequence.
pub open spec fn le_bytes(s: Seq<u8>) -> int
    decreases s.len(),
{
    if s.len() == 0 {
        0
    } else {
        s[0] + 256 * le_bytes(s.skip(1))
    }
}

/// Reinterprets an unsigned 32-bit value as two's-complement.
pub open spec fn to_signed32(v: int) -> int {
    if v >= 0x8000_0000 {
        v - 0x1_0000_0000
    } else {
        v
    }
}

/// The unsigned little-endian value of the four bytes at `pos`.
pub open spec fn le_u32_at(data: Seq<u8>, pos: int) -> int {
    le_bytes(data.subrange(pos, pos + 4))
}

/// The signed little-endian value of the four bytes at `pos`.
pub open spec fn le_i32_at(data: Seq<u8>, pos: int) -> int {
    to_signed32(le_u32_at(data, pos))
}

pub proof fn lemma_le_bytes_4(s: Seq<u8>)
    requires
        s.len() == 4,
    ensures
        le_bytes(s) == s[0] + 0x100 * s[1] + 0x1_0000 * s[2] + 0x100_0000 * s[3],
        0 <= le_bytes(s) < 0x1_0000_0000,
{
    let s1 = s.skip(1);
    let s2 = s1.skip(1);
    let s3 = s2.skip(1);
    let s4 = s3.skip(1);
    assert(s4.len() == 0);
    assert(le_bytes(s4) == 0);
    assert(le_bytes(s3) == s3[0] + 256 * le_bytes(s4));
    assert(le_bytes(s2) == s2[0] + 256 * le_bytes(s3));
    assert(le_bytes(s1) == s1[0] + 256 * le_bytes(s2));
    assert(le_bytes(s) == s[0] + 256 * le_bytes(s1));
    assert(s1[0] == s[1] && s2[0] == s[2] && s3[0] == s[3]);
}

pub proof fn lemma_le_bytes_8(s: Seq<u8>)
    requires
        s.len() == 8,
    ensures
        le_bytes(s) == s[0] + 0x100 * s[1] + 0x1_0000 * s[2] + 0x100_0000 * s[3] + 0x1_0000_0000
            * s[4] + 0x100_0000_0000 * s[5] + 0x1_0000_0000_0000 * s[6] + 0x100_0000_0000_0000
            * s[7],
        0 <= le_bytes(s) < 0x1_0000_0000_0000_0000,
{
    let s1 = s.skip(1);
    let s2 = s.skip(2);
    let s3 = s.skip(3);
    let s4 = s.skip(4);
    assert(s1.skip(1) =~= s2);
    assert(s2.skip(1) =~= s3);
    assert(s3.skip(1) =~= s4);
    lemma_le_bytes_4(s4);
    assert(le_bytes(s3) == s3[0] + 256 * le_bytes(s4));
    assert(le_bytes(s2) == s2[0] + 256 * le_bytes(s3));
    assert(le_bytes(s1) == s1[0] + 256 * le_bytes(s2));
    assert(le_bytes(s) == s[0] + 256 * le_bytes(s1));
    assert(s1[0] == s[1] && s2[0] == s[2] && s3[0] == s[3]);
    assert(s4[0] == s[4] && s4[1] == s[5] && s4[2] == s[6] && s4[3] == s[7]);
}

/// The error of a read of `n` bytes at `pos` when fewer remain.
pub open spec fn short_read_err(data: Seq<u8>, pos: int, n: int) -> ParseError {
    ParseError::InsufficientBytes {
        expected: n as usize,
        available: (data.len() - pos) as usize,
        offset: pos as usize,
    }
}

/// A length-prefixed string decoded at `pos`: the decoded characters and the
/// position after the string. A non-negative prefix counts Windows-1252
/// bytes, a negative prefix counts UTF-16 code units (two bytes each); both
/// encodings carry a trailing NUL that is dropped. `None` when the prefix or
/// the payload runs past the end, or the prefix is implausible.
pub open spec fn spec_text_at(data: Seq<u8>, pos: int) -> Option<(Seq<char>, int)> {
    if pos + 4 > data.len() {
        None
    } else {
        let size = le_i32_at(data, pos);
        let p = pos + 4;
        if size == 0 {
            Some((Seq::empty(), p))
        } else if size > 0 {
            if p + size > data.len() {
                None
            } else {
                Some((win1252_seq(data.subrange(p, p + size - 1)), p + size))
            }
        } else if size <= -0x4000_0000 {
            None
        } else {
            let blen = -2 * size;
            if p + blen > data.len() {
                None
            } else {
                Some((utf16_le_seq(data.subrange(p, p + blen - 2)), p + blen))
            }
        }
    }
}

/// The error a failed string read at `pos` yields.
pub open spec fn spec_text_err(data: Seq<u8>, pos: int) -> ParseError {
    if pos + 4 > data.len() {
        short_read_err(data, pos, 4)
    } else {
        let size = le_i32_at(data, pos);
        let p = pos + 4;
        if size > 0 {
            short_read_err(data, p, size)
        } else if size <= -0x4000_0000 {
            ParseError::InvalidStringSize(size as i32)
        } else {
            short_read_err(data, p, -2 * size)
        }
    }
}

/// A list count read at `pos` for elements of at least `min` bytes each: the
/// count and the position after it. `None` when the four count bytes are
/// missing or the declared count cannot fit in the remaining bytes.
pub open spec fn spec_count_at(data: Seq<u8>, pos: int, min: int) -> Option<(int, int)> {
    if pos + 4 > data.len() {
        None
    } else {
        let c = le_i32_at(data, pos);
        if c < 0 || c * min > data.len() - (pos + 4) {
            None
        } else {
            Some((c, pos + 4))
        }
    }
}

/// The error a failed list count read at `pos` yields. An oversized count is
/// reported with the value the declared count takes when widened to 64 bits.
pub open spec fn spec_count_err(data: Seq<u8>, pos: int, min: int) -> ParseError {
    if pos + 4 > data.len() {
        short_read_err(data, pos, 4)
    } else {
        let c = le_i32_at(data, pos);
        let wide = if c >= 0 {
            c
        } else {
            c + 0x1_0000_0000_0000_0000
        };
        ParseError::ListTooLarge(wide as u64)
    }
}

/// The cursor position a failed string read leaves behind: the start when
/// the length prefix itself is missing, else just past the prefix.
pub open spec fn spec_text_errpos(data: Seq<u8>, pos: int) -> int {
    if pos + 4 > data.len() {
        pos
    } else {
        pos + 4
    }
}

/// The cursor position a failed list count read leaves behind.
pub open spec fn spec_count_errpos(data: Seq<u8>, pos: int) -> int {
    if pos + 4 > data.len() {
        pos
    } else {
        pos + 4
    }
}

/// The error and cursor position of the first failing string among `n`
/// decoded one after another; meaningful only when the run fails.
pub open spec fn spec_texts_fail(data: Seq<u8>, pos: int, n: nat) -> (ParseError, int)
    decreases n,
{
    if n == 0 {
        (short_read_err(data, pos, 4), pos)
    } else {
        match spec_text_at(data, pos) {
            None => (spec_text_err(data, pos), spec_text_errpos(data, pos)),
            Some((_, p1)) => spec_texts_fail(data, p1, (n - 1) as nat),
        }
    }
}

/// The error and cursor position of a failed counted string list.
pub open spec fn spec_text_list_fail(data: Seq<u8>, pos: int) -> (ParseError, int) {
    match spec_count_at(data, pos, 4) {
        None => (spec_count_err(data, pos, 4), spec_count_errpos(data, pos)),
        Some((n, p)) => spec_texts_fail(data, p, n as nat),
    }
}

/// A list of strings decoded at `pos`.
pub open spec fn spec_texts(data: Seq<u8>, pos: int, n: nat) -> Option<(Seq<Seq<char>>, int)>
    decreases n,
{
    if n == 0 {
        Some((Seq::empty(), pos))
    } else {
        match spec_text_at(data, pos) {
            Some((v, p1)) => match spec_texts(data, p1, (n - 1) as nat) {
                Some((vs, p2)) => Some((seq![v] + vs, p2)),
                None => None,
            },
            None => None,
        }
    }
}

/// A counted list of strings decoded at `pos`.
pub open spec fn spec_text_list_at(data: Seq<u8>, pos: int) -> Option<(Seq<Seq<char>>, int)> {
    match spec_count_at(data, pos, 4) {
        Some((n, p)) => spec_texts(data, p, n as nat),
        None => None,
    }
}

/// A bounds-checked cursor over the replay's bytes. `col` is the number of
/// bytes consumed so far and never exceeds the buffer's length.
#[derive(Debug, Clone, PartialEq)]
pub struct CoreParser<'a> {
    /// The whole buffer being parsed; reads never mutate it.
    pub data: &'a [u8],
    /// The cursor: how many bytes have been consumed.
    pub col: usize,
}

impl<'a> CoreParser<'a> {
    /// The cursor is inside the buffer.
    pub open spec fn wf(self) -> bool {
        self.col <= self.data@.len()
    }

    /// How many bytes remain unread.
    pub open spec fn remaining(self) -> int {
        self.data@.len() - self.col
    }

    /// Positions a fresh cursor at the start of `data`.
    pub fn new(data: &'a [u8]) -> (p: Self)
        ensures
            p.data@ == data@,
            p.col == 0,
            p.wf(),
    {
        CoreParser { data, col: 0 }
    }

    /// The number of bytes consumed so far.
    pub fn bytes_read(&self) -> (n: usize)
        ensures
            n == self.col,
    {
        self.col
    }

    /// Takes the next `n` bytes, advancing the cursor past them; fails with
    /// the exact short-read error when fewer remain, leaving the cursor in
    /// place.
    pub fn take_bytes(&mut self, n: usize) -> (r: Result<&'a [u8], ParseError>)
        requires
            old(self).wf(),
        ensures
            final(self).data@ == old(self).data@,
            final(self).wf(),
            if old(self).col + n <= old(self).data@.len() {
                r matches Ok(s) && s@ == old(self).data@.subrange(
                    old(self).col as int,
                    old(self).col + n,
                ) && final(self).col == old(self).col + n
            } else {
                r matches Err(e) && e == short_read_err(
                    old(self).data@,
                    old(self).col as int,
                    n as int,
                ) && final(self).col == old(self).col
            },
    {
        if n <= self.data.len() - self.col {
            let s = vstd::slice::slice_subrange(self.data, self.col, self.col + n);
            self.col = self.col + n;
            Ok(s)
        } else {
            Err(
                ParseError::InsufficientBytes {
                    expected: n,
                    available: self.data.len() - self.col,
                    offset: self.col,
                },
            )
        }
    }

    /// Returns the next `n` bytes without advancing the cursor; fails with
    /// the exact short-read error when fewer remain.
    pub fn view_data(&self, n: usize) -> (r: Result<&'a [u8], ParseError>)
        requires
            self.wf(),
        ensures
            if self.col + n <= self.data@.len() {
                r matches Ok(s) && s@ == self.data@.subrange(self.col as int, self.col + n)
            } else {
                r matches Err(e) && e == short_read_err(self.data@, self.col as int, n as int)
            },
    {
        if n <= self.data.len() - self.col {
            Ok(vstd::slice::slice_subrange(self.data, self.col, self.col + n))
        } else {
            Err(
                ParseError::InsufficientBytes {
                    expected: n,
                    available: self.data.len() - self.col,
                    offset: self.col,
                },
            )
        }
    }

    /// Reads one byte.
    pub fn take_u8(&mut self) -> (r: Result<u8, ParseError>)
        requires
            old(self).wf(),
        ensures
            final(self).data@ == old(self).data@,
            final(self).wf(),
            if old(self).col + 1 <= old(self).data@.len() {
                r matches Ok(v) && v == old(self).data@[old(self).col as int] && final(self).col
                    == old(self).col + 1
            } else {
                r matches Err(e) && e == short_read_err(old(self).data@, old(self).col as int, 1)
                    && final(self).col == old(self).col
            },
    {
        let s = self.take_bytes(1)?;
        Ok(*vstd::slice::slice_index_get(s, 0))
    }

    /// Reads a little-endian unsigned 32-bit integer.
    pub fn take_u32(&mut self) -> (r: Result<u32, ParseError>)
        requires
            old(self).wf(),
        ensures
            final(self).data@ == old(self).data@,
            final(self).wf(),
            if old(self).col + 4 <= old(self).data@.len() {
                r matches Ok(v) && v == le_u32_at(old(self).data@, old(self).col as int) && final(self).col == old(self).col + 4
            } else {
                r matches Err(e) && e == short_read_err(old(self).data@, old(self).col as int, 4)
                    && final(self).col == old(self).col
            },
    {
        let s = self.take_bytes(4)?;
        proof {
            lemma_le_bytes_4(s@);
        }
        let b0 = *vstd::slice::slice_index_get(s, 0) as u64;
        let b1 = *vstd::slice::slice_index_get(s, 1) as u64;
        let b2 = *vstd::slice::slice_index_get(s, 2) as u64;
        let b3 = *vstd::slice::slice_index_get(s, 3) as u64;
        let v = b0 + 0x100 * b1 + 0x1_0000 * b2 + 0x100_0000 * b3;
        Ok(v as u32)
    }

    /// Reads a little-endian signed 32-bit integer.
    pub fn take_i32(&mut self) -> (r: Result<i32, ParseError>)
        requires
            old(self).wf(),
        ensures
            final(self).data@ == old(self).data@,
            final(self).wf(),
            if old(self).col + 4 <= old(self).data@.len() {
                r matches Ok(v) && v == le_i32_at(old(self).data@, old(self).col as int) && final(self).col == old(self).col + 4
            } else {
                r matches Err(e) && e == short_read_err(old(self).data@, old(self).col as int, 4)
                    && final(self).col == old(self).col
            },
    {
        let v = self.take_u32()?;
        if v >= 0x8000_0000 {
            let d = 0xFFFF_FFFFu32 - v;
            Ok(-(d as i32) - 1)
        } else {
            Ok(v as i32)
        }
    }

    /// Reads a little-endian unsigned 64-bit integer.
    pub fn take_u64(&mut self) -> (r: Result<u64, ParseError>)
        requires
            old(self).wf(),
        ensures
            final(self).data@ == old(self).data@,
            final(self).wf(),
            if old(self).col + 8 <= old(self).data@.len() {
                r matches Ok(v) && v == le_bytes(
                    old(self).data@.subrange(old(self).col as int, old(self).col + 8),
                ) && final(self).col == old(self).col + 8
            } else {
                r matches Err(e) && e == short_read_err(old(self).data@, old(self).col as int, 8)
                    && final(self).col == old(self).col
            },
    {
        let s = self.take_bytes(8)?;
        proof {
            lemma_le_bytes_8(s@);
        }
        let b0 = *vstd::slice::slice_index_get(s, 0) as u64;
        let b1 = *vstd::slice::slice_index_get(s, 1) as u64;
        let b2 = *vstd::slice::slice_index_get(s, 2) as u64;
        let b3 = *vstd::slice::slice_index_get(s, 3) as u64;
        let b4 = *vstd::slice::slice_index_get(s, 4) as u64;
        let b5 = *vstd::slice::slice_index_get(s, 5) as u64;
        let b6 = *vstd::slice::slice_index_get(s, 6) as u64;
        let b7 = *vstd::slice::slice_index_get(s, 7) as u64;
        let lo = b0 + 0x100 * b1 + 0x1_0000 * b2 + 0x100_0000 * b3;
        let hi = b4 + 0x100 * b5 + 0x1_0000 * b6 + 0x100_0000 * b7;
        Ok(lo + 0x1_0000_0000 * hi)
    }

    /// Reads a length-prefixed string, decoding its payload as Windows-1252
    /// (non-negative prefix) or UTF-16 little-endian (negative prefix).
    pub fn parse_text(&mut self) -> (r: Result<String, ParseError>)
        requires
            old(self).wf(),
        ensures
            final(self).data@ == old(self).data@,
            final(self).wf(),
            match r {
                Ok(s) => spec_text_at(old(self).data@, old(self).col as int) == Some(
                    (s@, final(self).col as int),
                ),
                Err(e) => spec_text_at(old(self).data@, old(self).col as int) is None && e
                    == spec_text_err(old(self).data@, old(self).col as int) && final(self).col
                    == spec_text_errpos(old(self).data@, old(self).col as int),
            },
    {
        let size = self.take_i32()?;
        if size == 0 {
            Ok(String::new())
        } else if size > 0 {
            let payload = self.take_bytes(size as usize)?;
            let content = vstd::slice::slice_subrange(payload, 0, (size as usize) - 1);
            proof {
                assert(content@ =~= old(self).data@.subrange(
                    old(self).col + 4,
                    old(self).col + 4 + size - 1,
                ));
            }
            Ok(decode_windows1252(content))
        } else if size <= -0x4000_0000 {
            Err(ParseError::InvalidStringSize(size))
        } else {
            let blen = (-(size as i64) * 2) as usize;
            let payload = self.take_bytes(blen)?;
            let content = vstd::slice::slice_subrange(payload, 0, blen - 2);
            proof {
                assert(content@ =~= old(self).data@.subrange(
                    old(self).col + 4,
                    old(self).col + 4 + (-2 * size) - 2,
                ));
            }
            Ok(decode_utf16le(content))
        }
    }

    /// Reads a length-prefixed string; identical to `parse_text` and kept as
    /// the name used for table keys.
    pub fn parse_str(&mut self) -> (r: Result<String, ParseError>)
        requires
            old(self).wf(),
        ensures
            final(self).data@ == old(self).data@,
            final(self).wf(),
            match r {
                Ok(s) => spec_text_at(old(self).data@, old(self).col as int) == Some(
                    (s@, final(self).col as int),
                ),
                Err(e) => spec_text_at(old(self).data@, old(self).col as int) is None && e
                    == spec_text_err(old(self).data@, old(self).col as int) && final(self).col
                    == spec_text_errpos(old(self).data@, old(self).col as int),
            },
    {
        self.parse_text()
    }

    /// Reads a list count and rejects, without allocating, any count whose
    /// elements (of at least `min_elem` bytes each) could not fit in the
    /// bytes that remain.
    pub fn list_count(&mut self, min_elem: usize) -> (r: Result<usize, ParseError>)
        requires
            old(self).wf(),
            1 <= min_elem <= 16,
        ensures
            final(self).data@ == old(self).data@,
            final(self).wf(),
            match r {
                Ok(n) => spec_count_at(old(self).data@, old(self).col as int, min_elem as int)
                    == Some((n as int, final(self).col as int)),
                Err(e) => spec_count_at(old(self).data@, old(self).col as int, min_elem as int)
                    is None && e == spec_count_err(
                    old(self).data@,
                    old(self).col as int,
                    min_elem as int,
                ) && final(self).col == spec_count_errpos(old(self).data@, old(self).col as int),
            },
    {
        let c = self.take_i32()?;
        let remaining = self.data.len() - self.col;
        proof {
            assert(c >= 0 ==> (c as int) * (min_elem as int) <= 0x7FFF_FFFF * 16)
                by (nonlinear_arith)
                requires
                    c < 0x8000_0000,
                    1 <= min_elem <= 16,
            ;
        }
        if c >= 0 && (c as u64) * (min_elem as u64) <= remaining as u64 {
            Ok(c as usize)
        } else {
            let wide: u64 = if c >= 0 {
                c as u64
            } else {
                0xFFFF_FFFF_FFFF_FFFFu64 - ((-(c as i64)) as u64) + 1
            };
            Err(ParseError::ListTooLarge(wide))
        }
    }

    /// Reads a counted list of strings.
    pub fn text_list(&mut self) -> (r: Result<Vec<String>, ParseError>)
        requires
            old(self).wf(),
        ensures
            final(self).data@ == old(self).data@,
            final(self).wf(),
            match r {
                Ok(v) => spec_text_list_at(old(self).data@, old(self).col as int) matches Some(
                    (vs, p),
                ) && vs == v.deep_view() && p == final(self).col,
                Err(e) => spec_text_list_at(old(self).data@, old(self).col as int) is None && e
                    == spec_text_list_fail(old(self).data@, old(self).col as int).0 && final(self).col == spec_text_list_fail(old(self).data@, old(self).col as int).1,
            },
    {
        let ghost data = self.data@;
        let count = match self.list_count(4) {
            Ok(c) => c,
            Err(e) => {
                return Err(e);
            },
        };
        let ghost p0 = self.col as int;
        let mut out: Vec<String> = Vec::new();
        let mut k: usize = 0;
        while k < count
            invariant
                self.wf(),
                self.data@ == data,
                data == old(self).data@,
                spec_count_at(data, old(self).col as int, 4) == Some((count as int, p0)),
                spec_texts_fail(data, p0, count as nat) == spec_texts_fail(
                    data,
                    self.col as int,
                    (count - k) as nat,
                ),
                k <= count,
                out@.len() == k,
                match spec_texts(data, self.col as int, (count - k) as nat) {
                    Some((rest, pe)) => spec_texts(data, p0, count as nat) == Some(
                        (out.deep_view() + rest, pe),
                    ),
                    None => spec_texts(data, p0, count as nat) is None,
                },
            decreases count - k,
        {
            let ghost col0 = self.col as int;
            match self.parse_text() {
                Ok(s) => {
                    let ghost prev = out.deep_view();
                    out.push(s);
                    proof {
                        assert(out.deep_view() =~= prev.push(s@));
                        match spec_texts(data, self.col as int, (count - k - 1) as nat) {
                            Some((rest2, pe)) => {
                                assert(spec_texts(data, col0, (count - k) as nat) == Some(
                                    (seq![s@] + rest2, pe),
                                ));
                                assert(prev + (seq![s@] + rest2) =~= out.deep_view() + rest2);
                            },
                            None => {
                                assert(spec_texts(data, col0, (count - k) as nat) is None);
                            },
                        }
                    }
                    k = k + 1;
                },
                Err(e) => {
                    proof {
                        assert(spec_texts(data, col0, (count - k) as nat) is None);
                        assert(spec_texts_fail(data, col0, (count - k) as nat) == (
                            spec_text_err(data, col0),
                            spec_text_errpos(data, col0),
                        ));
                    }
                    return Err(e);
                },
            }
        }
        proof {
            assert(spec_texts(data, self.col as int, 0) == Some(
                (Seq::<Seq<char>>::empty(), self.col as int),
            ));
            assert(out.deep_view() + Seq::<Seq<char>>::empty() =~= out.deep_view());
        }
        Ok(out)
    }
}

} // verus!

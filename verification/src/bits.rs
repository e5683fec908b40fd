//! Cursor over the network-data slice at bit granularity.
//!
//! Bits are read least-significant first within each byte, as the engine
//! writes them. Every read is specified against the bit sequence, and a
//! read past the end fails with the bit offset where the stream ran dry.

use vstd::prelude::*;

use crate::errors::NetworkError;
use vstd::arithmetic::power2::{lemma2_to64, lemma2_to64_rest, lemma_pow2_strictly_increases,
    lemma_pow2_unfold, pow2};

verus! {

/// The bit at index `i` of the byte sequence, least-significant first
/// within each byte.
pub open spec fn bit_at(data: Seq<u8>, i: int) -> bool {
    data[i / 8] & (1u8 << (i % 8) as u8) != 0
}

/// The value of `n` bits starting at `pos`, least-significant bit first.
pub open spec fn bits_val(data: Seq<u8>, pos: int, n: nat) -> int
    decreases n,
{
    if n == 0 {
        0
    } else {
        (if bit_at(data, pos) {
            1int
        } else {
            0int
        }) + 2 * bits_val(data, pos + 1, (n - 1) as nat)
    }
}

pub proof fn lemma_bits_val_bound(data: Seq<u8>, pos: int, n: nat)
    ensures
        0 <= bits_val(data, pos, n) < pow2(n),
    decreases n,
{
    lemma2_to64();
    if n > 0 {
        lemma_bits_val_bound(data, pos + 1, (n - 1) as nat);
        lemma_pow2_unfold(n);
    }
}

/// The variable-width integer below `max`: starting from `value` with bit
/// weight `mask`, a bit is consumed while one more weight could stay below
/// `max`; `fuel` bounds the recursion and is never exhausted for the widths
/// the stream uses.
pub open spec fn spec_ser_int(
    data: Seq<u8>,
    pos: int,
    value: int,
    mask: int,
    max: int,
    fuel: nat,
) -> Option<(int, int)>
    decreases fuel,
{
    if value + mask >= max {
        Some((value, pos))
    } else if fuel == 0 {
        None
    } else if pos >= 8 * data.len() {
        None
    } else {
        let v2 = if bit_at(data, pos) {
            value + mask
        } else {
            value
        };
        spec_ser_int(data, pos + 1, v2, 2 * mask, max, (fuel - 1) as nat)
    }
}

/// A bounds-checked bit cursor. `pos` counts bits consumed and never
/// exceeds eight times the buffer's length.
#[derive(Debug, Clone, PartialEq)]
pub struct BitReader<'a> {
    /// The bytes being read.
    pub data: &'a [u8],
    /// The cursor, in bits.
    pub pos: usize,
}

impl<'a> BitReader<'a> {
    /// The cursor is inside the buffer.
    pub open spec fn wf(self) -> bool {
        self.pos <= 8 * self.data@.len() && self.data@.len() < 0x1000_0000
    }

    /// How many bits remain unread.
    pub open spec fn remaining(self) -> int {
        8 * self.data@.len() - self.pos
    }

    /// Positions a fresh cursor at the first bit of `data`.
    pub fn new(data: &'a [u8]) -> (r: Self)
        requires
            data@.len() < 0x1000_0000,
        ensures
            r.data@ == data@,
            r.pos == 0,
            r.wf(),
    {
        BitReader { data, pos: 0 }
    }

    /// Reads one bit.
    pub fn read_bit(&mut self) -> (r: Result<bool, NetworkError>)
        requires
            old(self).wf(),
        ensures
            final(self).data@ == old(self).data@,
            final(self).wf(),
            if old(self).pos < 8 * old(self).data@.len() {
                r matches Ok(b) && b == bit_at(old(self).data@, old(self).pos as int) && final(self).pos == old(self).pos + 1
            } else {
                r matches Err(e) && e == NetworkError::InsufficientBits(old(self).pos) && final(self).pos == old(self).pos
            },
    {
        if self.pos < 8 * self.data.len() {
            let byte = *vstd::slice::slice_index_get(self.data, self.pos / 8);
            let shift: u8 = (self.pos % 8) as u8;
            let b = byte & (1u8 << shift) != 0;
            self.pos = self.pos + 1;
            Ok(b)
        } else {
            Err(NetworkError::InsufficientBits(self.pos))
        }
    }

    /// Reads `n` bits as an unsigned value, least-significant bit first.
    pub fn read_bits(&mut self, n: usize) -> (r: Result<u32, NetworkError>)
        requires
            old(self).wf(),
            n <= 32,
        ensures
            final(self).data@ == old(self).data@,
            final(self).wf(),
            if old(self).pos + n <= 8 * old(self).data@.len() {
                r matches Ok(v) && v == bits_val(old(self).data@, old(self).pos as int, n as nat)
                    && v < pow2(n as nat) && final(self).pos == old(self).pos + n
            } else {
                r matches Err(e) && e matches NetworkError::InsufficientBits(_) && final(self).pos
                    >= old(self).pos
            },
    {
        let ghost data = self.data@;
        let ghost p0 = self.pos as int;
        let mut v: u64 = 0;
        let mut i: usize = 0;
        proof {
            lemma2_to64();
        }
        while i < n
            invariant
                self.wf(),
                self.data@ == data,
                data == old(self).data@,
                p0 == old(self).pos as int,
                i <= n,
                n <= 32,
                self.pos == p0 + i,
                v == bits_val(data, p0, i as nat) && v < pow2(i as nat),
                bits_val(data, p0, n as nat) == v + pow2(i as nat) * bits_val(
                    data,
                    p0 + i,
                    (n - i) as nat,
                ),
            decreases n - i,
        {
            let b = match self.read_bit() {
                Ok(b) => b,
                Err(e) => {
                    return Err(e);
                },
            };
            proof {
                lemma2_to64();
                lemma_pow2_unfold((i + 1) as nat);
                lemma_pow2_mono(i as nat, 31);
                lemma_pow2_split(data, p0, i as nat, (i + 1) as nat);
                assert(bits_val(data, p0 + i + 1, 0) == 0);
                assert(bits_val(data, p0 + i, 1) == (if bit_at(data, p0 + i) {
                    1int
                } else {
                    0int
                }));
                assert(bits_val(data, p0 + i, (n - i) as nat) == (if bit_at(data, p0 + i) {
                    1int
                } else {
                    0int
                }) + 2 * bits_val(data, p0 + i + 1, (n - i - 1) as nat));
                let bi: int = if bit_at(data, p0 + i) {
                    1
                } else {
                    0
                };
                let x = bits_val(data, p0 + i + 1, (n - i - 1) as nat);
                assert(pow2(i as nat) * (bi + 2 * x) == pow2(i as nat) * bi + pow2(
                    (i + 1) as nat,
                ) * x) by (nonlinear_arith)
                    requires
                        pow2((i + 1) as nat) == 2 * pow2(i as nat),
                ;
            }
            if b {
                v = v + pow2_u64(i);
            }
            proof {
                assert(bits_val(data, p0, (i + 1) as nat) == bits_val(data, p0, i as nat) + pow2(
                    i as nat,
                ) * bits_val(data, p0 + i, 1));
                assert(b == bit_at(data, p0 + i));
                if b {
                    assert(bits_val(data, p0 + i, 1) == 1);
                    assert(pow2(i as nat) * bits_val(data, p0 + i, 1) == pow2(i as nat))
                        by (nonlinear_arith)
                        requires
                            bits_val(data, p0 + i, 1) == 1,
                    ;
                } else {
                    assert(bits_val(data, p0 + i, 1) == 0);
                    assert(pow2(i as nat) * bits_val(data, p0 + i, 1) == 0) by (nonlinear_arith)
                        requires
                            bits_val(data, p0 + i, 1) == 0,
                    ;
                }
                assert(v == bits_val(data, p0, (i + 1) as nat));
                assert(v < pow2((i + 1) as nat));
                assert(bits_val(data, p0, n as nat) == v + pow2((i + 1) as nat) * bits_val(
                    data,
                    p0 + i + 1,
                    (n - i - 1) as nat,
                ));
            }
            i = i + 1;
        }
        proof {
            lemma_pow2_32();
            assert(bits_val(data, p0 + n, 0) == 0);
            lemma_bits_val_bound(data, p0, n as nat);
            lemma_pow2_mono(n as nat, 32);
        }
        Ok(v as u32)
    }

    /// Reads a byte.
    pub fn read_byte(&mut self) -> (r: Result<u8, NetworkError>)
        requires
            old(self).wf(),
        ensures
            final(self).data@ == old(self).data@,
            final(self).wf(),
            if old(self).pos + 8 <= 8 * old(self).data@.len() {
                r matches Ok(v) && v == bits_val(old(self).data@, old(self).pos as int, 8) && final(self).pos == old(self).pos + 8
            } else {
                r matches Err(e) && e matches NetworkError::InsufficientBits(_) && final(self).pos
                    >= old(self).pos
            },
    {
        let ghost data = self.data@;
        let ghost p0 = self.pos as int;
        let v = self.read_bits(8)?;
        proof {
            lemma_bits_val_bound(data, p0, 8);
            lemma2_to64();
        }
        Ok(v as u8)
    }

    /// Reads a 32-bit unsigned value.
    pub fn read_u32(&mut self) -> (r: Result<u32, NetworkError>)
        requires
            old(self).wf(),
        ensures
            final(self).data@ == old(self).data@,
            final(self).wf(),
            if old(self).pos + 32 <= 8 * old(self).data@.len() {
                r matches Ok(v) && v == bits_val(old(self).data@, old(self).pos as int, 32)
                    && final(self).pos == old(self).pos + 32
            } else {
                r matches Err(e) && e matches NetworkError::InsufficientBits(_) && final(self).pos
                    >= old(self).pos
            },
    {
        self.read_bits(32)
    }

    /// Reads a 64-bit unsigned value, low word first.
    pub fn read_u64(&mut self) -> (r: Result<u64, NetworkError>)
        requires
            old(self).wf(),
        ensures
            final(self).data@ == old(self).data@,
            final(self).wf(),
            old(self).pos <= final(self).pos,
            if old(self).pos + 64 <= 8 * old(self).data@.len() {
                r matches Ok(v) && v == bits_val(old(self).data@, old(self).pos as int, 32)
                    + 0x1_0000_0000 * bits_val(old(self).data@, old(self).pos + 32, 32) && final(self).pos == old(self).pos + 64
            } else {
                r matches Err(e) && e matches NetworkError::InsufficientBits(_)
            },
    {
        let lo = self.read_u32()?;
        let hi = self.read_u32()?;
        Ok((lo as u64) + 0x1_0000_0000u64 * (hi as u64))
    }

    /// Reads a 32-bit signed value.
    pub fn read_i32(&mut self) -> (r: Result<i32, NetworkError>)
        requires
            old(self).wf(),
        ensures
            final(self).data@ == old(self).data@,
            final(self).wf(),
            if old(self).pos + 32 <= 8 * old(self).data@.len() {
                r matches Ok(v) && v == crate::core_parser::to_signed32(
                    bits_val(old(self).data@, old(self).pos as int, 32),
                ) && final(self).pos == old(self).pos + 32
            } else {
                r matches Err(e) && e matches NetworkError::InsufficientBits(_) && final(self).pos
                    >= old(self).pos
            },
    {
        let ghost data = self.data@;
        let ghost p0 = self.pos as int;
        let v = self.read_bits(32)?;
        proof {
            lemma_bits_val_bound(data, p0, 32);
            lemma_pow2_32();
        }
        if v >= 0x8000_0000 {
            let d = 0xFFFF_FFFFu32 - v;
            Ok(-(d as i32) - 1)
        } else {
            Ok(v as i32)
        }
    }

    /// Reads the engine's variable-width integer bounded by `max`.
    pub fn serialized_int(&mut self, max: u32) -> (r: Result<u32, NetworkError>)
        requires
            old(self).wf(),
            1 <= max,
        ensures
            final(self).data@ == old(self).data@,
            final(self).wf(),
            old(self).pos <= final(self).pos,
            match r {
                Ok(v) => spec_ser_int(
                    old(self).data@,
                    old(self).pos as int,
                    0,
                    1,
                    max as int,
                    64,
                ) == Some((v as int, final(self).pos as int)) && v < max,
                Err(e) => spec_ser_int(old(self).data@, old(self).pos as int, 0, 1, max as int, 64)
                    is None && e matches NetworkError::InsufficientBits(_),
            },
    {
        let ghost data = self.data@;
        let ghost p0 = self.pos as int;
        let mut value: u64 = 0;
        let mut mask: u64 = 1;
        let ghost full = spec_ser_int(data, p0, 0, 1, max as int, 64);
        let mut i: usize = 0;
        proof {
            lemma2_to64();
        }
        while value + mask < max as u64
            invariant
                self.wf(),
                self.data@ == data,
                data == old(self).data@,
                p0 == old(self).pos as int,
                i <= 32,
                mask == pow2(i as nat),
                mask <= 0x1_0000_0000,
                value < max,
                p0 <= self.pos as int,
                full == spec_ser_int(data, p0, 0, 1, max as int, 64),
                full == spec_ser_int(
                    data,
                    self.pos as int,
                    value as int,
                    mask as int,
                    max as int,
                    (64 - i) as nat,
                ),
            decreases 32 - i,
        {
            proof {
                if i >= 32 {
                    lemma_pow2_mono(32, i as nat);
                    lemma_pow2_32();
                    assert(false);
                }
                lemma_pow2_mono(i as nat, 32);
                lemma_pow2_32();
            }
            let ghost vpre = value as int;
            let ghost mpre = mask as int;
            let ghost ppre = self.pos as int;
            let b = match self.read_bit() {
                Ok(b) => b,
                Err(e) => {
                    proof {
                        assert(spec_ser_int(data, ppre, vpre, mpre, max as int, (64 - i) as nat)
                            is None);
                    }
                    return Err(e);
                },
            };
            if b {
                value = value + mask;
            }
            mask = mask * 2;
            i = i + 1;
            proof {
                lemma_pow2_unfold(i as nat);
                lemma_pow2_mono(i as nat, 32);
                lemma_pow2_32();
                assert(spec_ser_int(data, ppre, vpre, mpre, max as int, (64 - (i - 1)) as nat)
                    == spec_ser_int(
                    data,
                    self.pos as int,
                    value as int,
                    mask as int,
                    max as int,
                    (64 - i) as nat,
                ));
            }
        }
        proof {
            assert(spec_ser_int(
                data,
                self.pos as int,
                value as int,
                mask as int,
                max as int,
                (64 - i) as nat,
            ) == Some((value as int, self.pos as int)));
        }
        Ok(value as u32)
    }
}

/// `pow2` fits a machine word for exponents up to 32.
pub proof fn lemma_pow2_32()
    ensures
        pow2(32) == 0x1_0000_0000,
{
    lemma2_to64();
}

/// `pow2` is monotone.
pub proof fn lemma_pow2_mono(a: nat, b: nat)
    requires
        a <= b,
    ensures
        pow2(a) <= pow2(b),
{
    if a < b {
        lemma_pow2_strictly_increases(a, b);
    }
}

/// Splitting a bit run after `i` bits: the value is the low part plus the
/// high part scaled by the weight of the split point.
pub proof fn lemma_pow2_split(data: Seq<u8>, pos: int, i: nat, n: nat)
    requires
        i < n,
    ensures
        bits_val(data, pos, n) == bits_val(data, pos, i) + pow2(i) * bits_val(
            data,
            pos + i,
            (n - i) as nat,
        ),
    decreases i,
{
    lemma2_to64();
    if i == 0 {
        assert(bits_val(data, pos, 0) == 0);
    } else {
        lemma_pow2_split(data, pos + 1, (i - 1) as nat, (n - 1) as nat);
        assert(bits_val(data, pos, n) == (if bit_at(data, pos) {
            1int
        } else {
            0int
        }) + 2 * bits_val(data, pos + 1, (n - 1) as nat));
        assert(bits_val(data, pos, i) == (if bit_at(data, pos) {
            1int
        } else {
            0int
        }) + 2 * bits_val(data, pos + 1, (i - 1) as nat));
        lemma_pow2_unfold(i);
        assert(2 * (pow2((i - 1) as nat) * bits_val(data, pos + i, (n - i) as nat)) == pow2(i)
            * bits_val(data, pos + i, (n - i) as nat)) by (nonlinear_arith)
            requires
                pow2(i) == 2 * pow2((i - 1) as nat),
        ;
    }
}

/// Computes a small power of two.
fn pow2_u64(n: usize) -> (r: u64)
    requires
        n < 63,
    ensures
        r == pow2(n as nat),
{
    let mut r: u64 = 1;
    let mut i: usize = 0;
    proof {
        lemma2_to64();
    }
    while i < n
        invariant
            i <= n,
            n < 63,
            r == pow2(i as nat),
            r <= 0x4000_0000_0000_0000,
        decreases n - i,
    {
        proof {
            lemma_pow2_mono((i + 1) as nat, 62 as nat);
            lemma_pow2_unfold((i + 1) as nat);
            lemma2_to64_rest();
        }
        r = r * 2;
        i = i + 1;
    }
    r
}

} // verus!

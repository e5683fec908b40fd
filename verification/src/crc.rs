//! The 32-bit checksum the game engine stamps on each replay section.
//!
//! The polynomial is the standard CRC-32 generator fed most-significant bit
//! first, but the initial value is the engine's own, and the running value is
//! complemented going in and coming out.

use vstd::prelude::*;

verus! {

/// One shift of the CRC register: multiply by x and reduce by the generator.
#[verifier::opaque]
pub open spec fn crc_step(c: u32) -> u32 {
    if c & 0x8000_0000 != 0 {
        (c << 1) ^ 0x04C1_1DB7
    } else {
        c << 1
    }
}

/// Folds one byte into the CRC register: eight register shifts after the
/// byte enters at the top.
pub open spec fn crc_push_byte(c: u32, b: u8) -> u32 {
    crc_step(
        crc_step(
            crc_step(
                crc_step(crc_step(crc_step(crc_step(crc_step(c ^ ((b as u32) << 24)))))),
            ),
        ),
    )
}

/// Folds a byte sequence into the CRC register, first byte first.
pub open spec fn crc_accum(s: Seq<u8>, c: u32) -> u32
    decreases s.len(),
{
    if s.len() == 0 {
        c
    } else {
        crc_accum(s.skip(1), crc_push_byte(c, s[0]))
    }
}

/// The checksum of a byte sequence: accumulate from the complemented seed
/// and complement the result.
pub open spec fn crc32(s: Seq<u8>) -> u32 {
    !crc_accum(s, !0xEFCB_F201u32)
}

/// Computes the checksum of a byte slice.
pub fn calc_crc(data: &[u8]) -> (r: u32)
    ensures
        r == crc32(data@),
{
    let mut c: u32 = !0xEFCB_F201u32;
    let n = data.len();
    let mut i: usize = 0;
    proof {
        assert(data@.skip(0) =~= data@);
    }
    while i < n
        invariant
            n == data@.len(),
            i <= n,
            crc_accum(data@.skip(i as int), c) == crc_accum(data@, !0xEFCB_F201u32),
        decreases n - i,
    {
        let ghost pre = c;
        let b = *vstd::slice::slice_index_get(data, i);
        c = c ^ ((b as u32) << 24);
        let mut k: usize = 0;
        while k < 8
            invariant
                k <= 8,
                crc_iter(pre ^ ((b as u32) << 24), k as nat) == c,
            decreases 8 - k,
        {
            proof {
                reveal(crc_step);
            }
            if c & 0x8000_0000 != 0 {
                c = (c << 1) ^ 0x04C1_1DB7;
            } else {
                c = c << 1;
            }
            k = k + 1;
        }
        proof {
            let x = pre ^ ((b as u32) << 24);
            assert(crc_iter(x, 0) == x);
            assert(crc_iter(x, 1) == crc_step(x));
            assert(crc_iter(x, 2) == crc_step(crc_iter(x, 1)));
            assert(crc_iter(x, 3) == crc_step(crc_iter(x, 2)));
            assert(crc_iter(x, 4) == crc_step(crc_iter(x, 3)));
            assert(crc_iter(x, 5) == crc_step(crc_iter(x, 4)));
            assert(crc_iter(x, 6) == crc_step(crc_iter(x, 5)));
            assert(crc_iter(x, 7) == crc_step(crc_iter(x, 6)));
            assert(crc_iter(x, 8) == crc_step(crc_iter(x, 7)));
            assert(c == crc_push_byte(pre, b));
            assert(data@.skip(i as int).skip(1) =~= data@.skip(i + 1));
            assert(crc_accum(data@.skip(i as int), pre) == crc_accum(data@.skip(i + 1), c));
        }
        i = i + 1;
    }
    proof {
        assert(data@.skip(n as int) =~= Seq::<u8>::empty());
    }
    !c
}

/// `k` register shifts applied to `c`.
pub open spec fn crc_iter(c: u32, k: nat) -> u32
    decreases k,
{
    if k == 0 {
        c
    } else {
        crc_step(crc_iter(c, (k - 1) as nat))
    }
}

/// Undoes one register shift; the generator's low bit makes the branch
/// taken recoverable from the result's parity.
pub open spec fn crc_unstep(v: u32) -> u32 {
    if v & 1 != 0 {
        ((v ^ 0x04C1_1DB7) >> 1) | 0x8000_0000
    } else {
        v >> 1
    }
}

/// `crc_unstep` inverts `crc_step`.
proof fn lemma_crc_unstep(c: u32)
    ensures
        crc_unstep(crc_step(c)) == c,
{
    reveal(crc_step);
    assert((if (if c & 0x8000_0000 != 0 {
        (c << 1) ^ 0x04C1_1DB7
    } else {
        c << 1
    }) & 1 != 0 {
        (((if c & 0x8000_0000 != 0 {
            (c << 1) ^ 0x04C1_1DB7
        } else {
            c << 1
        }) ^ 0x04C1_1DB7) >> 1) | 0x8000_0000
    } else {
        (if c & 0x8000_0000 != 0 {
            (c << 1) ^ 0x04C1_1DB7
        } else {
            c << 1
        }) >> 1
    }) == c) by (bit_vector);
}

/// One register shift is injective: distinct states stay distinct.
proof fn lemma_crc_step_injective(c1: u32, c2: u32)
    requires
        crc_step(c1) == crc_step(c2),
    ensures
        c1 == c2,
{
    lemma_crc_unstep(c1);
    lemma_crc_unstep(c2);
}

/// Folding a byte is injective in the register state.
proof fn lemma_crc_push_injective_state(c1: u32, c2: u32, b: u8)
    requires
        crc_push_byte(c1, b) == crc_push_byte(c2, b),
    ensures
        c1 == c2,
{
    let x1 = c1 ^ ((b as u32) << 24);
    let x2 = c2 ^ ((b as u32) << 24);
    lemma_crc_step_injective(
        crc_step(crc_step(crc_step(crc_step(crc_step(crc_step(crc_step(x1))))))),
        crc_step(crc_step(crc_step(crc_step(crc_step(crc_step(crc_step(x2))))))),
    );
    lemma_crc_step_injective(
        crc_step(crc_step(crc_step(crc_step(crc_step(crc_step(x1)))))),
        crc_step(crc_step(crc_step(crc_step(crc_step(crc_step(x2)))))),
    );
    lemma_crc_step_injective(
        crc_step(crc_step(crc_step(crc_step(crc_step(x1))))),
        crc_step(crc_step(crc_step(crc_step(crc_step(x2))))),
    );
    lemma_crc_step_injective(
        crc_step(crc_step(crc_step(crc_step(x1)))),
        crc_step(crc_step(crc_step(crc_step(x2)))),
    );
    lemma_crc_step_injective(
        crc_step(crc_step(crc_step(x1))),
        crc_step(crc_step(crc_step(x2))),
    );
    lemma_crc_step_injective(crc_step(crc_step(x1)), crc_step(crc_step(x2)));
    lemma_crc_step_injective(crc_step(x1), crc_step(x2));
    lemma_crc_step_injective(x1, x2);
    assert(c1 ^ ((b as u32) << 24) == c2 ^ ((b as u32) << 24) ==> c1 == c2) by (bit_vector);
}

/// Folding a byte is injective in the byte.
proof fn lemma_crc_push_injective_byte(c: u32, b1: u8, b2: u8)
    requires
        crc_push_byte(c, b1) == crc_push_byte(c, b2),
    ensures
        b1 == b2,
{
    let x1 = c ^ ((b1 as u32) << 24);
    let x2 = c ^ ((b2 as u32) << 24);
    lemma_crc_step_injective(
        crc_step(crc_step(crc_step(crc_step(crc_step(crc_step(crc_step(x1))))))),
        crc_step(crc_step(crc_step(crc_step(crc_step(crc_step(crc_step(x2))))))),
    );
    lemma_crc_step_injective(
        crc_step(crc_step(crc_step(crc_step(crc_step(crc_step(x1)))))),
        crc_step(crc_step(crc_step(crc_step(crc_step(crc_step(x2)))))),
    );
    lemma_crc_step_injective(
        crc_step(crc_step(crc_step(crc_step(crc_step(x1))))),
        crc_step(crc_step(crc_step(crc_step(crc_step(x2))))),
    );
    lemma_crc_step_injective(
        crc_step(crc_step(crc_step(crc_step(x1)))),
        crc_step(crc_step(crc_step(crc_step(x2)))),
    );
    lemma_crc_step_injective(
        crc_step(crc_step(crc_step(x1))),
        crc_step(crc_step(crc_step(x2))),
    );
    lemma_crc_step_injective(crc_step(crc_step(x1)), crc_step(crc_step(x2)));
    lemma_crc_step_injective(crc_step(x1), crc_step(x2));
    lemma_crc_step_injective(x1, x2);
    assert(c ^ ((b1 as u32) << 24) == c ^ ((b2 as u32) << 24) ==> b1 == b2) by (bit_vector);
}

/// Accumulating the same bytes from distinct states keeps them distinct.
proof fn lemma_crc_accum_injective_state(s: Seq<u8>, c1: u32, c2: u32)
    requires
        c1 != c2,
    ensures
        crc_accum(s, c1) != crc_accum(s, c2),
    decreases s.len(),
{
    if s.len() > 0 {
        if crc_push_byte(c1, s[0]) == crc_push_byte(c2, s[0]) {
            lemma_crc_push_injective_state(c1, c2, s[0]);
            assert(false);
        }
        lemma_crc_accum_injective_state(s.skip(1), crc_push_byte(c1, s[0]), crc_push_byte(c2, s[0]));
    }
}

/// Changing exactly one byte of a section changes its checksum: an
/// alteration of a single body byte is always caught when the checksum is
/// verified, so a replay flipped in one byte either fails structured
/// decoding or fails the Always CRC policy.
pub proof fn lemma_crc_detects_single_flip(s1: Seq<u8>, s2: Seq<u8>, k: int)
    requires
        s1.len() == s2.len(),
        0 <= k < s1.len(),
        s1[k] != s2[k],
        forall|j: int| 0 <= j < s1.len() && j != k ==> s1[j] == s2[j],
    ensures
        crc32(s1) != crc32(s2),
    decreases s1.len(),
{
    lemma_crc_flip_accum(s1, s2, k, !0xEFCB_F201u32);
    lemma_complement_injective(
        crc_accum(s1, !0xEFCB_F201u32),
        crc_accum(s2, !0xEFCB_F201u32),
    );
}

/// Complementing distinct words keeps them distinct.
proof fn lemma_complement_injective(a: u32, b: u32)
    requires
        a != b,
    ensures
        !a != !b,
{
    assert(a != b ==> !a != !b) by (bit_vector);
}

/// Accumulating two byte runs that differ in exactly one position from the
/// same state yields distinct results.
proof fn lemma_crc_flip_accum(s1: Seq<u8>, s2: Seq<u8>, k: int, c: u32)
    requires
        s1.len() == s2.len(),
        0 <= k < s1.len(),
        s1[k] != s2[k],
        forall|j: int| 0 <= j < s1.len() && j != k ==> s1[j] == s2[j],
    ensures
        crc_accum(s1, c) != crc_accum(s2, c),
    decreases s1.len(),
{
    if k == 0 {
        if crc_push_byte(c, s1[0]) == crc_push_byte(c, s2[0]) {
            lemma_crc_push_injective_byte(c, s1[0], s2[0]);
            assert(false);
        }
        assert(s1.skip(1) =~= s2.skip(1));
        lemma_crc_accum_injective_state(
            s1.skip(1),
            crc_push_byte(c, s1[0]),
            crc_push_byte(c, s2[0]),
        );
    } else {
        assert(s1[0] == s2[0]);
        assert(s1.skip(1)[k - 1] != s2.skip(1)[k - 1]);
        assert(forall|j: int|
            0 <= j < s1.skip(1).len() && j != k - 1 ==> s1.skip(1)[j] == s2.skip(1)[j]);
        lemma_crc_flip_accum(s1.skip(1), s2.skip(1), k - 1, crc_push_byte(c, s1[0]));
    }
}

} // verus!

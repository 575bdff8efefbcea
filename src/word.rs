//! 16-bit word arithmetic: modular addition, sign extension and the condition
//! flags derived from a word.

use vstd::prelude::*;

verus! {

/// The condition flag POS, as stored in COND.
pub const FLAG_POS: u16 = 1;

/// The condition flag ZRO, as stored in COND.
pub const FLAG_ZRO: u16 = 2;

/// The condition flag NEG, as stored in COND.
pub const FLAG_NEG: u16 = 4;

/// Addition modulo 2^16.
pub open spec fn add16(a: u16, b: u16) -> u16 {
    ((a + b) % 0x10000) as u16
}

/// The sign extension of the `n`-bit field `v` to 16 bits: `v` when bit `n - 1`
/// is clear, else `v` with every bit from `n` upwards set.
pub open spec fn sext(v: u16, n: u16) -> u16 {
    if (v >> ((n - 1) as u16)) & 1 == 0 {
        v
    } else {
        v | (0xFFFFu16 << n)
    }
}

/// The two's-complement value of the `n`-bit field `v`.
pub open spec fn signed_field(v: u16, n: u16) -> int {
    if (v as int) < pow2_16(n - 1) {
        v as int
    } else {
        v as int - pow2_16(n as int)
    }
}

/// 2 to the power `k`, for the small exponents of a 16-bit word.
pub open spec fn pow2_16(k: int) -> int
    decreases k,
{
    if k <= 0 {
        1
    } else {
        2 * pow2_16(k - 1)
    }
}

/// The condition flag that a newly written word sets: ZRO for zero, NEG when
/// bit 15 is set, POS otherwise.
pub open spec fn flag_of(w: u16) -> u16 {
    if w == 0 {
        FLAG_ZRO
    } else if w >= 0x8000 {
        FLAG_NEG
    } else {
        FLAG_POS
    }
}

/// Whether `c` holds exactly one of the flags POS, ZRO and NEG.
pub open spec fn is_flag(c: u16) -> bool {
    c == FLAG_POS || c == FLAG_ZRO || c == FLAG_NEG
}

/// One of the three condition flags.
#[derive(Debug, Copy, Clone, PartialEq, Eq, Structural)]
pub enum FlagBit {
    POS,
    ZRO,
    NEG,
}

impl FlagBit {
    /// The bit of COND that stands for this flag.
    pub open spec fn spec_value(self) -> u16 {
        match self {
            FlagBit::POS => FLAG_POS,
            FlagBit::ZRO => FLAG_ZRO,
            FlagBit::NEG => FLAG_NEG,
        }
    }

    /// The bit of COND that stands for this flag.
    pub fn value(self) -> (r: u16)
        ensures
            r == self.spec_value(),
    {
        match self {
            FlagBit::POS => FLAG_POS,
            FlagBit::ZRO => FLAG_ZRO,
            FlagBit::NEG => FLAG_NEG,
        }
    }

    /// The flag that a newly written word sets.
    pub fn of_word(w: u16) -> (r: FlagBit)
        ensures
            r.spec_value() == flag_of(w),
    {
        if w == 0 {
            FlagBit::ZRO
        } else if (w >> 15u16) != 0 {
            assert((w >> 15u16) != 0 <==> w >= 0x8000) by (bit_vector);
            FlagBit::NEG
        } else {
            assert((w >> 15u16) != 0 <==> w >= 0x8000) by (bit_vector);
            FlagBit::POS
        }
    }
}

/// Addition modulo 2^16.
pub fn add_mod_u16(a: u16, b: u16) -> (r: u16)
    ensures
        r == add16(a, b),
{
    ((a as u32 + b as u32) % 0x10000) as u16
}

/// Sign-extends the field held in the low `bit_count` bits of `x`.
pub fn sign_extend(x: u16, bit_count: u16) -> (r: u16)
    requires
        1 <= bit_count <= 15,
    ensures
        r == sext(x, bit_count),
{
    if (x >> (bit_count - 1)) & 1 == 0 {
        x
    } else {
        x | (0xFFFFu16 << bit_count)
    }
}

/// Every flag that a word sets is one of POS, ZRO and NEG, and it agrees with
/// the two's-complement reading of the word: ZRO exactly for zero, NEG exactly
/// for a negative word.
pub proof fn lemma_flag_of_word(w: u16)
    ensures
        is_flag(flag_of(w)),
        (flag_of(w) == FLAG_ZRO) <==> (w == 0),
        (flag_of(w) == FLAG_NEG) <==> ((w as int) >= 0x8000),
        (flag_of(w) == FLAG_POS) <==> (0 < (w as int) < 0x8000),
{
}

/// A sign-extended field of 5, 6, 9 or 11 bits, read as a 16-bit word, is
/// the field's two's-complement value modulo 2^16: adding it modulo 2^16
/// adds the signed offset.
pub proof fn lemma_sext_signed(v: u16, n: u16)
    requires
        n == 5 || n == 6 || n == 9 || n == 11,
        (v as int) < pow2_16(n as int),
    ensures
        sext(v, n) as int == (signed_field(v, n) + 0x10000) % 0x10000,
        forall|a: u16| #[trigger] add16(a, sext(v, n)) as int == (a as int + signed_field(v, n)) % 0x10000,
{
    reveal_with_fuel(pow2_16, 12);
    if n == 5 {
        assert(v < 32u16 ==> (((v >> 4u16) & 1u16 == 0u16) <==> v < 16u16)) by (bit_vector);
        assert(v < 32u16 ==> (v | (0xFFFFu16 << 5u16)) == v + 0xFFE0u16) by (bit_vector);
    } else if n == 6 {
        assert(v < 64u16 ==> (((v >> 5u16) & 1u16 == 0u16) <==> v < 32u16)) by (bit_vector);
        assert(v < 64u16 ==> (v | (0xFFFFu16 << 6u16)) == v + 0xFFC0u16) by (bit_vector);
    } else if n == 9 {
        assert(v < 512u16 ==> (((v >> 8u16) & 1u16 == 0u16) <==> v < 256u16)) by (bit_vector);
        assert(v < 512u16 ==> (v | (0xFFFFu16 << 9u16)) == v + 0xFE00u16) by (bit_vector);
    } else {
        assert(v < 2048u16 ==> (((v >> 10u16) & 1u16 == 0u16) <==> v < 1024u16)) by (bit_vector);
        assert(v < 2048u16 ==> (v | (0xFFFFu16 << 11u16)) == v + 0xF800u16) by (bit_vector);
    }
}

} // verus!

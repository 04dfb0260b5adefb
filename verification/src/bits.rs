//! The bit-field extractor: an unsigned value of up to sixteen bits read
//! most significant bit first from anywhere in a byte run.

use vstd::arithmetic::div_mod::{
    lemma_breakdown, lemma_div_denominator, lemma_fundamental_div_mod,
    lemma_fundamental_div_mod_converse_div, lemma_fundamental_div_mod_converse_mod,
    lemma_hoist_over_denominator,
    lemma_mod_multiples_vanish,
};
use vstd::arithmetic::power2::{
    lemma2_to64, lemma_pow2_adds, lemma_pow2_pos, lemma_pow2_unfold, pow2,
};
use vstd::bits::{
    lemma_u32_low_bits_mask_is_mod, lemma_u32_shl_is_mul, lemma_u32_shr_is_div, low_bits_mask,
};
use vstd::prelude::*;

verus! {

/// The widest field the extractor reads.
pub const MAX_FIELD_WIDTH: usize = 16;

/// `x` without its `n` lowest bits: `x` divided by two to the power `n`,
/// rounded down. Written out for the shifts that occur inside a window of
/// three bytes, so that every divisor is a literal; 0 for a larger shift,
/// which leaves nothing of a 24-bit number.
pub open spec fn drop_low_bits(x: nat, n: nat) -> nat {
    if n == 0 {
        x
    } else if n == 1 {
        x / 0x2
    } else if n == 2 {
        x / 0x4
    } else if n == 3 {
        x / 0x8
    } else if n == 4 {
        x / 0x10
    } else if n == 5 {
        x / 0x20
    } else if n == 6 {
        x / 0x40
    } else if n == 7 {
        x / 0x80
    } else if n == 8 {
        x / 0x100
    } else if n == 9 {
        x / 0x200
    } else if n == 10 {
        x / 0x400
    } else if n == 11 {
        x / 0x800
    } else if n == 12 {
        x / 0x1000
    } else if n == 13 {
        x / 0x2000
    } else if n == 14 {
        x / 0x4000
    } else if n == 15 {
        x / 0x8000
    } else if n == 16 {
        x / 0x1_0000
    } else if n == 17 {
        x / 0x2_0000
    } else if n == 18 {
        x / 0x4_0000
    } else if n == 19 {
        x / 0x8_0000
    } else if n == 20 {
        x / 0x10_0000
    } else if n == 21 {
        x / 0x20_0000
    } else if n == 22 {
        x / 0x40_0000
    } else if n == 23 {
        x / 0x80_0000
    } else if n == 24 {
        x / 0x100_0000
    } else {
        0
    }
}

/// The `n` lowest bits of `x`: the remainder of `x` by two to the power
/// `n`. Written out for the widths up to sixteen, so that every divisor is a
/// literal; `x` itself for a larger width.
pub open spec fn low_bits(x: nat, n: nat) -> nat {
    if n == 0 {
        0
    } else if n == 1 {
        x % 0x2
    } else if n == 2 {
        x % 0x4
    } else if n == 3 {
        x % 0x8
    } else if n == 4 {
        x % 0x10
    } else if n == 5 {
        x % 0x20
    } else if n == 6 {
        x % 0x40
    } else if n == 7 {
        x % 0x80
    } else if n == 8 {
        x % 0x100
    } else if n == 9 {
        x % 0x200
    } else if n == 10 {
        x % 0x400
    } else if n == 11 {
        x % 0x800
    } else if n == 12 {
        x % 0x1000
    } else if n == 13 {
        x % 0x2000
    } else if n == 14 {
        x % 0x4000
    } else if n == 15 {
        x % 0x8000
    } else if n == 16 {
        x % 0x1_0000
    } else {
        x
    }
}

/// The byte at index `i`, or 0 past the end of the run.
pub open spec fn byte_or_zero(bytes: Seq<u8>, i: int) -> nat {
    if 0 <= i < bytes.len() {
        bytes[i] as nat
    } else {
        0
    }
}

/// The 24-bit big-endian number held by the three bytes from index `first`
/// on; bytes past the end of the run count as 0.
pub open spec fn window(bytes: Seq<u8>, first: int) -> nat {
    byte_or_zero(bytes, first) * 0x1_0000 + byte_or_zero(bytes, first + 1) * 0x100
        + byte_or_zero(bytes, first + 2)
}

/// The unsigned number formed by the `width` bits that start `offset` bits
/// into `bytes`, read most significant bit first. Bit 0 is the top bit of
/// byte 0.
///
/// A field of at most sixteen bits touches at most three bytes, so the value
/// is cut out of the three-byte window that starts at the byte holding the
/// field's first bit: the bits to the right of the field are dropped, and of
/// what is left the lowest `width` bits are the field.
pub open spec fn bit_field(bytes: Seq<u8>, offset: nat, width: nat) -> nat
    recommends
        width <= MAX_FIELD_WIDTH,
        offset + width <= 8 * bytes.len(),
{
    let right = (24 - offset % 8 - width) as nat;
    low_bits(drop_low_bits(window(bytes, offset as int / 8), right), width)
}

/// The field of `bits` bits at bit offset `at` of a byte run, with offset
/// and width written as the decoders hold them.
pub open spec fn field(bytes: Seq<u8>, at: usize, bits: usize) -> nat {
    bit_field(bytes, at as nat, bits as nat)
}

/// Whether the single bit at bit offset `at` of a byte run is set.
pub open spec fn flag(bytes: Seq<u8>, at: usize) -> bool {
    bit_field(bytes, at as nat, 1) == 1
}

/// The bit at position `index` of a byte run, counted from the most
/// significant bit of byte 0: position 0 is worth 128 in byte 0, position 7
/// is worth 1 in it, position 8 is worth 128 in byte 1.
pub open spec fn bit_at(bytes: Seq<u8>, index: nat) -> nat {
    low_bits(drop_low_bits(byte_or_zero(bytes, index as int / 8), (7 - index % 8) as nat), 1)
}

/// Reads the `width` bits that start `offset` bits into `bytes` as an
/// unsigned number, most significant bit first. The field may cross byte
/// boundaries.
pub fn extract_bits(bytes: &[u8], offset: usize, width: usize) -> (value: u16)
    requires
        width <= MAX_FIELD_WIDTH,
        offset + width <= 8 * bytes@.len(),
    ensures
        value as nat == bit_field(bytes@, offset as nat, width as nat),
{
    let first: usize = offset / 8;
    let skip: usize = offset % 8;
    let b0: u32 = if first < bytes.len() { bytes[first] as u32 } else { 0 };
    let b1: u32 = if first + 1 < bytes.len() { bytes[first + 1] as u32 } else { 0 };
    let b2: u32 = if first + 2 < bytes.len() { bytes[first + 2] as u32 } else { 0 };
    let word: u32 = (b0 << 16) | (b1 << 8) | b2;
    let right: u32 = (24 - skip - width) as u32;
    let wide: u32 = width as u32;
    proof {
        lemma2_to64();
        lemma_u32_shl_is_mul(1, wide);
    }
    let mask: u32 = (1u32 << wide) - 1;
    let field: u32 = (word >> right) & mask;
    proof {
        assert(word == b0 * 0x1_0000 + b1 * 0x100 + b2) by (bit_vector)
            requires
                word == (b0 << 16) | (b1 << 8) | b2,
                b0 < 0x100,
                b1 < 0x100,
                b2 < 0x100,
        ;
        assert(word as nat == window(bytes@, first as int));
        lemma_u32_shr_is_div(word, right);
        lemma_bits_are_powers_of_two(word as nat, right as nat);
        lemma_u32_low_bits_mask_is_mod(word >> right, wide as nat);
        lemma_bits_are_powers_of_two((word >> right) as nat, wide as nat);
        assert(mask == low_bits_mask(wide as nat));
    }
    field as u16
}

/// Reads the single bit at bit offset `at` of `bytes`.
pub fn extract_flag(bytes: &[u8], at: usize) -> (set: bool)
    requires
        at < 8 * bytes@.len(),
    ensures
        set == flag(bytes@, at),
{
    extract_bits(bytes, at, 1) == 1
}

/// Dropping `n` low bits divides by the `n`-th power of two, and keeping
/// `n` low bits is the remainder by it.
pub proof fn lemma_bits_are_powers_of_two(x: nat, n: nat)
    ensures
        n <= 24 ==> drop_low_bits(x, n) == x / pow2(n),
        n <= 16 ==> low_bits(x, n) == x % pow2(n),
    decreases n,
{
    lemma2_to64();
    if n == 0 {
        let one = pow2(0);
        assert(x / one == x);
    } else if n <= 24 {
        let fewer = (n - 1) as nat;
        let half = pow2(fewer);
        let whole = pow2(n);
        lemma_bits_are_powers_of_two(x, fewer);
        assert(drop_low_bits(x, n) == drop_low_bits(x, fewer) / 2);
        lemma_pow2_unfold(n);
        lemma_pow2_pos(fewer);
        lemma_div_denominator(x as int, half as int, 2);
        assert(whole == half * 2);
        assert(x / whole == (x / half) / 2);
    }
    if n <= 16 {
        let divisor = pow2(n);
        assert(low_bits(x, n) == x % divisor);
    }
}

/// A field of `width` bits is below two to the power `width`.
pub proof fn lemma_bit_field_bound(bytes: Seq<u8>, offset: nat, width: nat)
    requires
        width <= MAX_FIELD_WIDTH,
    ensures
        bit_field(bytes, offset, width) < pow2(width),
{
    lemma2_to64();
}

/// A field of one bit is the bit at its offset.
pub proof fn lemma_bit_field_of_one_bit(bytes: Seq<u8>, index: nat)
    requires
        index < 8 * bytes.len(),
    ensures
        bit_field(bytes, index, 1) == bit_at(bytes, index),
{
    let first = index as int / 8;
    let skip = index % 8;
    let high = byte_or_zero(bytes, first);
    let low = byte_or_zero(bytes, first + 1) * 0x100 + byte_or_zero(bytes, first + 2);
    let keep = (7 - skip) as nat;
    lemma2_to64();
    lemma_bits_are_powers_of_two(window(bytes, first), 16 + keep);
    lemma_bits_are_powers_of_two(high, keep);
    lemma_pow2_adds(16, keep);
    lemma_pow2_pos(keep);
    lemma_div_denominator(window(bytes, first) as int, pow2(16) as int, pow2(keep) as int);
    assert(window(bytes, first) == high * 0x1_0000 + low);
    assert(window(bytes, first) / pow2(16) == high);
}

/// The bits of a number that lie below bit `m` look the same, from bit `r`
/// up to bit `r + k <= m`, as those of the whole number.
proof fn lemma_low_part_keeps_low_bits(x: nat, m: nat, r: nat, k: nat)
    requires
        r + k <= m,
    ensures
        ((x % pow2(m)) / pow2(r)) % pow2(k) == (x / pow2(r)) % pow2(k),
{
    let whole = pow2(m) as int;
    let below = pow2(r) as int;
    let kept = pow2(k) as int;
    let above = pow2((m - r - k) as nat) as int;
    let quotient = x as int / whole;
    let low = x as int % whole;
    lemma_pow2_pos(m);
    lemma_pow2_pos(r);
    lemma_pow2_pos(k);
    lemma_pow2_adds(r, (m - r) as nat);
    lemma_pow2_adds(k, (m - r - k) as nat);
    assert(whole == below * (kept * above));
    lemma_fundamental_div_mod(x as int, whole);
    assert(x == low + (kept * above * quotient) * below) by (nonlinear_arith)
        requires
            x == whole * quotient + low,
            whole == below * (kept * above),
    ;
    lemma_hoist_over_denominator(low, kept * above * quotient, below as nat);
    assert(x as int / below == low / below + kept * (above * quotient)) by (nonlinear_arith)
        requires
            low / below + kept * above * quotient == (low + (kept * above * quotient) * below)
                / below,
            x == low + (kept * above * quotient) * below,
    ;
    lemma_mod_multiples_vanish(above * quotient, low / below, kept);
}

/// The window that starts `moved` bytes further on holds, above the bytes
/// that are new in it, the low bytes of the window before.
proof fn lemma_window_moves(bytes: Seq<u8>, first: int, moved: nat)
    requires
        moved <= 2,
    ensures
        window(bytes, first + moved) / pow2(8 * moved) == window(bytes, first) % pow2(
            (24 - 8 * moved) as nat,
        ),
{
    let b0 = byte_or_zero(bytes, first) as int;
    let b1 = byte_or_zero(bytes, first + 1) as int;
    let b2 = byte_or_zero(bytes, first + 2) as int;
    let b3 = byte_or_zero(bytes, first + 3) as int;
    let b4 = byte_or_zero(bytes, first + 4) as int;
    let word = window(bytes, first) as int;
    let next = window(bytes, first + moved) as int;
    let up = pow2(8 * moved) as int;
    let down = pow2((24 - 8 * moved) as nat) as int;
    lemma2_to64();
    if moved == 0 {
        assert(up == 1 && down == 0x100_0000);
        lemma_fundamental_div_mod_converse_div(next, up, next, 0);
        lemma_fundamental_div_mod_converse_mod(word, down, 0, word);
    } else if moved == 1 {
        assert(up == 0x100 && down == 0x1_0000);
        let shared = b1 * 0x100 + b2;
        lemma_fundamental_div_mod_converse_div(next, up, shared, b3);
        lemma_fundamental_div_mod_converse_mod(word, down, b0, shared);
    } else {
        assert(up == 0x1_0000 && down == 0x100);
        lemma_fundamental_div_mod_converse_div(next, up, b2, b3 * 0x100 + b4);
        lemma_fundamental_div_mod_converse_mod(word, down, b0 * 0x100 + b1, b2);
    }
}

/// Reading is most significant bit first: a field of `left + right` bits
/// is the field of its first `left` bits, moved up by `right` binary
/// places, plus the field of its last `right` bits. Together with
/// `lemma_bit_field_of_one_bit` this fixes the value of every field, bit by
/// bit.
pub proof fn lemma_bit_field_split(bytes: Seq<u8>, offset: nat, left: nat, right: nat)
    requires
        left + right <= MAX_FIELD_WIDTH,
        offset + left + right <= 8 * bytes.len(),
    ensures
        bit_field(bytes, offset, left + right) == bit_field(bytes, offset, left) * pow2(right)
            + bit_field(bytes, offset + left, right),
{
    let first = offset as int / 8;
    let skip = offset % 8;
    let moved = (skip + left) / 8;
    let after = (24 - skip - left - right) as nat;
    let word = window(bytes, first);
    let next = window(bytes, first + moved);
    lemma2_to64();
    // The three fields as quotients and remainders by powers of two.
    lemma_bits_are_powers_of_two(word, after);
    lemma_bits_are_powers_of_two(word / pow2(after), left + right);
    lemma_bits_are_powers_of_two(word, after + right);
    lemma_bits_are_powers_of_two(word / pow2(after + right), left);
    lemma_bits_are_powers_of_two(next, after + 8 * moved);
    lemma_bits_are_powers_of_two(next / pow2(after + 8 * moved), right);
    assert((offset + left) as int / 8 == first + moved);
    assert((offset + left) % 8 == skip + left - 8 * moved);
    assert(bit_field(bytes, offset, left + right) == (word / pow2(after)) % pow2(left + right));
    assert(bit_field(bytes, offset, left) == (word / pow2(after + right)) % pow2(left));
    assert(bit_field(bytes, offset + left, right) == (next / pow2(after + 8 * moved)) % pow2(
        right,
    ));
    // The last field, read from the window it starts in, is the same bits
    // of the first window.
    lemma_pow2_pos(after);
    lemma_pow2_pos(right);
    lemma_pow2_pos(left);
    lemma_pow2_pos(8 * moved);
    lemma_pow2_adds(8 * moved, after);
    lemma_div_denominator(next as int, pow2(8 * moved) as int, pow2(after) as int);
    lemma_window_moves(bytes, first, moved);
    lemma_low_part_keeps_low_bits(word, (24 - 8 * moved) as nat, after, right);
    assert(bit_field(bytes, offset + left, right) == (word / pow2(after)) % pow2(right));
    // The whole field breaks down into its two parts.
    let kept = (word / pow2(after)) as int;
    let low = pow2(right) as int;
    let high = pow2(left) as int;
    lemma_pow2_adds(right, left);
    lemma_pow2_adds(after, right);
    lemma_breakdown(kept, low, high);
    lemma_div_denominator(word as int, pow2(after) as int, low);
    assert(pow2(left + right) == low * high);
    assert(kept % (pow2(left + right) as int) == kept % (low * high));
    assert(pow2(after + right) == pow2(after) * low);
    assert(kept / low == word as int / (pow2(after + right) as int));
    assert(kept % (low * high) == low * ((kept / low) % high) + kept % low);
    assert(bit_field(bytes, offset, left) * pow2(right) == low * ((kept / low) % high))
        by (nonlinear_arith)
        requires
            bit_field(bytes, offset, left) == (kept / low) % high,
            pow2(right) == low,
    ;
}

/// What lies below the `k` lowest bits of a number does not reach what is
/// left after `n >= k` bits are dropped.
proof fn lemma_drop_ignores_low_part(high: nat, low_a: nat, low_b: nat, k: nat, n: nat)
    requires
        k <= n <= 24,
        low_a < pow2(k),
        low_b < pow2(k),
    ensures
        drop_low_bits(high * pow2(k) + low_a, n) == drop_low_bits(high * pow2(k) + low_b, n),
{
    let a = high * pow2(k) + low_a;
    let b = high * pow2(k) + low_b;
    let rest = (n - k) as nat;
    lemma_bits_are_powers_of_two(a, n);
    lemma_bits_are_powers_of_two(b, n);
    lemma_pow2_adds(k, rest);
    lemma_pow2_pos(k);
    lemma_pow2_pos(rest);
    lemma_div_denominator(a as int, pow2(k) as int, pow2(rest) as int);
    lemma_div_denominator(b as int, pow2(k) as int, pow2(rest) as int);
    lemma_fundamental_div_mod_converse_div(a as int, pow2(k) as int, high as int, low_a as int);
    lemma_fundamental_div_mod_converse_div(b as int, pow2(k) as int, high as int, low_b as int);
}

/// A field depends on the bytes it lies in and on no others: byte runs
/// that agree from the byte holding the field's first bit to the byte
/// holding its last bit carry the same field.
pub proof fn lemma_bit_field_is_local(a: Seq<u8>, b: Seq<u8>, offset: nat, width: nat)
    requires
        width <= MAX_FIELD_WIDTH,
        offset + width <= 8 * a.len(),
        offset + width <= 8 * b.len(),
        forall|i: int| offset / 8 <= i && 8 * i < offset + width ==> a[i] == b[i],
    ensures
        bit_field(a, offset, width) == bit_field(b, offset, width),
{
    let first = offset as int / 8;
    let skip = offset % 8;
    let right = (24 - skip - width) as nat;
    lemma2_to64();
    if width == 0 {
    } else if skip + width > 16 {
        assert(a[first] == b[first]);
        assert(a[first + 1] == b[first + 1]);
        assert(a[first + 2] == b[first + 2]);
    } else if skip + width > 8 {
        assert(a[first] == b[first]);
        assert(a[first + 1] == b[first + 1]);
        let high = byte_or_zero(a, first) * 0x100 + byte_or_zero(a, first + 1);
        assert(window(a, first) == high * pow2(8) + byte_or_zero(a, first + 2));
        assert(window(b, first) == high * pow2(8) + byte_or_zero(b, first + 2));
        lemma_drop_ignores_low_part(
            high,
            byte_or_zero(a, first + 2),
            byte_or_zero(b, first + 2),
            8,
            right,
        );
    } else {
        assert(a[first] == b[first]);
        let high = byte_or_zero(a, first);
        let low_a = byte_or_zero(a, first + 1) * 0x100 + byte_or_zero(a, first + 2);
        let low_b = byte_or_zero(b, first + 1) * 0x100 + byte_or_zero(b, first + 2);
        assert(window(a, first) == high * pow2(16) + low_a);
        assert(window(b, first) == high * pow2(16) + low_b);
        lemma_drop_ignores_low_part(high, low_a, low_b, 16, right);
    }
}

} // verus!

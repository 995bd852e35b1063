use vstd::prelude::*;

verus! {

/// The 32-bit word of entropy drawn from a tick count and the UTC time.
pub open spec fn spec_entropy_word(ticks: u32, utc: u32) -> u32 {
    ticks.wrapping_mul(utc ^ 0xDEADBEEF)
}

/// Byte `k` of a word, low byte first.
pub open spec fn le_byte(word: u32, k: int) -> u8 {
    ((word as int / pow256(k)) % 256) as u8
}

/// 256 to the power `k`.
pub open spec fn pow256(k: int) -> int
    decreases k,
{
    if k <= 0 {
        1
    } else {
        256 * pow256(k - 1)
    }
}

/// One step of filling `dest` with entropy: from `pos` on, up to four bytes
/// (fewer at the end) of the word drawn from `ticks` and `utc`, low byte
/// first. Returns the position after them.
pub fn mre_custom_entropy(dest: &mut [u8], pos: usize, ticks: u32, utc: u32) -> (next: usize)
    requires
        pos < old(dest)@.len(),
    ensures
        final(dest)@.len() == old(dest)@.len(),
        next == pos + (if old(dest)@.len() - pos < 4 { old(dest)@.len() - pos } else { 4 }),
        forall|i: int| 0 <= i < pos || next <= i < old(dest)@.len() ==> final(dest)@[i] == old(dest)@[i],
        forall|i: int| pos <= i < next ==> final(dest)@[i] == le_byte(spec_entropy_word(ticks, utc), i - pos),
{
    let entropy = ticks.wrapping_mul(utc ^ 0xDEADBEEF);
    let remaining = dest.len() - pos;
    let take = if remaining < 4 { remaining } else { 4 };
    let mut k: usize = 0;
    let mut w: u32 = entropy;
    while k < take
        invariant
            take <= 4,
            pos + take <= dest.len(),
            dest@.len() == old(dest)@.len(),
            k <= take,
            w as int == entropy as int / pow256(k as int),
            forall|i: int| 0 <= i < pos || pos + take <= i < dest@.len() ==> dest@[i] == old(dest)@[i],
            forall|i: int| pos <= i < pos + k ==> dest@[i] == le_byte(entropy, i - pos),
        decreases take - k,
    {
        dest[pos + k] = (w % 256) as u8;
        proof {
            assert(pow256(k + 1) == 256 * pow256(k as int));
            assert(pow256(k as int) > 0) by {
                lemma_pow256_pos(k as int);
            }
            vstd::arithmetic::div_mod::lemma_div_denominator(entropy as int, pow256(k as int), 256);
        }
        w = w / 256;
        k = k + 1;
    }
    pos + take
}

/// The four bytes of a word, low byte first, add back up to the word, so a
/// full step writes the whole word and nothing else.
pub proof fn lemma_le_bytes_make_word(w: u32)
    ensures
        le_byte(w, 0) as int + 0x100 * le_byte(w, 1) as int + 0x10000 * le_byte(w, 2) as int
            + 0x1000000 * le_byte(w, 3) as int == w,
{
    assert(pow256(1) == 0x100) by { reveal_with_fuel(pow256, 2); }
    assert(pow256(2) == 0x10000) by { reveal_with_fuel(pow256, 3); }
    assert(pow256(3) == 0x1000000) by { reveal_with_fuel(pow256, 4); }
    assert(pow256(0) == 1);
    let v = w as int;
    assert(((v / 1) % 256) + 0x100 * ((v / 0x100) % 256) + 0x10000 * ((v / 0x10000) % 256)
        + 0x1000000 * ((v / 0x1000000) % 256) == v) by (nonlinear_arith)
        requires 0 <= v < 0x1_0000_0000,
    {
        assert(v / 0x1000000 < 256);
    }
}

proof fn lemma_pow256_pos(k: int)
    ensures
        pow256(k) > 0,
    decreases k,
{
    if k > 0 {
        lemma_pow256_pos(k - 1);
    }
}

} // verus!

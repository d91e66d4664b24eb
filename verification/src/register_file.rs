//! Register files as sequences of 16-bit words: slices of them, block
//! writes into them, and the split of a 32-bit pattern over two words.

use vstd::prelude::*;

verus! {

/// Number of words in each register file.
pub const REGISTER_COUNT: usize = 10;

/// Whether the block of `count` words at `addr` lies inside a file of `len`
/// words.
pub open spec fn in_range(len: nat, addr: int, count: int) -> bool {
    0 <= addr && 0 <= count && addr + count <= len
}

/// The register file `regs` after the block `values` has been stored at
/// `addr`: the words of the block replace those they cover, all others stay.
pub open spec fn written(regs: Seq<u16>, addr: int, values: Seq<u16>) -> Seq<u16> {
    Seq::new(
        regs.len(),
        |i: int|
            if addr <= i < addr + values.len() {
                values[i - addr]
            } else {
                regs[i]
            },
    )
}

/// The 32-bit pattern whose upper half is `high` and whose lower half is
/// `low`.
pub open spec fn word_pair_bits(high: u16, low: u16) -> u32 {
    ((high as u32) << 16) | (low as u32)
}

/// The upper 16 bits of `bits`.
pub open spec fn high_word(bits: u32) -> u16 {
    (bits >> 16) as u16
}

/// The lower 16 bits of `bits`.
pub open spec fn low_word(bits: u32) -> u16 {
    (bits & 0xffff) as u16
}

/// Copies `count` words of `regs` starting at `addr`.
pub fn read_words(regs: &[u16], addr: usize, count: usize) -> (words: Vec<u16>)
    requires
        in_range(regs@.len(), addr as int, count as int),
    ensures
        words@ == regs@.subrange(addr as int, addr + count),
{
    let len: usize = regs.len();
    let mut words: Vec<u16> = Vec::new();
    let mut i: usize = 0;
    while i < count
        invariant
            i <= count,
            addr + count <= len,
            len == regs@.len(),
            words@ == regs@.subrange(addr as int, addr + i),
        decreases count - i,
    {
        words.push(regs[addr + i]);
        i = i + 1;
        assert(words@ =~= regs@.subrange(addr as int, addr + i));
    }
    words
}

/// Stores the block `values` into `regs` at `addr`.
pub fn write_words(regs: &mut [u16], addr: usize, values: &[u16])
    requires
        in_range(old(regs)@.len(), addr as int, values@.len() as int),
    ensures
        final(regs)@ == written(old(regs)@, addr as int, values@),
{
    let ghost before = regs@;
    let len: usize = regs.len();
    let count: usize = values.len();
    let mut i: usize = 0;
    while i < count
        invariant
            i <= count,
            count == values@.len(),
            addr + count <= len,
            len == before.len(),
            regs@.len() == len,
            regs@ == written(before, addr as int, values@.subrange(0, i as int)),
        decreases count - i,
    {
        regs[addr + i] = values[i];
        i = i + 1;
        assert(regs@ =~= written(before, addr as int, values@.subrange(0, i as int)));
    }
    assert(values@.subrange(0, count as int) =~= values@);
}

/// A block that was written reads back unchanged, whatever the file held
/// before.
pub proof fn lemma_written_reads_back(regs: Seq<u16>, addr: int, values: Seq<u16>)
    requires
        in_range(regs.len(), addr, values.len() as int),
    ensures
        written(regs, addr, values).len() == regs.len(),
        written(regs, addr, values).subrange(addr, addr + values.len()) == values,
{
    assert(written(regs, addr, values).subrange(addr, addr + values.len()) =~= values);
}

/// Writes to blocks that do not overlap can be made in either order: the
/// file ends up the same, and each block reads back as it was written, so
/// neither write is lost.
pub proof fn lemma_disjoint_writes_commute(
    regs: Seq<u16>,
    addr_a: int,
    values_a: Seq<u16>,
    addr_b: int,
    values_b: Seq<u16>,
)
    requires
        in_range(regs.len(), addr_a, values_a.len() as int),
        in_range(regs.len(), addr_b, values_b.len() as int),
        addr_a + values_a.len() <= addr_b || addr_b + values_b.len() <= addr_a,
    ensures
        written(written(regs, addr_a, values_a), addr_b, values_b) == written(
            written(regs, addr_b, values_b),
            addr_a,
            values_a,
        ),
        written(written(regs, addr_a, values_a), addr_b, values_b).subrange(
            addr_a,
            addr_a + values_a.len(),
        ) == values_a,
        written(written(regs, addr_a, values_a), addr_b, values_b).subrange(
            addr_b,
            addr_b + values_b.len(),
        ) == values_b,
{
    let ab = written(written(regs, addr_a, values_a), addr_b, values_b);
    let ba = written(written(regs, addr_b, values_b), addr_a, values_a);
    assert(ab =~= ba);
    assert(ab.subrange(addr_a, addr_a + values_a.len()) =~= values_a);
    assert(ab.subrange(addr_b, addr_b + values_b.len()) =~= values_b);
}

/// Splitting a 32-bit pattern into its high and low word and joining the
/// two again gives the pattern back, bit for bit.
pub proof fn lemma_split_then_join(bits: u32)
    ensures
        word_pair_bits(high_word(bits), low_word(bits)) == bits,
{
    assert(((((bits >> 16) as u16) as u32) << 16) | (((bits & 0xffff) as u16) as u32) == bits)
        by (bit_vector);
}

/// Joining two words and splitting the result gives the two words back.
pub proof fn lemma_join_then_split(high: u16, low: u16)
    ensures
        high_word(word_pair_bits(high, low)) == high,
        low_word(word_pair_bits(high, low)) == low,
{
    assert((((((high as u32) << 16) | (low as u32)) >> 16) as u16) == high) by (bit_vector);
    assert((((((high as u32) << 16) | (low as u32)) & 0xffff) as u16) == low) by (bit_vector);
}

} // verus!

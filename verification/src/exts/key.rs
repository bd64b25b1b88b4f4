//! The keys under which a table kept in a key-value store finds its cells
use vstd::prelude::*;

verus! {

/// The value of `bytes` read most significant byte first
pub open spec fn be_value(bytes: Seq<u8>) -> nat
    decreases bytes.len(),
{
    if bytes.len() == 0 {
        0
    } else {
        be_value(bytes.drop_last()) * 256 + bytes.last() as nat
    }
}

/// The number of bytes in a `usize`
pub open spec fn usize_bytes() -> int {
    (usize::BITS / 8) as int
}

/// Appends the bytes of `v`, most significant byte first
fn push_be_bytes(buf: &mut Vec<u8>, v: usize)
    ensures
        final(buf)@.len() == old(buf)@.len() + usize_bytes(),
        final(buf)@.take(old(buf)@.len() as int) == old(buf)@,
        be_value(final(buf)@.skip(old(buf)@.len() as int)) == v,
{
    let width: u32 = usize::BITS / 8;
    let ghost start = buf@.len() as int;
    let ghost wide = v as u128;
    proof {
        if width == 8 {
            assert(wide < 0x1_0000_0000_0000_0000u128);
            assert(wide < 0x1_0000_0000_0000_0000u128 ==> wide >> 64u32 == 0) by (bit_vector);
        } else {
            assert(usize::MAX == 0xffff_ffff);
            assert(wide <= 0xffff_ffffu128 ==> wide >> 32u32 == 0) by (bit_vector);
        }
    }
    let mut i: u32 = 0;
    while i < width
        invariant
            width == usize_bytes(),
            width == 4 || width == 8,
            i <= width,
            wide == v as u128,
            buf@.len() == start + i,
            buf@.take(start) == old(buf)@,
            start == old(buf)@.len(),
            be_value(buf@.skip(start)) == wide >> (8 * (width - i)) as u32,
        decreases width - i,
    {
        let shift: u32 = 8 * (width - 1 - i);
        let byte: u8 = ((v >> shift) & 0xff) as u8;
        let ghost before = buf@;
        buf.push(byte);
        proof {
            assert(buf@.skip(start).drop_last() == before.skip(start));
            let hi: u32 = (8 * (width - i)) as u32;
            assert(shift + 8 == hi);
            assert(shift < 64);
            assert(((v >> shift) & 0xff) == (((wide >> shift) & 0xff) as usize)) by (bit_vector)
                requires
                    wide == v as u128,
                    shift < 64,
                    shift < usize::BITS,
            ;
            assert(((wide >> hi) as int) * 256 + (((wide >> shift) & 0xff) as int) == (wide >> shift) as int)
                by (bit_vector)
                requires
                    shift + 8 == hi,
                    hi <= 64,
            ;
            assert(((wide >> shift) & 0xff) < 256) by (bit_vector);
            assert(byte as int == ((wide >> shift) & 0xff) as int);
            assert(buf@.skip(start).last() == byte);
            assert(be_value(buf@.skip(start)) == be_value(before.skip(start)) * 256 + byte as nat);
            assert(be_value(before.skip(start)) == wide >> hi);
            assert((8 * (width - (i + 1))) as u32 == shift);
        }
        i = i + 1;
    }
    proof {
        assert(wide >> 0u32 == wide) by (bit_vector);
    }
}

/// The key of the cell at `(row, col)`: the bytes of `row` and then those
/// of `col`, each as wide as a `usize` and most significant byte first
pub fn make_cell_key(row: usize, col: usize) -> (r: Vec<u8>)
    ensures
        r@.len() == 2 * usize_bytes(),
        be_value(r@.take(usize_bytes())) == row,
        be_value(r@.skip(usize_bytes())) == col,
{
    let mut buf: Vec<u8> = Vec::new();
    push_be_bytes(&mut buf, row);
    let ghost first = buf@;
    push_be_bytes(&mut buf, col);
    proof {
        assert(first.take(0) == Seq::<u8>::empty());
        assert(first.skip(0) == first);
    }
    buf
}

/// Two positions share a key only when they are the same position: the
/// first half of a key gives back the row and the second half the column
pub proof fn lemma_cell_key_identifies_position(
    row1: usize,
    col1: usize,
    key1: Seq<u8>,
    row2: usize,
    col2: usize,
    key2: Seq<u8>,
)
    requires
        be_value(key1.take(usize_bytes())) == row1,
        be_value(key1.skip(usize_bytes())) == col1,
        be_value(key2.take(usize_bytes())) == row2,
        be_value(key2.skip(usize_bytes())) == col2,
        key1 == key2,
    ensures
        row1 == row2,
        col1 == col2,
{
}

} // verus!

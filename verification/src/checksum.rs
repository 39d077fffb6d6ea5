//! CRC-32 checksum engine (IEEE 802.3 polynomial in reflected form), as used
//! by zlib and PNG. The Bluetooth report format carries this checksum as a
//! trailer so the controller firmware can validate the report.

use vstd::prelude::*;

verus! {

/// The reflected form of the IEEE 802.3 CRC-32 polynomial.
pub const CRC32_POLYNOMIAL: u32 = 0xEDB88320;

/// One bit-reduction step: shift right and fold in the polynomial when a one
/// bit falls out.
pub open spec fn crc_step(c: u32) -> u32 {
    if c & 1 != 0 {
        (c >> 1) ^ CRC32_POLYNOMIAL
    } else {
        c >> 1
    }
}

/// `n` bit-reduction steps applied to `c`.
pub open spec fn crc_step_n(c: u32, n: nat) -> u32
    decreases n,
{
    if n == 0 {
        c
    } else {
        crc_step(crc_step_n(c, (n - 1) as nat))
    }
}

/// Entry `i` of the byte-indexed CRC-32 table: eight bit-reduction steps
/// applied to the byte value itself.
pub open spec fn crc_table_entry(i: u32) -> u32 {
    crc_step_n(i, 8)
}

/// Folding one byte into a running CRC value via the table.
pub open spec fn crc32_update(crc: u32, byte: u8) -> u32 {
    (crc >> 8) ^ crc_table_entry((crc ^ (byte as u32)) & 0xFF)
}

/// The running CRC value after folding all of `data` into `crc`, first byte
/// first.
pub open spec fn crc32_accum(crc: u32, data: Seq<u8>) -> u32
    decreases data.len(),
{
    if data.len() == 0 {
        crc
    } else {
        crc32_update(crc32_accum(crc, data.drop_last()), data.last())
    }
}

/// CRC-32 of a byte sequence: all-ones seed, byte-wise table reduction, and a
/// final bit inversion.
pub open spec fn crc32_of(data: Seq<u8>) -> u32 {
    !crc32_accum(0xFFFFFFFFu32, data)
}

/// The 256-entry lookup table for the byte-wise CRC-32 reduction.
pub fn generate_crc32_table() -> (table: Vec<u32>)
    ensures
        table@.len() == 256,
        forall|k: int| 0 <= k < 256 ==> table@[k] == crc_table_entry(k as u32),
{
    let mut table: Vec<u32> = Vec::new();
    let mut i: usize = 0;
    while i < 256
        invariant
            i <= 256,
            table@.len() == i,
            forall|k: int| 0 <= k < i ==> table@[k] == crc_table_entry(k as u32),
        decreases 256 - i,
    {
        let mut crc: u32 = i as u32;
        let mut j: usize = 0;
        while j < 8
            invariant
                j <= 8,
                i < 256,
                crc == crc_step_n(i as u32, j as nat),
            decreases 8 - j,
        {
            if crc & 1 != 0 {
                crc = (crc >> 1) ^ CRC32_POLYNOMIAL;
            } else {
                crc = crc >> 1;
            }
            j = j + 1;
        }
        table.push(crc);
        i = i + 1;
    }
    table
}

/// CRC-32 of `data`, matching `crc32_of` exactly.
pub fn calculate_crc32(data: &[u8]) -> (crc: u32)
    ensures
        crc == crc32_of(data@),
{
    let table = generate_crc32_table();
    let mut crc: u32 = 0xFFFFFFFF;
    let mut k: usize = 0;
    while k < data.len()
        invariant
            k <= data@.len(),
            table@.len() == 256,
            forall|t: int| 0 <= t < 256 ==> table@[t] == crc_table_entry(t as u32),
            crc == crc32_accum(0xFFFFFFFFu32, data@.take(k as int)),
        decreases data@.len() - k,
    {
        let byte = data[k];
        let folded: u32 = (crc ^ byte as u32) & 0xFF;
        assert((crc ^ byte as u32) & 0xFF < 256) by (bit_vector);
        let index = folded as usize;
        crc = (crc >> 8) ^ table[index];
        proof {
            assert(data@.take(k + 1).drop_last() =~= data@.take(k as int));
            assert(data@.take(k + 1).last() == data@[k as int]);
        }
        k = k + 1;
    }
    proof {
        assert(data@.take(data@.len() as int) =~= data@);
    }
    !crc
}

} // verus!

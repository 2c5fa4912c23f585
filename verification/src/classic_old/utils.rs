//! Small helpers on vectors.

use vstd::prelude::*;
use super::gb_types::Console;

verus! {

/// The byte at an address of the image of the cartridge, which must hold
/// it; zero where there is no cartridge.
pub fn read_byte(gb: &Console, address: u16) -> (b: u8)
    requires
        gb.rom matches Some(c) ==> address < c.contents@.len(),
    ensures
        b == (match gb.rom {
            Some(c) => c.contents@[address as int],
            None => 0u8,
        }),
{
    match &gb.rom {
        Some(rom) => rom.contents[address as usize],
        None => 0,
    }
}

/// Writes a byte into the image of the cartridge, which must hold the
/// address. Nothing happens where there is no cartridge.
pub fn write_byte(gb: &mut Console, address: u16, data: u8)
    requires
        old(gb).rom matches Some(c) ==> address < c.contents@.len(),
    ensures
        final(gb).cpu == old(gb).cpu,
        final(gb).ram == old(gb).ram,
        match old(gb).rom {
            Some(before) => final(gb).rom matches Some(after) && after.contents@
                == before.contents@.update(address as int, data) && after.title == before.title
                && after.features == before.features && after.rom_size == before.rom_size
                && after.rom_banks == before.rom_banks && after.ram_size == before.ram_size
                && after.ram_banks == before.ram_banks && after.locale == before.locale
                && after.header_checksum == before.header_checksum && after.global_checksum
                == before.global_checksum,
            None => final(gb).rom is None,
        },
{
    match &mut gb.rom {
        Some(rom) => {
            rom.contents[address as usize] = data;
        },
        None => {},
    }
}

/// The items of `v` from `start` up to `end`, each a clone of the one in `v`.
pub fn vec_slice<T: Clone>(v: &Vec<T>, start: usize, end: usize) -> (out: Vec<T>)
    requires
        start <= end <= v@.len(),
    ensures
        out@.len() == end - start,
        forall|i: int| 0 <= i < out@.len() ==> cloned(v@[start + i], #[trigger] out@[i]),
{
    let mut out: Vec<T> = Vec::new();
    let mut i: usize = start;
    while i < end
        invariant
            start <= i <= end <= v@.len(),
            out@.len() == i - start,
            forall|k: int| 0 <= k < out@.len() ==> cloned(v@[start + k], #[trigger] out@[k]),
        decreases end - i,
    {
        out.push(v[i].clone());
        i = i + 1;
    }
    out
}

/// A vector of `capacity` zero bytes.
pub fn make_vec(capacity: usize) -> (v: Vec<u8>)
    ensures
        v@.len() == capacity,
        forall|i: int| 0 <= i < capacity ==> v@[i] == 0,
{
    vec![0u8; capacity]
}

} // verus!

//! IPS patches: reading the records of a patch file and applying them to the
//! bytes of a ROM.
//!
//! A patch file starts with the five bytes `PATCH` and ends with the three
//! bytes `EOF`. In between lie records. A record starts with an offset into
//! the ROM of three bytes and a length of two bytes, both with the high byte
//! first. Where the length is not zero, the record goes on with that many
//! bytes, which go into the ROM at the offset. Where the length is zero, the
//! record goes on with a count of two bytes and one byte, which goes into the
//! ROM that many times.

use vstd::prelude::*;

verus! {

/// A number written as bytes, the high byte first.
pub open spec fn number(bytes: Seq<u8>) -> nat
    decreases bytes.len(),
{
    if bytes.len() == 0 {
        0
    } else {
        number(bytes.drop_last()) * 256 + bytes.last() as nat
    }
}

/// The bytes `PATCH`.
pub open spec fn magic() -> Seq<u8> {
    seq![0x50u8, 0x41, 0x54, 0x43, 0x48]
}

/// The bytes `EOF`.
pub open spec fn end_mark() -> Seq<u8> {
    seq![0x45u8, 0x4F, 0x46]
}

/// The same byte, `count` times.
pub open spec fn repeated(byte: u8, count: nat) -> Seq<u8> {
    Seq::new(count, |i: int| byte)
}

/// How long the record at `at` is, if there is one whole record there.
pub open spec fn record_len(bytes: Seq<u8>, at: int) -> Option<int> {
    if at + 5 > bytes.len() {
        None
    } else {
        let length = number(bytes.subrange(at + 3, at + 5));
        if length == 0 {
            if at + 8 > bytes.len() {
                None
            } else {
                Some(8)
            }
        } else if at + 5 + length > bytes.len() {
            None
        } else {
            Some(5 + length as int)
        }
    }
}

/// The record at `at`, which must be there whole: where its bytes go, and
/// the bytes.
pub open spec fn record(bytes: Seq<u8>, at: int) -> (usize, Seq<u8>) {
    let offset = number(bytes.subrange(at, at + 3)) as usize;
    let length = number(bytes.subrange(at + 3, at + 5));
    if length == 0 {
        (offset, repeated(bytes[at + 7], number(bytes.subrange(at + 5, at + 7))))
    } else {
        (offset, bytes.subrange(at + 5, at + 5 + length))
    }
}

/// The records from `at` up to the end mark. There are none to be had where
/// the file ends before the end mark or in the middle of a record.
pub open spec fn records(bytes: Seq<u8>, at: int) -> Option<Seq<(usize, Seq<u8>)>>
    decreases bytes.len() - at,
{
    if at < 0 || at + 3 > bytes.len() {
        None
    } else if bytes.subrange(at, at + 3) == end_mark() {
        Some(Seq::empty())
    } else {
        match record_len(bytes, at) {
            None => None,
            Some(n) => match records(bytes, at + n) {
                None => None,
                Some(rest) => Some(seq![record(bytes, at)] + rest),
            },
        }
    }
}

/// The records of a patch file. A file that does not start with `PATCH` has
/// none to be had.
pub open spec fn patches(bytes: Seq<u8>) -> Option<Seq<(usize, Seq<u8>)>> {
    if bytes.len() >= 5 && bytes.subrange(0, 5) == magic() {
        records(bytes, 5)
    } else {
        None
    }
}

/// Patches as plain values.
pub open spec fn plain(v: Seq<(usize, Vec<u8>)>) -> Seq<(usize, Seq<u8>)> {
    Seq::new(v.len(), |i: int| (v[i].0, v[i].1@))
}

/// The bytes of a ROM with one patch applied. Where the patch reaches beyond
/// the end of the ROM, the ROM grows, with zeros between its old end and the
/// patch.
pub open spec fn patched_once(rom: Seq<u8>, offset: int, data: Seq<u8>) -> Seq<u8> {
    Seq::new(
        if offset + data.len() > rom.len() {
            (offset + data.len()) as nat
        } else {
            rom.len()
        },
        |i: int|
            if offset <= i < offset + data.len() {
                data[i - offset]
            } else if i < rom.len() {
                rom[i]
            } else {
                0u8
            },
    )
}

/// The bytes of a ROM with the first `n` of some patches applied, one after
/// the other.
pub open spec fn patched(rom: Seq<u8>, patches: Seq<(usize, Seq<u8>)>, n: int) -> Seq<u8>
    decreases n,
{
    if n <= 0 {
        rom
    } else {
        patched_once(patched(rom, patches, n - 1), patches[n - 1].0 as int, patches[n - 1].1)
    }
}

/// What is left to read from `at` on decides the whole: the records read so
/// far, followed by the records from `at` on, are the records from `start` on.
proof fn lemma_records_step(bytes: Seq<u8>, at: int)
    requires
        0 <= at,
        at + 3 <= bytes.len(),
        bytes.subrange(at, at + 3) != end_mark(),
        record_len(bytes, at) is Some,
    ensures
        records(bytes, at) == (match records(bytes, at + record_len(bytes, at)->0) {
            None => None,
            Some(rest) => Some(seq![record(bytes, at)] + rest),
        }),
{
}

/// Reads a number of `n` bytes at `at`, the high byte first.
fn read_number(bytes: &Vec<u8>, at: usize, n: usize) -> (v: usize)
    requires
        n <= 3,
        at + n <= bytes@.len(),
    ensures
        v == number(bytes@.subrange(at as int, at + n)),
        v < 0x100_0000,
        n <= 2 ==> v < 0x1_0000,
{
    let len = bytes.len();
    let mut v: usize = 0;
    let mut i: usize = 0;
    while i < n
        invariant
            n <= 3,
            i <= n,
            at + n <= bytes@.len(),
            bytes@.len() == len,
            v == number(bytes@.subrange(at as int, at + i)),
            i == 0 ==> v == 0,
            i == 1 ==> v < 0x100,
            i == 2 ==> v < 0x1_0000,
            i == 3 ==> v < 0x100_0000,
        decreases n - i,
    {
        assert(bytes@.subrange(at as int, at + i + 1).drop_last() =~= bytes@.subrange(
            at as int,
            at + i,
        ));
        v = v * 256 + bytes[at + i] as usize;
        i = i + 1;
    }
    v
}

/// Whether the three bytes at `at` are the end mark.
fn at_end_mark(bytes: &Vec<u8>, at: usize) -> (r: bool)
    requires
        at + 3 <= bytes@.len(),
    ensures
        r == (bytes@.subrange(at as int, at + 3) == end_mark()),
{
    let len = bytes.len();
    let r = bytes[at] == 0x45 && bytes[at + 1] == 0x4F && bytes[at + 2] == 0x46;
    if r {
        assert(bytes@.subrange(at as int, at + 3) =~= end_mark());
    } else {
        assert(bytes@.subrange(at as int, at + 3)[0] == bytes@[at as int]);
        assert(bytes@.subrange(at as int, at + 3)[1] == bytes@[at + 1]);
        assert(bytes@.subrange(at as int, at + 3)[2] == bytes@[at + 2]);
    }
    r
}

/// Reads the record at `at`.
fn read_record(bytes: &Vec<u8>, at: usize) -> (r: Option<(usize, usize, Vec<u8>)>)
    requires
        at + 3 <= bytes@.len(),
    ensures
        r is Some <==> record_len(bytes@, at as int) is Some,
        r matches Some((n, offset, data)) ==> Some(n as int) == record_len(bytes@, at as int) && (
        offset,
        data@,
    ) == record(bytes@, at as int),
{
    let len = bytes.len();
    if len - at < 5 {
        return None;
    }
    let offset = read_number(bytes, at, 3);
    let length = read_number(bytes, at + 3, 2);
    let mut data: Vec<u8> = Vec::new();
    if length == 0 {
        if len - at < 8 {
            return None;
        }
        let count = read_number(bytes, at + 5, 2);
        let byte = bytes[at + 7];
        let mut i: usize = 0;
        while i < count
            invariant
                i <= count,
                data@ == repeated(byte, i as nat),
            decreases count - i,
        {
            data.push(byte);
            i = i + 1;
            assert(data@ =~= repeated(byte, i as nat));
        }
        Some((8, offset, data))
    } else {
        if len - at - 5 < length {
            return None;
        }
        let mut i: usize = 0;
        while i < length
            invariant
                i <= length,
                at + 5 + length <= bytes@.len(),
                bytes@.len() == len,
                data@ == bytes@.subrange(at + 5, at + 5 + i),
            decreases length - i,
        {
            data.push(bytes[at + 5 + i]);
            i = i + 1;
            assert(data@ =~= bytes@.subrange(at + 5, at + 5 + i));
        }
        Some((5 + length, offset, data))
    }
}

/// Reads the records of a patch file. Gives nothing for a file that does
/// not start with `PATCH`, or that ends before `EOF` or in the middle of a
/// record.
pub fn parse(buffer: &Vec<u8>) -> (r: Option<Vec<(usize, Vec<u8>)>>)
    ensures
        r is Some <==> patches(buffer@) is Some,
        r matches Some(v) ==> Some(plain(v@)) == patches(buffer@),
{
    let len = buffer.len();
    if len < 5 || !(buffer[0] == 0x50 && buffer[1] == 0x41 && buffer[2] == 0x54 && buffer[3] == 0x43
        && buffer[4] == 0x48) {
        assert(len >= 5 ==> buffer@.subrange(0, 5)[0] == buffer@[0] && buffer@.subrange(0, 5)[1]
            == buffer@[1] && buffer@.subrange(0, 5)[2] == buffer@[2] && buffer@.subrange(0, 5)[3]
            == buffer@[3] && buffer@.subrange(0, 5)[4] == buffer@[4]);
        return None;
    }
    assert(buffer@.subrange(0, 5) =~= magic());
    let mut found: Vec<(usize, Vec<u8>)> = Vec::new();
    let mut at: usize = 5;
    loop
        invariant
            len == buffer@.len(),
            5 <= at <= len,
            patches(buffer@) == records(buffer@, 5),
            records(buffer@, 5) == (match records(buffer@, at as int) {
                None => None,
                Some(rest) => Some(plain(found@) + rest),
            }),
        decreases len - at,
    {
        if len - at < 3 {
            return None;
        }
        if at_end_mark(buffer, at) {
            assert(plain(found@) + Seq::<(usize, Seq<u8>)>::empty() =~= plain(found@));
            return Some(found);
        }
        match read_record(buffer, at) {
            None => {
                return None;
            },
            Some((n, offset, data)) => {
                proof {
                    lemma_records_step(buffer@, at as int);
                }
                let ghost before = plain(found@);
                let ghost entry = (offset, data@);
                found.push((offset, data));
                assert(plain(found@) =~= before.push(entry));
                assert forall|rest: Seq<(usize, Seq<u8>)>|
                    before + (seq![entry] + rest) == #[trigger] (before.push(entry) + rest) by {
                    assert(before + (seq![entry] + rest) =~= before.push(entry) + rest);
                }
                at = at + n;
            },
        }
    }
}

/// Applies one patch to the bytes of a ROM.
fn apply_one(rom: &mut Vec<u8>, offset: usize, data: &Vec<u8>)
    requires
        offset + data@.len() <= usize::MAX,
    ensures
        final(rom)@ == patched_once(old(rom)@, offset as int, data@),
{
    let end = offset + data.len();
    while rom.len() < end
        invariant
            old(rom)@.len() <= rom@.len(),
            rom@.len() <= end || rom@.len() == old(rom)@.len(),
            forall|i: int| 0 <= i < old(rom)@.len() ==> rom@[i] == old(rom)@[i],
            forall|i: int| old(rom)@.len() <= i < rom@.len() ==> rom@[i] == 0,
        decreases end - rom@.len(),
    {
        rom.push(0);
    }
    let ghost grown = rom@;
    let mut i: usize = 0;
    while i < data.len()
        invariant
            i <= data@.len(),
            end == offset + data@.len(),
            rom@.len() == grown.len(),
            end <= rom@.len(),
            forall|k: int| 0 <= k < rom@.len() ==> rom@[k] == (if offset <= k < offset + i {
                data@[k - offset]
            } else {
                grown[k]
            }),
        decreases data@.len() - i,
    {
        rom[offset + i] = data[i];
        i = i + 1;
    }
    assert(rom@ =~= patched_once(old(rom)@, offset as int, data@));
}

/// Applies patches to the bytes of a ROM, one after the other, and says how
/// many it applied: all of them.
pub fn apply(rom: &mut Vec<u8>, patches: &Vec<(usize, Vec<u8>)>) -> (written: u64)
    requires
        forall|i: int| 0 <= i < patches@.len() ==> patches@[i].0 + patches@[i].1@.len() <= usize::MAX,
    ensures
        final(rom)@ == patched(old(rom)@, plain(patches@), patches@.len() as int),
        written == patches@.len(),
{
    let mut i: usize = 0;
    while i < patches.len()
        invariant
            i <= patches@.len(),
            forall|k: int|
                0 <= k < patches@.len() ==> patches@[k].0 + patches@[k].1@.len() <= usize::MAX,
            rom@ == patched(old(rom)@, plain(patches@), i as int),
        decreases patches@.len() - i,
    {
        apply_one(rom, patches[i].0, &patches[i].1);
        i = i + 1;
    }
    i as u64
}

} // verus!

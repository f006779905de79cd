//! The Win32 file list (`CF_HDROP`): a `DROPFILES` header followed by the
//! paths in UTF-16, each closed by a NUL, the list closed by one more.

use vstd::prelude::*;
use crate::payload::utf16::{
    decode_utf16, decode_wide, encode_utf16, encode_wide, law_utf16_round_trip,
    lemma_encode_utf16_zero,
};

verus! {

/// Size in bytes of the `DROPFILES` header: the offset of the list (4), a
/// point (8), the non-client flag (4) and the wide-character flag (4).
pub const DROPFILES_SIZE: usize = 20;

/// The header: the list starts right after it, the point and the non-client
/// flag are zero, and the paths are declared to be wide characters. All
/// fields are little-endian.
pub open spec fn header_bytes() -> Seq<u8> {
    seq![20u8, 0u8, 0u8, 0u8, 0u8, 0u8, 0u8, 0u8, 0u8, 0u8, 0u8, 0u8, 0u8, 0u8, 0u8, 0u8, 1u8, 0u8, 0u8, 0u8]
}

/// The code units of `names`, each followed by a NUL.
pub open spec fn joined(names: Seq<Seq<u16>>) -> Seq<u16>
    decreases names.len(),
{
    if names.len() == 0 {
        Seq::empty()
    } else {
        joined(names.drop_last()) + names.last() + seq![0u16]
    }
}

/// The UTF-16 encodings of `paths`.
pub open spec fn wide_names(paths: Seq<Seq<char>>) -> Seq<Seq<u16>> {
    paths.map_values(|p: Seq<char>| encode_utf16(p))
}

/// The list part of the block: every path in UTF-16 followed by a NUL, and
/// a final NUL.
pub open spec fn file_list_units(paths: Seq<Seq<char>>) -> Seq<u16> {
    joined(wide_names(paths)) + seq![0u16]
}

/// Code units as bytes, low byte first.
pub open spec fn units_bytes(units: Seq<u16>) -> Seq<u8> {
    Seq::new(
        2 * units.len(),
        |i: int|
            if i % 2 == 0 {
                (units[i / 2] % 256) as u8
            } else {
                (units[i / 2] / 256) as u8
            },
    )
}

/// Bytes as code units, low byte first; an odd last byte is left out.
pub open spec fn bytes_units(bytes: Seq<u8>) -> Seq<u16> {
    Seq::new((bytes.len() / 2) as nat, |i: int| (bytes[2 * i] + 256 * bytes[2 * i + 1]) as u16)
}

/// The whole block for `paths`.
pub open spec fn drop_files_block(paths: Seq<Seq<char>>) -> Seq<u8> {
    header_bytes() + units_bytes(file_list_units(paths))
}

/// The 32-bit little-endian number at `at`.
pub open spec fn le_u32_at(bytes: Seq<u8>, at: int) -> int {
    bytes[at] + 256 * bytes[at + 1] + 65536 * bytes[at + 2] + 16777216 * bytes[at + 3]
}

/// The index of the first NUL in `units`, or their length if there is none.
pub open spec fn first_nul(units: Seq<u16>) -> int
    decreases units.len(),
{
    if units.len() == 0 || units[0] == 0 {
        0
    } else {
        1 + first_nul(units.skip(1))
    }
}

/// The names in a list: each runs up to its NUL, an empty name ends the
/// list; `None` where a name has no NUL.
pub open spec fn split_list(units: Seq<u16>) -> Option<Seq<Seq<u16>>>
    decreases units.len(),
{
    let n = first_nul(units);
    if n < 0 || n >= units.len() {
        None
    } else if n == 0 {
        Some(Seq::empty())
    } else {
        match split_list(units.skip(n + 1)) {
            Some(rest) => Some(seq![units.take(n)] + rest),
            None => None,
        }
    }
}

/// The strings that `names` encode, or `None` if one of them is not UTF-16.
pub open spec fn decode_names(names: Seq<Seq<u16>>) -> Option<Seq<Seq<char>>>
    decreases names.len(),
{
    if names.len() == 0 {
        Some(Seq::empty())
    } else {
        match (decode_utf16(names[0]), decode_names(names.drop_first())) {
            (Some(first), Some(rest)) => Some(seq![first] + rest),
            _ => None,
        }
    }
}

/// The paths that a block holds, read as the system reads it: the header
/// gives the offset of the list and must declare wide characters; the list
/// is split at its NULs and each name decoded. `None` for a block that is
/// too short, declares narrow characters, is not closed, or holds a name
/// that is not UTF-16.
pub open spec fn decode_drop_files(block: Seq<u8>) -> Option<Seq<Seq<char>>> {
    if block.len() < 20 {
        None
    } else if le_u32_at(block, 16) == 0 {
        None
    } else if le_u32_at(block, 0) > block.len() {
        None
    } else {
        match split_list(bytes_units(block.skip(le_u32_at(block, 0)))) {
            Some(names) => decode_names(names),
            None => None,
        }
    }
}

/// A path that the list can hold: not empty (an empty name would end the
/// list) and without a NUL (which would end the name). Every absolute path
/// is one.
pub open spec fn is_listable(path: Seq<char>) -> bool {
    path.len() > 0 && !path.contains('\0')
}

pub proof fn lemma_units_bytes_round_trip(units: Seq<u16>)
    ensures
        bytes_units(units_bytes(units)) == units,
{
    let bytes = units_bytes(units);
    assert(bytes.len() / 2 == units.len());
    assert forall|i: int| 0 <= i < units.len() implies bytes_units(bytes)[i] == units[i] by {
        assert((2 * i) % 2 == 0) by (nonlinear_arith)
            requires
                0 <= i,
        ;
        assert((2 * i + 1) % 2 == 1) by (nonlinear_arith)
            requires
                0 <= i,
        ;
        assert((2 * i) / 2 == i);
        assert((2 * i + 1) / 2 == i);
        let u = units[i];
        assert(u == (u % 256) + 256 * (u / 256));
    }
    assert(bytes_units(bytes) =~= units);
}

proof fn lemma_first_nul(name: Seq<u16>, rest: Seq<u16>)
    requires
        !name.contains(0u16),
    ensures
        first_nul(name + seq![0u16] + rest) == name.len(),
    decreases name.len(),
{
    let all = name + seq![0u16] + rest;
    if name.len() == 0 {
        assert(all[0] == 0u16);
    } else {
        assert(name.contains(name[0]));
        assert(all[0] == name[0]);
        let tail = name.skip(1);
        assert forall|j: int| 0 <= j < tail.len() implies tail[j] != 0u16 by {
            assert(name.contains(name[j + 1]));
        }
        assert(all.skip(1) =~= tail + seq![0u16] + rest);
        lemma_first_nul(tail, rest);
    }
}

proof fn lemma_joined_front(first: Seq<u16>, rest: Seq<Seq<u16>>)
    ensures
        joined(seq![first] + rest) == first + seq![0u16] + joined(rest),
    decreases rest.len(),
{
    let all = seq![first] + rest;
    if rest.len() == 0 {
        assert(all.drop_last() =~= Seq::<Seq<u16>>::empty());
        assert(all.last() == first);
        assert(joined(all.drop_last()) =~= Seq::<u16>::empty());
        assert(joined(rest) =~= Seq::<u16>::empty());
        assert(joined(all) =~= first + seq![0u16] + joined(rest));
    } else {
        assert(all.drop_last() =~= seq![first] + rest.drop_last());
        assert(all.last() == rest.last());
        lemma_joined_front(first, rest.drop_last());
        assert(joined(all) =~= first + seq![0u16] + joined(rest));
    }
}

proof fn lemma_split_joined(names: Seq<Seq<u16>>)
    requires
        forall|i: int| 0 <= i < names.len() ==> names[i].len() > 0 && !names[i].contains(0u16),
    ensures
        split_list(joined(names) + seq![0u16]) == Some(names),
    decreases names.len(),
{
    let units = joined(names) + seq![0u16];
    if names.len() == 0 {
        assert(units[0] == 0u16);
        assert(first_nul(units) == 0);
    } else {
        let first = names[0];
        let rest = names.drop_first();
        assert(names =~= seq![first] + rest);
        lemma_joined_front(first, rest);
        let tail = joined(rest) + seq![0u16];
        assert(units =~= first + seq![0u16] + tail);
        lemma_first_nul(first, tail);
        assert(units.skip(first.len() as int + 1) =~= tail);
        assert(units.take(first.len() as int) =~= first);
        lemma_split_joined(rest);
    }
}

proof fn lemma_decode_names(paths: Seq<Seq<char>>)
    ensures
        decode_names(wide_names(paths)) == Some(paths),
    decreases paths.len(),
{
    if paths.len() > 0 {
        law_utf16_round_trip(paths[0]);
        assert(wide_names(paths).drop_first() =~= wide_names(paths.drop_first()));
        lemma_decode_names(paths.drop_first());
        assert(seq![paths[0]] + paths.drop_first() =~= paths);
    }
}

/// Reading a block back gives the paths it was made from, in their order,
/// whenever each path can be listed.
pub proof fn law_drop_files_round_trip(paths: Seq<Seq<char>>)
    requires
        forall|i: int| 0 <= i < paths.len() ==> is_listable(#[trigger] paths[i]),
    ensures
        decode_drop_files(drop_files_block(paths)) == Some(paths),
{
    let units = file_list_units(paths);
    let block = drop_files_block(paths);
    let names = wide_names(paths);
    assert(block.len() >= 20);
    assert(block[0] == 20u8 && block[1] == 0u8 && block[2] == 0u8 && block[3] == 0u8);
    assert(block[16] == 1u8 && block[17] == 0u8 && block[18] == 0u8 && block[19] == 0u8);
    assert(le_u32_at(block, 0) == 20);
    assert(le_u32_at(block, 16) == 1);
    assert(block.skip(20) =~= units_bytes(units));
    lemma_units_bytes_round_trip(units);
    assert forall|i: int| 0 <= i < names.len() implies names[i].len() > 0 && !names[i].contains(
        0u16,
    ) by {
        assert(is_listable(paths[i]));
        lemma_encode_utf16_zero(paths[i]);
        crate::payload::utf16::lemma_encode_char(paths[i][0]);
        assert(encode_utf16(paths[i]).len() >= crate::payload::utf16::encode_char(
            paths[i][0],
        ).len());
    }
    lemma_split_joined(names);
    lemma_decode_names(paths);
}

/// The paths in a list of code units: `split_list`, then `decode_names`.
pub open spec fn decode_list(units: Seq<u16>) -> Option<Seq<Seq<char>>> {
    match split_list(units) {
        Some(names) => decode_names(names),
        None => None,
    }
}

/// The block of `size` bytes that holds `buffer` behind the header, the
/// rest zero.
pub open spec fn padded_block(size: int, buffer: Seq<u16>) -> Seq<u8> {
    header_bytes() + units_bytes(buffer) + Seq::new(
        (size - 20 - 2 * buffer.len()) as nat,
        |i: int| 0u8,
    )
}

proof fn lemma_first_nul_found(units: Seq<u16>, k: int)
    requires
        0 <= k <= units.len(),
        forall|j: int| 0 <= j < k ==> units[j] != 0,
        k == units.len() || units[k] == 0,
    ensures
        first_nul(units) == k,
    decreases k,
{
    if k > 0 {
        assert(units[0] != 0);
        assert forall|j: int| 0 <= j < k - 1 implies units.skip(1)[j] != 0 by {
            assert(units.skip(1)[j] == units[j + 1]);
        }
        lemma_first_nul_found(units.skip(1), k - 1);
    }
}

/// The code units of the list for `files`: every path in UTF-16 followed by
/// a NUL, and a final NUL.
pub fn file_list_buffer(files: &Vec<String>) -> (r: Vec<u16>)
    ensures
        r@ == file_list_units(crate::text::views(files@)),
{
    let ghost paths = crate::text::views(files@);
    let mut buffer: Vec<u16> = Vec::new();
    let mut i: usize = 0;
    while i < files.len()
        invariant
            i <= files.len(),
            paths == crate::text::views(files@),
            buffer@ == joined(wide_names(paths.take(i as int))),
        decreases files.len() - i,
    {
        let mut wide = encode_wide(files[i].as_str());
        proof {
            let done = wide_names(paths.take(i as int));
            let next = wide_names(paths.take(i + 1));
            assert(paths[i as int] == files@[i as int]@);
            assert(next.drop_last() =~= done);
            assert(next.last() == encode_utf16(paths[i as int]));
        }
        buffer.append(&mut wide);
        buffer.push(0);
        i += 1;
    }
    assert(paths.take(i as int) =~= paths);
    buffer.push(0);
    buffer
}

/// Lays out the block of a file list: the header, then `buffer` as
/// little-endian bytes, in a block of `size` bytes whose remaining bytes are
/// zero. `None` if `size` bytes cannot hold the header and the buffer.
pub fn get_hglobal(size: usize, buffer: &Vec<u16>) -> (r: Option<Vec<u8>>)
    ensures
        size < 20 + 2 * buffer@.len() ==> r is None,
        size >= 20 + 2 * buffer@.len() ==> r is Some && r->0@ == padded_block(
            size as int,
            buffer@,
        ),
{
    if size < DROPFILES_SIZE || (size - DROPFILES_SIZE) / 2 < buffer.len() {
        return None;
    }
    let mut block: Vec<u8> = Vec::new();
    block.push(20);
    let mut k: usize = 1;
    while k < DROPFILES_SIZE
        invariant
            1 <= k <= 20,
            block@.len() == k,
            block@[0] == 20u8,
            forall|j: int| 1 <= j < k ==> block@[j] == (if j == 16 {
                1u8
            } else {
                0u8
            }),
        decreases 20 - k,
    {
        block.push(if k == 16 {
            1
        } else {
            0
        });
        k += 1;
    }
    assert(block@ =~= header_bytes());
    let mut i: usize = 0;
    while i < buffer.len()
        invariant
            i <= buffer.len(),
            block@ == header_bytes() + units_bytes(buffer@.take(i as int)),
        decreases buffer.len() - i,
    {
        let unit: u16 = buffer[i];
        block.push((unit % 256) as u8);
        block.push((unit / 256) as u8);
        proof {
            let before = units_bytes(buffer@.take(i as int));
            let after = units_bytes(buffer@.take(i + 1));
            assert forall|j: int| 0 <= j < after.len() implies after[j] == (before.push(
                (unit % 256) as u8,
            ).push((unit / 256) as u8))[j] by {
                if j < 2 * i {
                    assert(buffer@.take(i + 1)[j / 2] == buffer@.take(i as int)[j / 2]);
                } else {
                    assert(j / 2 == i);
                }
            }
            assert(after =~= before.push((unit % 256) as u8).push((unit / 256) as u8));
            assert(block@ =~= header_bytes() + after);
        }
        i += 1;
    }
    assert(buffer@.take(i as int) =~= buffer@);
    let ghost filled = block@;
    while block.len() < size
        invariant
            filled.len() <= block@.len() <= size,
            filled == header_bytes() + units_bytes(buffer@),
            block@ == filled + Seq::new((block@.len() - filled.len()) as nat, |i: int| 0u8),
        decreases size - block.len(),
    {
        block.push(0);
        assert(block@ =~= filled + Seq::new((block@.len() - filled.len()) as nat, |i: int| 0u8));
    }
    Some(block)
}

/// The whole block for `files`, of exactly the size the header and the list
/// take. `None` only if that size does not fit in `usize`.
pub fn drop_files(files: &Vec<String>) -> (r: Option<Vec<u8>>)
    ensures
        r matches Some(block) ==> block@ == drop_files_block(crate::text::views(files@)),
        r is None <==> 20 + 2 * file_list_units(crate::text::views(files@)).len() > usize::MAX,
{
    let buffer = file_list_buffer(files);
    if buffer.len() > (usize::MAX - DROPFILES_SIZE) / 2 {
        return None;
    }
    let size = DROPFILES_SIZE + buffer.len() * 2;
    let block = get_hglobal(size, &buffer);
    proof {
        assert(padded_block(size as int, buffer@) =~= header_bytes() + units_bytes(buffer@));
    }
    block
}

fn le_u32(block: &[u8], at: usize) -> (r: u32)
    requires
        at + 4 <= block@.len(),
    ensures
        r == le_u32_at(block@, at as int),
{
    (block[at] as u32) + 256 * (block[at + 1] as u32) + 65536 * (block[at + 2] as u32) + 16777216
        * (block[at + 3] as u32)
}

/// Reads the paths out of a block, as `decode_drop_files` defines it.
pub fn read_drop_files(block: &[u8]) -> (r: Option<Vec<String>>)
    ensures
        match r {
            Some(files) => decode_drop_files(block@) == Some(crate::text::views(files@)),
            None => decode_drop_files(block@) is None,
        },
{
    if block.len() < DROPFILES_SIZE {
        return None;
    }
    if le_u32(block, 16) == 0 {
        return None;
    }
    let offset_number = le_u32(block, 0);
    if offset_number as u64 > block.len() as u64 {
        return None;
    }
    let offset = offset_number as usize;
    let ghost list_bytes = block@.skip(offset as int);
    let count = (block.len() - offset) / 2;
    let mut units: Vec<u16> = Vec::new();
    let mut i: usize = 0;
    while i < count
        invariant
            i <= count,
            count == (block@.len() - offset) / 2,
            offset + 2 * count <= block@.len() <= usize::MAX,
            list_bytes == block@.skip(offset as int),
            units@ == bytes_units(list_bytes).take(i as int),
        decreases count - i,
    {
        let low: u16 = block[offset + 2 * i] as u16;
        let high: u16 = block[offset + 2 * i + 1] as u16;
        units.push(low + 256 * high);
        proof {
            assert(list_bytes[2 * i as int] == low);
            assert(list_bytes[2 * i as int + 1] == high);
            assert(bytes_units(list_bytes).take(i + 1) =~= bytes_units(list_bytes).take(
                i as int,
            ).push((low + 256 * high) as u16));
        }
        i += 1;
    }
    assert(units@ =~= bytes_units(list_bytes));
    let r = read_list(&units);
    r
}

/// Reads the paths out of the list part of a block.
pub fn read_list(units: &Vec<u16>) -> (r: Option<Vec<String>>)
    ensures
        match r {
            Some(files) => decode_list(units@) == Some(crate::text::views(files@)),
            None => decode_list(units@) is None,
        },
{
    let mut files: Vec<String> = Vec::new();
    let mut pos: usize = 0;
    proof {
        assert(units@.skip(0) =~= units@);
        if let Some(rest) = decode_list(units@) {
            assert(crate::text::views(files@) + rest =~= rest);
        }
    }
    loop
        invariant
            pos <= units.len(),
            decode_list(units@) == (match decode_list(units@.skip(pos as int)) {
                Some(rest) => Some(crate::text::views(files@) + rest),
                None => None,
            }),
        decreases units.len() - pos,
    {
        let ghost tail = units@.skip(pos as int);
        let mut name: Vec<u16> = Vec::new();
        let mut end: usize = pos;
        while end < units.len() && units[end] != 0
            invariant
                pos <= end <= units.len(),
                tail == units@.skip(pos as int),
                name@ == tail.take(end - pos),
                forall|j: int| 0 <= j < end - pos ==> tail[j] != 0,
            decreases units.len() - end,
        {
            name.push(units[end]);
            assert(tail.take(end + 1 - pos) =~= tail.take(end - pos).push(units@[end as int]));
            end += 1;
        }
        proof {
            lemma_first_nul_found(tail, end - pos);
        }
        if end >= units.len() {
            return None;
        }
        if end == pos {
            proof {
                assert(decode_list(tail) == Some(Seq::<Seq<char>>::empty()));
                assert(crate::text::views(files@) + Seq::<Seq<char>>::empty()
                    =~= crate::text::views(files@));
            }
            return Some(files);
        }
        let ghost next_tail = units@.skip(end + 1);
        proof {
            assert(tail.skip(end - pos + 1) =~= next_tail);
            if let Some(rest_names) = split_list(next_tail) {
                let names = seq![name@] + rest_names;
                assert(names[0] == name@);
                assert(names.drop_first() =~= rest_names);
            }
        }
        match decode_wide(name.as_slice()) {
            None => {
                return None;
            },
            Some(path) => {
                proof {
                    if let Some(rest) = decode_list(next_tail) {
                        assert(crate::text::views(files@.push(path)) =~= crate::text::views(
                            files@,
                        ).push(path@));
                        assert(crate::text::views(files@) + (seq![path@] + rest)
                            =~= crate::text::views(files@).push(path@) + rest);
                    }
                }
                files.push(path);
                pos = end + 1;
            },
        }
    }
}

} // verus!

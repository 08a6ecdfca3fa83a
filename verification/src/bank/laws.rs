//! What holds of every bank file, stated over the layout in
//! [`crate::bank::format`] and proved from it.

use vstd::prelude::*;
use crate::bank::extract::{block_flag, blocks_from, VAG_BYTES_PER_BLOCK, VAG_END_FLAG};
use crate::bank::format::{
    banks_chunk, gap, insts_chunk, parse_from, samples_chunk, sdes_chunk, sdes_from, tag_of,
    with_bank_names, with_inst_names, with_sample_file_names, with_sample_names, with_sdes_names,
};
use crate::bank::parse::parsed_as;
use crate::bank::{
    BankEntryView, BankFile, BankFileView, InstEntryView, SampleEntryView, SdesEntryView, SdesPan,
};
use crate::io::{holds, u32_at, IOError};

verus! {

/// Parsing is a function of the bytes: whatever two runs over the same
/// bytes return, both fail with the same error or both give banks with the
/// same contents.
pub proof fn lemma_parse_is_deterministic(
    file: Seq<u8>,
    first: Result<BankFile, IOError>,
    second: Result<BankFile, IOError>,
)
    requires
        parsed_as(file, first),
        parsed_as(file, second),
    ensures
        match (first, second) {
            (Ok(a), Ok(b)) => a@ == b@,
            (Err(a), Err(b)) => a == b,
            _ => false,
        },
{
}

/// Names go to samples by position: the sample at an index that has a name
/// in the chunk gets that name and keeps the rest of what it held, and the
/// samples behind the last name are untouched. Names beyond the last
/// sample go nowhere: there are as many samples as before.
pub proof fn lemma_sample_names_by_position(entries: Seq<SampleEntryView>, names: Seq<Seq<char>>)
    ensures
        with_sample_names(entries, names).len() == entries.len(),
        forall|i: int|
            0 <= i < entries.len() && i < names.len() ==> #[trigger] with_sample_names(entries, names)[i]
                == (SampleEntryView { name: names[i], ..entries[i] }),
        forall|i: int|
            names.len() <= i < entries.len() ==> #[trigger] with_sample_names(entries, names)[i] == entries[i],
{
}

/// File names go to samples by position, as names do.
pub proof fn lemma_sample_file_names_by_position(entries: Seq<SampleEntryView>, names: Seq<Seq<char>>)
    ensures
        with_sample_file_names(entries, names).len() == entries.len(),
        forall|i: int|
            0 <= i < entries.len() && i < names.len() ==> #[trigger] with_sample_file_names(entries, names)[i]
                == (SampleEntryView { file_name: names[i], ..entries[i] }),
        forall|i: int|
            names.len() <= i < entries.len() ==> #[trigger] with_sample_file_names(entries, names)[i]
                == entries[i],
{
}

/// Names go to banks by position.
pub proof fn lemma_bank_names_by_position(entries: Seq<BankEntryView>, names: Seq<Seq<char>>)
    ensures
        with_bank_names(entries, names).len() == entries.len(),
        forall|i: int|
            0 <= i < entries.len() && i < names.len() ==> #[trigger] with_bank_names(entries, names)[i] == (
            BankEntryView { name: names[i], ..entries[i] }),
        forall|i: int|
            names.len() <= i < entries.len() ==> #[trigger] with_bank_names(entries, names)[i] == entries[i],
{
}

/// Names go to instruments by position.
pub proof fn lemma_inst_names_by_position(entries: Seq<InstEntryView>, names: Seq<Seq<char>>)
    ensures
        with_inst_names(entries, names).len() == entries.len(),
        forall|i: int|
            0 <= i < entries.len() && i < names.len() ==> #[trigger] with_inst_names(entries, names)[i] == (
            InstEntryView { name: names[i], ..entries[i] }),
        forall|i: int|
            names.len() <= i < entries.len() ==> #[trigger] with_inst_names(entries, names)[i] == entries[i],
{
}

/// Names go to sound descriptors by position.
pub proof fn lemma_sdes_names_by_position(entries: Seq<SdesEntryView>, names: Seq<Seq<char>>)
    ensures
        with_sdes_names(entries, names).len() == entries.len(),
        forall|i: int|
            0 <= i < entries.len() && i < names.len() ==> #[trigger] with_sdes_names(entries, names)[i] == (
            SdesEntryView { name: names[i], ..entries[i] }),
        forall|i: int|
            names.len() <= i < entries.len() ==> #[trigger] with_sdes_names(entries, names)[i] == entries[i],
{
}

/// A definition chunk leaves its entries unnamed: until a name chunk
/// reaches an entry, its name is empty.
pub proof fn lemma_defined_entries_are_unnamed(data: Seq<u8>, at: int)
    ensures
        samples_chunk(data, at) matches Ok((entries, _)) ==> forall|i: int|
            0 <= i < entries.len() ==> (#[trigger] entries[i]).name == Seq::<char>::empty()
                && entries[i].file_name == Seq::<char>::empty(),
        banks_chunk(data, at) matches Ok((entries, _)) ==> forall|i: int|
            0 <= i < entries.len() ==> (#[trigger] entries[i]).name == Seq::<char>::empty(),
        insts_chunk(data, at) matches Ok((entries, _)) ==> forall|i: int|
            0 <= i < entries.len() ==> (#[trigger] entries[i]).name == Seq::<char>::empty(),
        sdes_chunk(data, at) matches Ok((entries, _)) ==> forall|i: int|
            0 <= i < entries.len() ==> (#[trigger] entries[i]).name == Seq::<char>::empty(),
{
    if holds(data, at, 4) {
        lemma_sdes_unnamed(data, at + 4, at + 4 + u32_at(data, at));
    }
}

/// Entries that a definition chunk has just defined, named by a chunk with
/// fewer names than there are entries: those from the number of names on
/// are still unnamed.
pub proof fn lemma_short_name_chunk(data: Seq<u8>, at: int, names: Seq<Seq<char>>)
    ensures
        samples_chunk(data, at) matches Ok((entries, _)) ==> forall|i: int|
            names.len() <= i < entries.len() ==> (#[trigger] with_sample_names(entries, names)[i]).name
                == Seq::<char>::empty(),
        banks_chunk(data, at) matches Ok((entries, _)) ==> forall|i: int|
            names.len() <= i < entries.len() ==> (#[trigger] with_bank_names(entries, names)[i]).name
                == Seq::<char>::empty(),
        insts_chunk(data, at) matches Ok((entries, _)) ==> forall|i: int|
            names.len() <= i < entries.len() ==> (#[trigger] with_inst_names(entries, names)[i]).name
                == Seq::<char>::empty(),
        sdes_chunk(data, at) matches Ok((entries, _)) ==> forall|i: int|
            names.len() <= i < entries.len() ==> (#[trigger] with_sdes_names(entries, names)[i]).name
                == Seq::<char>::empty(),
{
    lemma_defined_entries_are_unnamed(data, at);
}

/// Every sound descriptor read from `at` on is unnamed.
proof fn lemma_sdes_unnamed(data: Seq<u8>, at: int, end: int)
    ensures
        sdes_from(data, at, end) matches Ok((entries, _)) ==> forall|i: int|
            0 <= i < entries.len() ==> (#[trigger] entries[i]).name == Seq::<char>::empty(),
    decreases gap(at, end),
{
    if at < end && holds(data, at, 27) {
        let next = at + 30 + u32_at(data, at + 4);
        if next <= u64::MAX {
            lemma_sdes_unnamed(data, next, end);
        }
    }
}

/// A pan byte is never refused: 0x00 is left, 0x40 is center, 0x7F is
/// right, and every other byte is center.
pub proof fn lemma_pan_of_byte(num: u8)
    ensures
        num == 0x00 ==> SdesPan::of_byte(num) == SdesPan::Left,
        num == 0x40 ==> SdesPan::of_byte(num) == SdesPan::Center,
        num == 0x7F ==> SdesPan::of_byte(num) == SdesPan::Right,
        num != 0x00 && num != 0x7F ==> SdesPan::of_byte(num) == SdesPan::Center,
{
}

/// A sample chunk of size `L` that can be read holds `L / 22` samples.
/// Where 22 divides `L`, those samples take up the chunk exactly.
pub proof fn lemma_sample_count(data: Seq<u8>, at: int)
    requires
        samples_chunk(data, at) is Ok,
    ensures
        ({
            let size = u32_at(data, at) as int;
            let (entries, end) = samples_chunk(data, at)->Ok_0;
            &&& entries.len() == size / 22
            &&& size % 22 == 0 ==> entries.len() * 22 == size && end == at + 4 + size
        }),
{
}

/// The end of the bytes where a tag is due ends parsing well, with the
/// bank as built so far.
pub proof fn lemma_end_of_bytes_at_tag(data: Seq<u8>, at: int, bank: BankFileView)
    requires
        0 <= at,
        at + 4 > data.len(),
    ensures
        parse_from(data, at, bank) == Ok::<BankFileView, IOError>(bank),
{
}

/// A tag that is not a known one ends parsing well too, and nothing behind
/// it is looked at.
pub proof fn lemma_unknown_tag(data: Seq<u8>, at: int, bank: BankFileView)
    requires
        holds(data, at, 4),
        tag_of(data.subrange(at, at + 4)) is None,
    ensures
        parse_from(data, at, bank) == Ok::<BankFileView, IOError>(bank),
{
}

/// The block that carries the end flag is the last block of its sample: a
/// sample of `n` whole blocks whose last block is the first to carry the
/// flag has exactly those `n` blocks, whatever follows them.
pub proof fn lemma_blocks_end_at_flag(data: Seq<u8>, at: int, n: nat)
    requires
        0 <= at,
        n >= 1,
        at + VAG_BYTES_PER_BLOCK * n <= data.len(),
        forall|k: int| 0 <= k < n - 1 ==> #[trigger] block_flag(data, at, k) != VAG_END_FLAG,
        block_flag(data, at, n - 1) == VAG_END_FLAG,
    ensures
        blocks_from(data, at).len() == n,
        forall|k: int|
            0 <= k < n ==> #[trigger] blocks_from(data, at)[k] == data.subrange(
                at + VAG_BYTES_PER_BLOCK * k,
                at + VAG_BYTES_PER_BLOCK * k + VAG_BYTES_PER_BLOCK,
            ),
    decreases n,
{
    if n > 1 {
        assert(block_flag(data, at, 0) != VAG_END_FLAG);
        assert forall|k: int| 0 <= k < n - 2 implies #[trigger] block_flag(data, at + 16, k)
            != VAG_END_FLAG by {
            assert(block_flag(data, at, k + 1) != VAG_END_FLAG);
        }
        assert(block_flag(data, at + 16, n - 2) == block_flag(data, at, n - 1));
        lemma_blocks_end_at_flag(data, at + 16, (n - 1) as nat);
        assert forall|k: int| 0 <= k < n implies #[trigger] blocks_from(data, at)[k] == data.subrange(
            at + VAG_BYTES_PER_BLOCK * k,
            at + VAG_BYTES_PER_BLOCK * k + VAG_BYTES_PER_BLOCK,
        ) by {
            if k > 0 {
                assert(blocks_from(data, at)[k] == blocks_from(data, at + 16)[k - 1]);
            }
        }
    }
}

} // verus!

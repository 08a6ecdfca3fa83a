//! The layout of a bank file, stated over its bytes.
//!
//! A bank file is a run of chunks. Each chunk opens with a four-byte tag and
//! a 32-bit size. Definition chunks hold records that add entries to one
//! collection; name chunks hold strings that name the entries already
//! there, first string to first entry. Reading stops at the end of the
//! bytes or at the first tag that is not one of the nine known ones.

use vstd::prelude::*;
use crate::bank::{BankEntryView, BankFileView, InstEntryView, SampleEntryView, SdesEntryView, SdesPan};
use crate::io::{holds, string_at, u16_at, u32_at, u8_at, IOError};

verus! {

/// The kinds of chunk that the reader knows.
#[derive(Debug, Clone, Copy, PartialEq, Eq, Structural)]
pub enum ChunkTag {
    /// `SAMP`: sample definitions.
    Samp,
    /// `SANM`: sample names.
    Sanm,
    /// `SAFN`: sample file names.
    Safn,
    /// `BANK`: bank definitions.
    Bank,
    /// `BKNM`: bank names.
    Bknm,
    /// `INST`: instrument definitions.
    Inst,
    /// `INNM`: instrument names.
    Innm,
    /// `SDES`: sound descriptor definitions.
    Sdes,
    /// `SDNM`: sound descriptor names.
    Sdnm,
}

/// Bytes of a sample record.
pub const SAMPLE_RECORD_LEN: u32 = 22;

/// Bytes of a bank record.
pub const BANK_RECORD_LEN: u32 = 13;

/// Bytes of an instrument record.
pub const INST_RECORD_LEN: u32 = 16;

/// Bytes of a sound descriptor record before its trailing bytes.
pub const SDES_RECORD_LEN: u32 = 30;

/// The four bytes `a b c d` in a row.
pub open spec fn fourcc(a: u8, b: u8, c: u8, d: u8) -> Seq<u8> {
    seq![a, b, c, d]
}

/// The chunk kind that the four bytes `magic` spell, if any.
pub open spec fn tag_of(magic: Seq<u8>) -> Option<ChunkTag> {
    if magic == fourcc(0x53, 0x41, 0x4D, 0x50) {
        Some(ChunkTag::Samp)
    } else if magic == fourcc(0x53, 0x41, 0x4E, 0x4D) {
        Some(ChunkTag::Sanm)
    } else if magic == fourcc(0x53, 0x41, 0x46, 0x4E) {
        Some(ChunkTag::Safn)
    } else if magic == fourcc(0x42, 0x41, 0x4E, 0x4B) {
        Some(ChunkTag::Bank)
    } else if magic == fourcc(0x42, 0x4B, 0x4E, 0x4D) {
        Some(ChunkTag::Bknm)
    } else if magic == fourcc(0x49, 0x4E, 0x53, 0x54) {
        Some(ChunkTag::Inst)
    } else if magic == fourcc(0x49, 0x4E, 0x4E, 0x4D) {
        Some(ChunkTag::Innm)
    } else if magic == fourcc(0x53, 0x44, 0x45, 0x53) {
        Some(ChunkTag::Sdes)
    } else if magic == fourcc(0x53, 0x44, 0x4E, 0x4D) {
        Some(ChunkTag::Sdnm)
    } else {
        None
    }
}

/// The sample that the record at `at` defines: channel count at byte 4,
/// sample rate at byte 8, offset into the sample file at byte 18.
pub open spec fn sample_record(data: Seq<u8>, at: int) -> SampleEntryView {
    SampleEntryView {
        name: Seq::empty(),
        file_name: Seq::empty(),
        channels: u32_at(data, at + 4),
        sample_rate: u32_at(data, at + 8),
        pos: u32_at(data, at + 18),
    }
}

/// The bank that the record at `at` defines: bank number at byte 8,
/// instrument count at byte 11.
pub open spec fn bank_record(data: Seq<u8>, at: int) -> BankEntryView {
    BankEntryView { name: Seq::empty(), bank_num: u8_at(data, at + 8), inst_count: u8_at(data, at + 11) }
}

/// The instrument that the record at `at` defines: program number at
/// byte 8, descriptor index at byte 14.
pub open spec fn inst_record(data: Seq<u8>, at: int) -> InstEntryView {
    InstEntryView { name: Seq::empty(), prog: u16_at(data, at + 8), sdes: u16_at(data, at + 14) }
}

/// The sound descriptor that the record at `at` defines: the pitch bytes
/// at 8 to 11, then volume, pan and sample index at 24 to 26.
pub open spec fn sdes_record(data: Seq<u8>, at: int) -> SdesEntryView {
    SdesEntryView {
        name: Seq::empty(),
        min_pitch: u8_at(data, at + 8),
        max_pitch: u8_at(data, at + 9),
        base_pitch: u8_at(data, at + 10),
        transpose: u8_at(data, at + 11),
        vol: u8_at(data, at + 24),
        pan: SdesPan::of_byte(u8_at(data, at + 25)),
        samp: u8_at(data, at + 26),
    }
}

/// The sample-definition chunk whose size field is at `at`: the samples it
/// defines and the offset behind its last record.
///
/// The chunk holds as many records as fit whole in its size. A size that
/// is no multiple of the record length leaves the rest unread, and the
/// next tag is looked for right behind the last whole record.
pub open spec fn samples_chunk(data: Seq<u8>, at: int) -> Result<(Seq<SampleEntryView>, int), IOError> {
    if !holds(data, at, 4) {
        Err(IOError::UnexpectedEof)
    } else {
        let count = u32_at(data, at) as int / SAMPLE_RECORD_LEN as int;
        let end = at + 4 + SAMPLE_RECORD_LEN * count;
        if end > data.len() {
            Err(IOError::UnexpectedEof)
        } else {
            Ok((Seq::new(count as nat, |i: int| sample_record(data, at + 4 + SAMPLE_RECORD_LEN * i)), end))
        }
    }
}

/// The bank-definition chunk whose size field is at `at`.
///
/// The last byte of a record is skipped, not read: the bytes may end one
/// short of the last record, as long as the offset behind it can still be
/// counted.
pub open spec fn banks_chunk(data: Seq<u8>, at: int) -> Result<(Seq<BankEntryView>, int), IOError> {
    if !holds(data, at, 4) {
        Err(IOError::UnexpectedEof)
    } else {
        let count = u32_at(data, at) as int / BANK_RECORD_LEN as int;
        let end = at + 4 + BANK_RECORD_LEN * count;
        if count > 0 && (end - 1 > data.len() || end > u64::MAX) {
            Err(IOError::UnexpectedEof)
        } else {
            Ok((Seq::new(count as nat, |i: int| bank_record(data, at + 4 + BANK_RECORD_LEN * i)), end))
        }
    }
}

/// The instrument-definition chunk whose size field is at `at`.
pub open spec fn insts_chunk(data: Seq<u8>, at: int) -> Result<(Seq<InstEntryView>, int), IOError> {
    if !holds(data, at, 4) {
        Err(IOError::UnexpectedEof)
    } else {
        let count = u32_at(data, at) as int / INST_RECORD_LEN as int;
        let end = at + 4 + INST_RECORD_LEN * count;
        if end > data.len() {
            Err(IOError::UnexpectedEof)
        } else {
            Ok((Seq::new(count as nat, |i: int| inst_record(data, at + 4 + INST_RECORD_LEN * i)), end))
        }
    }
}

/// `first` put before what `rest` found, or the error of `rest`.
pub open spec fn after<T>(first: Seq<T>, rest: Result<(Seq<T>, int), IOError>) -> Result<(Seq<T>, int), IOError> {
    match rest {
        Ok((more, stop)) => Ok((first + more, stop)),
        Err(e) => Err(e),
    }
}

/// How many bytes lie between `at` and `end`: none when `at` is at `end`
/// or behind it.
pub open spec fn gap(at: int, end: int) -> nat {
    if at < end {
        (end - at) as nat
    } else {
        0
    }
}

/// The sound descriptors from offset `at` on, up to the first record that
/// starts at `end` or later, and the offset where that record would start.
///
/// A record is 30 bytes and as many trailing bytes as its second field
/// says. Its last three bytes and the trailing bytes are skipped, not read.
pub open spec fn sdes_from(data: Seq<u8>, at: int, end: int) -> Result<(Seq<SdesEntryView>, int), IOError>
    decreases gap(at, end),
{
    if at >= end {
        Ok((Seq::empty(), at))
    } else if !holds(data, at, 27) {
        Err(IOError::UnexpectedEof)
    } else {
        let next = at + SDES_RECORD_LEN + u32_at(data, at + 4);
        if next > u64::MAX {
            Err(IOError::UnexpectedEof)
        } else {
            after(seq![sdes_record(data, at)], sdes_from(data, next, end))
        }
    }
}

/// The descriptor-definition chunk whose size field is at `at`.
pub open spec fn sdes_chunk(data: Seq<u8>, at: int) -> Result<(Seq<SdesEntryView>, int), IOError> {
    if !holds(data, at, 4) {
        Err(IOError::UnexpectedEof)
    } else {
        sdes_from(data, at + 4, at + 4 + u32_at(data, at))
    }
}

/// The strings from offset `at` on, up to the first that starts at `end`
/// or later, and the offset where that one would start.
pub open spec fn strings_from(data: Seq<u8>, at: int, end: int) -> Result<(Seq<Seq<char>>, int), IOError>
    decreases gap(at, end),
{
    if at >= end {
        Ok((Seq::empty(), at))
    } else {
        match string_at(data, at) {
            Ok((text, next)) => after(seq![text], strings_from(data, next, end)),
            Err(e) => Err(e),
        }
    }
}

/// The name chunk whose size field is at `at`: a four-byte field that is
/// skipped, then strings until the size is used up.
pub open spec fn strings_chunk(data: Seq<u8>, at: int) -> Result<(Seq<Seq<char>>, int), IOError> {
    if !holds(data, at, 4) || at + 8 > u64::MAX {
        Err(IOError::UnexpectedEof)
    } else {
        strings_from(data, at + 8, at + 4 + u32_at(data, at))
    }
}

/// `entries` with the names of `names` given to the entries at the same
/// index. Entries beyond the last name keep theirs; names beyond the last
/// entry are dropped.
pub open spec fn with_sample_names(entries: Seq<SampleEntryView>, names: Seq<Seq<char>>) -> Seq<SampleEntryView> {
    Seq::new(
        entries.len(),
        |i: int|
            if i < names.len() {
                SampleEntryView { name: names[i], ..entries[i] }
            } else {
                entries[i]
            },
    )
}

/// As [`with_sample_names`], for the file names of samples.
pub open spec fn with_sample_file_names(entries: Seq<SampleEntryView>, names: Seq<Seq<char>>) -> Seq<SampleEntryView> {
    Seq::new(
        entries.len(),
        |i: int|
            if i < names.len() {
                SampleEntryView { file_name: names[i], ..entries[i] }
            } else {
                entries[i]
            },
    )
}

/// As [`with_sample_names`], for banks.
pub open spec fn with_bank_names(entries: Seq<BankEntryView>, names: Seq<Seq<char>>) -> Seq<BankEntryView> {
    Seq::new(
        entries.len(),
        |i: int|
            if i < names.len() {
                BankEntryView { name: names[i], ..entries[i] }
            } else {
                entries[i]
            },
    )
}

/// As [`with_sample_names`], for instruments.
pub open spec fn with_inst_names(entries: Seq<InstEntryView>, names: Seq<Seq<char>>) -> Seq<InstEntryView> {
    Seq::new(
        entries.len(),
        |i: int|
            if i < names.len() {
                InstEntryView { name: names[i], ..entries[i] }
            } else {
                entries[i]
            },
    )
}

/// As [`with_sample_names`], for sound descriptors.
pub open spec fn with_sdes_names(entries: Seq<SdesEntryView>, names: Seq<Seq<char>>) -> Seq<SdesEntryView> {
    Seq::new(
        entries.len(),
        |i: int|
            if i < names.len() {
                SdesEntryView { name: names[i], ..entries[i] }
            } else {
                entries[i]
            },
    )
}

/// The bank that `bank` becomes by the chunk of kind `tag` whose size
/// field is at `at`, and the offset behind that chunk.
pub open spec fn chunk(data: Seq<u8>, at: int, tag: ChunkTag, bank: BankFileView) -> Result<(BankFileView, int), IOError> {
    match tag {
        ChunkTag::Samp => match samples_chunk(data, at) {
            Ok((entries, end)) => Ok((BankFileView { samples: bank.samples + entries, ..bank }, end)),
            Err(e) => Err(e),
        },
        ChunkTag::Sanm => match strings_chunk(data, at) {
            Ok((names, end)) => Ok((BankFileView { samples: with_sample_names(bank.samples, names), ..bank }, end)),
            Err(e) => Err(e),
        },
        ChunkTag::Safn => match strings_chunk(data, at) {
            Ok((names, end)) => Ok(
                (BankFileView { samples: with_sample_file_names(bank.samples, names), ..bank }, end),
            ),
            Err(e) => Err(e),
        },
        ChunkTag::Bank => match banks_chunk(data, at) {
            Ok((entries, end)) => Ok((BankFileView { banks: bank.banks + entries, ..bank }, end)),
            Err(e) => Err(e),
        },
        ChunkTag::Bknm => match strings_chunk(data, at) {
            Ok((names, end)) => Ok((BankFileView { banks: with_bank_names(bank.banks, names), ..bank }, end)),
            Err(e) => Err(e),
        },
        ChunkTag::Inst => match insts_chunk(data, at) {
            Ok((entries, end)) => Ok((BankFileView { insts: bank.insts + entries, ..bank }, end)),
            Err(e) => Err(e),
        },
        ChunkTag::Innm => match strings_chunk(data, at) {
            Ok((names, end)) => Ok((BankFileView { insts: with_inst_names(bank.insts, names), ..bank }, end)),
            Err(e) => Err(e),
        },
        ChunkTag::Sdes => match sdes_chunk(data, at) {
            Ok((entries, end)) => Ok((BankFileView { sdes: bank.sdes + entries, ..bank }, end)),
            Err(e) => Err(e),
        },
        ChunkTag::Sdnm => match strings_chunk(data, at) {
            Ok((names, end)) => Ok((BankFileView { sdes: with_sdes_names(bank.sdes, names), ..bank }, end)),
            Err(e) => Err(e),
        },
    }
}

/// What reading chunks from offset `at` on makes of `bank`.
///
/// Reading ends well, with the bank as it stands, where fewer than four
/// bytes are left for a tag and where the tag is not a known one. A chunk
/// that cannot be read whole ends it with that chunk's error.
pub open spec fn parse_from(data: Seq<u8>, at: int, bank: BankFileView) -> Result<BankFileView, IOError>
    decreases gap(at, data.len() as int),
{
    if !holds(data, at, 4) {
        Ok(bank)
    } else {
        match tag_of(data.subrange(at, at + 4)) {
            None => Ok(bank),
            Some(tag) => match chunk(data, at + 4, tag, bank) {
                Ok((next_bank, next)) => {
                    proof {
                        lemma_chunk_end(data, at + 4, tag, bank);
                    }
                    parse_from(data, next, next_bank)
                },
                Err(e) => Err(e),
            },
        }
    }
}

/// The bank that the bytes of a whole file describe.
pub open spec fn parse_bank(data: Seq<u8>) -> Result<BankFileView, IOError> {
    parse_from(data, 0, BankFileView::empty())
}

/// Sound descriptors are read forward: reading from `at` stops at `at` or
/// behind it.
pub proof fn lemma_sdes_stop(data: Seq<u8>, at: int, end: int)
    ensures
        sdes_from(data, at, end) matches Ok((_, stop)) ==> stop >= at && stop >= end,
    decreases gap(at, end),
{
    if at < end && holds(data, at, 27) {
        let next = at + SDES_RECORD_LEN + u32_at(data, at + 4);
        if next <= u64::MAX {
            lemma_sdes_stop(data, next, end);
        }
    }
}

/// Strings are read forward: reading from `at` stops at `at` or behind it.
pub proof fn lemma_strings_stop(data: Seq<u8>, at: int, end: int)
    ensures
        strings_from(data, at, end) matches Ok((_, stop)) ==> stop >= at && stop >= end,
    decreases gap(at, end),
{
    if at < end {
        if let Ok((_, next)) = string_at(data, at) {
            lemma_strings_stop(data, next, end);
        }
    }
}

/// A chunk ends at its size field or behind it.
pub proof fn lemma_chunk_end(data: Seq<u8>, at: int, tag: ChunkTag, bank: BankFileView)
    ensures
        chunk(data, at, tag, bank) matches Ok((_, end)) ==> end >= at + 4,
{
    if holds(data, at, 4) {
        lemma_sdes_stop(data, at + 4, at + 4 + u32_at(data, at));
        lemma_strings_stop(data, at + 8, at + 4 + u32_at(data, at));
    }
}

} // verus!

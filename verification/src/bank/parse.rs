//! Reading a bank out of bytes: the chunk dispatcher and the builders that
//! it hands each chunk to.

use vstd::prelude::*;
use crate::bank::format::{
    after, bank_record, banks_chunk, gap, inst_record, insts_chunk, lemma_chunk_end, parse_bank,
    parse_from, sample_record, samples_chunk, sdes_chunk, sdes_from, sdes_record, strings_chunk,
    strings_from, tag_of, with_bank_names, with_inst_names, with_sample_file_names, with_sample_names,
    with_sdes_names, ChunkTag, BANK_RECORD_LEN, INST_RECORD_LEN, SAMPLE_RECORD_LEN,
};
use crate::bank::{
    bank_views, inst_views, sample_views, sdes_views, texts, BankEntry, BankEntryView, BankFile,
    BankFileView, InstEntry, InstEntryView, SampleEntry, SampleEntryView, SdesEntry, SdesEntryView,
    SdesPan,
};
use crate::io::{holds, u32_at, ByteCursor, IOError};

verus! {

/// Whether `r` is what parsing the bytes `file` gives: the bank that the
/// bytes describe, or the error that ends their reading.
pub open spec fn parsed_as(file: Seq<u8>, r: Result<BankFile, IOError>) -> bool {
    match parse_bank(file) {
        Ok(bank) => r matches Ok(parsed) && parsed@ == bank,
        Err(e) => r matches Err(err) && err == e,
    }
}

impl ChunkTag {
    /// The chunk kind that a four-byte tag spells, if it is a known one.
    pub fn from_magic(magic: &[u8; 4]) -> (tag: Option<ChunkTag>)
        ensures
            tag == tag_of(magic@),
    {
        let (a, b, c, d) = (magic[0], magic[1], magic[2], magic[3]);
        assert(magic@ =~= seq![a, b, c, d]);
        if a == 0x53 && b == 0x41 && c == 0x4D && d == 0x50 {
            Some(ChunkTag::Samp)
        } else if a == 0x53 && b == 0x41 && c == 0x4E && d == 0x4D {
            Some(ChunkTag::Sanm)
        } else if a == 0x53 && b == 0x41 && c == 0x46 && d == 0x4E {
            Some(ChunkTag::Safn)
        } else if a == 0x42 && b == 0x41 && c == 0x4E && d == 0x4B {
            Some(ChunkTag::Bank)
        } else if a == 0x42 && b == 0x4B && c == 0x4E && d == 0x4D {
            Some(ChunkTag::Bknm)
        } else if a == 0x49 && b == 0x4E && c == 0x53 && d == 0x54 {
            Some(ChunkTag::Inst)
        } else if a == 0x49 && b == 0x4E && c == 0x4E && d == 0x4D {
            Some(ChunkTag::Innm)
        } else if a == 0x53 && b == 0x44 && c == 0x45 && d == 0x53 {
            Some(ChunkTag::Sdes)
        } else if a == 0x53 && b == 0x44 && c == 0x4E && d == 0x4D {
            Some(ChunkTag::Sdnm)
        } else {
            None
        }
    }
}

impl BankFile {
    /// Reads a sample-definition chunk, from its size field on, and adds its
    /// samples behind those already there.
    ///
    /// On failure neither the bank nor the reader changes.
    pub fn read_samples(&mut self, reader: &mut ByteCursor) -> (r: Result<(), IOError>)
        ensures
            match samples_chunk(old(reader).bytes(), old(reader).pos() as int) {
                Ok((entries, end)) => {
                    &&& r is Ok
                    &&& final(self)@ == (BankFileView { samples: old(self)@.samples + entries, ..old(self)@ })
                    &&& old(reader).moved_to(*final(reader), end)
                },
                Err(e) => {
                    &&& r == Err::<(), IOError>(e)
                    &&& *final(self) == *old(self)
                    &&& *final(reader) == *old(reader)
                },
            },
    {
        let ghost data = reader.bytes();
        let ghost start = reader.pos() as int;
        proof {
            reader.lemma_len();
        }
        let mut cursor = *reader;
        let size = cursor.read_u32()?;
        let entry_count = size / SAMPLE_RECORD_LEN;
        let mut entries: Vec<SampleEntry> = Vec::new();
        let mut i: u32 = 0;
        while i < entry_count
            invariant
                i <= entry_count,
                entry_count == u32_at(data, start) / SAMPLE_RECORD_LEN,
                holds(data, start, 4),
                cursor.bytes() == data,
                cursor.pos() == start + 4 + SAMPLE_RECORD_LEN * i,
                cursor.pos() <= data.len() <= usize::MAX,
                entries@.len() == i,
                forall|k: int|
                    0 <= k < i ==> (#[trigger] entries@[k])@ == sample_record(
                        data,
                        start + 4 + SAMPLE_RECORD_LEN * k,
                    ),
                *reader == *old(reader),
                *self == *old(self),
                data == old(reader).bytes(),
                start == old(reader).pos(),
            decreases entry_count - i,
        {
            cursor.seek(4)?;
            let channels = cursor.read_u32()?;
            let sample_rate = cursor.read_u32()?;
            cursor.seek(6)?;
            let pos = cursor.read_u32()?;
            entries.push(SampleEntry { channels, sample_rate, pos, ..Default::default() });
            i = i + 1;
        }
        assert(sample_views(entries@) =~= samples_chunk(data, start)->Ok_0.0);
        assert(sample_views(self.samples@ + entries@) =~= sample_views(self.samples@) + sample_views(entries@));
        self.samples.append(&mut entries);
        *reader = cursor;
        Ok(())
    }

    /// Reads a bank-definition chunk, from its size field on, and adds its
    /// banks behind those already there.
    ///
    /// On failure neither the bank nor the reader changes.
    pub fn read_banks(&mut self, reader: &mut ByteCursor) -> (r: Result<(), IOError>)
        ensures
            match banks_chunk(old(reader).bytes(), old(reader).pos() as int) {
                Ok((entries, end)) => {
                    &&& r is Ok
                    &&& final(self)@ == (BankFileView { banks: old(self)@.banks + entries, ..old(self)@ })
                    &&& old(reader).moved_to(*final(reader), end)
                },
                Err(e) => {
                    &&& r == Err::<(), IOError>(e)
                    &&& *final(self) == *old(self)
                    &&& *final(reader) == *old(reader)
                },
            },
    {
        let ghost data = reader.bytes();
        let ghost start = reader.pos() as int;
        proof {
            reader.lemma_len();
        }
        let mut cursor = *reader;
        let size = cursor.read_u32()?;
        let entry_count = size / BANK_RECORD_LEN;
        let mut entries: Vec<BankEntry> = Vec::new();
        let mut i: u32 = 0;
        while i < entry_count
            invariant
                i <= entry_count,
                entry_count == u32_at(data, start) / BANK_RECORD_LEN,
                holds(data, start, 4),
                data.len() <= usize::MAX,
                cursor.bytes() == data,
                cursor.pos() == start + 4 + BANK_RECORD_LEN * i,
                i > 0 ==> cursor.pos() - 1 <= data.len(),
                entries@.len() == i,
                forall|k: int|
                    0 <= k < i ==> (#[trigger] entries@[k])@ == bank_record(
                        data,
                        start + 4 + BANK_RECORD_LEN * k,
                    ),
                *reader == *old(reader),
                *self == *old(self),
                data == old(reader).bytes(),
                start == old(reader).pos(),
            decreases entry_count - i,
        {
            cursor.seek(4)?;
            cursor.seek(4)?;
            let bank_num = cursor.read_u8()?;
            cursor.seek(2)?;
            let inst_count = cursor.read_u8()?;
            cursor.seek(1)?;
            entries.push(BankEntry { bank_num, inst_count, ..Default::default() });
            i = i + 1;
        }
        assert(bank_views(entries@) =~= banks_chunk(data, start)->Ok_0.0);
        assert(bank_views(self.banks@ + entries@) =~= bank_views(self.banks@) + bank_views(entries@));
        self.banks.append(&mut entries);
        *reader = cursor;
        Ok(())
    }

    /// Reads an instrument-definition chunk, from its size field on, and
    /// adds its instruments behind those already there.
    ///
    /// On failure neither the bank nor the reader changes.
    pub fn read_insts(&mut self, reader: &mut ByteCursor) -> (r: Result<(), IOError>)
        ensures
            match insts_chunk(old(reader).bytes(), old(reader).pos() as int) {
                Ok((entries, end)) => {
                    &&& r is Ok
                    &&& final(self)@ == (BankFileView { insts: old(self)@.insts + entries, ..old(self)@ })
                    &&& old(reader).moved_to(*final(reader), end)
                },
                Err(e) => {
                    &&& r == Err::<(), IOError>(e)
                    &&& *final(self) == *old(self)
                    &&& *final(reader) == *old(reader)
                },
            },
    {
        let ghost data = reader.bytes();
        let ghost start = reader.pos() as int;
        proof {
            reader.lemma_len();
        }
        let mut cursor = *reader;
        let size = cursor.read_u32()?;
        let entry_count = size / INST_RECORD_LEN;
        let mut entries: Vec<InstEntry> = Vec::new();
        let mut i: u32 = 0;
        while i < entry_count
            invariant
                i <= entry_count,
                entry_count == u32_at(data, start) / INST_RECORD_LEN,
                holds(data, start, 4),
                cursor.bytes() == data,
                cursor.pos() == start + 4 + INST_RECORD_LEN * i,
                cursor.pos() <= data.len() <= usize::MAX,
                entries@.len() == i,
                forall|k: int|
                    0 <= k < i ==> (#[trigger] entries@[k])@ == inst_record(
                        data,
                        start + 4 + INST_RECORD_LEN * k,
                    ),
                *reader == *old(reader),
                *self == *old(self),
                data == old(reader).bytes(),
                start == old(reader).pos(),
            decreases entry_count - i,
        {
            cursor.seek(4)?;
            cursor.seek(4)?;
            let prog = cursor.read_u16()?;
            cursor.seek(4)?;
            let sdes = cursor.read_u16()?;
            entries.push(InstEntry { prog, sdes, ..Default::default() });
            i = i + 1;
        }
        assert(inst_views(entries@) =~= insts_chunk(data, start)->Ok_0.0);
        assert(inst_views(self.insts@ + entries@) =~= inst_views(self.insts@) + inst_views(entries@));
        self.insts.append(&mut entries);
        *reader = cursor;
        Ok(())
    }

    /// Reads a descriptor-definition chunk, from its size field on, and adds
    /// its sound descriptors behind those already there.
    ///
    /// On failure neither the bank nor the reader changes.
    pub fn read_sdes(&mut self, reader: &mut ByteCursor) -> (r: Result<(), IOError>)
        ensures
            match sdes_chunk(old(reader).bytes(), old(reader).pos() as int) {
                Ok((entries, end)) => {
                    &&& r is Ok
                    &&& final(self)@ == (BankFileView { sdes: old(self)@.sdes + entries, ..old(self)@ })
                    &&& old(reader).moved_to(*final(reader), end)
                },
                Err(e) => {
                    &&& r == Err::<(), IOError>(e)
                    &&& *final(self) == *old(self)
                    &&& *final(reader) == *old(reader)
                },
            },
    {
        let ghost data = reader.bytes();
        proof {
            reader.lemma_len();
        }
        let mut cursor = *reader;
        let size = cursor.read_u32()?;
        let body = cursor.stream_position();
        let ghost end = body + size;
        let mut entries: Vec<SdesEntry> = Vec::new();
        let mut done: u64 = 0;
        while done < size as u64
            invariant
                data.len() <= usize::MAX,
                cursor.bytes() == data,
                body <= cursor.pos(),
                done == cursor.pos() - body,
                end == body + size,
                after(sdes_views(entries@), sdes_from(data, cursor.pos() as int, end)) == sdes_from(
                    data,
                    body as int,
                    end,
                ),
                sdes_from(data, body as int, end) == sdes_chunk(old(reader).bytes(), old(reader).pos() as int),
                *reader == *old(reader),
                *self == *old(self),
            decreases gap(cursor.pos() as int, end),
        {
            let ghost at = cursor.pos() as int;
            cursor.seek(4)?;
            let end_bytes = cursor.read_u32()?;
            let min_pitch = cursor.read_u8()?;
            let max_pitch = cursor.read_u8()?;
            let base_pitch = cursor.read_u8()?;
            let transpose = cursor.read_u8()?;
            cursor.seek(12)?;
            let vol = cursor.read_u8()?;
            let pan = SdesPan::from(cursor.read_u8()?);
            let samp = cursor.read_u8()?;
            cursor.seek(3 + end_bytes as i64)?;
            let ghost before = entries@;
            entries.push(
                SdesEntry { min_pitch, max_pitch, base_pitch, transpose, vol, pan, samp, ..Default::default() },
            );
            assert(sdes_views(entries@) =~= sdes_views(before) + seq![sdes_record(data, at)]);
            assert(sdes_views(before) + (seq![sdes_record(data, at)] + sdes_from(
                data,
                cursor.pos() as int,
                end,
            )->Ok_0.0) =~= sdes_views(entries@) + sdes_from(data, cursor.pos() as int, end)->Ok_0.0);
            done = cursor.stream_position() - body;
        }
        assert(sdes_views(entries@) + Seq::<crate::bank::SdesEntryView>::empty() =~= sdes_views(entries@));
        assert(sdes_views(self.sdes@ + entries@) =~= sdes_views(self.sdes@) + sdes_views(entries@));
        self.sdes.append(&mut entries);
        *reader = cursor;
        Ok(())
    }

    /// Reads a name chunk, from its size field on: the strings it holds, in
    /// order.
    ///
    /// On failure the reader does not change.
    pub fn read_strings(reader: &mut ByteCursor) -> (r: Result<Vec<String>, IOError>)
        ensures
            match strings_chunk(old(reader).bytes(), old(reader).pos() as int) {
                Ok((names, end)) => {
                    &&& r matches Ok(strings)
                    &&& texts(strings@) == names
                    &&& old(reader).moved_to(*final(reader), end)
                },
                Err(e) => {
                    &&& r matches Err(err)
                    &&& err == e
                    &&& *final(reader) == *old(reader)
                },
            },
    {
        let ghost data = reader.bytes();
        proof {
            reader.lemma_len();
        }
        let mut cursor = *reader;
        let size = cursor.read_u32()?;
        let body = cursor.stream_position();
        let ghost end = body + size;
        cursor.seek(4)?;
        let ghost first = cursor.pos() as int;
        let mut strings: Vec<String> = Vec::new();
        let mut done: u64 = 4;
        while done < size as u64
            invariant
                data.len() <= usize::MAX,
                cursor.bytes() == data,
                body <= cursor.pos(),
                done == cursor.pos() - body,
                end == body + size,
                after(texts(strings@), strings_from(data, cursor.pos() as int, end)) == strings_from(
                    data,
                    first,
                    end,
                ),
                strings_from(data, first, end) == strings_chunk(old(reader).bytes(), old(reader).pos() as int),
                *reader == *old(reader),
            decreases gap(cursor.pos() as int, end),
        {
            let ghost at = cursor.pos() as int;
            let s = cursor.read_string()?;
            let ghost before = strings@;
            let ghost text = s@;
            strings.push(s);
            assert(texts(strings@) =~= texts(before) + seq![text]);
            assert(texts(before) + (seq![text] + strings_from(data, cursor.pos() as int, end)->Ok_0.0)
                =~= texts(strings@) + strings_from(data, cursor.pos() as int, end)->Ok_0.0);
            done = cursor.stream_position() - body;
        }
        assert(texts(strings@) + Seq::<Seq<char>>::empty() =~= texts(strings@));
        *reader = cursor;
        Ok(strings)
    }

    /// Gives the samples the names in `names`, first name to first sample.
    ///
    /// Samples beyond the last name keep the name they had; names beyond
    /// the last sample are dropped.
    pub fn set_sample_names(&mut self, names: Vec<String>)
        ensures
            final(self)@ == (BankFileView {
                samples: with_sample_names(old(self)@.samples, texts(names@)),
                ..old(self)@
            }),
    {
        let count = if names.len() < self.samples.len() {
            names.len()
        } else {
            self.samples.len()
        };
        let mut i: usize = 0;
        while i < count
            invariant
                i <= count,
                count <= names@.len(),
                count <= self.samples@.len(),
                self.samples@.len() == old(self).samples@.len(),
                self.banks == old(self).banks,
                self.insts == old(self).insts,
                self.sdes == old(self).sdes,
                forall|k: int|
                    0 <= k < i ==> (#[trigger] self.samples@[k])@ == (SampleEntryView {
                        name: names@[k]@,
                        ..old(self).samples@[k]@
                    }),
                forall|k: int| i <= k < self.samples@.len() ==> #[trigger] self.samples@[k] == old(self).samples@[k],
            decreases count - i,
        {
            self.samples[i].name = names[i].clone();
            i = i + 1;
        }
        assert(sample_views(self.samples@) =~= with_sample_names(sample_views(old(self).samples@), texts(names@)));
    }

    /// Gives the samples the file names in `names`, first name to first sample.
    ///
    /// Entries beyond the last name keep what they had; names beyond the
    /// last entry are dropped.
    pub fn set_sample_file_names(&mut self, names: Vec<String>)
        ensures
            final(self)@ == (BankFileView {
                samples: with_sample_file_names(old(self)@.samples, texts(names@)),
                ..old(self)@
            }),
    {
        let count = if names.len() < self.samples.len() {
            names.len()
        } else {
            self.samples.len()
        };
        let mut i: usize = 0;
        while i < count
            invariant
                i <= count,
                count <= names@.len(),
                count <= self.samples@.len(),
                self.samples@.len() == old(self).samples@.len(),
                self.banks == old(self).banks,
                self.insts == old(self).insts,
                self.sdes == old(self).sdes,
                forall|k: int|
                    0 <= k < i ==> (#[trigger] self.samples@[k])@ == (SampleEntryView {
                        file_name: names@[k]@,
                        ..old(self).samples@[k]@
                    }),
                forall|k: int| i <= k < self.samples@.len() ==> #[trigger] self.samples@[k] == old(self).samples@[k],
            decreases count - i,
        {
            self.samples[i].file_name = names[i].clone();
            i = i + 1;
        }
        assert(sample_views(self.samples@) =~= with_sample_file_names(sample_views(old(self).samples@), texts(names@)));
    }

    /// Gives the banks the names in `names`, first name to first bank.
    ///
    /// Entries beyond the last name keep what they had; names beyond the
    /// last entry are dropped.
    pub fn set_bank_names(&mut self, names: Vec<String>)
        ensures
            final(self)@ == (BankFileView {
                banks: with_bank_names(old(self)@.banks, texts(names@)),
                ..old(self)@
            }),
    {
        let count = if names.len() < self.banks.len() {
            names.len()
        } else {
            self.banks.len()
        };
        let mut i: usize = 0;
        while i < count
            invariant
                i <= count,
                count <= names@.len(),
                count <= self.banks@.len(),
                self.banks@.len() == old(self).banks@.len(),
                self.samples == old(self).samples,
                self.insts == old(self).insts,
                self.sdes == old(self).sdes,
                forall|k: int|
                    0 <= k < i ==> (#[trigger] self.banks@[k])@ == (BankEntryView {
                        name: names@[k]@,
                        ..old(self).banks@[k]@
                    }),
                forall|k: int| i <= k < self.banks@.len() ==> #[trigger] self.banks@[k] == old(self).banks@[k],
            decreases count - i,
        {
            self.banks[i].name = names[i].clone();
            i = i + 1;
        }
        assert(bank_views(self.banks@) =~= with_bank_names(bank_views(old(self).banks@), texts(names@)));
    }

    /// Gives the instruments the names in `names`, first name to first instrument.
    ///
    /// Entries beyond the last name keep what they had; names beyond the
    /// last entry are dropped.
    pub fn set_inst_names(&mut self, names: Vec<String>)
        ensures
            final(self)@ == (BankFileView {
                insts: with_inst_names(old(self)@.insts, texts(names@)),
                ..old(self)@
            }),
    {
        let count = if names.len() < self.insts.len() {
            names.len()
        } else {
            self.insts.len()
        };
        let mut i: usize = 0;
        while i < count
            invariant
                i <= count,
                count <= names@.len(),
                count <= self.insts@.len(),
                self.insts@.len() == old(self).insts@.len(),
                self.samples == old(self).samples,
                self.banks == old(self).banks,
                self.sdes == old(self).sdes,
                forall|k: int|
                    0 <= k < i ==> (#[trigger] self.insts@[k])@ == (InstEntryView {
                        name: names@[k]@,
                        ..old(self).insts@[k]@
                    }),
                forall|k: int| i <= k < self.insts@.len() ==> #[trigger] self.insts@[k] == old(self).insts@[k],
            decreases count - i,
        {
            self.insts[i].name = names[i].clone();
            i = i + 1;
        }
        assert(inst_views(self.insts@) =~= with_inst_names(inst_views(old(self).insts@), texts(names@)));
    }

    /// Gives the sound descriptors the names in `names`, first name to first descriptor.
    ///
    /// Entries beyond the last name keep what they had; names beyond the
    /// last entry are dropped.
    pub fn set_sdes_names(&mut self, names: Vec<String>)
        ensures
            final(self)@ == (BankFileView {
                sdes: with_sdes_names(old(self)@.sdes, texts(names@)),
                ..old(self)@
            }),
    {
        let count = if names.len() < self.sdes.len() {
            names.len()
        } else {
            self.sdes.len()
        };
        let mut i: usize = 0;
        while i < count
            invariant
                i <= count,
                count <= names@.len(),
                count <= self.sdes@.len(),
                self.sdes@.len() == old(self).sdes@.len(),
                self.samples == old(self).samples,
                self.banks == old(self).banks,
                self.insts == old(self).insts,
                forall|k: int|
                    0 <= k < i ==> (#[trigger] self.sdes@[k])@ == (SdesEntryView {
                        name: names@[k]@,
                        ..old(self).sdes@[k]@
                    }),
                forall|k: int| i <= k < self.sdes@.len() ==> #[trigger] self.sdes@[k] == old(self).sdes@[k],
            decreases count - i,
        {
            self.sdes[i].name = names[i].clone();
            i = i + 1;
        }
        assert(sdes_views(self.sdes@) =~= with_sdes_names(sdes_views(old(self).sdes@), texts(names@)));
    }

    /// Parses the contents of a bank file.
    ///
    /// Chunks are read in the order of the file. Reading ends, with the
    /// bank built so far, at the end of the bytes and at the first tag that
    /// is not a known one. It fails where a chunk runs past the end of the
    /// bytes ([`IOError::UnexpectedEof`]) and where a name is not valid
    /// UTF-8 ([`IOError::InvalidData`]).
    pub fn from_file(file: &[u8]) -> (r: Result<BankFile, IOError>)
        ensures
            parsed_as(file@, r),
    {
        let mut reader = ByteCursor::new(file);
        let mut magic = [0u8; 4];
        let mut bank = BankFile::default();
        loop
            invariant_except_break
                reader.bytes() == file@,
                parse_from(file@, reader.pos() as int, bank@) == parse_bank(file@),
            ensures
                parse_bank(file@) == Ok::<BankFileView, IOError>(bank@),
            decreases gap(reader.pos() as int, file@.len() as int),
        {
            let ghost at = reader.pos() as int;
            let ghost before = bank@;
            if let Err(_) = reader.read_bytes(&mut magic) {
                break;
            }
            let tag = match ChunkTag::from_magic(&magic) {
                Some(tag) => tag,
                None => {
                    break;
                },
            };
            proof {
                lemma_chunk_end(file@, at + 4, tag, before);
            }
            match tag {
                ChunkTag::Samp => {
                    bank.read_samples(&mut reader)?;
                },
                ChunkTag::Sanm => {
                    let strings = BankFile::read_strings(&mut reader)?;
                    bank.set_sample_names(strings);
                },
                ChunkTag::Safn => {
                    let strings = BankFile::read_strings(&mut reader)?;
                    bank.set_sample_file_names(strings);
                },
                ChunkTag::Bank => {
                    bank.read_banks(&mut reader)?;
                },
                ChunkTag::Bknm => {
                    let strings = BankFile::read_strings(&mut reader)?;
                    bank.set_bank_names(strings);
                },
                ChunkTag::Inst => {
                    bank.read_insts(&mut reader)?;
                },
                ChunkTag::Innm => {
                    let strings = BankFile::read_strings(&mut reader)?;
                    bank.set_inst_names(strings);
                },
                ChunkTag::Sdes => {
                    bank.read_sdes(&mut reader)?;
                },
                ChunkTag::Sdnm => {
                    let strings = BankFile::read_strings(&mut reader)?;
                    bank.set_sdes_names(strings);
                },
            }
        }
        Ok(bank)
    }
}

} // verus!

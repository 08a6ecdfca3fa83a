use amp_lib::bank::format::ChunkTag;
use amp_lib::bank::{BankEntry, BankFile, InstEntry, SampleEntry, SdesEntry, SdesPan};
use amp_lib::io::{ByteCursor, IOError};

fn chunk(tag: &[u8; 4], body: &[u8]) -> Vec<u8> {
    let mut out = tag.to_vec();
    out.extend_from_slice(&(body.len() as u32).to_le_bytes());
    out.extend_from_slice(body);
    out
}

fn sample_record(channels: u32, sample_rate: u32, pos: u32) -> Vec<u8> {
    let mut out = 18u32.to_le_bytes().to_vec();
    out.extend_from_slice(&channels.to_le_bytes());
    out.extend_from_slice(&sample_rate.to_le_bytes());
    out.extend_from_slice(&[0xAA; 6]);
    out.extend_from_slice(&pos.to_le_bytes());
    out
}

fn bank_record(bank_num: u8, inst_count: u8) -> Vec<u8> {
    let mut out = 9u32.to_le_bytes().to_vec();
    out.extend_from_slice(&[0xAA; 4]);
    out.push(bank_num);
    out.extend_from_slice(&[0xAA; 2]);
    out.push(inst_count);
    out.push(0xAA);
    out
}

fn inst_record(prog: u16, sdes: u16) -> Vec<u8> {
    let mut out = 12u32.to_le_bytes().to_vec();
    out.extend_from_slice(&1u32.to_le_bytes());
    out.extend_from_slice(&prog.to_le_bytes());
    out.extend_from_slice(&[0xAA; 4]);
    out.extend_from_slice(&sdes.to_le_bytes());
    out
}

fn sdes_record(pitch: [u8; 4], vol: u8, pan: u8, samp: u8, trailing: &[u8]) -> Vec<u8> {
    let mut out = (26 + trailing.len() as u32).to_le_bytes().to_vec();
    out.extend_from_slice(&(trailing.len() as u32).to_le_bytes());
    out.extend_from_slice(&pitch);
    out.extend_from_slice(&[0xAA; 12]);
    out.push(vol);
    out.push(pan);
    out.push(samp);
    out.extend_from_slice(&[0xAA; 3]);
    out.extend_from_slice(trailing);
    out
}

fn names(strings: &[&str]) -> Vec<u8> {
    let mut out = 1u32.to_le_bytes().to_vec();
    for s in strings {
        out.extend_from_slice(&(s.len() as u32).to_le_bytes());
        out.extend_from_slice(s.as_bytes());
    }
    out
}

fn two_samples() -> Vec<u8> {
    let mut body = sample_record(1, 44_100, 0);
    body.extend(sample_record(2, 22_050, 4_096));
    chunk(b"SAMP", &body)
}

#[test]
fn two_samples_get_their_names_in_order() {
    let mut file = two_samples();
    file.extend(chunk(b"SANM", &names(&["Kick", "Snare"])));
    let bank = BankFile::from_file(&file).unwrap();
    assert_eq!(bank.samples.len(), 2);
    assert_eq!(bank.samples[0].name, "Kick");
    assert_eq!(bank.samples[1].name, "Snare");
    assert_eq!(
        bank.samples[0],
        SampleEntry { name: "Kick".into(), file_name: String::new(), channels: 1, sample_rate: 44_100, pos: 0 }
    );
    assert_eq!(
        bank.samples[1],
        SampleEntry { name: "Snare".into(), file_name: String::new(), channels: 2, sample_rate: 22_050, pos: 4_096 }
    );
    assert!(bank.banks.is_empty());
    assert!(bank.insts.is_empty());
    assert!(bank.sdes.is_empty());
}

#[test]
fn parsing_twice_gives_the_same_bank() {
    let mut file = two_samples();
    file.extend(chunk(b"SANM", &names(&["Kick", "Snare"])));
    file.extend(chunk(b"SAFN", &names(&["kick.wav", "snare.wav"])));
    file.extend(chunk(b"BANK", &bank_record(3, 2)));
    file.extend(chunk(b"BKNM", &names(&["Drums"])));
    file.extend(chunk(b"INST", &inst_record(5, 0)));
    file.extend(chunk(b"INNM", &names(&["Kit"])));
    file.extend(chunk(b"SDES", &sdes_record([10, 20, 15, 0], 100, 0x40, 1, &[])));
    file.extend(chunk(b"SDNM", &names(&["Hit"])));
    let first = BankFile::from_file(&file);
    let second = BankFile::from_file(&file.clone());
    assert!(first.is_ok());
    assert_eq!(first, second);
    let broken = &file[..file.len() - 2];
    assert_eq!(BankFile::from_file(broken), BankFile::from_file(broken));
}

#[test]
fn a_whole_bank_is_read() {
    let mut file = two_samples();
    file.extend(chunk(b"SANM", &names(&["Kick", "Snare"])));
    file.extend(chunk(b"SAFN", &names(&["kick.wav", "snare.wav"])));
    let mut banks = bank_record(3, 2);
    banks.extend(bank_record(4, 0));
    file.extend(chunk(b"BANK", &banks));
    file.extend(chunk(b"BKNM", &names(&["Drums", "Bass"])));
    let mut insts = inst_record(5, 0);
    insts.extend(inst_record(0x0102, 0xFFFE));
    file.extend(chunk(b"INST", &insts));
    file.extend(chunk(b"INNM", &names(&["Kit", "Sub"])));
    let mut sdes = sdes_record([10, 20, 15, 2], 100, 0x00, 1, &[]);
    sdes.extend(sdes_record([1, 2, 3, 4], 5, 0x7F, 0, &[9, 9, 9, 9, 9]));
    sdes.extend(sdes_record([0, 127, 60, 0], 255, 0x40, 255, &[7]));
    file.extend(chunk(b"SDES", &sdes));
    file.extend(chunk(b"SDNM", &names(&["Hit", "Boom", "Tick"])));
    let bank = BankFile::from_file(&file).unwrap();
    assert_eq!(
        bank.samples,
        vec![
            SampleEntry {
                name: "Kick".into(),
                file_name: "kick.wav".into(),
                channels: 1,
                sample_rate: 44_100,
                pos: 0
            },
            SampleEntry {
                name: "Snare".into(),
                file_name: "snare.wav".into(),
                channels: 2,
                sample_rate: 22_050,
                pos: 4_096
            },
        ]
    );
    assert_eq!(
        bank.banks,
        vec![
            BankEntry { name: "Drums".into(), bank_num: 3, inst_count: 2 },
            BankEntry { name: "Bass".into(), bank_num: 4, inst_count: 0 },
        ]
    );
    assert_eq!(
        bank.insts,
        vec![
            InstEntry { name: "Kit".into(), prog: 5, sdes: 0 },
            InstEntry { name: "Sub".into(), prog: 0x0102, sdes: 0xFFFE },
        ]
    );
    assert_eq!(
        bank.sdes,
        vec![
            SdesEntry {
                name: "Hit".into(),
                min_pitch: 10,
                max_pitch: 20,
                base_pitch: 15,
                transpose: 2,
                vol: 100,
                pan: SdesPan::Left,
                samp: 1
            },
            SdesEntry {
                name: "Boom".into(),
                min_pitch: 1,
                max_pitch: 2,
                base_pitch: 3,
                transpose: 4,
                vol: 5,
                pan: SdesPan::Right,
                samp: 0
            },
            SdesEntry {
                name: "Tick".into(),
                min_pitch: 0,
                max_pitch: 127,
                base_pitch: 60,
                transpose: 0,
                vol: 255,
                pan: SdesPan::Center,
                samp: 255
            },
        ]
    );
}

#[test]
fn fewer_names_than_samples_leave_the_rest_unnamed() {
    let mut body = sample_record(1, 8_000, 0);
    body.extend(sample_record(1, 8_000, 16));
    body.extend(sample_record(1, 8_000, 32));
    let mut file = chunk(b"SAMP", &body);
    file.extend(chunk(b"SANM", &names(&["Kick"])));
    let bank = BankFile::from_file(&file).unwrap();
    assert_eq!(bank.samples.len(), 3);
    assert_eq!(bank.samples[0].name, "Kick");
    assert_eq!(bank.samples[1].name, "");
    assert_eq!(bank.samples[2].name, "");
    assert_eq!(bank.samples[2].pos, 32);
}

#[test]
fn more_names_than_samples_are_dropped() {
    let mut file = two_samples();
    file.extend(chunk(b"SANM", &names(&["Kick", "Snare", "Hat", "Tom"])));
    let bank = BankFile::from_file(&file).unwrap();
    assert_eq!(bank.samples.len(), 2);
    assert_eq!(bank.samples[0].name, "Kick");
    assert_eq!(bank.samples[1].name, "Snare");
}

#[test]
fn names_before_any_definition_go_nowhere() {
    let mut file = chunk(b"SANM", &names(&["Kick", "Snare"]));
    file.extend(two_samples());
    let bank = BankFile::from_file(&file).unwrap();
    assert_eq!(bank.samples.len(), 2);
    assert_eq!(bank.samples[0].name, "");
    assert_eq!(bank.samples[1].name, "");
}

#[test]
fn a_second_name_chunk_renames_by_position() {
    let mut file = two_samples();
    file.extend(chunk(b"SANM", &names(&["Kick", "Snare"])));
    file.extend(chunk(b"SANM", &names(&["Clap"])));
    let bank = BankFile::from_file(&file).unwrap();
    assert_eq!(bank.samples[0].name, "Clap");
    assert_eq!(bank.samples[1].name, "Snare");
}

#[test]
fn set_names_is_positional_for_every_kind() {
    let mut bank = BankFile::default();
    bank.samples.push(SampleEntry::default());
    bank.samples.push(SampleEntry { channels: 2, ..SampleEntry::default() });
    bank.banks.push(BankEntry { bank_num: 1, ..BankEntry::default() });
    bank.insts.push(InstEntry { prog: 7, ..InstEntry::default() });
    bank.insts.push(InstEntry::default());
    bank.sdes.push(SdesEntry { vol: 9, ..SdesEntry::default() });
    bank.set_sample_names(vec!["a".to_string()]);
    bank.set_sample_file_names(vec!["a.wav".to_string(), "b.wav".to_string(), "c.wav".to_string()]);
    bank.set_bank_names(vec!["x".to_string(), "y".to_string()]);
    bank.set_inst_names(vec![]);
    bank.set_sdes_names(vec!["s".to_string()]);
    assert_eq!(bank.samples[0], SampleEntry { name: "a".into(), file_name: "a.wav".into(), ..SampleEntry::default() });
    assert_eq!(
        bank.samples[1],
        SampleEntry { file_name: "b.wav".into(), channels: 2, ..SampleEntry::default() }
    );
    assert_eq!(bank.banks, vec![BankEntry { name: "x".into(), bank_num: 1, inst_count: 0 }]);
    assert_eq!(bank.insts, vec![InstEntry { prog: 7, ..InstEntry::default() }, InstEntry::default()]);
    assert_eq!(bank.sdes, vec![SdesEntry { name: "s".into(), vol: 9, ..SdesEntry::default() }]);
}

#[test]
fn pan_bytes_decode_without_error() {
    assert_eq!(SdesPan::from(0x00), SdesPan::Left);
    assert_eq!(SdesPan::from(0x40), SdesPan::Center);
    assert_eq!(SdesPan::from(0x7F), SdesPan::Right);
    for byte in 0..=255u8 {
        let expected = match byte {
            0x00 => SdesPan::Left,
            0x7F => SdesPan::Right,
            _ => SdesPan::Center,
        };
        assert_eq!(SdesPan::from(byte), expected);
    }
    assert_eq!(SdesPan::default(), SdesPan::Center);
}

#[test]
fn sample_count_is_the_size_over_22() {
    for count in [0usize, 1, 2, 5, 40] {
        let mut body = Vec::new();
        for i in 0..count {
            body.extend(sample_record(1, 11_025, 16 * i as u32));
        }
        assert_eq!(body.len(), 22 * count);
        let bank = BankFile::from_file(&chunk(b"SAMP", &body)).unwrap();
        assert_eq!(bank.samples.len(), count);
        for i in 0..count {
            assert_eq!(bank.samples[i].pos, 16 * i as u32);
        }
    }
}

#[test]
fn a_size_that_22_does_not_divide_is_cut_to_whole_records() {
    let mut body = sample_record(1, 8_000, 7);
    body.extend(sample_record(2, 16_000, 9));
    body.extend_from_slice(&[0xEE; 5]);
    assert_eq!(body.len(), 49);
    let mut file = chunk(b"SAMP", &body);
    file.extend(chunk(b"SANM", &names(&["Kick", "Snare"])));
    let bank = BankFile::from_file(&file).unwrap();
    assert_eq!(bank.samples.len(), 2);
    assert_eq!(bank.samples[1].channels, 2);
    assert_eq!(bank.samples[1].pos, 9);
    assert_eq!(bank.samples[0].name, "");
    assert_eq!(bank.samples[1].name, "");
    let mut reader = ByteCursor::new(&file);
    reader.seek(4).unwrap();
    let mut only = BankFile::default();
    assert_eq!(only.read_samples(&mut reader), Ok(()));
    assert_eq!(reader.stream_position(), 8 + 44);
    let small = chunk(b"SAMP", &[0xEE; 21]);
    assert_eq!(BankFile::from_file(&small), Ok(BankFile::default()));
}

#[test]
fn the_end_of_the_bytes_at_a_tag_ends_parsing_well() {
    assert_eq!(BankFile::from_file(&[]), Ok(BankFile::default()));
    assert_eq!(BankFile::from_file(b"S"), Ok(BankFile::default()));
    assert_eq!(BankFile::from_file(b"SAM"), Ok(BankFile::default()));
    let whole = two_samples();
    let expected = BankFile::from_file(&whole).unwrap();
    assert_eq!(expected.samples.len(), 2);
    for extra in [&b"S"[..], &b"SA"[..], &b"SAN"[..]] {
        let mut file = whole.clone();
        file.extend_from_slice(extra);
        assert_eq!(BankFile::from_file(&file), Ok(expected.clone()));
    }
}

#[test]
fn an_unknown_tag_ends_parsing_well() {
    let mut file = two_samples();
    file.extend_from_slice(b"XXXX");
    file.extend(chunk(b"SANM", &names(&["Kick", "Snare"])));
    let bank = BankFile::from_file(&file).unwrap();
    assert_eq!(bank.samples.len(), 2);
    assert_eq!(bank.samples[0].name, "");
    assert_eq!(BankFile::from_file(b"samp\x00\x00\x00\x00"), Ok(BankFile::default()));
    assert_eq!(BankFile::from_file(b"RIFF"), Ok(BankFile::default()));
}

#[test]
fn empty_chunks_add_nothing() {
    for tag in [b"SAMP", b"SANM", b"SAFN", b"BANK", b"BKNM", b"INST", b"INNM", b"SDES", b"SDNM"] {
        let file = chunk(tag, &[]);
        assert_eq!(BankFile::from_file(&file), Ok(BankFile::default()));
    }
    let mut file = chunk(b"SAMP", &[]);
    file.extend(two_samples());
    file.extend(chunk(b"SDES", &[]));
    file.extend(chunk(b"SANM", &names(&[])));
    assert_eq!(BankFile::from_file(&file).unwrap().samples.len(), 2);
}

#[test]
fn a_chunk_cut_short_is_an_error() {
    let whole = two_samples();
    for cut in 5..whole.len() {
        if cut == 8 {
            continue;
        }
        assert_eq!(BankFile::from_file(&whole[..cut]), Err(IOError::UnexpectedEof), "cut at {}", cut);
    }
    assert_eq!(BankFile::from_file(b"SAMP"), Err(IOError::UnexpectedEof));
    assert_eq!(BankFile::from_file(b"SANM\x01"), Err(IOError::UnexpectedEof));
    assert_eq!(BankFile::from_file(b"BANK\x0d\x00\x00"), Err(IOError::UnexpectedEof));
    assert_eq!(BankFile::from_file(b"INST"), Err(IOError::UnexpectedEof));
    assert_eq!(BankFile::from_file(b"SDES\x00\x00"), Err(IOError::UnexpectedEof));
    let names_chunk = chunk(b"SANM", &names(&["Kick", "Snare"]));
    assert_eq!(BankFile::from_file(&names_chunk[..names_chunk.len() - 1]), Err(IOError::UnexpectedEof));
    let insts = chunk(b"INST", &inst_record(1, 2));
    assert_eq!(BankFile::from_file(&insts[..insts.len() - 1]), Err(IOError::UnexpectedEof));
    let sdes = chunk(b"SDES", &sdes_record([1, 2, 3, 4], 5, 6, 7, &[]));
    assert_eq!(BankFile::from_file(&sdes[..8 + 26]), Err(IOError::UnexpectedEof));
}

#[test]
fn a_name_that_is_not_utf8_is_an_error() {
    let mut file = two_samples();
    let mut body = 1u32.to_le_bytes().to_vec();
    body.extend_from_slice(&2u32.to_le_bytes());
    body.extend_from_slice(&[0xC3, 0x28]);
    file.extend(chunk(b"SANM", &body));
    assert_eq!(BankFile::from_file(&file), Err(IOError::InvalidData));
}

#[test]
fn the_last_byte_of_a_bank_record_may_be_missing() {
    let mut banks = bank_record(3, 2);
    banks.extend(bank_record(4, 9));
    let file = chunk(b"BANK", &banks);
    let cut = &file[..file.len() - 1];
    let bank = BankFile::from_file(cut).unwrap();
    assert_eq!(
        bank.banks,
        vec![
            BankEntry { name: String::new(), bank_num: 3, inst_count: 2 },
            BankEntry { name: String::new(), bank_num: 4, inst_count: 9 },
        ]
    );
    assert_eq!(BankFile::from_file(&file[..file.len() - 2]), Err(IOError::UnexpectedEof));
    let mut reader = ByteCursor::new(cut);
    reader.seek(4).unwrap();
    let mut only = BankFile::default();
    assert_eq!(only.read_banks(&mut reader), Ok(()));
    assert_eq!(reader.stream_position(), cut.len() as u64 + 1);
}

#[test]
fn descriptors_skip_their_trailing_bytes() {
    let mut sdes = sdes_record([1, 2, 3, 4], 5, 0x7F, 7, &[0xBB; 11]);
    sdes.extend(sdes_record([8, 9, 10, 11], 12, 0x33, 14, &[]));
    let mut file = chunk(b"SDES", &sdes);
    file.extend(chunk(b"SDNM", &names(&["One", "Two"])));
    let bank = BankFile::from_file(&file).unwrap();
    assert_eq!(bank.sdes.len(), 2);
    assert_eq!(bank.sdes[0].pan, SdesPan::Right);
    assert_eq!(bank.sdes[0].samp, 7);
    assert_eq!(bank.sdes[1].min_pitch, 8);
    assert_eq!(bank.sdes[1].pan, SdesPan::Center);
    assert_eq!(bank.sdes[1].name, "Two");
}

#[test]
fn the_trailing_bytes_of_the_last_descriptor_may_be_missing() {
    let sdes = sdes_record([1, 2, 3, 4], 5, 0, 7, &[0xBB; 11]);
    let file = chunk(b"SDES", &sdes);
    let cut = &file[..8 + 27];
    let bank = BankFile::from_file(cut).unwrap();
    assert_eq!(bank.sdes.len(), 1);
    assert_eq!(bank.sdes[0].pan, SdesPan::Left);
    let mut reader = ByteCursor::new(cut);
    reader.seek(4).unwrap();
    let mut only = BankFile::default();
    assert_eq!(only.read_sdes(&mut reader), Ok(()));
    assert_eq!(reader.stream_position(), 8 + 30 + 11);
}

#[test]
fn a_failed_builder_changes_nothing() {
    let mut data = b"SAMP".to_vec();
    data.extend_from_slice(&44u32.to_le_bytes());
    data.extend_from_slice(&[0xFF; 10]);
    let mut reader = ByteCursor::new(&data);
    reader.seek(4).unwrap();
    let mut bank = BankFile::default();
    bank.samples.push(SampleEntry { name: "old".into(), ..SampleEntry::default() });
    let before = bank.clone();
    assert_eq!(bank.read_samples(&mut reader), Err(IOError::UnexpectedEof));
    assert_eq!(bank, before);
    assert_eq!(reader.stream_position(), 4);
    assert_eq!(bank.read_banks(&mut reader), Err(IOError::UnexpectedEof));
    assert_eq!(bank.read_insts(&mut reader), Err(IOError::UnexpectedEof));
    assert_eq!(bank.read_sdes(&mut reader), Err(IOError::UnexpectedEof));
    assert_eq!(BankFile::read_strings(&mut reader), Err(IOError::UnexpectedEof));
    assert_eq!(bank, before);
    assert_eq!(reader.stream_position(), 4);
}

#[test]
fn read_strings_stops_at_the_size() {
    let mut body = names(&["Kick", "Snare"]);
    let size = body.len() as u32;
    body.extend_from_slice(&3u32.to_le_bytes());
    body.extend_from_slice(b"Hat");
    let mut data = size.to_le_bytes().to_vec();
    data.extend_from_slice(&body);
    let mut reader = ByteCursor::new(&data);
    assert_eq!(BankFile::read_strings(&mut reader), Ok(vec!["Kick".to_string(), "Snare".to_string()]));
    assert_eq!(reader.stream_position(), 4 + size as u64);
    let empty = [4u8, 0, 0, 0];
    let mut reader = ByteCursor::new(&empty);
    assert_eq!(BankFile::read_strings(&mut reader), Ok(vec![]));
    assert_eq!(reader.stream_position(), 8);
}

#[test]
fn tags_are_told_apart() {
    assert_eq!(ChunkTag::from_magic(b"SAMP"), Some(ChunkTag::Samp));
    assert_eq!(ChunkTag::from_magic(b"SANM"), Some(ChunkTag::Sanm));
    assert_eq!(ChunkTag::from_magic(b"SAFN"), Some(ChunkTag::Safn));
    assert_eq!(ChunkTag::from_magic(b"BANK"), Some(ChunkTag::Bank));
    assert_eq!(ChunkTag::from_magic(b"BKNM"), Some(ChunkTag::Bknm));
    assert_eq!(ChunkTag::from_magic(b"INST"), Some(ChunkTag::Inst));
    assert_eq!(ChunkTag::from_magic(b"INNM"), Some(ChunkTag::Innm));
    assert_eq!(ChunkTag::from_magic(b"SDES"), Some(ChunkTag::Sdes));
    assert_eq!(ChunkTag::from_magic(b"SDNM"), Some(ChunkTag::Sdnm));
    assert_eq!(ChunkTag::from_magic(b"SAMp"), None);
    assert_eq!(ChunkTag::from_magic(b"PMAS"), None);
    assert_eq!(ChunkTag::from_magic(&[0; 4]), None);
}

#[test]
fn defaults_are_empty() {
    assert_eq!(
        SampleEntry::default(),
        SampleEntry { name: String::new(), file_name: String::new(), channels: 0, sample_rate: 0, pos: 0 }
    );
    assert_eq!(BankEntry::default(), BankEntry { name: String::new(), bank_num: 0, inst_count: 0 });
    assert_eq!(InstEntry::default(), InstEntry { name: String::new(), prog: 0, sdes: 0 });
    assert_eq!(SdesEntry::default().pan, SdesPan::Center);
    let bank = BankFile::default();
    assert!(bank.samples.is_empty() && bank.banks.is_empty() && bank.insts.is_empty() && bank.sdes.is_empty());
}

//! Laying out an extraction: which compressed blocks make up each sample,
//! and what the audio file made from them is called.
//!
//! Decoding the blocks and encoding the audio file are left to the caller;
//! this module settles what is decoded and where it goes.

use vstd::prelude::*;
use vstd::string::StringExecFns;
use crate::bank::format::gap;
use crate::bank::{BankFile, SampleEntry, SampleEntryView};
use crate::io::{holds, ByteCursor};

verus! {

/// Bytes of one block of compressed audio.
pub const VAG_BYTES_PER_BLOCK: usize = 16;

/// Samples that one block of compressed audio decodes to.
pub const VAG_SAMPLES_PER_BLOCK: usize = 28;

/// The flag, in the second byte of a block, that marks the last block of a
/// sample.
pub const VAG_END_FLAG: u8 = 0x07;

/// The blocks of the sample that starts at offset `at` of a sample file:
/// every whole block up to and including the first that carries the end
/// flag, or up to the end of the bytes where none does.
pub open spec fn blocks_from(data: Seq<u8>, at: int) -> Seq<Seq<u8>>
    decreases gap(at, data.len() as int),
{
    if !holds(data, at, VAG_BYTES_PER_BLOCK as int) {
        Seq::empty()
    } else {
        let block = data.subrange(at, at + VAG_BYTES_PER_BLOCK);
        if block[1] == VAG_END_FLAG {
            seq![block]
        } else {
            seq![block] + blocks_from(data, at + VAG_BYTES_PER_BLOCK)
        }
    }
}

/// The flag byte of block `k`, counted from 0, of the blocks that lie in a
/// row from offset `at` on.
pub open spec fn block_flag(data: Seq<u8>, at: int, k: int) -> u8 {
    data[at + VAG_BYTES_PER_BLOCK * k + 1]
}

/// The bytes of each block of `blocks`, in order.
pub open spec fn block_bytes(blocks: Seq<[u8; 16]>) -> Seq<Seq<u8>> {
    blocks.map_values(|b: [u8; 16]| b@)
}

/// One audio file of an extraction: what it is called and what goes in.
#[derive(Debug, Clone, PartialEq, Eq)]
pub struct SampleAudio {
    /// Name of the file, within the output directory.
    pub file_name: String,
    /// Channel count for the audio file's header.
    pub channels: u16,
    /// Samples per second, for the audio file's header.
    pub sample_rate: u32,
    /// The compressed blocks, to be decoded in this order by one decoder
    /// that no other sample shares.
    pub blocks: Vec<[u8; 16]>,
}

/// What a [`SampleAudio`] holds.
pub struct SampleAudioView {
    pub file_name: Seq<char>,
    pub channels: u16,
    pub sample_rate: u32,
    pub blocks: Seq<Seq<u8>>,
}

impl View for SampleAudio {
    type V = SampleAudioView;

    open spec fn view(&self) -> SampleAudioView {
        SampleAudioView {
            file_name: self.file_name@,
            channels: self.channels,
            sample_rate: self.sample_rate,
            blocks: block_bytes(self.blocks@),
        }
    }
}

/// The audio file that extraction makes of `sample`, with its blocks taken
/// from the sample file `data`: it is named after the sample, and a channel
/// count too large for the header keeps its low 16 bits.
pub open spec fn audio_of(sample: SampleEntryView, data: Seq<u8>) -> SampleAudioView {
    SampleAudioView {
        file_name: sample.name + ".wav"@,
        channels: (sample.channels % 0x1_0000) as u16,
        sample_rate: sample.sample_rate,
        blocks: blocks_from(data, sample.pos as int),
    }
}

/// What an extraction writes into its output directory.
#[derive(Debug, Clone, PartialEq, Eq)]
pub struct Extraction {
    /// One audio file for each sample of the bank, in the order of the bank.
    pub audio: Vec<SampleAudio>,
    /// Name of the file that sums up the bank. It is written last, and also
    /// where the bank has no sample.
    pub summary_file: String,
}

/// Gathers the blocks of the sample that starts at offset `pos` of
/// `sample_file`.
///
/// Blocks are taken until one carries the end flag; that block is the last
/// one taken. Bytes that end before the flag, or in the middle of a block,
/// end the sample without an error.
pub fn read_blocks(sample_file: &[u8], pos: u32) -> (blocks: Vec<[u8; 16]>)
    ensures
        block_bytes(blocks@) == blocks_from(sample_file@, pos as int),
{
    let mut reader = ByteCursor::new(sample_file);
    let _ = reader.seek(pos as i64);
    let mut blocks: Vec<[u8; 16]> = Vec::new();
    let mut block = [0u8; VAG_BYTES_PER_BLOCK];
    loop
        invariant_except_break
            reader.bytes() == sample_file@,
            block_bytes(blocks@) + blocks_from(sample_file@, reader.pos() as int) == blocks_from(
                sample_file@,
                pos as int,
            ),
        ensures
            block_bytes(blocks@) == blocks_from(sample_file@, pos as int),
        decreases gap(reader.pos() as int, sample_file@.len() as int),
    {
        let ghost at = reader.pos() as int;
        let ghost before = blocks@;
        if let Err(_) = reader.read_bytes(&mut block) {
            assert(block_bytes(blocks@) + Seq::<Seq<u8>>::empty() =~= block_bytes(blocks@));
            break;
        }
        blocks.push(block);
        assert(block_bytes(blocks@) =~= block_bytes(before) + seq![block@]);
        if block[1] == VAG_END_FLAG {
            break;
        }
        assert(block_bytes(before) + (seq![block@] + blocks_from(sample_file@, at + 16)) =~= block_bytes(
            blocks@,
        ) + blocks_from(sample_file@, at + 16));
    }
    blocks
}

impl BankFile {
    /// Lays out the audio files that extraction writes into the output
    /// directory: one for each sample, in the order of the bank, with its
    /// blocks gathered from `sample_file`.
    ///
    /// The summary of the bank is part of every extraction, under the name
    /// `bank.json`.
    pub fn extract_samples_to_dir(&self, sample_file: &[u8]) -> (extraction: Extraction)
        ensures
            extraction.audio@.len() == self.samples@.len(),
            forall|i: int|
                0 <= i < self.samples@.len() ==> (#[trigger] extraction.audio@[i])@ == audio_of(
                    self.samples@[i]@,
                    sample_file@,
                ),
            extraction.summary_file@ == "bank.json"@,
    {
        let mut audio: Vec<SampleAudio> = Vec::new();
        let mut i: usize = 0;
        while i < self.samples.len()
            invariant
                i <= self.samples@.len(),
                audio@.len() == i,
                forall|k: int|
                    0 <= k < i ==> (#[trigger] audio@[k])@ == audio_of(self.samples@[k]@, sample_file@),
            decreases self.samples@.len() - i,
        {
            audio.push(SampleAudio::of_sample(&self.samples[i], sample_file));
            i = i + 1;
        }
        Extraction { audio, summary_file: String::from_str("bank.json") }
    }
}

impl SampleAudio {
    /// The audio file that extraction makes of `sample`.
    pub fn of_sample(sample: &SampleEntry, sample_file: &[u8]) -> (audio: SampleAudio)
        ensures
            audio@ == audio_of(sample@, sample_file@),
    {
        let file_name = sample.name.clone().concat(".wav");
        SampleAudio {
            file_name,
            channels: (sample.channels % 0x1_0000) as u16,
            sample_rate: sample.sample_rate,
            blocks: read_blocks(sample_file, sample.pos),
        }
    }
}

} // verus!

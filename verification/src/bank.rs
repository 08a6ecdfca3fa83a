//! The entities of a sample bank and the aggregate that owns them.
//!
//! Every collection keeps the order in which the file defined its entries:
//! names arrive in later chunks and are matched to entries by index alone.

use vstd::prelude::*;
use vstd::std_specs::convert::FromSpecImpl;

pub mod extract;
pub mod format;
pub mod laws;
pub mod parse;



verus! {

/// One sample: its names and where its audio lies in the sample file.
#[derive(Debug, Clone, PartialEq, Eq)]
pub struct SampleEntry {
    pub name: String,
    pub file_name: String,
    pub channels: u32,
    pub sample_rate: u32,
    pub pos: u32,
}

/// What a [`SampleEntry`] holds, with its texts as sequences of characters.
pub struct SampleEntryView {
    pub name: Seq<char>,
    pub file_name: Seq<char>,
    pub channels: u32,
    pub sample_rate: u32,
    pub pos: u32,
}

impl View for SampleEntry {
    type V = SampleEntryView;

    open spec fn view(&self) -> SampleEntryView {
        SampleEntryView {
            name: self.name@,
            file_name: self.file_name@,
            channels: self.channels,
            sample_rate: self.sample_rate,
            pos: self.pos,
        }
    }
}

impl Default for SampleEntry {
    /// An unnamed sample with every number at zero.
    fn default() -> (entry: Self)
        ensures
            entry@ == (SampleEntryView {
                name: Seq::empty(),
                file_name: Seq::empty(),
                channels: 0,
                sample_rate: 0,
                pos: 0,
            }),
    {
        SampleEntry { name: String::new(), file_name: String::new(), channels: 0, sample_rate: 0, pos: 0 }
    }
}

/// One bank: its name, its number and how many instruments it has.
#[derive(Debug, Clone, PartialEq, Eq)]
pub struct BankEntry {
    pub name: String,
    pub bank_num: u8,
    pub inst_count: u8,
}

/// What a [`BankEntry`] holds, with its name as a sequence of characters.
pub struct BankEntryView {
    pub name: Seq<char>,
    pub bank_num: u8,
    pub inst_count: u8,
}

impl View for BankEntry {
    type V = BankEntryView;

    open spec fn view(&self) -> BankEntryView {
        BankEntryView { name: self.name@, bank_num: self.bank_num, inst_count: self.inst_count }
    }
}

impl Default for BankEntry {
    /// An unnamed bank with every number at zero.
    fn default() -> (entry: Self)
        ensures
            entry@ == (BankEntryView { name: Seq::empty(), bank_num: 0, inst_count: 0 }),
    {
        BankEntry { name: String::new(), bank_num: 0, inst_count: 0 }
    }
}

/// One instrument: its name, its program number and the index of its
/// descriptor. The index is kept as read; nothing checks that it is in range.
#[derive(Debug, Clone, PartialEq, Eq)]
pub struct InstEntry {
    pub name: String,
    pub prog: u16,
    pub sdes: u16,
}

/// What an [`InstEntry`] holds, with its name as a sequence of characters.
pub struct InstEntryView {
    pub name: Seq<char>,
    pub prog: u16,
    pub sdes: u16,
}

impl View for InstEntry {
    type V = InstEntryView;

    open spec fn view(&self) -> InstEntryView {
        InstEntryView { name: self.name@, prog: self.prog, sdes: self.sdes }
    }
}

impl Default for InstEntry {
    /// An unnamed instrument with every number at zero.
    fn default() -> (entry: Self)
        ensures
            entry@ == (InstEntryView { name: Seq::empty(), prog: 0, sdes: 0 }),
    {
        InstEntry { name: String::new(), prog: 0, sdes: 0 }
    }
}

/// Where a sound sits between the two speakers.
#[derive(Debug, Clone, Copy, PartialEq, Eq, Structural)]
pub enum SdesPan {
    Left,
    Center,
    Right,
}

impl Default for SdesPan {
    fn default() -> (pan: Self)
        ensures
            pan == SdesPan::Center,
    {
        SdesPan::Center
    }
}

impl SdesPan {
    /// The pan that a byte of the format stands for: 0x00 is left, 0x7F is
    /// right, and 0x40 and every other byte are center.
    pub open spec fn of_byte(num: u8) -> SdesPan {
        if num == 0x0 {
            SdesPan::Left
        } else if num == 0x7F {
            SdesPan::Right
        } else {
            SdesPan::Center
        }
    }
}

impl From<u8> for SdesPan {
    /// Decodes a pan byte. The format stores 0x00 for left, 0x40 for center
    /// and 0x7F for right; any other byte is read as center.
    fn from(num: u8) -> (pan: Self) {
        match num {
            0x0 => SdesPan::Left,
            0x40 => SdesPan::Center,
            0x7F => SdesPan::Right,
            _ => SdesPan::Center,
        }
    }
}

impl FromSpecImpl<u8> for SdesPan {
    open spec fn obeys_from_spec() -> bool {
        true
    }

    open spec fn from_spec(num: u8) -> Self {
        SdesPan::of_byte(num)
    }
}

/// One sound descriptor: how a sample is played.
#[derive(Debug, Clone, PartialEq, Eq)]
pub struct SdesEntry {
    pub name: String,
    pub min_pitch: u8,
    pub max_pitch: u8,
    pub base_pitch: u8,
    pub transpose: u8,
    pub vol: u8,
    pub pan: SdesPan,
    pub samp: u8,
}

/// What an [`SdesEntry`] holds, with its name as a sequence of characters.
pub struct SdesEntryView {
    pub name: Seq<char>,
    pub min_pitch: u8,
    pub max_pitch: u8,
    pub base_pitch: u8,
    pub transpose: u8,
    pub vol: u8,
    pub pan: SdesPan,
    pub samp: u8,
}

impl View for SdesEntry {
    type V = SdesEntryView;

    open spec fn view(&self) -> SdesEntryView {
        SdesEntryView {
            name: self.name@,
            min_pitch: self.min_pitch,
            max_pitch: self.max_pitch,
            base_pitch: self.base_pitch,
            transpose: self.transpose,
            vol: self.vol,
            pan: self.pan,
            samp: self.samp,
        }
    }
}

impl Default for SdesEntry {
    /// An unnamed, centered descriptor with every number at zero.
    fn default() -> (entry: Self)
        ensures
            entry@ == (SdesEntryView {
                name: Seq::empty(),
                min_pitch: 0,
                max_pitch: 0,
                base_pitch: 0,
                transpose: 0,
                vol: 0,
                pan: SdesPan::Center,
                samp: 0,
            }),
    {
        SdesEntry {
            name: String::new(),
            min_pitch: 0,
            max_pitch: 0,
            base_pitch: 0,
            transpose: 0,
            vol: 0,
            pan: SdesPan::Center,
            samp: 0,
        }
    }
}

/// A parsed bank file: its samples, banks, instruments and sound
/// descriptors, each in the order of the file.
#[derive(Debug, Clone, PartialEq, Eq)]
pub struct BankFile {
    pub samples: Vec<SampleEntry>,
    pub banks: Vec<BankEntry>,
    pub insts: Vec<InstEntry>,
    pub sdes: Vec<SdesEntry>,
}

/// The views of `entries`, in order.
pub open spec fn sample_views(entries: Seq<SampleEntry>) -> Seq<SampleEntryView> {
    entries.map_values(|e: SampleEntry| e@)
}

/// The views of `entries`, in order.
pub open spec fn bank_views(entries: Seq<BankEntry>) -> Seq<BankEntryView> {
    entries.map_values(|e: BankEntry| e@)
}

/// The views of `entries`, in order.
pub open spec fn inst_views(entries: Seq<InstEntry>) -> Seq<InstEntryView> {
    entries.map_values(|e: InstEntry| e@)
}

/// The views of `entries`, in order.
pub open spec fn sdes_views(entries: Seq<SdesEntry>) -> Seq<SdesEntryView> {
    entries.map_values(|e: SdesEntry| e@)
}

/// The texts of `strings`, in order.
pub open spec fn texts(strings: Seq<String>) -> Seq<Seq<char>> {
    strings.map_values(|s: String| s@)
}

/// What a [`BankFile`] holds: the views of its entries, in order.
pub struct BankFileView {
    pub samples: Seq<SampleEntryView>,
    pub banks: Seq<BankEntryView>,
    pub insts: Seq<InstEntryView>,
    pub sdes: Seq<SdesEntryView>,
}

impl BankFileView {
    /// The bank without any entry.
    pub open spec fn empty() -> BankFileView {
        BankFileView { samples: Seq::empty(), banks: Seq::empty(), insts: Seq::empty(), sdes: Seq::empty() }
    }
}

impl View for BankFile {
    type V = BankFileView;

    open spec fn view(&self) -> BankFileView {
        BankFileView {
            samples: sample_views(self.samples@),
            banks: bank_views(self.banks@),
            insts: inst_views(self.insts@),
            sdes: sdes_views(self.sdes@),
        }
    }
}

impl Default for BankFile {
    /// The bank without any entry.
    fn default() -> (bank: Self)
        ensures
            bank@ == BankFileView::empty(),
    {
        let bank = BankFile { samples: Vec::new(), banks: Vec::new(), insts: Vec::new(), sdes: Vec::new() };
        assert(bank@.samples =~= Seq::empty());
        assert(bank@.banks =~= Seq::empty());
        assert(bank@.insts =~= Seq::empty());
        assert(bank@.sdes =~= Seq::empty());
        bank
    }
}

} // verus!

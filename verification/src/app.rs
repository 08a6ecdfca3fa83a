//! The viewer: which bank a song directory names, and what the viewer
//! holds once the bank is open.
//!
//! A song directory holds a MIDI file whose track `BANK` names, in its
//! first text event, the bank that the song plays. The caller reads the
//! directory and the MIDI file and reports what it found; the functions
//! here pick the MIDI files and the name of the bank.

use vstd::prelude::*;
use crate::bank::BankFile;
use crate::text::{ends_with, equals, is_suffix};

verus! {

/// A meta event of a MIDI track that carries text.
#[derive(Debug, Clone, PartialEq, Eq)]
pub struct MidiText {
    /// Whether the event has a position in real time.
    pub timed: bool,
    /// Whether the event is plain text, not a lyric, a marker or a name.
    pub is_text: bool,
    /// The text of the event, where it can be read as text.
    pub text: Option<String>,
}

/// An event of a MIDI track, as far as the viewer looks at it.
#[derive(Debug, Clone, PartialEq, Eq)]
pub enum MidiEvent {
    Meta(MidiText),
    Other,
}

/// A track of a MIDI file.
#[derive(Debug, Clone, PartialEq, Eq)]
pub struct MidiTrack {
    pub name: Option<String>,
    pub events: Vec<MidiEvent>,
}

/// Whether a file name ends in `.mid`.
pub open spec fn is_midi_name(name: Seq<char>) -> bool {
    is_suffix(name, ".mid"@)
}

/// Whether a track is called `BANK`.
pub open spec fn is_bank_track(track: MidiTrack) -> bool {
    track.name matches Some(name) && name@ == "BANK"@
}

/// Whether an event can name a bank: whether it is a text event with a
/// position in real time.
pub open spec fn is_bank_event(event: MidiEvent) -> bool {
    event matches MidiEvent::Meta(text) && text.timed && text.is_text
}

/// The text of an event, where it is a meta event whose text can be read.
pub open spec fn text_of(event: MidiEvent) -> Option<Seq<char>> {
    match event {
        MidiEvent::Meta(text) => match text.text {
            Some(t) => Some(t@),
            None => None,
        },
        MidiEvent::Other => None,
    }
}

/// The index of the first track called `BANK`, or the number of tracks
/// where none is.
pub open spec fn bank_track_index(tracks: Seq<MidiTrack>) -> int
    decreases tracks.len(),
{
    if tracks.len() == 0 || is_bank_track(tracks[0]) {
        0
    } else {
        1 + bank_track_index(tracks.skip(1))
    }
}

/// The index of the first event that can name a bank, or the number of
/// events where none can.
pub open spec fn bank_event_index(events: Seq<MidiEvent>) -> int
    decreases events.len(),
{
    if events.len() == 0 || is_bank_event(events[0]) {
        0
    } else {
        1 + bank_event_index(events.skip(1))
    }
}

/// Whether the tracks have one called `BANK`, and the text of every event
/// of the first such track that can name a bank can be read.
pub open spec fn names_are_readable(tracks: Seq<MidiTrack>) -> bool {
    let track = bank_track_index(tracks);
    &&& track < tracks.len()
    &&& forall|k: int|
        0 <= k < tracks[track].events@.len() && is_bank_event(#[trigger] tracks[track].events@[k])
            ==> text_of(tracks[track].events@[k]) is Some
}

/// The bank that the tracks name: the text of the first event that can
/// name a bank in the first track called `BANK`.
pub open spec fn named_bank(tracks: Seq<MidiTrack>) -> Option<Seq<char>> {
    let track = bank_track_index(tracks);
    if track >= tracks.len() {
        None
    } else {
        let events = tracks[track].events@;
        let event = bank_event_index(events);
        if event >= events.len() {
            None
        } else {
            text_of(events[event])
        }
    }
}

/// The first track called `BANK` is the one that no such track precedes.
pub proof fn lemma_bank_track_index(tracks: Seq<MidiTrack>, i: int)
    requires
        0 <= i <= tracks.len(),
        forall|k: int| 0 <= k < i ==> !is_bank_track(#[trigger] tracks[k]),
        i < tracks.len() ==> is_bank_track(tracks[i]),
    ensures
        bank_track_index(tracks) == i,
    decreases i,
{
    if i > 0 {
        assert(!is_bank_track(tracks[0]));
        let rest = tracks.skip(1);
        assert forall|k: int| 0 <= k < i - 1 implies !is_bank_track(#[trigger] rest[k]) by {
            assert(!is_bank_track(tracks[k + 1]));
        }
        lemma_bank_track_index(rest, i - 1);
    }
}

/// The first event that can name a bank is the one that no such event
/// precedes.
pub proof fn lemma_bank_event_index(events: Seq<MidiEvent>, i: int)
    requires
        0 <= i <= events.len(),
        forall|k: int| 0 <= k < i ==> !is_bank_event(#[trigger] events[k]),
        i < events.len() ==> is_bank_event(events[i]),
    ensures
        bank_event_index(events) == i,
    decreases i,
{
    if i > 0 {
        assert(!is_bank_event(events[0]));
        let rest = events.skip(1);
        assert forall|k: int| 0 <= k < i - 1 implies !is_bank_event(#[trigger] rest[k]) by {
            assert(!is_bank_event(events[k + 1]));
        }
        lemma_bank_event_index(rest, i - 1);
    }
}

/// Picks the MIDI files out of a directory listing: the indices of the
/// names that end in `.mid`, in the order of the listing.
pub fn midi_files(file_names: &Vec<String>) -> (found: Vec<usize>)
    ensures
        forall|k: int|
            0 <= k < found@.len() ==> found@[k] < file_names@.len() && is_midi_name(
                file_names@[found@[k] as int]@,
            ),
        forall|j: int, k: int| 0 <= j < k < found@.len() ==> found@[j] < found@[k],
        forall|i: int|
            0 <= i < file_names@.len() && is_midi_name(#[trigger] file_names@[i]@) ==> found@.contains(i as usize),
{
    let mut found: Vec<usize> = Vec::new();
    let mut i: usize = 0;
    while i < file_names.len()
        invariant
            i <= file_names@.len(),
            forall|k: int|
                0 <= k < found@.len() ==> found@[k] < i && is_midi_name(file_names@[found@[k] as int]@),
            forall|j: int, k: int| 0 <= j < k < found@.len() ==> found@[j] < found@[k],
            forall|n: int| 0 <= n < i && is_midi_name(#[trigger] file_names@[n]@) ==> found@.contains(n as usize),
        decreases file_names@.len() - i,
    {
        if ends_with(file_names[i].as_str(), ".mid") {
            let ghost before = found@;
            found.push(i);
            assert(found@[before.len() as int] == i);
            assert forall|n: int| 0 <= n < i + 1 && is_midi_name(#[trigger] file_names@[n]@) implies found@.contains(
                n as usize,
            ) by {
                if n < i {
                    let k = choose|k: int| 0 <= k < before.len() && before[k] == n as usize;
                    assert(found@[k] == n as usize);
                }
            }
        }
        i = i + 1;
    }
    found
}

/// Finds the bank that a MIDI file names: the text of the first event, in
/// the first track called `BANK`, that is a text event with a position in
/// real time. Gives nothing where that track has no such event.
///
/// The file must have a track called `BANK`, and the text of every event
/// of that track that can name a bank must be readable.
pub fn bank_name(tracks: &Vec<MidiTrack>) -> (name: Option<String>)
    requires
        names_are_readable(tracks@),
    ensures
        match named_bank(tracks@) {
            Some(text) => name matches Some(found) && found@ == text,
            None => name is None,
        },
{
    let mut i: usize = 0;
    while i < tracks.len() && !is_named_bank(&tracks[i])
        invariant
            i <= tracks@.len(),
            forall|k: int| 0 <= k < i ==> !is_bank_track(#[trigger] tracks@[k]),
        decreases tracks@.len() - i,
    {
        i = i + 1;
    }
    proof {
        lemma_bank_track_index(tracks@, i as int);
    }
    let events = &tracks[i].events;
    let mut k: usize = 0;
    while k < events.len()
        invariant
            k <= events@.len(),
            events@ == tracks@[i as int].events@,
            bank_track_index(tracks@) == i,
            names_are_readable(tracks@),
            forall|j: int| 0 <= j < k ==> !is_bank_event(#[trigger] events@[j]),
        decreases events@.len() - k,
    {
        match &events[k] {
            MidiEvent::Meta(text) => {
                if text.timed && text.is_text {
                    proof {
                        assert(is_bank_event(events@[k as int]));
                        lemma_bank_event_index(events@, k as int);
                    }
                    match &text.text {
                        Some(t) => {
                            return Some(t.clone());
                        },
                        None => {
                            return None;
                        },
                    }
                }
            },
            MidiEvent::Other => {},
        }
        k = k + 1;
    }
    proof {
        lemma_bank_event_index(events@, k as int);
    }
    None
}

/// Whether a track is called `BANK`.
fn is_named_bank(track: &MidiTrack) -> (r: bool)
    ensures
        r == is_bank_track(*track),
{
    match &track.name {
        Some(name) => equals(name.as_str(), "BANK"),
        None => false,
    }
}

/// What the viewer holds: the directory that is open, the bank found in
/// it, and the sample that is selected.
#[derive(Debug)]
pub struct AmpApp {
    dir_path: Option<String>,
    bank_file: Option<BankFile>,
    selected_sample_index: usize,
}

impl AmpApp {
    /// The directory that is open, if any.
    pub closed spec fn dir_path(&self) -> Option<String> {
        self.dir_path
    }

    /// The bank that is shown, if any.
    pub closed spec fn bank_file(&self) -> Option<BankFile> {
        self.bank_file
    }

    /// The index of the selected sample.
    pub closed spec fn selected_sample_index(&self) -> usize {
        self.selected_sample_index
    }

    /// Whether the viewer holds nothing.
    pub open spec fn is_reset(&self) -> bool {
        self.dir_path() is None && self.bank_file() is None && self.selected_sample_index() == 0
    }

    /// Forgets the directory and the bank, and selects the first sample.
    pub fn reset_state(&mut self)
        ensures
            final(self).is_reset(),
    {
        self.dir_path = None;
        self.bank_file = None;
        self.selected_sample_index = 0;
    }

    /// Opens a directory, given the bank that was found in it. What was
    /// open before is forgotten first. A directory without a bank leaves
    /// the viewer empty.
    pub fn open_directory(&mut self, dir_path: String, bank_file: Option<BankFile>)
        ensures
            match bank_file {
                Some(bank) => {
                    &&& final(self).dir_path() == Some(dir_path)
                    &&& final(self).bank_file() == Some(bank)
                    &&& final(self).selected_sample_index() == 0
                },
                None => final(self).is_reset(),
            },
    {
        self.reset_state();
        if let Some(bank) = bank_file {
            self.dir_path = Some(dir_path);
            self.bank_file = Some(bank);
        }
    }

    /// The bank that is shown, if any.
    pub fn bank(&self) -> (bank: Option<&BankFile>)
        ensures
            match bank {
                Some(b) => self.bank_file() == Some(*b),
                None => self.bank_file() is None,
            },
    {
        self.bank_file.as_ref()
    }
}

impl Default for AmpApp {
    /// A viewer that holds nothing.
    fn default() -> (app: Self)
        ensures
            app.is_reset(),
    {
        AmpApp { dir_path: None, bank_file: None, selected_sample_index: 0 }
    }
}

} // verus!

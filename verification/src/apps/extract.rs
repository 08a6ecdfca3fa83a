//! The `extract` subcommand: under which path each entry of an archive is
//! written, and which entries are written as text.

use vstd::prelude::*;
use vstd::string::StrSliceExecFns;
use crate::text::{ends_with, is_suffix, remove_all, without};

verus! {

/// The arguments of the subcommand.
#[derive(Debug, Clone, PartialEq, Eq)]
pub struct ExtractApp {
    /// Path to the archive.
    pub input_path: String,
    /// Path to the output directory.
    pub output_path: String,
}

/// What becomes of one entry of the archive.
#[derive(Debug, Clone, PartialEq, Eq)]
pub struct EntryOutput {
    /// Path of the output directory of the subcommand.
    pub output_path: String,
    /// Path of the file to write, below the output directory.
    pub path: String,
    /// Whether the entry is a compiled script, to be written as the text
    /// that it was compiled from.
    pub as_text: bool,
}

/// What an [`EntryOutput`] holds.
pub struct EntryOutputView {
    pub output_path: Seq<char>,
    pub path: Seq<char>,
    pub as_text: bool,
}

impl View for EntryOutput {
    type V = EntryOutputView;

    open spec fn view(&self) -> EntryOutputView {
        EntryOutputView { output_path: self.output_path@, path: self.path@, as_text: self.as_text }
    }
}

/// Whether an entry is a compiled script: whether its path ends in
/// `.txt.bin`.
pub open spec fn is_script(path: Seq<char>) -> bool {
    is_suffix(path, ".txt.bin"@)
}

/// What becomes of the entry with the path `path`. A compiled script is
/// written as text, under its path without the last four characters and
/// without any `gen/` in it; every other entry is written as it is, under
/// its own path.
pub open spec fn output_of(output_path: Seq<char>, path: Seq<char>) -> EntryOutputView {
    if is_script(path) {
        EntryOutputView { output_path, path: without(path.take(path.len() - 4), "gen/"@), as_text: true }
    } else {
        EntryOutputView { output_path, path, as_text: false }
    }
}

impl ExtractApp {
    /// Settles what becomes of the entry with the path `path`; see
    /// [`output_of`].
    pub fn output(&self, path: &str) -> (output: EntryOutput)
        ensures
            output@ == output_of(self.output_path@, path@),
    {
        if ends_with(path, ".txt.bin") {
            proof {
                reveal_strlit(".txt.bin");
            }
            let len = path.unicode_len();
            let text_path = path.substring_char(0, len - 4);
            assert(text_path@ =~= path@.take(path@.len() - 4));
            EntryOutput { output_path: self.output_path.clone(), path: remove_all(text_path, "gen/"), as_text: true }
        } else {
            EntryOutput { output_path: self.output_path.clone(), path: path.to_owned(), as_text: false }
        }
    }

    /// Settles what becomes of every entry of the archive, given the
    /// paths of the entries in the order of the archive.
    pub fn process(self, entries: &Vec<String>) -> (outputs: Vec<EntryOutput>)
        ensures
            outputs@.len() == entries@.len(),
            forall|i: int|
                0 <= i < entries@.len() ==> (#[trigger] outputs@[i])@ == output_of(
                    self.output_path@,
                    entries@[i]@,
                ),
    {
        let mut outputs: Vec<EntryOutput> = Vec::new();
        let mut i: usize = 0;
        while i < entries.len()
            invariant
                i <= entries@.len(),
                outputs@.len() == i,
                forall|k: int|
                    0 <= k < i ==> (#[trigger] outputs@[k])@ == output_of(self.output_path@, entries@[k]@),
            decreases entries@.len() - i,
        {
            outputs.push(self.output(entries[i].as_str()));
            i = i + 1;
        }
        outputs
    }
}

} // verus!

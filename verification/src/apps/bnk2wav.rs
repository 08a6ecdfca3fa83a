//! The `bnk2wav` subcommand: which banks an input path stands for, and
//! where the samples of each go.
//!
//! The caller looks at the file system and reports what it found as an
//! [`Input`]; [`Bnk2WavApp::process`] answers with the banks to extract.
//! Paths are put together by the caller: a job names the parts.

use vstd::prelude::*;
use vstd::string::StringExecFns;
use crate::text::{ends_with, is_suffix};

verus! {

/// The arguments of the subcommand.
#[derive(Debug, Clone, PartialEq, Eq)]
pub struct Bnk2WavApp {
    /// Path to a bank file, or to a directory of bank files.
    pub input_path: String,
    /// Path to the output directory.
    pub output_path: String,
}

/// A file that the caller found in a directory: the path to open it by,
/// and its name as the file system splits it.
#[derive(Debug, Clone, PartialEq, Eq)]
pub struct InputFile {
    pub path: String,
    /// The last component of the path.
    pub file_name: String,
    /// The file name without its extension.
    pub file_stem: String,
}

/// What the input path of the subcommand turned out to be.
#[derive(Debug, Clone, PartialEq, Eq)]
pub enum Input {
    /// A single file, taken as a bank whatever its name.
    File {
        /// The name of the file without its extension.
        file_stem: String,
    },
    /// A directory, with the files that lie directly in it.
    Directory(Vec<InputFile>),
}

/// One bank to extract.
#[derive(Debug, Clone, PartialEq, Eq)]
pub struct BankJob {
    /// Path of the bank file.
    pub bank_path: String,
    /// Name of the sample file, which lies in the directory of the bank.
    pub sample_file_name: String,
    /// Path of the output directory of the subcommand.
    pub output_path: String,
    /// Where the samples go: into the output directory itself, or into its
    /// subdirectory of this name.
    pub output_subdir: Option<String>,
}

/// What a [`BankJob`] holds.
pub struct BankJobView {
    pub bank_path: Seq<char>,
    pub sample_file_name: Seq<char>,
    pub output_path: Seq<char>,
    pub output_subdir: Option<Seq<char>>,
}

impl View for BankJob {
    type V = BankJobView;

    open spec fn view(&self) -> BankJobView {
        BankJobView {
            bank_path: self.bank_path@,
            sample_file_name: self.sample_file_name@,
            output_path: self.output_path@,
            output_subdir: match self.output_subdir {
                Some(dir) => Some(dir@),
                None => None,
            },
        }
    }
}

/// The jobs of `jobs`, as views.
pub open spec fn job_views(jobs: Seq<BankJob>) -> Seq<BankJobView> {
    jobs.map_values(|j: BankJob| j@)
}

/// Whether a file name ends in `.bnk`.
pub open spec fn is_bank_name(name: Seq<char>) -> bool {
    is_suffix(name, ".bnk"@)
}

/// The job for the bank at `bank_path` whose file has the stem
/// `file_stem`. The sample file has the name of the bank with `.nse` for
/// its extension. A bank found in a directory gets a subdirectory of its
/// own, named by its stem; a bank given by itself does not.
pub open spec fn job_of(
    output_path: Seq<char>,
    bank_path: Seq<char>,
    file_stem: Seq<char>,
    in_directory: bool,
) -> BankJobView {
    BankJobView {
        bank_path,
        sample_file_name: file_stem + ".nse"@,
        output_path,
        output_subdir: if in_directory {
            Some(file_stem)
        } else {
            None
        },
    }
}

/// The jobs for the files of a directory: one for each file whose name
/// ends in `.bnk`, in the order of the listing.
pub open spec fn directory_jobs(output_path: Seq<char>, files: Seq<InputFile>) -> Seq<BankJobView>
    decreases files.len(),
{
    if files.len() == 0 {
        Seq::empty()
    } else {
        let before = directory_jobs(output_path, files.drop_last());
        let file = files.last();
        if is_bank_name(file.file_name@) {
            before.push(job_of(output_path, file.path@, file.file_stem@, true))
        } else {
            before
        }
    }
}

/// The jobs that an input stands for.
pub open spec fn jobs_of(app: Bnk2WavApp, input: Input) -> Seq<BankJobView> {
    match input {
        Input::File { file_stem } => seq![job_of(app.output_path@, app.input_path@, file_stem@, false)],
        Input::Directory(files) => directory_jobs(app.output_path@, files@),
    }
}

/// Whether `name` is the name of a bank file: whether it ends in `.bnk`.
pub fn is_bank_file(name: &str) -> (r: bool)
    ensures
        r == is_bank_name(name@),
{
    ends_with(name, ".bnk")
}

impl BankJob {
    /// The job for the bank at `bank_path`; see [`job_of`].
    pub fn new(output_path: &String, bank_path: &String, file_stem: &String, in_directory: bool) -> (job: BankJob)
        ensures
            job@ == job_of(output_path@, bank_path@, file_stem@, in_directory),
    {
        BankJob {
            bank_path: bank_path.clone(),
            sample_file_name: file_stem.clone().concat(".nse"),
            output_path: output_path.clone(),
            output_subdir: if in_directory {
                Some(file_stem.clone())
            } else {
                None
            },
        }
    }
}

impl Bnk2WavApp {
    /// Settles which banks to extract, given what the input path is.
    ///
    /// A file is one job: the input path is the bank, and its samples go
    /// into the output directory. A directory is one job for each of its
    /// files whose name ends in `.bnk`, each with a subdirectory named by
    /// the bank's stem.
    pub fn process(self, input: &Input) -> (jobs: Vec<BankJob>)
        ensures
            job_views(jobs@) == jobs_of(self, *input),
    {
        let mut jobs: Vec<BankJob> = Vec::new();
        match input {
            Input::File { file_stem } => {
                jobs.push(BankJob::new(&self.output_path, &self.input_path, file_stem, false));
                assert(job_views(jobs@) =~= jobs_of(self, *input));
            },
            Input::Directory(files) => {
                let mut i: usize = 0;
                assert(files@.take(0) =~= Seq::<InputFile>::empty());
                while i < files.len()
                    invariant
                        i <= files@.len(),
                        job_views(jobs@) == directory_jobs(self.output_path@, files@.take(i as int)),
                    decreases files@.len() - i,
                {
                    let ghost before = jobs@;
                    let file = &files[i];
                    assert(files@.take(i + 1).drop_last() =~= files@.take(i as int));
                    if is_bank_file(file.file_name.as_str()) {
                        jobs.push(BankJob::new(&self.output_path, &file.path, &file.file_stem, true));
                        assert(job_views(jobs@) =~= job_views(before).push(
                            job_of(self.output_path@, file.path@, file.file_stem@, true),
                        ));
                    }
                    i = i + 1;
                }
                assert(files@.take(i as int) =~= files@);
            },
        }
        jobs
    }
}

/// The counts that the subcommand reports when it is done.
#[derive(Debug, Clone, Copy, PartialEq, Eq, Structural)]
pub struct Totals {
    /// Samples written, over all banks.
    pub total_samples: usize,
    /// Banks extracted into a subdirectory of their own.
    pub bank_count: usize,
}

impl Totals {
    /// The counts before any bank was extracted.
    pub fn new() -> (totals: Totals)
        ensures
            totals == (Totals { total_samples: 0, bank_count: 0 }),
    {
        Totals { total_samples: 0, bank_count: 0 }
    }

    /// Counts a bank that was extracted with `samples` samples. Only a bank
    /// that went to a subdirectory of its own counts as a bank.
    pub fn add(&mut self, job: &BankJob, samples: usize)
        requires
            old(self).total_samples + samples <= usize::MAX,
            job.output_subdir is Some ==> old(self).bank_count < usize::MAX,
        ensures
            final(self).total_samples == old(self).total_samples + samples,
            final(self).bank_count == old(self).bank_count + if job.output_subdir is Some {
                1int
            } else {
                0int
            },
    {
        self.total_samples = self.total_samples + samples;
        if job.output_subdir.is_some() {
            self.bank_count = self.bank_count + 1;
        }
    }
}

} // verus!

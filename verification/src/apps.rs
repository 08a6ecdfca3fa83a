//! The command-line tool: its options and the subcommand they select.

use vstd::prelude::*;
use crate::apps::bnk2wav::{job_views, jobs_of, BankJob, Bnk2WavApp, Input};

pub mod bnk2wav;
pub mod extract;

verus! {

/// The subcommands of the tool.
#[derive(Debug, Clone, PartialEq, Eq)]
pub enum SubCommand {
    /// Extract the audio samples of banks.
    Bnk2Wav(Bnk2WavApp),
}

/// The options that the tool was started with.
#[derive(Debug, Clone, PartialEq, Eq)]
pub struct Options {
    pub commands: SubCommand,
}

/// The tool, ready to run the subcommand that its options select.
#[derive(Debug)]
pub struct AmpTool {
    options: Options,
}

impl AmpTool {
    /// The options that the tool holds.
    pub closed spec fn options(&self) -> Options {
        self.options
    }

    /// The tool for `options`.
    pub fn new(options: Options) -> (tool: Self)
        ensures
            tool.options() == options,
    {
        AmpTool { options }
    }

    /// The input path of the selected subcommand: what the caller has to
    /// look at before the tool can run.
    pub fn input_path(&self) -> (path: &String)
        ensures
            self.options().commands matches SubCommand::Bnk2Wav(app) && *path == app.input_path,
    {
        match &self.options.commands {
            SubCommand::Bnk2Wav(app) => &app.input_path,
        }
    }

    /// Runs the selected subcommand on what the input path turned out to
    /// be, and returns the banks to extract, in order.
    pub fn run(self, input: &Input) -> (jobs: Vec<BankJob>)
        ensures
            self.options().commands matches SubCommand::Bnk2Wav(app) && job_views(jobs@) == jobs_of(app, *input),
    {
        match self.options.commands {
            SubCommand::Bnk2Wav(app) => app.process(input),
        }
    }
}

} // verus!

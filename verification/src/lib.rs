//! Sample banks of Amplitude for the PS2.
//!
//! [`io`] is a cursor over bytes with the reads that the bank format is
//! made of. [`bank`] holds the entities of a bank, the parser that builds a
//! [`bank::BankFile`] from the bytes of a `.bnk` file, and the layout of an
//! extraction: the compressed blocks of every sample and the names of the
//! files they end up in. [`apps`] settles what the command-line tool has to
//! do for a given input, [`app`] what the viewer shows for a song
//! directory, and [`text`] answers the questions about names that both ask.
//!
//! The library reads no file and writes none: callers hand it bytes and
//! names, and carry out what it lays out.

pub mod app;
pub mod apps;
pub mod bank;
pub mod io;
pub mod text;

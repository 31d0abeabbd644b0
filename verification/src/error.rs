//! What can go wrong, and how a failure is reported.

use crate::text::strs;
use vstd::prelude::*;

verus! {

/// How a child process ended.
#[derive(Clone, Debug, PartialEq, Eq)]
pub struct ExitStatus {
    /// The exit code; none where a signal ended the process.
    pub code: Option<i32>,
    /// The status as the operating system words it.
    pub text: String,
}

impl ExitStatus {
    /// Whether the process reported success: exit code zero.
    pub open spec fn succeeded(&self) -> bool {
        self.code == Some(0i32)
    }

    /// Whether the process reported success.
    pub fn success(&self) -> (r: bool)
        ensures
            r == self.succeeded(),
    {
        match self.code {
            Some(c) => c == 0,
            None => false,
        }
    }
}

/// A child process that did not end in success, with what it wrote.
#[derive(Clone, Debug, PartialEq, Eq)]
pub struct ProcessError {
    pub status: ExitStatus,
    /// Set when the failure needs no message of its own.
    pub hidden: bool,
    pub stdout: Vec<u8>,
    pub stderr: Vec<u8>,
    /// The command line, for the message.
    pub cmd_desc: String,
}

/// The kinds of failure.
#[derive(Clone, Debug, PartialEq, Eq)]
pub enum ErrorKind {
    /// The toolchain or a tool is absent or unusable, or an input is not
    /// accepted.
    Configuration,
    /// A download failed.
    Network,
    /// A child process failed.
    Process(ProcessError),
    /// A record of the build's structured output, or a binary, could not be
    /// decoded.
    Parse,
    /// A check after installing or linking failed.
    Validation,
}

/// A failure: its kind, its message, and what was being attempted when it
/// came up, innermost first.
#[derive(Clone, Debug, PartialEq, Eq)]
pub struct Error {
    pub kind: ErrorKind,
    pub message: String,
    pub context: Vec<String>,
}

impl Error {
    /// A failure of `kind` with `message`, without context.
    pub fn new(kind: ErrorKind, message: String) -> (e: Error)
        ensures
            e.kind == kind,
            e.message == message,
            e.context@.len() == 0,
    {
        Error { kind, message, context: Vec::new() }
    }

    /// A configuration failure with `message`.
    pub fn configuration(message: String) -> (e: Error)
        ensures
            e.kind is Configuration,
            e.message == message,
            e.context@.len() == 0,
    {
        Error::new(ErrorKind::Configuration, message)
    }

    /// A validation failure with `message`.
    pub fn validation(message: String) -> (e: Error)
        ensures
            e.kind is Validation,
            e.message == message,
            e.context@.len() == 0,
    {
        Error::new(ErrorKind::Validation, message)
    }

    /// A network failure with `message`.
    pub fn network(message: String) -> (e: Error)
        ensures
            e.kind is Network,
            e.message == message,
            e.context@.len() == 0,
    {
        Error::new(ErrorKind::Network, message)
    }

    /// The failure of a child process.
    pub fn process(error: ProcessError) -> (e: Error)
        ensures
            e.kind == ErrorKind::Process(error),
            e.message@.len() == 0,
            e.context@.len() == 0,
    {
        Error::new(ErrorKind::Process(error), String::new())
    }

    /// The same failure with one more line of context.
    pub fn context(self, what: &str) -> (e: Error)
        ensures
            e.kind == self.kind,
            e.message == self.message,
            strs(e.context@) == strs(self.context@).push(what@),
    {
        let Error { kind, message, mut context } = self;
        let line = what.to_owned();
        assert(strs(context@.push(line)) =~= strs(context@).push(what@));
        context.push(line);
        Error { kind, message, context }
    }
}

} // verus!

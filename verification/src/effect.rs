//! What an operation asks of its surroundings, and what the surroundings
//! answer.
//!
//! The supervisor decides; it touches neither the disk nor a process. An
//! operation hands out one effect at a time. Whoever drives it carries the
//! effect out and hands back an observation of how that went.

use vstd::prelude::*;
use vstd::string::*;

verus! {

/// The texts of a sequence of strings.
pub open spec fn texts(strings: Seq<String>) -> Seq<Seq<char>> {
    Seq::new(strings.len(), |i: int| strings[i]@)
}

/// A program and the arguments to call it with, as contracts speak of it.
pub struct Invocation {
    pub program: Seq<char>,
    pub arguments: Seq<Seq<char>>,
}

/// A program and the arguments to call it with.
#[derive(Clone, Debug, PartialEq, Eq)]
pub struct CommandLine {
    pub program: String,
    pub arguments: Vec<String>,
}

impl View for CommandLine {
    type V = Invocation;

    open spec fn view(&self) -> Invocation {
        Invocation { program: self.program@, arguments: texts(self.arguments@) }
    }
}

/// An effect as contracts speak of it.
pub enum Request {
    ProbePath { path: Seq<char> },
    ReadFile { path: Seq<char> },
    WriteFile { directory: Seq<char>, path: Seq<char>, content: Seq<char> },
    RemoveDirectory { path: Seq<char> },
    LinkDirectory { link: Seq<char>, target: Seq<char> },
    Run { command: Invocation },
    Capture { command: Invocation },
    Spawn { command: Invocation },
    Settle { seconds: u64 },
    EnterDirectory { path: Seq<char> },
}

/// What an operation asks for.
#[derive(Clone, Debug, PartialEq, Eq)]
pub enum Effect {
    /// Say whether something exists at `path`. Answer: `Present`.
    ProbePath { path: String },
    /// Read the file at `path` as text. Answer: `Text`, or `Failed`.
    ReadFile { path: String },
    /// Create `directory` with what leads to it, then write `content` to
    /// the file at `path`. Answer: `Done`, or `Failed`.
    WriteFile { directory: String, path: String, content: String },
    /// Remove the directory or indirection at `path` with what it holds.
    /// Answer: `Done`, or `Failed`.
    RemoveDirectory { path: String },
    /// Make `link` stand for the directory `target`. Answer: `Done`, or
    /// `Failed`.
    LinkDirectory { link: String, target: String },
    /// Run `command` until it exits. Answer: `Done` if it exited with
    /// success, else `Failed` with what it wrote to standard error or why
    /// it could not be run.
    Run { command: CommandLine },
    /// Run `command` until it exits and keep what it wrote to standard
    /// output. Answer: `Text`, or `Failed` if it could not be run.
    Capture { command: CommandLine },
    /// Spawn `command` and let it run. Answer: `Spawned` with the
    /// identifier of the new process, or `Failed`.
    Spawn { command: CommandLine },
    /// Wait for `seconds`. Answer: `Done`.
    Settle { seconds: u64 },
    /// Make `path` the working directory of the process. Answer: `Done`,
    /// or `Failed`.
    EnterDirectory { path: String },
}

impl View for Effect {
    type V = Request;

    open spec fn view(&self) -> Request {
        match self {
            Effect::ProbePath { path } => Request::ProbePath { path: path@ },
            Effect::ReadFile { path } => Request::ReadFile { path: path@ },
            Effect::WriteFile { directory, path, content } => Request::WriteFile {
                directory: directory@,
                path: path@,
                content: content@,
            },
            Effect::RemoveDirectory { path } => Request::RemoveDirectory { path: path@ },
            Effect::LinkDirectory { link, target } => Request::LinkDirectory {
                link: link@,
                target: target@,
            },
            Effect::Run { command } => Request::Run { command: command@ },
            Effect::Capture { command } => Request::Capture { command: command@ },
            Effect::Spawn { command } => Request::Spawn { command: command@ },
            Effect::Settle { seconds } => Request::Settle { seconds: *seconds },
            Effect::EnterDirectory { path } => Request::EnterDirectory { path: path@ },
        }
    }
}

impl Request {
    /// Whether carrying out the request changes what is on disk.
    pub open spec fn changes_disk(self) -> bool {
        self is WriteFile || self is RemoveDirectory || self is LinkDirectory
    }
}

/// An observation as contracts speak of it.
pub enum Answer {
    Present(bool),
    Done,
    Failed(Seq<char>),
    Spawned(u32),
    Text(Seq<char>),
}

impl Answer {
    /// What the surroundings said of a failure; nothing where the answer
    /// is no failure.
    pub open spec fn detail(self) -> Seq<char> {
        match self {
            Answer::Failed(detail) => detail,
            _ => Seq::empty(),
        }
    }
}

/// How an effect went.
#[derive(Clone, Debug, PartialEq, Eq)]
pub enum Observation {
    /// Whether the probed path exists.
    Present(bool),
    /// The effect was carried out.
    Done,
    /// The effect could not be carried out, and why.
    Failed(String),
    /// The identifier of the spawned process.
    Spawned(u32),
    /// The text that was read or captured.
    Text(String),
}

impl View for Observation {
    type V = Answer;

    open spec fn view(&self) -> Answer {
        match self {
            Observation::Present(present) => Answer::Present(*present),
            Observation::Done => Answer::Done,
            Observation::Failed(detail) => Answer::Failed(detail@),
            Observation::Spawned(pid) => Answer::Spawned(*pid),
            Observation::Text(text) => Answer::Text(text@),
        }
    }
}

impl Observation {
    /// Whether the observation says that the probed path exists.
    pub fn affirms(&self) -> (b: bool)
        ensures
            b == (self@ == Answer::Present(true)),
    {
        match self {
            Observation::Present(present) => *present,
            _ => false,
        }
    }

    /// Whether the observation says that the probed path does not exist.
    pub fn denies(&self) -> (b: bool)
        ensures
            b == (self@ == Answer::Present(false)),
    {
        match self {
            Observation::Present(present) => !*present,
            _ => false,
        }
    }

    /// Whether the observation says that the effect was carried out.
    pub fn is_done(&self) -> (b: bool)
        ensures
            b == (self@ == Answer::Done),
    {
        match self {
            Observation::Done => true,
            _ => false,
        }
    }

    /// What the surroundings said of a failure; nothing where the
    /// observation is no failure.
    pub fn detail(&self) -> (detail: String)
        ensures
            detail@ == self@.detail(),
    {
        match self {
            Observation::Failed(detail) => detail.clone(),
            _ => String::new(),
        }
    }
}

} // verus!

//! The requests that the commands make of the system, and what the system
//! answers. Each command is a state machine: it is handed an `Outcome` (the
//! answer to its previous request, or `Begin`) and returns the next `Effect` to
//! perform, until it returns `Finish`. Where a step waits for a particular kind
//! of answer (say `Found` after `Exists`), any other outcome ends the command;
//! after a request with nothing to report, the command goes on whatever the
//! outcome.
use vstd::prelude::*;

use crate::env::views;

verus! {

/// A program to run.
#[derive(Debug, Clone, PartialEq, Eq)]
pub struct ProcessCall {
    pub program: String,
    pub args: Vec<String>,
    /// The directory to run it in (the current one when `None`).
    pub current_dir: Option<String>,
    /// One variable to set in its environment.
    pub env: Option<(String, String)>,
    /// Whether its output is captured (`Command::output`) rather than shown
    /// (`Command::status`).
    pub capture: bool,
    /// The message to panic with if it cannot be run at all; when `None`, that
    /// failure is reported as `Outcome::SpawnFailed`.
    pub expect: Option<String>,
}

/// The view of a `ProcessCall`.
pub struct CallV {
    pub program: Seq<char>,
    pub args: Seq<Seq<char>>,
    pub current_dir: Option<Seq<char>>,
    pub env: Option<(Seq<char>, Seq<char>)>,
    pub capture: bool,
    pub expect: Option<Seq<char>>,
}

/// The view of an optional string.
pub open spec fn opt_view(o: Option<String>) -> Option<Seq<char>> {
    match o {
        Some(s) => Some(s@),
        None => None,
    }
}

impl View for ProcessCall {
    type V = CallV;

    open spec fn view(&self) -> CallV {
        CallV {
            program: self.program@,
            args: views(self.args@),
            current_dir: opt_view(self.current_dir),
            env: match self.env {
                Some(p) => Some((p.0@, p.1@)),
                None => None,
            },
            capture: self.capture,
            expect: opt_view(self.expect),
        }
    }
}

/// A request to the system.
#[derive(Debug, Clone, PartialEq, Eq)]
pub enum Effect {
    /// Print a line on standard output.
    Say(String),
    /// Print a line on standard error.
    Warn(String),
    /// Print `prompt` (no newline), flush, and read a line from standard input
    /// (panicking with `expect` if that fails); answered by `Answer`.
    Ask { prompt: String, expect: String },
    /// Run a program; answered by `Ran`, or by `SpawnFailed` where the call
    /// has no `expect`.
    Run(ProcessCall),
    /// Spawn a program with its output shown (panicking with the call's
    /// `expect` if that fails), then wait for it to end (panicking with
    /// `wait_expect` if that fails); answered by `Ran`.
    SpawnWait { call: ProcessCall, wait_expect: String },
    /// Whether a path exists; answered by `Found`.
    Exists(String),
    /// Open a text file to read it line by line (panicking with `expect` if
    /// that fails); answered by `Completed`.
    OpenLines { path: String, expect: String },
    /// Read the next line of the file last opened, as `BufRead::lines` gives it
    /// (panicking with `expect` if that fails); answered by `Line`.
    NextLine { expect: String },
    /// Create (or truncate) a file and write `content` into it, panicking with
    /// `expect_create` or `expect_write` on failure; answered by `Completed`.
    WriteFile { path: String, content: String, expect_create: String, expect_write: String },
    /// Create a directory and its parents; on failure panic with `or_panic`
    /// where there is one, else answer `IoFailed`. Answered by `IoOk` otherwise.
    CreateDirAll { path: String, or_panic: Option<String> },
    /// Remove a directory and its contents; answered by `IoOk` or `IoFailed`.
    RemoveDirAll(String),
    /// Remove a file (panicking with `expect` on failure); answered by `Completed`.
    RemoveFile { path: String, expect: String },
    /// Create the symbolic link `link` to `target` (panicking with `expect` on
    /// failure); answered by `Completed`.
    Symlink { target: String, link: String, expect: String },
    /// Rename `from` to `to`; answered by `IoOk` or `IoFailed`.
    Rename { from: String, to: String },
    /// Start reading the entries of a directory (`fs::read_dir`); answered by
    /// `IoOk` or `IoFailed`.
    OpenDir(String),
    /// Read the next entry of the directory last opened; answered by `Entry`
    /// (which becomes the current entry), `NoMoreEntries` or `IoFailed`.
    NextEntry,
    /// Remove the current entry: with `fs::remove_dir_all` where `as_dir`, else
    /// with `fs::remove_file`; answered by `IoOk` or `IoFailed`.
    RemoveEntry { as_dir: bool },
    /// Rename the current entry to the entry of the same name in the directory
    /// `to`; answered by `IoOk` or `IoFailed`.
    MoveEntryInto(String),
    /// Sleep for this many milliseconds; answered by `Completed`.
    Sleep(u64),
    /// Read the clock; answered by `Time` (seconds since the Unix epoch).
    Clock,
    /// The command is over.
    Finish,
}

/// The view of an `Effect`.
pub enum EffectV {
    Say(Seq<char>),
    Warn(Seq<char>),
    Ask { prompt: Seq<char>, expect: Seq<char> },
    Run(CallV),
    SpawnWait { call: CallV, wait_expect: Seq<char> },
    Exists(Seq<char>),
    OpenLines { path: Seq<char>, expect: Seq<char> },
    NextLine { expect: Seq<char> },
    WriteFile {
        path: Seq<char>,
        content: Seq<char>,
        expect_create: Seq<char>,
        expect_write: Seq<char>,
    },
    CreateDirAll { path: Seq<char>, or_panic: Option<Seq<char>> },
    RemoveDirAll(Seq<char>),
    RemoveFile { path: Seq<char>, expect: Seq<char> },
    Symlink { target: Seq<char>, link: Seq<char>, expect: Seq<char> },
    Rename { from: Seq<char>, to: Seq<char> },
    OpenDir(Seq<char>),
    NextEntry,
    RemoveEntry { as_dir: bool },
    MoveEntryInto(Seq<char>),
    Sleep(u64),
    Clock,
    Finish,
}

impl View for Effect {
    type V = EffectV;

    open spec fn view(&self) -> EffectV {
        match self {
            Effect::Say(s) => EffectV::Say(s@),
            Effect::Warn(s) => EffectV::Warn(s@),
            Effect::Ask { prompt, expect } => EffectV::Ask { prompt: prompt@, expect: expect@ },
            Effect::Run(c) => EffectV::Run(c@),
            Effect::SpawnWait { call, wait_expect } => EffectV::SpawnWait {
                call: call@,
                wait_expect: wait_expect@,
            },
            Effect::Exists(p) => EffectV::Exists(p@),
            Effect::OpenLines { path, expect } => EffectV::OpenLines {
                path: path@,
                expect: expect@,
            },
            Effect::NextLine { expect } => EffectV::NextLine { expect: expect@ },
            Effect::WriteFile { path, content, expect_create, expect_write } => EffectV::WriteFile {
                path: path@,
                content: content@,
                expect_create: expect_create@,
                expect_write: expect_write@,
            },
            Effect::CreateDirAll { path, or_panic } => EffectV::CreateDirAll {
                path: path@,
                or_panic: opt_view(*or_panic),
            },
            Effect::RemoveDirAll(p) => EffectV::RemoveDirAll(p@),
            Effect::RemoveFile { path, expect } => EffectV::RemoveFile {
                path: path@,
                expect: expect@,
            },
            Effect::Symlink { target, link, expect } => EffectV::Symlink {
                target: target@,
                link: link@,
                expect: expect@,
            },
            Effect::Rename { from, to } => EffectV::Rename { from: from@, to: to@ },
            Effect::OpenDir(p) => EffectV::OpenDir(p@),
            Effect::NextEntry => EffectV::NextEntry,
            Effect::RemoveEntry { as_dir } => EffectV::RemoveEntry { as_dir: *as_dir },
            Effect::MoveEntryInto(to) => EffectV::MoveEntryInto(to@),
            Effect::Sleep(ms) => EffectV::Sleep(*ms),
            Effect::Clock => EffectV::Clock,
            Effect::Finish => EffectV::Finish,
        }
    }
}

impl Effect {
    /// Whether this is `Finish`.
    pub fn is_finish(&self) -> (res: bool)
        ensures
            res == (self@ is Finish),
    {
        match self {
            Effect::Finish => true,
            _ => false,
        }
    }
}

/// What the system answered to the last effect.
#[derive(Debug, Clone, PartialEq, Eq)]
pub enum Outcome {
    /// The command has just been started.
    Begin,
    /// The effect was carried out and has nothing to report.
    Completed,
    /// The program ran: whether it exited successfully, what it wrote (read
    /// lossily as UTF-8; empty where it was not captured) and its exit status
    /// as `ExitStatus` displays it.
    Ran { success: bool, stdout: String, stderr: String, status: String },
    /// The program could not be run; the error as it displays.
    SpawnFailed(String),
    /// Whether the path exists.
    Found(bool),
    /// The line read from standard input, with its line ending.
    Answer(String),
    /// The next line of the file, or `None` at its end.
    Line(Option<String>),
    /// The next entry of the directory was read; whether its path is a
    /// directory (`Path::is_dir`).
    Entry { is_dir: bool },
    /// The directory has no more entries.
    NoMoreEntries,
    /// The file-system operation succeeded.
    IoOk,
    /// The file-system operation failed; the error as `{:?}` writes it.
    IoFailed(String),
    /// Seconds since the Unix epoch.
    Time(u64),
}

/// The view of an `Outcome`.
pub enum OutcomeV {
    Begin,
    Completed,
    Ran { success: bool, stdout: Seq<char>, stderr: Seq<char>, status: Seq<char> },
    SpawnFailed(Seq<char>),
    Found(bool),
    Answer(Seq<char>),
    Line(Option<Seq<char>>),
    Entry { is_dir: bool },
    NoMoreEntries,
    IoOk,
    IoFailed(Seq<char>),
    Time(u64),
}

impl View for Outcome {
    type V = OutcomeV;

    open spec fn view(&self) -> OutcomeV {
        match self {
            Outcome::Begin => OutcomeV::Begin,
            Outcome::Completed => OutcomeV::Completed,
            Outcome::Ran { success, stdout, stderr, status } => OutcomeV::Ran {
                success: *success,
                stdout: stdout@,
                stderr: stderr@,
                status: status@,
            },
            Outcome::SpawnFailed(e) => OutcomeV::SpawnFailed(e@),
            Outcome::Found(b) => OutcomeV::Found(*b),
            Outcome::Answer(a) => OutcomeV::Answer(a@),
            Outcome::Line(l) => OutcomeV::Line(opt_view(*l)),
            Outcome::Entry { is_dir } => OutcomeV::Entry { is_dir: *is_dir },
            Outcome::NoMoreEntries => OutcomeV::NoMoreEntries,
            Outcome::IoOk => OutcomeV::IoOk,
            Outcome::IoFailed(e) => OutcomeV::IoFailed(e@),
            Outcome::Time(t) => OutcomeV::Time(*t),
        }
    }
}

/// A call of `program` with `args`, in the current directory, with no variable
/// set.
pub open spec fn plain_call(
    program: Seq<char>,
    args: Seq<Seq<char>>,
    capture: bool,
    expect: Option<Seq<char>>,
) -> CallV {
    CallV { program, args, current_dir: None, env: None, capture, expect }
}

/// The strings `a`, as a vector.
pub fn strings(a: &[&str]) -> (res: Vec<String>)
    ensures
        views(res@) == a@.map_values(|s: &str| s@),
{
    let mut res: Vec<String> = Vec::new();
    let mut k: usize = 0;
    while k < a.len()
        invariant
            k <= a@.len(),
            views(res@) == a@.take(k as int).map_values(|s: &str| s@),
        decreases a.len() - k,
    {
        let ghost old_views = views(res@);
        let item = String::from_str(a[k]);
        assert(item@ == a@[k as int]@);
        res.push(item);
        assert(views(res@) =~= old_views.push(a@[k as int]@));
        assert(a@.take(k + 1) =~= a@.take(k as int).push(a@[k as int]));
        k += 1;
        assert(views(res@) =~= a@.take(k as int).map_values(|s: &str| s@));
    }
    assert(a@.take(a@.len() as int) =~= a@);
    res
}

/// A call of `program` with `args` in the current directory, with no variable
/// set (see `plain_call`).
pub fn call(program: &str, args: Vec<String>, capture: bool, expect: Option<&str>) -> (res:
    ProcessCall)
    ensures
        res@ == plain_call(
            program@,
            views(args@),
            capture,
            match expect {
                Some(e) => Some(e@),
                None => None,
            },
        ),
{
    ProcessCall {
        program: String::from_str(program),
        args,
        current_dir: None,
        env: None,
        capture,
        expect: match expect {
            Some(e) => Some(String::from_str(e)),
            None => None,
        },
    }
}

} // verus!

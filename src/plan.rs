//! What the tool sets up before the first pass, from its command-line flags.
use vstd::prelude::*;
use crate::session::{actions, passes, Event, Phase, Session};

verus! {

/// Where the artifact is built and run.
#[derive(Clone, Copy, Debug, PartialEq, Eq, Structural)]
pub enum WorkDir {
    /// The current directory.
    Current,
    /// A fresh temporary directory owned by the process.
    Temp,
}

/// The start-up decisions of one run of the tool.
#[derive(Debug)]
pub struct Plan {
    /// The source file to compile; `None` when the program is read from
    /// standard input and written to a temporary file first.
    pub source: Option<String>,
    pub work_dir: WorkDir,
    /// Whether the session watches the source after the first pass.
    pub watch: bool,
    /// Whether passes raise desktop notifications.
    pub notify: bool,
}

/// Watch mode needs a source file to watch: a program read from standard
/// input runs once.
pub open spec fn watch_mode(has_file: bool, watch_flag: bool) -> bool {
    has_file && watch_flag
}

/// The name of the temporary file that holds a program read from standard input.
pub open spec fn stdin_file_text() -> Seq<char> {
    "temp.rs"@
}

/// The artifact's path inside the working directory `dir`.
pub open spec fn artifact_path_text(dir: Seq<char>) -> Seq<char> {
    dir + "/executable"@
}

/// Decides the set-up from the flags `--file`, `--temp`, `--watch` and `--notify`.
pub fn plan(file: Option<String>, temp: bool, watch: bool, notify: bool) -> (r: Plan)
    ensures
        r.source == file,
        r.work_dir == (if temp {
            WorkDir::Temp
        } else {
            WorkDir::Current
        }),
        r.watch == watch_mode(file is Some, watch),
        r.notify == notify,
{
    let has_file = file.is_some();
    Plan {
        source: file,
        work_dir: if temp {
            WorkDir::Temp
        } else {
            WorkDir::Current
        },
        watch: has_file && watch,
        notify,
    }
}

/// The name of the temporary file that holds a program read from standard input.
pub fn stdin_file_name() -> (r: String)
    ensures
        r@ == stdin_file_text(),
{
    String::from_str("temp.rs")
}

/// The path of the artifact built inside the working directory `dir`.
pub fn artifact_path(dir: &str) -> (r: String)
    ensures
        r@ == artifact_path_text(dir@),
{
    String::from_str(dir).concat("/executable")
}

/// A program read from standard input is run exactly once, whatever `--watch`
/// says and whatever events follow the start.
pub proof fn lemma_stdin_runs_once(watch_flag: bool, evs: Seq<Event>)
    requires
        evs.len() > 0,
        evs[0] == Event::Started,
    ensures
        passes(
            actions(Session { watch: watch_mode(false, watch_flag), phase: Phase::Start, clock_ms: 0 }, evs),
        ) == 1,
{
    crate::session::lemma_one_shot_runs_once(evs);
}

} // verus!

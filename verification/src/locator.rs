//! Finding a usable Java runtime on the host.
//!
//! The search is a small state machine. The caller performs each action that
//! the machine asks for (read a variable, look for a file, run a command) and
//! hands back what happened; the machine decides what comes next. A candidate
//! is returned only after it ran with a version flag and exited with success.
//! A reply that does not answer the pending action counts as a failure of
//! that action.

use vstd::prelude::*;
use crate::paths::{join, opt_text, spec_join};
use crate::platform::Platform;
use crate::text::{chars_of, concat, find_char, index_of_from, slice_of, texts};

verus! {

/// The variable that names the root of a Java installation.
pub const HOME_VARIABLE: &'static str = "JAVA_HOME";

/// A command to run: a program and its arguments.
#[derive(Clone, Debug, PartialEq, Eq)]
pub struct CommandLine {
    pub program: String,
    pub args: Vec<String>,
}

/// A command as mathematics sees it.
pub struct CommandModel {
    pub program: Seq<char>,
    pub args: Seq<Seq<char>>,
}

impl View for CommandLine {
    type V = CommandModel;

    open spec fn view(&self) -> CommandModel {
        CommandModel { program: self.program@, args: texts(self.args@) }
    }
}

/// What running a command gave: whether it exited with success, and what it
/// wrote to its standard output, as text.
#[derive(Clone, Debug, PartialEq, Eq)]
pub struct CommandOutcome {
    pub success: bool,
    pub stdout: String,
}

/// An outcome as mathematics sees it.
pub struct OutcomeModel {
    pub success: bool,
    pub stdout: Seq<char>,
}

impl View for CommandOutcome {
    type V = OutcomeModel;

    open spec fn view(&self) -> OutcomeModel {
        OutcomeModel { success: self.success, stdout: self.stdout@ }
    }
}

/// What the caller is asked to do next.
#[derive(Clone, Debug, PartialEq, Eq)]
pub enum LocatorAction {
    /// Read the environment variable `name`.
    ReadVariable { name: String },
    /// Find out whether a file exists at `path`.
    ProbeFile { path: String },
    /// Run `command` to its end and collect its outcome.
    Run { command: CommandLine },
    /// Stop: the search has ended with `runtime`.
    Finish { runtime: Option<String> },
}

/// An action as mathematics sees it.
pub enum ActionModel {
    ReadVariable { name: Seq<char> },
    ProbeFile { path: Seq<char> },
    Run { command: CommandModel },
    Finish { runtime: Option<Seq<char>> },
}

impl View for LocatorAction {
    type V = ActionModel;

    open spec fn view(&self) -> ActionModel {
        match self {
            LocatorAction::ReadVariable { name } => ActionModel::ReadVariable { name: name@ },
            LocatorAction::ProbeFile { path } => ActionModel::ProbeFile { path: path@ },
            LocatorAction::Run { command } => ActionModel::Run { command: command@ },
            LocatorAction::Finish { runtime } => ActionModel::Finish {
                runtime: opt_text(*runtime),
            },
        }
    }
}

/// What the caller reports back.
#[derive(Clone, Debug, PartialEq, Eq)]
pub enum LocatorEvent {
    /// The variable's value, or `None` where it is not set.
    Variable { value: Option<String> },
    /// Whether the file exists.
    FileProbed { exists: bool },
    /// The command's outcome, or `None` where it could not be run at all.
    Ran { outcome: Option<CommandOutcome> },
}

/// An event as mathematics sees it.
pub enum EventModel {
    Variable { value: Option<Seq<char>> },
    FileProbed { exists: bool },
    Ran { outcome: Option<OutcomeModel> },
}

impl View for LocatorEvent {
    type V = EventModel;

    open spec fn view(&self) -> EventModel {
        match self {
            LocatorEvent::Variable { value } => EventModel::Variable { value: opt_text(*value) },
            LocatorEvent::FileProbed { exists } => EventModel::FileProbed { exists: *exists },
            LocatorEvent::Ran { outcome } => EventModel::Ran {
                outcome: match outcome {
                    Some(o) => Some(o@),
                    None => None,
                },
            },
        }
    }
}

/// Where the search stands.
#[derive(Clone, Debug, PartialEq, Eq)]
pub enum LocatorState {
    /// The home variable has been asked for.
    AwaitingVariable,
    /// The launcher below the home directory is being looked for on disk.
    AwaitingPresence { candidate: String },
    /// The launcher below the home directory is being run with a version flag.
    AwaitingHomeCheck { candidate: String },
    /// The search path is being asked for a launcher.
    AwaitingSearch,
    /// The launcher from the search path is being run with a version flag.
    AwaitingFoundCheck { candidate: String },
    /// The search has ended.
    Finished { runtime: Option<String> },
}

/// A state as mathematics sees it.
pub enum StateModel {
    AwaitingVariable,
    AwaitingPresence { candidate: Seq<char> },
    AwaitingHomeCheck { candidate: Seq<char> },
    AwaitingSearch,
    AwaitingFoundCheck { candidate: Seq<char> },
    Finished { runtime: Option<Seq<char>> },
}

impl View for LocatorState {
    type V = StateModel;

    open spec fn view(&self) -> StateModel {
        match self {
            LocatorState::AwaitingVariable => StateModel::AwaitingVariable,
            LocatorState::AwaitingPresence { candidate } => StateModel::AwaitingPresence {
                candidate: candidate@,
            },
            LocatorState::AwaitingHomeCheck { candidate } => StateModel::AwaitingHomeCheck {
                candidate: candidate@,
            },
            LocatorState::AwaitingSearch => StateModel::AwaitingSearch,
            LocatorState::AwaitingFoundCheck { candidate } => StateModel::AwaitingFoundCheck {
                candidate: candidate@,
            },
            LocatorState::Finished { runtime } => StateModel::Finished {
                runtime: opt_text(*runtime),
            },
        }
    }
}

/// The command that asks `candidate` for its version: the candidate itself
/// with `-version`, or on Windows the command interpreter with the quoted
/// candidate and the flag as one command text.
pub open spec fn spec_version_query(p: Platform, candidate: Seq<char>) -> CommandModel {
    match p {
        Platform::Posix => CommandModel { program: candidate, args: seq!["-version"@] },
        Platform::Windows => CommandModel {
            program: "cmd"@,
            args: seq!["/C"@, "\""@ + candidate + "\" -version"@],
        },
    }
}

/// The command that asks the search path for the Java launcher.
pub open spec fn spec_search_query(p: Platform) -> CommandModel {
    match p {
        Platform::Posix => CommandModel {
            program: p.spec_search_command(),
            args: seq![p.spec_java_executable()],
        },
        Platform::Windows => CommandModel {
            program: "cmd"@,
            args: seq!["/C"@, p.spec_search_command(), p.spec_java_executable()],
        },
    }
}

/// The first line of a text: what stands before the first line feed, without
/// the carriage return that may precede it; the whole text where it holds no
/// line feed.
pub open spec fn spec_first_line(s: Seq<char>) -> Seq<char> {
    let end = index_of_from(s, '\n', 0);
    if 0 < end < s.len() && s[end - 1] == '\r' {
        s.subrange(0, end - 1)
    } else {
        s.subrange(0, end)
    }
}

/// Whether a command ran and exited with success.
pub open spec fn spec_succeeded(event: EventModel) -> bool {
    event matches EventModel::Ran { outcome: Some(o) } && o.success
}

/// The state that follows `state` on `event`.
pub open spec fn spec_next(p: Platform, state: StateModel, event: EventModel) -> StateModel {
    match state {
        StateModel::AwaitingVariable => match event {
            EventModel::Variable { value: Some(home) } => StateModel::AwaitingPresence {
                candidate: spec_join(p, home, p.spec_java_relative_path()),
            },
            _ => StateModel::AwaitingSearch,
        },
        StateModel::AwaitingPresence { candidate } => match event {
            EventModel::FileProbed { exists: true } => StateModel::AwaitingHomeCheck { candidate },
            _ => StateModel::AwaitingSearch,
        },
        StateModel::AwaitingHomeCheck { candidate } => if spec_succeeded(event) {
            StateModel::Finished { runtime: Some(candidate) }
        } else {
            StateModel::AwaitingSearch
        },
        StateModel::AwaitingSearch => match event {
            EventModel::Ran { outcome: Some(o) } => if o.success && spec_first_line(o.stdout).len()
                > 0 {
                StateModel::AwaitingFoundCheck { candidate: spec_first_line(o.stdout) }
            } else {
                StateModel::Finished { runtime: None }
            },
            _ => StateModel::Finished { runtime: None },
        },
        StateModel::AwaitingFoundCheck { candidate } => if spec_succeeded(event) {
            StateModel::Finished { runtime: Some(candidate) }
        } else {
            StateModel::Finished { runtime: None }
        },
        StateModel::Finished { runtime } => StateModel::Finished { runtime },
    }
}

/// The action that `state` is waiting on.
pub open spec fn spec_action(p: Platform, state: StateModel) -> ActionModel {
    match state {
        StateModel::AwaitingVariable => ActionModel::ReadVariable { name: HOME_VARIABLE@ },
        StateModel::AwaitingPresence { candidate } => ActionModel::ProbeFile { path: candidate },
        StateModel::AwaitingHomeCheck { candidate } => ActionModel::Run {
            command: spec_version_query(p, candidate),
        },
        StateModel::AwaitingSearch => ActionModel::Run { command: spec_search_query(p) },
        StateModel::AwaitingFoundCheck { candidate } => ActionModel::Run {
            command: spec_version_query(p, candidate),
        },
        StateModel::Finished { runtime } => ActionModel::Finish { runtime },
    }
}

/// The command that asks `candidate` for its version.
pub fn version_query(p: Platform, candidate: &str) -> (r: CommandLine)
    ensures
        r@ == spec_version_query(p, candidate@),
{
    let mut args: Vec<String> = Vec::new();
    match p {
        Platform::Posix => {
            args.push("-version".to_owned());
            let r = CommandLine { program: candidate.to_owned(), args };
            assert(r@.args =~= seq!["-version"@]);
            r
        },
        Platform::Windows => {
            let quoted = concat("\"", candidate);
            args.push("/C".to_owned());
            args.push(concat(quoted.as_str(), "\" -version"));
            let r = CommandLine { program: "cmd".to_owned(), args };
            assert(r@.args =~= seq!["/C"@, "\""@ + candidate@ + "\" -version"@]);
            r
        },
    }
}

/// The command that asks the search path for the Java launcher.
pub fn search_query(p: Platform) -> (r: CommandLine)
    ensures
        r@ == spec_search_query(p),
{
    let mut args: Vec<String> = Vec::new();
    match p {
        Platform::Posix => {
            args.push(p.java_executable().to_owned());
            let r = CommandLine { program: p.search_command().to_owned(), args };
            assert(r@.args =~= seq![p.spec_java_executable()]);
            r
        },
        Platform::Windows => {
            args.push("/C".to_owned());
            args.push(p.search_command().to_owned());
            args.push(p.java_executable().to_owned());
            let r = CommandLine { program: "cmd".to_owned(), args };
            assert(r@.args =~= seq!["/C"@, p.spec_search_command(), p.spec_java_executable()]);
            r
        },
    }
}

/// The first line of `s`.
pub fn first_line(s: &str) -> (r: String)
    ensures
        r@ == spec_first_line(s@),
{
    let v = chars_of(s);
    let end = find_char(&v, '\n', 0);
    if 0 < end && end < v.len() && v[end - 1] == '\r' {
        slice_of(s, 0, end - 1)
    } else {
        slice_of(s, 0, end)
    }
}

/// The action that `state` is waiting on.
pub fn action_for(p: Platform, state: &LocatorState) -> (r: LocatorAction)
    ensures
        r@ == spec_action(p, state@),
{
    match state {
        LocatorState::AwaitingVariable => LocatorAction::ReadVariable {
            name: HOME_VARIABLE.to_owned(),
        },
        LocatorState::AwaitingPresence { candidate } => LocatorAction::ProbeFile {
            path: candidate.clone(),
        },
        LocatorState::AwaitingHomeCheck { candidate } => LocatorAction::Run {
            command: version_query(p, candidate.as_str()),
        },
        LocatorState::AwaitingSearch => LocatorAction::Run { command: search_query(p) },
        LocatorState::AwaitingFoundCheck { candidate } => LocatorAction::Run {
            command: version_query(p, candidate.as_str()),
        },
        LocatorState::Finished { runtime } => LocatorAction::Finish { runtime: runtime.clone() },
    }
}

/// Whether a command ran and exited with success.
fn succeeded(event: &LocatorEvent) -> (r: bool)
    ensures
        r == spec_succeeded(event@),
{
    match event {
        LocatorEvent::Ran { outcome: Some(o) } => o.success,
        _ => false,
    }
}

/// The state that follows `state` on `event`.
pub fn next_state(p: Platform, state: LocatorState, event: LocatorEvent) -> (r: LocatorState)
    ensures
        r@ == spec_next(p, state@, event@),
{
    match state {
        LocatorState::AwaitingVariable => match event {
            LocatorEvent::Variable { value: Some(home) } => LocatorState::AwaitingPresence {
                candidate: join(p, home.as_str(), p.java_relative_path()),
            },
            _ => LocatorState::AwaitingSearch,
        },
        LocatorState::AwaitingPresence { candidate } => match event {
            LocatorEvent::FileProbed { exists: true } => LocatorState::AwaitingHomeCheck {
                candidate,
            },
            _ => LocatorState::AwaitingSearch,
        },
        LocatorState::AwaitingHomeCheck { candidate } => if succeeded(&event) {
            LocatorState::Finished { runtime: Some(candidate) }
        } else {
            LocatorState::AwaitingSearch
        },
        LocatorState::AwaitingSearch => match event {
            LocatorEvent::Ran { outcome: Some(o) } => {
                let line = first_line(o.stdout.as_str());
                if o.success && !line.as_str().is_empty() {
                    LocatorState::AwaitingFoundCheck { candidate: line }
                } else {
                    LocatorState::Finished { runtime: None }
                }
            },
            _ => LocatorState::Finished { runtime: None },
        },
        LocatorState::AwaitingFoundCheck { candidate } => if succeeded(&event) {
            LocatorState::Finished { runtime: Some(candidate) }
        } else {
            LocatorState::Finished { runtime: None }
        },
        LocatorState::Finished { runtime } => LocatorState::Finished { runtime },
    }
}

/// Begins a search: the state to start from and the first action to perform.
pub fn start(p: Platform) -> (r: (LocatorState, LocatorAction))
    ensures
        r.0@ == StateModel::AwaitingVariable,
        r.1@ == spec_action(p, StateModel::AwaitingVariable),
{
    let state = LocatorState::AwaitingVariable;
    let action = action_for(p, &state);
    (state, action)
}

/// Takes the search one step on: from `state` and what the pending action
/// gave, to the next state and the action to perform for it.
pub fn step(p: Platform, state: LocatorState, event: LocatorEvent) -> (r: (
    LocatorState,
    LocatorAction,
))
    ensures
        r.0@ == spec_next(p, state@, event@),
        r.1@ == spec_action(p, r.0@),
{
    let next = next_state(p, state, event);
    let action = action_for(p, &next);
    (next, action)
}

/// A host as the search sees it: the value of the home variable, the files
/// that exist, and the commands that can be run with what they give.
pub struct HostModel {
    pub home: Option<Seq<char>>,
    pub files: Set<Seq<char>>,
    pub runs: Map<CommandModel, OutcomeModel>,
}

/// What `host` answers to `action`.
pub open spec fn spec_reply(host: HostModel, action: ActionModel) -> EventModel {
    match action {
        ActionModel::ReadVariable { name } => EventModel::Variable { value: host.home },
        ActionModel::ProbeFile { path } => EventModel::FileProbed {
            exists: host.files.contains(path),
        },
        ActionModel::Run { command } => EventModel::Ran {
            outcome: if host.runs.dom().contains(command) {
                Some(host.runs[command])
            } else {
                None
            },
        },
        ActionModel::Finish { runtime } => EventModel::Ran { outcome: None },
    }
}

/// The state reached from `state` after `steps` rounds of performing the
/// pending action on `host` and handing its answer back.
pub open spec fn spec_run(p: Platform, host: HostModel, state: StateModel, steps: nat) -> StateModel
    decreases steps,
{
    if steps == 0 {
        state
    } else {
        spec_run(
            p,
            host,
            spec_next(p, state, spec_reply(host, spec_action(p, state))),
            (steps - 1) as nat,
        )
    }
}

/// Whether `candidate`, run on `host` with a version flag, exits with success.
pub open spec fn spec_validates(p: Platform, host: HostModel, candidate: Seq<char>) -> bool {
    let query = spec_version_query(p, candidate);
    host.runs.dom().contains(query) && host.runs[query].success
}

/// The launcher below the home directory, where the variable is set, the
/// launcher exists and it validates.
pub open spec fn spec_home_runtime(p: Platform, host: HostModel) -> Option<Seq<char>> {
    match host.home {
        Some(home) => {
            let candidate = spec_join(p, home, p.spec_java_relative_path());
            if host.files.contains(candidate) && spec_validates(p, host, candidate) {
                Some(candidate)
            } else {
                None
            }
        },
        None => None,
    }
}

/// The launcher that the search path names, where the search command runs
/// with success, its first line is not empty and that line validates.
pub open spec fn spec_found_runtime(p: Platform, host: HostModel) -> Option<Seq<char>> {
    let query = spec_search_query(p);
    if host.runs.dom().contains(query) && host.runs[query].success {
        let candidate = spec_first_line(host.runs[query].stdout);
        if candidate.len() > 0 && spec_validates(p, host, candidate) {
            Some(candidate)
        } else {
            None
        }
    } else {
        None
    }
}

/// The runtime that a search on `host` ends with: the one below the home
/// directory where there is one, else the one from the search path, else none.
pub open spec fn spec_locate(p: Platform, host: HostModel) -> Option<Seq<char>> {
    match spec_home_runtime(p, host) {
        Some(candidate) => Some(candidate),
        None => spec_found_runtime(p, host),
    }
}

/// A search that is driven on a host ends within five rounds, with the
/// runtime that `spec_locate` describes, and further rounds change nothing.
pub proof fn lemma_search_ends_with_located(p: Platform, host: HostModel, steps: nat)
    requires
        steps >= 5,
    ensures
        spec_run(p, host, StateModel::AwaitingVariable, steps) == (StateModel::Finished {
            runtime: spec_locate(p, host),
        }),
{
    reveal_with_fuel(spec_run, 6);
    let end = spec_run(p, host, StateModel::AwaitingVariable, 5);
    assert(end == StateModel::Finished { runtime: spec_locate(p, host) });
    lemma_run_splits(p, host, StateModel::AwaitingVariable, 5, (steps - 5) as nat);
    lemma_finished_stays(p, host, spec_locate(p, host), (steps - 5) as nat);
}

/// Running `a + b` rounds is running `a` rounds and then `b` more.
pub proof fn lemma_run_splits(p: Platform, host: HostModel, state: StateModel, a: nat, b: nat)
    ensures
        spec_run(p, host, state, a + b) == spec_run(p, host, spec_run(p, host, state, a), b),
    decreases a,
{
    if a > 0 {
        lemma_run_splits(
            p,
            host,
            spec_next(p, state, spec_reply(host, spec_action(p, state))),
            (a - 1) as nat,
            b,
        );
    }
}

/// A search that has ended stays as it is.
pub proof fn lemma_finished_stays(
    p: Platform,
    host: HostModel,
    runtime: Option<Seq<char>>,
    steps: nat,
)
    ensures
        spec_run(p, host, StateModel::Finished { runtime }, steps) == (StateModel::Finished {
            runtime,
        }),
    decreases steps,
{
    if steps > 0 {
        lemma_finished_stays(p, host, runtime, (steps - 1) as nat);
    }
}

/// A step ends the search with a runtime only from a state that was waiting
/// on that very candidate's version query, and only on an event that reports
/// the query as run with success.
pub proof fn lemma_found_only_when_validated(
    p: Platform,
    state: StateModel,
    event: EventModel,
    candidate: Seq<char>,
)
    requires
        !(state is Finished),
        spec_next(p, state, event) == (StateModel::Finished { runtime: Some(candidate) }),
    ensures
        state == (StateModel::AwaitingHomeCheck { candidate }) || state == (
        StateModel::AwaitingFoundCheck { candidate }),
        spec_action(p, state) == (ActionModel::Run { command: spec_version_query(p, candidate) }),
        spec_succeeded(event),
{
}

/// A launcher below the home directory that is missing, or that does not
/// run with success, sends the search on to the search path.
pub proof fn lemma_failed_home_falls_through(p: Platform, state: StateModel, event: EventModel)
    requires
        (state is AwaitingPresence && event != (EventModel::FileProbed { exists: true })) || (state
            is AwaitingHomeCheck && !spec_succeeded(event)),
    ensures
        spec_next(p, state, event) == StateModel::AwaitingSearch,
        spec_action(p, spec_next(p, state, event)) == (ActionModel::Run {
            command: spec_search_query(p),
        }),
{
}

/// A search returns a runtime only where that runtime, run on the host with
/// a version flag, exits with success.
pub proof fn lemma_located_is_validated(p: Platform, host: HostModel, candidate: Seq<char>)
    requires
        spec_locate(p, host) == Some(candidate),
    ensures
        spec_validates(p, host, candidate),
{
}

/// A search returns nothing where neither the home variable nor the search
/// path yields a candidate that validates.
pub proof fn lemma_absent_without_validated(p: Platform, host: HostModel)
    requires
        spec_home_runtime(p, host) is None,
        spec_found_runtime(p, host) is None,
    ensures
        spec_locate(p, host) is None,
{
}

} // verus!

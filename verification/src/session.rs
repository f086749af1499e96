//! An extraction from beginning to end, as a state machine.
//!
//! The caller performs each action that the machine asks for on the file
//! system and hands back how it went; the machine decides what comes next.
//! Any action that fails ends the extraction at once: nothing further is
//! asked, and what was written so far is left as it is.

use vstd::prelude::*;
use crate::error::{ErrorModel, ExtractError, FailureKind};
use crate::extract::{
    plan_extraction, spec_extraction, ExtractStep, ExtractionPlan, PlanModel, StepModel,
};
use crate::format::{detect_format, spec_detect_format, spec_extension_token, ArchiveFormat};
use crate::platform::Platform;

verus! {

/// What the caller is asked to do next.
#[derive(Clone, Debug, PartialEq, Eq)]
pub enum ExtractAction {
    /// Read the whole file at `path` and hand back its bytes.
    ReadArchive { path: String },
    /// Create the directory at `path` with every missing parent; a directory
    /// that is there already is no failure.
    CreateDestination { path: String },
    /// Carry out `step`.
    Perform { step: ExtractStep },
    /// Stop: the extraction went through, and `root_label` is its result.
    Succeed { root_label: String },
    /// Stop: the extraction failed with `error`.
    Fail { error: ExtractError },
}

/// An action as mathematics sees it.
pub enum ExtractActionModel {
    ReadArchive { path: Seq<char> },
    CreateDestination { path: Seq<char> },
    Perform { step: StepModel },
    Succeed { root_label: Seq<char> },
    Fail { error: ErrorModel },
}

impl View for ExtractAction {
    type V = ExtractActionModel;

    open spec fn view(&self) -> ExtractActionModel {
        match self {
            ExtractAction::ReadArchive { path } => ExtractActionModel::ReadArchive { path: path@ },
            ExtractAction::CreateDestination { path } => ExtractActionModel::CreateDestination {
                path: path@,
            },
            ExtractAction::Perform { step } => ExtractActionModel::Perform { step: step@ },
            ExtractAction::Succeed { root_label } => ExtractActionModel::Succeed {
                root_label: root_label@,
            },
            ExtractAction::Fail { error } => ExtractActionModel::Fail { error: error@ },
        }
    }
}

/// Where an extraction stands.
#[derive(Debug, PartialEq, Eq)]
pub enum ExtractState {
    /// The archive is being read. `dest_ready` tells whether the destination
    /// directory has been created already.
    AwaitingBytes { format: ArchiveFormat, dest_dir: String, dest_ready: bool },
    /// The destination directory is being created; the archive is read after.
    CreatingBeforeRead { format: ArchiveFormat, archive_path: String, dest_dir: String },
    /// The destination directory is being created; `plan` is carried out after.
    CreatingBeforeSteps { plan: ExtractionPlan },
    /// A step is being carried out. `pending` holds the steps that follow
    /// it, the next one last.
    Performing { pending: Vec<ExtractStep>, root_label: String },
    /// The extraction has ended.
    Finished { outcome: Result<String, ExtractError> },
}

/// A state as mathematics sees it.
pub enum ExtractStateModel {
    AwaitingBytes { format: ArchiveFormat, dest_dir: Seq<char>, dest_ready: bool },
    CreatingBeforeRead { format: ArchiveFormat, archive_path: Seq<char>, dest_dir: Seq<char> },
    CreatingBeforeSteps { plan: PlanModel },
    /// `remaining` holds the steps that follow the one being carried out, in
    /// the order in which they are to be performed.
    Performing { remaining: Seq<StepModel>, root_label: Seq<char> },
    Finished { outcome: Result<Seq<char>, ErrorModel> },
}

/// The steps in `pending`, the last one first.
pub open spec fn spec_reversed(pending: Seq<ExtractStep>) -> Seq<StepModel> {
    Seq::new(pending.len(), |i: int| pending[pending.len() - 1 - i]@)
}

impl View for ExtractState {
    type V = ExtractStateModel;

    open spec fn view(&self) -> ExtractStateModel {
        match self {
            ExtractState::AwaitingBytes { format, dest_dir, dest_ready } => {
                ExtractStateModel::AwaitingBytes {
                    format: *format,
                    dest_dir: dest_dir@,
                    dest_ready: *dest_ready,
                }
            },
            ExtractState::CreatingBeforeRead { format, archive_path, dest_dir } => {
                ExtractStateModel::CreatingBeforeRead {
                    format: *format,
                    archive_path: archive_path@,
                    dest_dir: dest_dir@,
                }
            },
            ExtractState::CreatingBeforeSteps { plan } => ExtractStateModel::CreatingBeforeSteps {
                plan: plan@,
            },
            ExtractState::Performing { pending, root_label } => ExtractStateModel::Performing {
                remaining: spec_reversed(pending@),
                root_label: root_label@,
            },
            ExtractState::Finished { outcome } => ExtractStateModel::Finished {
                outcome: match outcome {
                    Ok(label) => Ok(label@),
                    Err(error) => Err(error@),
                },
            },
        }
    }
}

/// How an action went, as mathematics sees it: the bytes it read (none for
/// an action that reads nothing), or the reason why it failed.
pub open spec fn outcome_view(outcome: Result<Vec<u8>, String>) -> Result<Seq<u8>, Seq<char>> {
    match outcome {
        Ok(bytes) => Ok(bytes@),
        Err(message) => Err(message@),
    }
}

/// The state and action with which an extraction ends.
pub open spec fn spec_finish(outcome: Result<Seq<char>, ErrorModel>) -> (
    ExtractStateModel,
    ExtractActionModel,
) {
    (
        ExtractStateModel::Finished { outcome },
        match outcome {
            Ok(root_label) => ExtractActionModel::Succeed { root_label },
            Err(error) => ExtractActionModel::Fail { error },
        },
    )
}

/// Going on with `steps`: the first of them is asked for and the others
/// wait; where none is left the extraction ends with `root_label`.
pub open spec fn spec_proceed(steps: Seq<StepModel>, root_label: Seq<char>) -> (
    ExtractStateModel,
    ExtractActionModel,
) {
    if steps.len() == 0 {
        spec_finish(Ok(root_label))
    } else {
        (
            ExtractStateModel::Performing { remaining: steps.skip(1), root_label },
            ExtractActionModel::Perform { step: steps[0] },
        )
    }
}

/// How an extraction of a given format begins. A ZIP archive is read before
/// its destination is created; for a TAR stream the destination comes first.
pub open spec fn spec_begin(
    format: ArchiveFormat,
    archive_path: Seq<char>,
    dest_dir: Seq<char>,
) -> (ExtractStateModel, ExtractActionModel) {
    match format {
        ArchiveFormat::Zip => (
            ExtractStateModel::AwaitingBytes { format, dest_dir, dest_ready: false },
            ExtractActionModel::ReadArchive { path: archive_path },
        ),
        _ => (
            ExtractStateModel::CreatingBeforeRead { format, archive_path, dest_dir },
            ExtractActionModel::CreateDestination { path: dest_dir },
        ),
    }
}

/// How the extraction of an archive begins when its name decides the
/// format: a name that announces no known format ends it at once.
pub open spec fn spec_begin_by_name(archive_path: Seq<char>, dest_dir: Seq<char>) -> (
    ExtractStateModel,
    ExtractActionModel,
) {
    match spec_detect_format(archive_path) {
        Some(format) => spec_begin(format, archive_path, dest_dir),
        None => spec_finish(
            Err(ErrorModel::UnsupportedFormat { extension: spec_extension_token(archive_path) }),
        ),
    }
}

/// The state that follows `state`, and the action to perform for it, once
/// the pending action went as `outcome` says.
pub open spec fn spec_advance(
    p: Platform,
    state: ExtractStateModel,
    outcome: Result<Seq<u8>, Seq<char>>,
) -> (ExtractStateModel, ExtractActionModel) {
    match state {
        ExtractStateModel::Finished { outcome: ended } => spec_finish(ended),
        _ => match outcome {
            Err(message) => spec_finish(Err(ErrorModel::Io { message })),
            Ok(bytes) => match state {
                ExtractStateModel::AwaitingBytes { format, dest_dir, dest_ready } => {
                    match spec_extraction(p, format, bytes, dest_dir) {
                        None => spec_finish(Err(ErrorModel::Malformed)),
                        Some(plan) => if dest_ready {
                            spec_proceed(plan.steps, plan.root_label)
                        } else {
                            (
                                ExtractStateModel::CreatingBeforeSteps { plan },
                                ExtractActionModel::CreateDestination { path: dest_dir },
                            )
                        },
                    }
                },
                ExtractStateModel::CreatingBeforeRead { format, archive_path, dest_dir } => (
                    ExtractStateModel::AwaitingBytes { format, dest_dir, dest_ready: true },
                    ExtractActionModel::ReadArchive { path: archive_path },
                ),
                ExtractStateModel::CreatingBeforeSteps { plan } => spec_proceed(
                    plan.steps,
                    plan.root_label,
                ),
                ExtractStateModel::Performing { remaining, root_label } => spec_proceed(
                    remaining,
                    root_label,
                ),
                ExtractStateModel::Finished { outcome: ended } => spec_finish(ended),
            },
        },
    }
}

/// Ends an extraction with `outcome`.
fn finish(outcome: Result<String, ExtractError>) -> (r: (ExtractState, ExtractAction))
    ensures
        (r.0@, r.1@) == spec_finish(
            match outcome {
                Ok(label) => Ok(label@),
                Err(error) => Err(error@),
            },
        ),
{
    match outcome {
        Ok(label) => {
            let action = ExtractAction::Succeed { root_label: label.clone() };
            (ExtractState::Finished { outcome: Ok(label) }, action)
        },
        Err(error) => {
            let action = match &error {
                ExtractError::UnsupportedFormat { extension } => ExtractAction::Fail {
                    error: ExtractError::UnsupportedFormat { extension: extension.clone() },
                },
                ExtractError::Malformed { message } => ExtractAction::Fail {
                    error: ExtractError::Malformed { message: message.clone() },
                },
                ExtractError::Io { message } => ExtractAction::Fail {
                    error: ExtractError::Io { message: message.clone() },
                },
            };
            (ExtractState::Finished { outcome: Err(error) }, action)
        },
    }
}

/// Goes on with the steps in `pending`, of which the last is the next.
fn proceed(pending: Vec<ExtractStep>, root_label: String) -> (r: (ExtractState, ExtractAction))
    ensures
        (r.0@, r.1@) == spec_proceed(spec_reversed(pending@), root_label@),
{
    let mut pending = pending;
    let ghost steps = spec_reversed(pending@);
    match pending.pop() {
        None => finish(Ok(root_label)),
        Some(step) => {
            assert(step@ == steps[0]);
            assert(spec_reversed(pending@) =~= steps.skip(1));
            (ExtractState::Performing { pending, root_label }, ExtractAction::Perform { step })
        },
    }
}

/// Begins to carry out `plan`.
fn proceed_with(plan: ExtractionPlan) -> (r: (ExtractState, ExtractAction))
    ensures
        (r.0@, r.1@) == spec_proceed(plan@.steps, plan@.root_label),
{
    let ExtractionPlan { steps, root_label } = plan;
    let ghost wanted = plan@.steps;
    let mut steps = steps;
    let mut pending: Vec<ExtractStep> = Vec::new();
    let ghost total = steps.len();
    while steps.len() > 0
        invariant
            wanted.len() == total,
            steps.len() + pending.len() == total,
            forall|i: int| 0 <= i < steps.len() ==> #[trigger] steps@[i]@ == wanted[i],
            forall|i: int|
                0 <= i < pending.len() ==> #[trigger] pending@[i]@ == wanted[total - 1 - i],
        decreases steps.len(),
    {
        let step = steps.pop().unwrap();
        pending.push(step);
    }
    assert(spec_reversed(pending@) =~= wanted);
    proceed(pending, root_label)
}

/// Begins the extraction of the archive at `archive_path`, read as `format`,
/// into `dest_dir`.
pub fn begin(format: ArchiveFormat, archive_path: String, dest_dir: String) -> (r: (
    ExtractState,
    ExtractAction,
))
    ensures
        (r.0@, r.1@) == spec_begin(format, archive_path@, dest_dir@),
{
    match format {
        ArchiveFormat::Zip => (
            ExtractState::AwaitingBytes { format, dest_dir, dest_ready: false },
            ExtractAction::ReadArchive { path: archive_path },
        ),
        _ => {
            let action = ExtractAction::CreateDestination { path: dest_dir.clone() };
            (ExtractState::CreatingBeforeRead { format, archive_path, dest_dir }, action)
        },
    }
}

/// Begins the extraction of the archive at `archive_path` into `dest_dir`,
/// with the format that the archive's name announces. A name that announces
/// none ends the extraction before anything is asked of the file system.
pub fn begin_by_name(archive_path: String, dest_dir: String) -> (r: (ExtractState, ExtractAction))
    ensures
        (r.0@, r.1@) == spec_begin_by_name(archive_path@, dest_dir@),
{
    match detect_format(archive_path.as_str()) {
        Ok(format) => begin(format, archive_path, dest_dir),
        Err(error) => finish(Err(error)),
    }
}

/// Takes an extraction one step on: from `state` and how the pending action
/// went, to the next state and the action to perform for it.
pub fn advance(p: Platform, state: ExtractState, outcome: Result<Vec<u8>, String>) -> (r: (
    ExtractState,
    ExtractAction,
))
    ensures
        (r.0@, r.1@) == spec_advance(p, state@, outcome_view(outcome)),
{
    match state {
        ExtractState::Finished { outcome: ended } => finish(ended),
        ExtractState::AwaitingBytes { format, dest_dir, dest_ready } => match outcome {
            Err(message) => finish(Err(ExtractError::Io { message })),
            Ok(bytes) => match plan_extraction(p, format, bytes, dest_dir.as_str()) {
                Err(error) => finish(Err(error)),
                Ok(plan) => if dest_ready {
                    proceed_with(plan)
                } else {
                    (
                        ExtractState::CreatingBeforeSteps { plan },
                        ExtractAction::CreateDestination { path: dest_dir },
                    )
                },
            },
        },
        ExtractState::CreatingBeforeRead { format, archive_path, dest_dir } => match outcome {
            Err(message) => finish(Err(ExtractError::Io { message })),
            Ok(_) => (
                ExtractState::AwaitingBytes { format, dest_dir, dest_ready: true },
                ExtractAction::ReadArchive { path: archive_path },
            ),
        },
        ExtractState::CreatingBeforeSteps { plan } => match outcome {
            Err(message) => finish(Err(ExtractError::Io { message })),
            Ok(_) => proceed_with(plan),
        },
        ExtractState::Performing { pending, root_label } => match outcome {
            Err(message) => finish(Err(ExtractError::Io { message })),
            Ok(_) => proceed(pending, root_label),
        },
    }
}

/// Where an extraction stands, and what it asks for, after `successes` more
/// actions went through without handing back any bytes.
pub open spec fn spec_after_successes(
    p: Platform,
    at: (ExtractStateModel, ExtractActionModel),
    successes: nat,
) -> (ExtractStateModel, ExtractActionModel)
    decreases successes,
{
    if successes == 0 {
        at
    } else {
        spec_after_successes(p, spec_advance(p, at.0, Ok(Seq::empty())), (successes - 1) as nat)
    }
}

/// The name of an archive that announces no known format ends the
/// extraction with a format failure, and nothing is asked of the file system.
pub proof fn lemma_unknown_format_asks_nothing(archive_path: Seq<char>, dest_dir: Seq<char>)
    requires
        spec_detect_format(archive_path) is None,
    ensures
        spec_begin_by_name(archive_path, dest_dir).0 matches ExtractStateModel::Finished {
            outcome: Err(error),
        } && error.kind() == FailureKind::FormatFailure,
        spec_begin_by_name(archive_path, dest_dir).1 is Fail,
{
}

/// A failed action ends an extraction that has not ended yet: the failure
/// is an I/O failure that carries the reason given, and the action that
/// follows is to stop.
pub proof fn lemma_failure_ends_extraction(
    p: Platform,
    state: ExtractStateModel,
    message: Seq<char>,
)
    requires
        !(state is Finished),
    ensures
        spec_advance(p, state, Err(message)) == spec_finish(Err(ErrorModel::Io { message })),
        spec_advance(p, state, Err(message)).1 == (ExtractActionModel::Fail {
            error: ErrorModel::Io { message },
        }),
        (ErrorModel::Io { message }).kind() == FailureKind::IoFailure,
{
}

/// An extraction that has ended stays as it is, whatever it is told, and
/// asks for nothing but to stop.
pub proof fn lemma_ended_extraction_stays(
    p: Platform,
    ended: Result<Seq<char>, ErrorModel>,
    outcome: Result<Seq<u8>, Seq<char>>,
)
    ensures
        spec_advance(p, ExtractStateModel::Finished { outcome: ended }, outcome) == spec_finish(
            ended,
        ),
        spec_finish(ended).1 is Succeed || spec_finish(ended).1 is Fail,
{
}

/// An archive that cannot be read ends the extraction with an I/O failure.
/// Up to then nothing was asked but to read the archive and, for a TAR
/// stream, to create the destination directory before that.
pub proof fn lemma_unreadable_archive_writes_nothing(
    p: Platform,
    format: ArchiveFormat,
    archive_path: Seq<char>,
    dest_dir: Seq<char>,
    message: Seq<char>,
)
    ensures
        ({
            let first = spec_begin(format, archive_path, dest_dir);
            let failed = spec_finish(Err(ErrorModel::Io { message }));
            if format == ArchiveFormat::Zip {
                &&& first.1 == (ExtractActionModel::ReadArchive { path: archive_path })
                &&& spec_advance(p, first.0, Err(message)) == failed
            } else {
                let second = spec_advance(p, first.0, Ok(Seq::empty()));
                &&& first.1 == (ExtractActionModel::CreateDestination { path: dest_dir })
                &&& second.1 == (ExtractActionModel::ReadArchive { path: archive_path })
                &&& spec_advance(p, second.0, Err(message)) == failed
            }
        }),
{
}

/// As long as every step goes through, the steps of a plan are asked for
/// one by one in the plan's order, and after the last the extraction ends
/// with the plan's label.
pub proof fn lemma_steps_run_in_order(
    p: Platform,
    steps: Seq<StepModel>,
    root_label: Seq<char>,
    done: nat,
)
    requires
        done <= steps.len(),
    ensures
        spec_after_successes(p, spec_proceed(steps, root_label), done) == spec_proceed(
            steps.skip(done as int),
            root_label,
        ),
        done < steps.len() ==> spec_after_successes(p, spec_proceed(steps, root_label), done).1
            == (ExtractActionModel::Perform { step: steps[done as int] }),
        done == steps.len() ==> spec_after_successes(p, spec_proceed(steps, root_label), done)
            == spec_finish(Ok(root_label)),
    decreases done,
{
    if done == 0 {
        assert(steps.skip(0) =~= steps);
    } else {
        assert(steps.skip(1).skip(done - 1) =~= steps.skip(done as int));
        lemma_steps_run_in_order(p, steps.skip(1), root_label, (done - 1) as nat);
    }
}

} // verus!

//! Publishing a note: the version-control commands, their order, and what a
//! failure does.
//!
//! A note is published by three commands, run in the repository one after the
//! other: the new file is staged, the staged change is committed, and the
//! commit is pushed. The library names the commands; a driver runs them and
//! reports whether each succeeded.
//!
//! Failure policy: the first command that does not succeed ends the
//! publishing. The commands after it are not run, and the run fails with
//! `PipelineError::VersionControlFailure` naming the command. What the
//! commands before it did to the repository is not undone.

use vstd::prelude::*;
use crate::error::PipelineError;
use crate::text::join_texts;

verus! {

/// The version-control client.
pub const VCS_PROGRAM: &'static str = "git";

/// The remote that a note is pushed to.
pub const REMOTE: &'static str = "origin";

/// The branch that a note is pushed to.
pub const BRANCH: &'static str = "master";

/// One of the three commands that publish a note.
#[derive(Clone, Copy, Debug, PartialEq, Eq, Structural)]
pub enum VcsOperation {
    /// Stage the new file.
    Add,
    /// Commit what is staged.
    Commit,
    /// Push the commit to the remote.
    Push,
}

/// What publishing one note needs: the note's file, the repository, and the
/// commit message. It lives for one publishing and is never stored.
#[derive(Clone, Debug, PartialEq, Eq)]
pub struct PublishRecord {
    pub file_path: String,
    pub repo_path: String,
    pub commit_message: String,
}

/// A `PublishRecord` as plain text values.
pub struct PublishRecordView {
    pub file_path: Seq<char>,
    pub repo_path: Seq<char>,
    pub commit_message: Seq<char>,
}

impl View for PublishRecord {
    type V = PublishRecordView;

    open spec fn view(&self) -> PublishRecordView {
        PublishRecordView {
            file_path: self.file_path@,
            repo_path: self.repo_path@,
            commit_message: self.commit_message@,
        }
    }
}

/// One run of an outside program: the program, its arguments, and the
/// directory it runs in.
#[derive(Clone, Debug, PartialEq, Eq)]
pub struct Invocation {
    pub program: String,
    pub args: Vec<String>,
    pub working_dir: String,
}

/// An `Invocation` as plain text values.
pub struct InvocationView {
    pub program: Seq<char>,
    pub args: Seq<Seq<char>>,
    pub working_dir: Seq<char>,
}

impl View for Invocation {
    type V = InvocationView;

    open spec fn view(&self) -> InvocationView {
        InvocationView {
            program: self.program@,
            args: self.args.deep_view(),
            working_dir: self.working_dir@,
        }
    }
}

impl DeepView for Invocation {
    type V = InvocationView;

    open spec fn deep_view(&self) -> InvocationView {
        self@
    }
}

/// How far a publishing has come.
#[derive(Clone, Copy, Debug, PartialEq, Eq, Structural)]
pub enum PublishState {
    /// This command is the next to run; those before it succeeded.
    Pending(VcsOperation),
    /// All three commands succeeded.
    Published,
    /// This command did not succeed; none was run after it.
    Failed(VcsOperation),
}

/// The commit message for the note in the file `file_name`.
pub open spec fn commit_message_for(file_name: Seq<char>) -> Seq<char> {
    file_name + " created"@
}

/// The record for publishing the file `file_name` at `file_path` in the
/// repository at `repo_path`.
pub open spec fn publish_record(
    file_path: Seq<char>,
    repo_path: Seq<char>,
    file_name: Seq<char>,
) -> PublishRecordView {
    PublishRecordView { file_path, repo_path, commit_message: commit_message_for(file_name) }
}

/// The arguments that `operation` hands to the version-control client.
pub open spec fn operation_args(record: PublishRecordView, operation: VcsOperation) -> Seq<
    Seq<char>,
> {
    match operation {
        VcsOperation::Add => seq!["add"@, record.file_path],
        VcsOperation::Commit => seq!["commit"@, "-m"@, record.commit_message],
        VcsOperation::Push => seq!["push"@, REMOTE@, BRANCH@],
    }
}

/// The run of the version-control client that performs `operation`: always in
/// the repository.
pub open spec fn operation_invocation(
    record: PublishRecordView,
    operation: VcsOperation,
) -> InvocationView {
    InvocationView {
        program: VCS_PROGRAM@,
        args: operation_args(record, operation),
        working_dir: record.repo_path,
    }
}

/// The three commands that publish a note, in the order in which they run.
pub open spec fn publish_plan(record: PublishRecordView) -> Seq<InvocationView> {
    seq![
        operation_invocation(record, VcsOperation::Add),
        operation_invocation(record, VcsOperation::Commit),
        operation_invocation(record, VcsOperation::Push),
    ]
}

/// The command that follows `operation`, if one does.
pub open spec fn following(operation: VcsOperation) -> Option<VcsOperation> {
    match operation {
        VcsOperation::Add => Some(VcsOperation::Commit),
        VcsOperation::Commit => Some(VcsOperation::Push),
        VcsOperation::Push => None,
    }
}

/// The state that follows `state` once its pending command has ended,
/// successfully or not. A state without a pending command stays as it is.
pub open spec fn state_after(state: PublishState, succeeded: bool) -> PublishState {
    match state {
        PublishState::Pending(operation) => if !succeeded {
            PublishState::Failed(operation)
        } else {
            match following(operation) {
                Some(next) => PublishState::Pending(next),
                None => PublishState::Published,
            }
        },
        _ => state,
    }
}

/// The commands that are run, in order, from `state` on, when `outcomes`
/// tells for each command that is run whether it succeeds: `outcomes[0]` for
/// the first one run, and so on. The second part is the state reached when the
/// outcomes are used up or nothing is pending any more.
pub open spec fn performed_from(state: PublishState, outcomes: Seq<bool>) -> (
    Seq<VcsOperation>,
    PublishState,
)
    decreases outcomes.len(),
{
    match state {
        PublishState::Pending(operation) if outcomes.len() > 0 => {
            let rest = performed_from(state_after(state, outcomes[0]), outcomes.skip(1));
            (seq![operation] + rest.0, rest.1)
        },
        _ => (Seq::empty(), state),
    }
}

/// The message of the commit that adds the file `file_name`.
pub fn commit_message(file_name: &str) -> (message: String)
    ensures
        message@ == commit_message_for(file_name@),
{
    join_texts(file_name, " created")
}

impl PublishRecord {
    /// The record for publishing the file `file_name`, which lies at
    /// `file_path`, in the repository at `repo_path`.
    pub fn new(file_path: &str, repo_path: &str, file_name: &str) -> (record: PublishRecord)
        ensures
            record@ == publish_record(file_path@, repo_path@, file_name@),
    {
        PublishRecord {
            file_path: String::from_str(file_path),
            repo_path: String::from_str(repo_path),
            commit_message: commit_message(file_name),
        }
    }

    /// The run of the version-control client that performs `operation`.
    pub fn invocation(&self, operation: VcsOperation) -> (invocation: Invocation)
        ensures
            invocation@ == operation_invocation(self@, operation),
    {
        let mut args: Vec<String> = Vec::new();
        match operation {
            VcsOperation::Add => {
                args.push(String::from_str("add"));
                args.push(self.file_path.clone());
            },
            VcsOperation::Commit => {
                args.push(String::from_str("commit"));
                args.push(String::from_str("-m"));
                args.push(self.commit_message.clone());
            },
            VcsOperation::Push => {
                args.push(String::from_str("push"));
                args.push(String::from_str(REMOTE));
                args.push(String::from_str(BRANCH));
            },
        }
        assert(args.deep_view() =~= operation_args(self@, operation));
        Invocation {
            program: String::from_str(VCS_PROGRAM),
            args,
            working_dir: self.repo_path.clone(),
        }
    }
}

impl PublishState {
    /// The state in which nothing has been run yet.
    pub fn start() -> (state: PublishState)
        ensures
            state == PublishState::Pending(VcsOperation::Add),
    {
        PublishState::Pending(VcsOperation::Add)
    }

    /// The command to run next, if the publishing has not ended.
    pub fn pending(&self) -> (operation: Option<VcsOperation>)
        ensures
            operation == match *self {
                PublishState::Pending(next) => Some(next),
                _ => None,
            },
    {
        match self {
            PublishState::Pending(next) => Some(*next),
            _ => None,
        }
    }

    /// The state once the pending command has ended, successfully or not.
    pub fn step(self, succeeded: bool) -> (next: PublishState)
        ensures
            next == state_after(self, succeeded),
    {
        match self {
            PublishState::Pending(operation) => {
                if !succeeded {
                    PublishState::Failed(operation)
                } else {
                    match operation {
                        VcsOperation::Add => PublishState::Pending(VcsOperation::Commit),
                        VcsOperation::Commit => PublishState::Pending(VcsOperation::Push),
                        VcsOperation::Push => PublishState::Published,
                    }
                }
            },
            other => other,
        }
    }

    /// How the publishing ended, if it has: `Ok` when all three commands
    /// succeeded, the failure when one did not.
    pub fn outcome(&self) -> (outcome: Option<Result<(), PipelineError>>)
        ensures
            outcome == match *self {
                PublishState::Pending(_) => None::<Result<(), PipelineError>>,
                PublishState::Published => Some(Ok(())),
                PublishState::Failed(operation) => Some(
                    Err(PipelineError::VersionControlFailure(operation)),
                ),
            },
    {
        match self {
            PublishState::Pending(_) => None,
            PublishState::Published => Some(Ok(())),
            PublishState::Failed(operation) => Some(
                Err(PipelineError::VersionControlFailure(*operation)),
            ),
        }
    }
}

/// The commands that publish the file `new_file_name`, which lies at
/// `new_file_path`, in the repository at `repo_path`: stage, commit, push, in
/// the order in which they are to be run.
pub fn publish(new_file_path: &str, repo_path: &str, new_file_name: &str) -> (plan: Vec<
    Invocation,
>)
    ensures
        plan.deep_view() == publish_plan(
            publish_record(new_file_path@, repo_path@, new_file_name@),
        ),
{
    let record = PublishRecord::new(new_file_path, repo_path, new_file_name);
    let mut plan: Vec<Invocation> = Vec::new();
    plan.push(record.invocation(VcsOperation::Add));
    plan.push(record.invocation(VcsOperation::Commit));
    plan.push(record.invocation(VcsOperation::Push));
    assert(plan.deep_view() =~= publish_plan(record@));
    plan
}

/// However the commands end, they are run in the order stage, commit, push,
/// and each at most once: what is run is the beginning of that list, up to
/// and including the first command that fails.
pub proof fn lemma_commands_run_in_fixed_order(outcomes: Seq<bool>)
    ensures
        ({
            let order = seq![VcsOperation::Add, VcsOperation::Commit, VcsOperation::Push];
            let run = performed_from(PublishState::Pending(VcsOperation::Add), outcomes).0;
            &&& run.len() <= 3
            &&& run == order.take(run.len() as int)
            &&& forall|k: int| 0 <= k < run.len() - 1 ==> outcomes[k]
        }),
{
    let order = seq![VcsOperation::Add, VcsOperation::Commit, VcsOperation::Push];
    let start = PublishState::Pending(VcsOperation::Add);
    reveal_with_fuel(performed_from, 5);
    let run = performed_from(start, outcomes).0;
    if outcomes.len() > 0 {
        let tail1 = outcomes.skip(1);
        if outcomes[0] && tail1.len() > 0 {
            let tail2 = tail1.skip(1);
            assert(tail1[0] == outcomes[1]);
            if tail1[0] && tail2.len() > 0 {
                assert(tail2[0] == outcomes[2]);
            }
        }
    }
    assert(run =~= order.take(run.len() as int));
}

/// When all three commands succeed, exactly these three are run, in the order
/// stage, commit, push, and the note is published.
pub proof fn lemma_publishing_runs_three_commands(outcomes: Seq<bool>)
    requires
        outcomes.len() >= 3,
        outcomes[0] && outcomes[1] && outcomes[2],
    ensures
        performed_from(PublishState::Pending(VcsOperation::Add), outcomes) == (
            seq![VcsOperation::Add, VcsOperation::Commit, VcsOperation::Push],
            PublishState::Published,
        ),
{
    reveal_with_fuel(performed_from, 5);
    let tail1 = outcomes.skip(1);
    let tail2 = tail1.skip(1);
    assert(tail1[0] == outcomes[1]);
    assert(tail2[0] == outcomes[2]);
    let run = performed_from(PublishState::Pending(VcsOperation::Add), outcomes).0;
    assert(run =~= seq![VcsOperation::Add, VcsOperation::Commit, VcsOperation::Push]);
}

/// The first command that fails ends the publishing: it is the last command
/// run, and the publishing has failed at it.
pub proof fn lemma_first_failure_ends_publishing(outcomes: Seq<bool>, at: int)
    requires
        0 <= at < 3,
        at < outcomes.len(),
        !outcomes[at],
        forall|k: int| 0 <= k < at ==> outcomes[k],
    ensures
        ({
            let order = seq![VcsOperation::Add, VcsOperation::Commit, VcsOperation::Push];
            performed_from(PublishState::Pending(VcsOperation::Add), outcomes) == (
                order.take(at + 1),
                PublishState::Failed(order[at]),
            )
        }),
{
    let order = seq![VcsOperation::Add, VcsOperation::Commit, VcsOperation::Push];
    reveal_with_fuel(performed_from, 5);
    let tail1 = outcomes.skip(1);
    if at >= 1 {
        assert(outcomes[0]);
        assert(tail1[0] == outcomes[1]);
        if at >= 2 {
            assert(outcomes[1]);
            let tail2 = tail1.skip(1);
            assert(tail2[0] == outcomes[2]);
        }
    }
    let run = performed_from(PublishState::Pending(VcsOperation::Add), outcomes).0;
    assert(run =~= order.take(at + 1));
}

} // verus!

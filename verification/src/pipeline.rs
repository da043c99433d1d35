//! One run, from the editor's content to the published note.
//!
//! A run goes through its stages in one fixed order:
//! `Start`, `ContentObtained`, `SequenceComputed`, `HeaderRendered`,
//! `FileWritten`, `Published`, `Done`. The library decides; a driver acts. In
//! each state the pipeline names one action, the driver performs it and hands
//! back what came of it as an event, and the event leads to the next state.
//!
//! Every failure ends the run at once, in the state `Failed`, and nothing is
//! tried again. An empty content ends it before anything has been written or
//! published. An event that does not answer the pending action changes
//! nothing.

use vstd::prelude::*;
use crate::config::{joined_path, template_location, template_relative_path, Config, ConfigView};
use crate::error::PipelineError;
use crate::header::{is_timestamp_text, local_timestamp, render_header, rendered_header};
use crate::note::{note_content, note_in, Note, NoteView};
use crate::publisher::{
    following,
    operation_invocation,
    publish_record,
    state_after,
    Invocation,
    InvocationView,
    PublishRecord,
    PublishState,
    VcsOperation,
};
use crate::sequencer::{
    format_file_name, highest_number, next_sequence_number, note_file_name, MAX_SEQUENCE_NUMBER,
};

verus! {

/// What the driver is asked to do.
#[derive(Debug, PartialEq, Eq)]
pub enum Action {
    /// Open this editor on an empty scratch file and hand back what the user
    /// left in the file.
    ObtainContent { editor: String },
    /// List the names of the entries that lie directly in this folder.
    ListFolder { path: String },
    /// Read the header template, which lies at this path under the home
    /// directory, and the clock.
    ReadTemplate { relative_path: String },
    /// Create the file at this path, or empty it if it is there, and write
    /// this content into it.
    WriteFile { path: String, content: String },
    /// Run this command and wait for it to end.
    RunCommand(Invocation),
    /// Stop, and hand this result to the caller.
    Finish(Result<(), PipelineError>),
}

/// An `Action` as plain values.
pub enum ActionView {
    ObtainContent { editor: Seq<char> },
    ListFolder { path: Seq<char> },
    ReadTemplate { relative_path: Seq<char> },
    WriteFile { path: Seq<char>, content: Seq<char> },
    RunCommand(InvocationView),
    Finish(Result<(), PipelineError>),
}

impl View for Action {
    type V = ActionView;

    open spec fn view(&self) -> ActionView {
        match self {
            Action::ObtainContent { editor } => ActionView::ObtainContent { editor: editor@ },
            Action::ListFolder { path } => ActionView::ListFolder { path: path@ },
            Action::ReadTemplate { relative_path } => ActionView::ReadTemplate {
                relative_path: relative_path@,
            },
            Action::WriteFile { path, content } => ActionView::WriteFile {
                path: path@,
                content: content@,
            },
            Action::RunCommand(invocation) => ActionView::RunCommand(invocation@),
            Action::Finish(result) => ActionView::Finish(*result),
        }
    }
}

/// What came of an action.
#[derive(Clone, Debug, PartialEq, Eq)]
pub enum Event {
    /// The editor was closed, and this is what the scratch file holds.
    ContentObtained(String),
    /// The folder was listed, and these are the names of its entries.
    FolderListed(Vec<String>),
    /// The template was read, at this time.
    TemplateRead { template: String, timestamp: String },
    /// The file was written.
    FileWritten,
    /// The command ran and ended, successfully or not.
    CommandEnded { succeeded: bool },
    /// The action could not be performed: a file or folder could not be
    /// read, listed or written, or a command could not be run at all.
    IoFailed,
    /// The result was handed to the caller.
    Finished,
}

/// An `Event` as plain values.
pub enum EventView {
    ContentObtained(Seq<char>),
    FolderListed(Seq<Seq<char>>),
    TemplateRead { template: Seq<char>, timestamp: Seq<char> },
    FileWritten,
    CommandEnded { succeeded: bool },
    IoFailed,
    Finished,
}

impl View for Event {
    type V = EventView;

    open spec fn view(&self) -> EventView {
        match self {
            Event::ContentObtained(body) => EventView::ContentObtained(body@),
            Event::FolderListed(names) => EventView::FolderListed(names.deep_view()),
            Event::TemplateRead { template, timestamp } => EventView::TemplateRead {
                template: template@,
                timestamp: timestamp@,
            },
            Event::FileWritten => EventView::FileWritten,
            Event::CommandEnded { succeeded } => EventView::CommandEnded { succeeded: *succeeded },
            Event::IoFailed => EventView::IoFailed,
            Event::Finished => EventView::Finished,
        }
    }
}

/// How far a run has come, and what it has in hand.
#[derive(Clone, Debug, PartialEq, Eq)]
pub enum PipelineState {
    /// Nothing has happened yet.
    Start,
    /// The editor left this content, and it is not empty.
    ContentObtained { body: String },
    /// The note has its number.
    SequenceComputed { body: String, sequence_number: u8 },
    /// The note has its header, and so is complete.
    HeaderRendered { note: Note },
    /// The note is in its file. `next` is the version-control command to run
    /// next; those before it succeeded.
    FileWritten { note: Note, next: VcsOperation },
    /// The note is in the remote repository.
    Published { note: Note },
    /// The run has ended well.
    Done,
    /// The run has ended with this failure.
    Failed(PipelineError),
}

/// A `PipelineState` as plain values.
pub enum PipelineStateView {
    Start,
    ContentObtained { body: Seq<char> },
    SequenceComputed { body: Seq<char>, sequence_number: nat },
    HeaderRendered { note: NoteView },
    FileWritten { note: NoteView, next: VcsOperation },
    Published { note: NoteView },
    Done,
    Failed(PipelineError),
}

impl View for PipelineState {
    type V = PipelineStateView;

    open spec fn view(&self) -> PipelineStateView {
        match self {
            PipelineState::Start => PipelineStateView::Start,
            PipelineState::ContentObtained { body } => PipelineStateView::ContentObtained {
                body: body@,
            },
            PipelineState::SequenceComputed {
                body,
                sequence_number,
            } => PipelineStateView::SequenceComputed {
                body: body@,
                sequence_number: *sequence_number as nat,
            },
            PipelineState::HeaderRendered { note } => PipelineStateView::HeaderRendered {
                note: note@,
            },
            PipelineState::FileWritten { note, next } => PipelineStateView::FileWritten {
                note: note@,
                next: *next,
            },
            PipelineState::Published { note } => PipelineStateView::Published { note: note@ },
            PipelineState::Done => PipelineStateView::Done,
            PipelineState::Failed(error) => PipelineStateView::Failed(*error),
        }
    }
}

/// A run: its configuration, which never changes, and its state.
#[derive(Clone, Debug, PartialEq, Eq)]
pub struct Pipeline {
    pub config: Config,
    pub state: PipelineState,
}

/// A `Pipeline` as plain values.
pub struct PipelineView {
    pub config: ConfigView,
    pub state: PipelineStateView,
}

impl View for Pipeline {
    type V = PipelineView;

    open spec fn view(&self) -> PipelineView {
        PipelineView { config: self.config@, state: self.state@ }
    }
}

/// The folder in which the notes of a run with this configuration lie.
pub open spec fn notes_folder_of(config: ConfigView) -> Seq<char> {
    joined_path(config.repo_path, config.notes_folder)
}

/// The action that is pending in `state`.
pub open spec fn pending_action(config: ConfigView, state: PipelineStateView) -> ActionView {
    match state {
        PipelineStateView::Start => ActionView::ObtainContent { editor: config.editor },
        PipelineStateView::ContentObtained { .. } => ActionView::ListFolder {
            path: notes_folder_of(config),
        },
        PipelineStateView::SequenceComputed { .. } => ActionView::ReadTemplate {
            relative_path: template_location(),
        },
        PipelineStateView::HeaderRendered { note } => ActionView::WriteFile {
            path: note.file_path,
            content: note_content(note.header, note.body),
        },
        PipelineStateView::FileWritten { note, next } => ActionView::RunCommand(
            operation_invocation(
                publish_record(note.file_path, config.repo_path, note.file_name),
                next,
            ),
        ),
        PipelineStateView::Published { .. } => ActionView::Finish(Ok(())),
        PipelineStateView::Done => ActionView::Finish(Ok(())),
        PipelineStateView::Failed(error) => ActionView::Finish(Err(error)),
    }
}

/// The state to which `event` leads from `state`.
pub open spec fn next_state(
    config: ConfigView,
    state: PipelineStateView,
    event: EventView,
) -> PipelineStateView {
    match (state, event) {
        (PipelineStateView::Start, EventView::ContentObtained(body)) => if body.len() == 0 {
            PipelineStateView::Failed(PipelineError::EmptyInput)
        } else {
            PipelineStateView::ContentObtained { body }
        },
        (PipelineStateView::ContentObtained { body }, EventView::FolderListed(names)) => if highest_number(
            names,
        ) < MAX_SEQUENCE_NUMBER {
            PipelineStateView::SequenceComputed {
                body,
                sequence_number: highest_number(names) + 1,
            }
        } else {
            PipelineStateView::Failed(PipelineError::CapacityExceeded)
        },
        (
            PipelineStateView::SequenceComputed { body, sequence_number },
            EventView::TemplateRead { template, timestamp },
        ) => if 1 <= sequence_number <= MAX_SEQUENCE_NUMBER {
            PipelineStateView::HeaderRendered {
                note: note_in(
                    notes_folder_of(config),
                    sequence_number,
                    rendered_header(template, note_file_name(sequence_number), timestamp),
                    body,
                ),
            }
        } else {
            PipelineStateView::Failed(PipelineError::CapacityExceeded)
        },
        (
            PipelineStateView::HeaderRendered { note },
            EventView::FileWritten,
        ) => PipelineStateView::FileWritten { note, next: VcsOperation::Add },
        (
            PipelineStateView::FileWritten { note, next },
            EventView::CommandEnded { succeeded },
        ) => match state_after(PublishState::Pending(next), succeeded) {
            PublishState::Pending(following) => PipelineStateView::FileWritten {
                note,
                next: following,
            },
            PublishState::Published => PipelineStateView::Published { note },
            PublishState::Failed(operation) => PipelineStateView::Failed(
                PipelineError::VersionControlFailure(operation),
            ),
        },
        (
            PipelineStateView::FileWritten { next, .. },
            EventView::IoFailed,
        ) => PipelineStateView::Failed(PipelineError::VersionControlFailure(next)),
        (PipelineStateView::Start, EventView::IoFailed)
        | (PipelineStateView::ContentObtained { .. }, EventView::IoFailed)
        | (PipelineStateView::SequenceComputed { .. }, EventView::IoFailed)
        | (PipelineStateView::HeaderRendered { .. }, EventView::IoFailed) => PipelineStateView::Failed(
            PipelineError::IoError,
        ),
        (PipelineStateView::Published { .. }, EventView::Finished) => PipelineStateView::Done,
        _ => state,
    }
}

impl Event {
    /// The event that the template was read as `template`, now: the
    /// timestamp is the local time of the call.
    pub fn template_read(template: String) -> (event: Event)
        ensures
            event@ matches EventView::TemplateRead { template: read, timestamp } && read
                == template@ && is_timestamp_text(timestamp),
    {
        Event::TemplateRead { template, timestamp: local_timestamp() }
    }
}

impl Pipeline {
    /// A run that has not begun.
    pub fn new(config: Config) -> (pipeline: Pipeline)
        ensures
            pipeline@ == (PipelineView { config: config@, state: PipelineStateView::Start }),
    {
        Pipeline { config, state: PipelineState::Start }
    }

    /// The action that is pending: what the driver has to do next.
    pub fn action(&self) -> (action: Action)
        ensures
            action@ == pending_action(self@.config, self@.state),
    {
        match &self.state {
            PipelineState::Start => Action::ObtainContent { editor: self.config.editor.clone() },
            PipelineState::ContentObtained { .. } => Action::ListFolder {
                path: self.config.notes_folder_path(),
            },
            PipelineState::SequenceComputed { .. } => Action::ReadTemplate {
                relative_path: template_relative_path(),
            },
            PipelineState::HeaderRendered { note } => Action::WriteFile {
                path: note.file_path.clone(),
                content: note.content(),
            },
            PipelineState::FileWritten { note, next } => {
                let record = PublishRecord::new(
                    note.file_path.as_str(),
                    self.config.repo_path.as_str(),
                    note.file_name.as_str(),
                );
                Action::RunCommand(record.invocation(*next))
            },
            PipelineState::Published { .. } => Action::Finish(Ok(())),
            PipelineState::Done => Action::Finish(Ok(())),
            PipelineState::Failed(error) => Action::Finish(Err(*error)),
        }
    }

    /// The run after `event`.
    pub fn step(self, event: Event) -> (next: Pipeline)
        ensures
            next@.config == self@.config,
            next@.state == next_state(self@.config, self@.state, event@),
    {
        let Pipeline { config, state } = self;
        let next = match (state, event) {
            (PipelineState::Start, Event::ContentObtained(body)) => {
                if body.as_str().is_empty() {
                    PipelineState::Failed(PipelineError::EmptyInput)
                } else {
                    PipelineState::ContentObtained { body }
                }
            },
            (PipelineState::ContentObtained { body }, Event::FolderListed(names)) => {
                match next_sequence_number(names.as_slice()) {
                    Ok(sequence_number) => PipelineState::SequenceComputed { body, sequence_number },
                    Err(error) => PipelineState::Failed(error),
                }
            },
            (
                PipelineState::SequenceComputed { body, sequence_number },
                Event::TemplateRead { template, timestamp },
            ) => {
                let folder = config.notes_folder_path();
                match format_file_name(sequence_number) {
                    Ok(file_name) => {
                        let header = render_header(
                            template.as_str(),
                            file_name.as_str(),
                            timestamp.as_str(),
                        );
                        match Note::new(folder.as_str(), sequence_number, header, body) {
                            Some(note) => PipelineState::HeaderRendered { note },
                            None => PipelineState::Failed(PipelineError::CapacityExceeded),
                        }
                    },
                    Err(error) => PipelineState::Failed(error),
                }
            },
            (PipelineState::HeaderRendered { note }, Event::FileWritten) => {
                PipelineState::FileWritten { note, next: VcsOperation::Add }
            },
            (PipelineState::FileWritten { note, next }, Event::CommandEnded { succeeded }) => {
                match PublishState::Pending(next).step(succeeded) {
                    PublishState::Pending(following) => PipelineState::FileWritten {
                        note,
                        next: following,
                    },
                    PublishState::Published => PipelineState::Published { note },
                    PublishState::Failed(operation) => PipelineState::Failed(
                        PipelineError::VersionControlFailure(operation),
                    ),
                }
            },
            (PipelineState::FileWritten { next, .. }, Event::IoFailed) => PipelineState::Failed(
                PipelineError::VersionControlFailure(next),
            ),
            (PipelineState::Start, Event::IoFailed) => PipelineState::Failed(
                PipelineError::IoError,
            ),
            (PipelineState::ContentObtained { .. }, Event::IoFailed) => PipelineState::Failed(
                PipelineError::IoError,
            ),
            (PipelineState::SequenceComputed { .. }, Event::IoFailed) => PipelineState::Failed(
                PipelineError::IoError,
            ),
            (PipelineState::HeaderRendered { .. }, Event::IoFailed) => PipelineState::Failed(
                PipelineError::IoError,
            ),
            (PipelineState::Published { .. }, Event::Finished) => PipelineState::Done,
            (state, _) => state,
        };
        Pipeline { config, state: next }
    }

    /// How the run ended, if it has: the result that `Action::Finish` hands
    /// to the caller.
    pub fn outcome(&self) -> (outcome: Option<Result<(), PipelineError>>)
        ensures
            outcome == match pending_action(self@.config, self@.state) {
                ActionView::Finish(result) => Some(result),
                _ => None,
            },
    {
        match &self.state {
            PipelineState::Published { .. } => Some(Ok(())),
            PipelineState::Done => Some(Ok(())),
            PipelineState::Failed(error) => Some(Err(*error)),
            _ => None,
        }
    }
}

/// The states that a run is in, one after the other, when it begins in
/// `state` and `events` come in: `state` first, then the state after each
/// event.
pub open spec fn run_states(
    config: ConfigView,
    state: PipelineStateView,
    events: Seq<EventView>,
) -> Seq<PipelineStateView>
    decreases events.len(),
{
    if events.len() == 0 {
        seq![state]
    } else {
        let before = run_states(config, state, events.drop_last());
        before.push(next_state(config, before.last(), events.last()))
    }
}

/// The actions that are pending, one after the other, in a run that begins
/// in `state` and in which `events` come in.
pub open spec fn run_actions(
    config: ConfigView,
    state: PipelineStateView,
    events: Seq<EventView>,
) -> Seq<ActionView> {
    run_states(config, state, events).map_values(
        |visited: PipelineStateView| pending_action(config, visited),
    )
}

/// The place of a state in the order of the stages.
pub open spec fn stage(state: PipelineStateView) -> nat {
    match state {
        PipelineStateView::Start => 0,
        PipelineStateView::ContentObtained { .. } => 1,
        PipelineStateView::SequenceComputed { .. } => 2,
        PipelineStateView::HeaderRendered { .. } => 3,
        PipelineStateView::FileWritten { .. } => 4,
        PipelineStateView::Published { .. } => 5,
        PipelineStateView::Done => 6,
        PipelineStateView::Failed(_) => 7,
    }
}

/// Whether `state` is as the states of a run are: the content is not empty,
/// the number is between 1 and `MAX_SEQUENCE_NUMBER`, and the note is named
/// by its number and lies in the notes folder.
pub open spec fn state_wf(config: ConfigView, state: PipelineStateView) -> bool {
    match state {
        PipelineStateView::ContentObtained { body } => body.len() > 0,
        PipelineStateView::SequenceComputed { body, sequence_number } => {
            &&& body.len() > 0
            &&& 1 <= sequence_number <= MAX_SEQUENCE_NUMBER
        },
        PipelineStateView::HeaderRendered { note }
        | PipelineStateView::FileWritten { note, .. }
        | PipelineStateView::Published { note } => {
            &&& note.wf()
            &&& note.body.len() > 0
            &&& note.file_path == joined_path(notes_folder_of(config), note.file_name)
        },
        _ => true,
    }
}

/// Whether `action` writes a file or runs a command.
pub open spec fn writes_or_runs(action: ActionView) -> bool {
    action is WriteFile || action is RunCommand
}

/// A run that has ended stays as it ended, whatever comes in.
pub proof fn lemma_an_ended_run_stays_ended(
    config: ConfigView,
    state: PipelineStateView,
    event: EventView,
)
    requires
        state is Done || state is Failed,
    ensures
        next_state(config, state, event) == state,
{
}

/// A run is linear: an event leaves the state as it is, or leads to the next
/// stage, or, between two version-control commands, to the next command, or
/// it ends the run with a failure. No stage is left out and none comes twice.
pub proof fn lemma_a_run_is_linear(config: ConfigView, state: PipelineStateView, event: EventView)
    ensures
        ({
            let next = next_state(config, state, event);
            ||| next == state
            ||| next is Failed
            ||| stage(next) == stage(state) + 1
            ||| state matches PipelineStateView::FileWritten { note, next: pending } && next
                == (PipelineStateView::FileWritten { note, next: following(pending)->0 })
                && following(pending) is Some
        }),
{
}

/// The states of a run stay as they have to be: no event leads from a
/// well-formed state to one that is not.
pub proof fn lemma_states_stay_well_formed(
    config: ConfigView,
    state: PipelineStateView,
    event: EventView,
)
    requires
        state_wf(config, state),
    ensures
        state_wf(config, next_state(config, state, event)),
{
    let next = next_state(config, state, event);
    match (state, event) {
        (
            PipelineStateView::SequenceComputed { body, sequence_number },
            EventView::TemplateRead { template, timestamp },
        ) => {
            let folder = notes_folder_of(config);
            assert(joined_path(folder, note_file_name(sequence_number)) == joined_path(
                folder,
                note_file_name(sequence_number),
            ));
        },
        _ => {},
    }
}

/// One more event adds one more state to those of the run.
pub proof fn lemma_run_states_after_one_more(
    config: ConfigView,
    state: PipelineStateView,
    events: Seq<EventView>,
    event: EventView,
)
    ensures
        run_states(config, state, events.push(event)) == run_states(config, state, events).push(
            next_state(config, run_states(config, state, events).last(), event),
        ),
        run_states(config, state, events).len() == events.len() + 1,
    decreases events.len(),
{
    assert(events.push(event).drop_last() =~= events);
    if events.len() > 0 {
        lemma_run_states_after_one_more(config, state, events.drop_last(), events.last());
        assert(events.drop_last().push(events.last()) =~= events);
    }
}

/// An empty content ends the run before anything is written or published:
/// whatever comes in after it, the run has failed with `EmptyInput`, and no
/// action of the whole run writes a file or runs a command.
pub proof fn lemma_empty_content_ends_the_run(config: ConfigView, events: Seq<EventView>)
    requires
        events.len() > 0,
        events[0] == EventView::ContentObtained(Seq::<char>::empty()),
    ensures
        run_states(config, PipelineStateView::Start, events).last() == PipelineStateView::Failed(
            PipelineError::EmptyInput,
        ),
        forall|i: int|
            0 <= i < run_actions(config, PipelineStateView::Start, events).len()
                ==> !writes_or_runs(
                #[trigger] run_actions(config, PipelineStateView::Start, events)[i],
            ),
    decreases events.len(),
{
    let start = PipelineStateView::Start;
    let failed = PipelineStateView::Failed(PipelineError::EmptyInput);
    let before = events.drop_last();
    lemma_run_states_after_one_more(config, start, before, events.last());
    assert(before.push(events.last()) =~= events);
    if before.len() > 0 {
        lemma_empty_content_ends_the_run(config, before);
        assert(run_states(config, start, before).last() == failed);
        assert forall|i: int|
            0 <= i < run_actions(config, start, events).len() implies !writes_or_runs(
            #[trigger] run_actions(config, start, events)[i],
        ) by {
            if i < before.len() + 1 {
                assert(run_actions(config, start, events)[i] == run_actions(
                    config,
                    start,
                    before,
                )[i]);
            }
        }
    } else {
        assert(run_states(config, start, before) =~= seq![start]);
    }
}

/// A run in which everything succeeds: the content is not empty, the folder
/// has a number left, and every action is answered by its success. The note
/// gets the number after the highest one in the folder, its file holds the
/// rendered header, the separator and the content, and exactly three
/// commands are run, in the repository: stage, commit, push. Then the run is
/// done.
pub proof fn lemma_a_successful_run(
    config: ConfigView,
    body: Seq<char>,
    names: Seq<Seq<char>>,
    template: Seq<char>,
    timestamp: Seq<char>,
)
    requires
        body.len() > 0,
        highest_number(names) < MAX_SEQUENCE_NUMBER,
    ensures
        ({
            let number = highest_number(names) + 1;
            let folder = notes_folder_of(config);
            let header = rendered_header(template, note_file_name(number as nat), timestamp);
            let note = note_in(folder, number as nat, header, body);
            let record = publish_record(note.file_path, config.repo_path, note.file_name);
            let events = seq![
                EventView::ContentObtained(body),
                EventView::FolderListed(names),
                EventView::TemplateRead { template, timestamp },
                EventView::FileWritten,
                EventView::CommandEnded { succeeded: true },
                EventView::CommandEnded { succeeded: true },
                EventView::CommandEnded { succeeded: true },
                EventView::Finished,
            ];
            &&& run_states(config, PipelineStateView::Start, events).last()
                == PipelineStateView::Done
            &&& run_actions(config, PipelineStateView::Start, events) == seq![
                ActionView::ObtainContent { editor: config.editor },
                ActionView::ListFolder { path: folder },
                ActionView::ReadTemplate { relative_path: template_location() },
                ActionView::WriteFile {
                    path: joined_path(folder, note_file_name(number as nat)),
                    content: note_content(header, body),
                },
                ActionView::RunCommand(operation_invocation(record, VcsOperation::Add)),
                ActionView::RunCommand(operation_invocation(record, VcsOperation::Commit)),
                ActionView::RunCommand(operation_invocation(record, VcsOperation::Push)),
                ActionView::Finish(Ok(())),
                ActionView::Finish(Ok(())),
            ]
        }),
{
    let start = PipelineStateView::Start;
    let number = highest_number(names) + 1;
    let folder = notes_folder_of(config);
    let header = rendered_header(template, note_file_name(number as nat), timestamp);
    let note = note_in(folder, number as nat, header, body);
    let e0 = EventView::ContentObtained(body);
    let e1 = EventView::FolderListed(names);
    let e2 = EventView::TemplateRead { template, timestamp };
    let e3 = EventView::FileWritten;
    let e4 = EventView::CommandEnded { succeeded: true };
    let e7 = EventView::Finished;
    let none = Seq::<EventView>::empty();
    assert(run_states(config, start, none) =~= seq![start]);
    lemma_run_states_after_one_more(config, start, none, e0);
    lemma_run_states_after_one_more(config, start, seq![e0], e1);
    lemma_run_states_after_one_more(config, start, seq![e0, e1], e2);
    lemma_run_states_after_one_more(config, start, seq![e0, e1, e2], e3);
    lemma_run_states_after_one_more(config, start, seq![e0, e1, e2, e3], e4);
    lemma_run_states_after_one_more(config, start, seq![e0, e1, e2, e3, e4], e4);
    lemma_run_states_after_one_more(config, start, seq![e0, e1, e2, e3, e4, e4], e4);
    lemma_run_states_after_one_more(config, start, seq![e0, e1, e2, e3, e4, e4, e4], e7);
    assert(none.push(e0) =~= seq![e0]);
    assert(seq![e0].push(e1) =~= seq![e0, e1]);
    assert(seq![e0, e1].push(e2) =~= seq![e0, e1, e2]);
    assert(seq![e0, e1, e2].push(e3) =~= seq![e0, e1, e2, e3]);
    assert(seq![e0, e1, e2, e3].push(e4) =~= seq![e0, e1, e2, e3, e4]);
    assert(seq![e0, e1, e2, e3, e4].push(e4) =~= seq![e0, e1, e2, e3, e4, e4]);
    assert(seq![e0, e1, e2, e3, e4, e4].push(e4) =~= seq![e0, e1, e2, e3, e4, e4, e4]);
    assert(seq![e0, e1, e2, e3, e4, e4, e4].push(e7) =~= seq![e0, e1, e2, e3, e4, e4, e4, e7]);
    let events = seq![e0, e1, e2, e3, e4, e4, e4, e7];
    let states = run_states(config, start, events);
    assert(states =~= seq![
        start,
        PipelineStateView::ContentObtained { body },
        PipelineStateView::SequenceComputed { body, sequence_number: number as nat },
        PipelineStateView::HeaderRendered { note },
        PipelineStateView::FileWritten { note, next: VcsOperation::Add },
        PipelineStateView::FileWritten { note, next: VcsOperation::Commit },
        PipelineStateView::FileWritten { note, next: VcsOperation::Push },
        PipelineStateView::Published { note },
        PipelineStateView::Done,
    ]);
    let record = publish_record(note.file_path, config.repo_path, note.file_name);
    assert(run_actions(config, start, events) =~= seq![
        ActionView::ObtainContent { editor: config.editor },
        ActionView::ListFolder { path: folder },
        ActionView::ReadTemplate { relative_path: template_location() },
        ActionView::WriteFile {
            path: joined_path(folder, note_file_name(number as nat)),
            content: note_content(header, body),
        },
        ActionView::RunCommand(operation_invocation(record, VcsOperation::Add)),
        ActionView::RunCommand(operation_invocation(record, VcsOperation::Commit)),
        ActionView::RunCommand(operation_invocation(record, VcsOperation::Push)),
        ActionView::Finish(Ok(())),
        ActionView::Finish(Ok(())),
    ]);
}

} // verus!

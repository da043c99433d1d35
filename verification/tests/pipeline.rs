use tiller::config::Config;
use tiller::error::PipelineError;
use tiller::pipeline::{Action, Event, Pipeline, PipelineState};
use tiller::publisher::{Invocation, VcsOperation};

fn config() -> Config {
    Config {
        editor: "vim".to_string(),
        notes_folder: "til".to_string(),
        repo_path: "/repo".to_string(),
    }
}

fn names(list: &[&str]) -> Vec<String> {
    list.iter().map(|name| name.to_string()).collect()
}

fn git(args: &[&str]) -> Action {
    Action::RunCommand(Invocation {
        program: "git".to_string(),
        args: args.iter().map(|arg| arg.to_string()).collect(),
        working_dir: "/repo".to_string(),
    })
}

fn template_read() -> Event {
    Event::TemplateRead {
        template: "Title: $TITLE Date: $DATE".to_string(),
        timestamp: "2024-01-01T00:00:00".to_string(),
    }
}

/// A driver that answers every action from a script and records what it was
/// asked to do.
struct FakeDriver {
    body: String,
    entries: Option<Vec<String>>,
    template: Option<String>,
    write_succeeds: bool,
    command_outcomes: Vec<Option<bool>>,
    actions: Vec<Action>,
    commands_run: usize,
}

impl FakeDriver {
    fn new(body: &str, entries: &[&str]) -> FakeDriver {
        FakeDriver {
            body: body.to_string(),
            entries: Some(names(entries)),
            template: Some("Title: $TITLE Date: $DATE".to_string()),
            write_succeeds: true,
            command_outcomes: vec![Some(true), Some(true), Some(true)],
            actions: Vec::new(),
            commands_run: 0,
        }
    }

    fn answer(&mut self, action: &Action) -> Option<Event> {
        match action {
            Action::ObtainContent { .. } => Some(Event::ContentObtained(self.body.clone())),
            Action::ListFolder { .. } => Some(match &self.entries {
                Some(entries) => Event::FolderListed(entries.clone()),
                None => Event::IoFailed,
            }),
            Action::ReadTemplate { .. } => Some(match &self.template {
                Some(template) => Event::TemplateRead {
                    template: template.clone(),
                    timestamp: "2024-01-01T00:00:00".to_string(),
                },
                None => Event::IoFailed,
            }),
            Action::WriteFile { .. } => {
                Some(if self.write_succeeds { Event::FileWritten } else { Event::IoFailed })
            }
            Action::RunCommand(_) => {
                let outcome = self.command_outcomes[self.commands_run];
                self.commands_run += 1;
                Some(match outcome {
                    Some(succeeded) => Event::CommandEnded { succeeded },
                    None => Event::IoFailed,
                })
            }
            Action::Finish(_) => None,
        }
    }

    fn run(&mut self) -> Result<(), PipelineError> {
        let mut pipeline = Pipeline::new(config());
        loop {
            let action = pipeline.action();
            let event = self.answer(&action);
            self.actions.push(action);
            match event {
                Some(event) => pipeline = pipeline.step(event),
                None => return pipeline.outcome().unwrap(),
            }
        }
    }

    fn writes_and_commands(&self) -> usize {
        self.actions
            .iter()
            .filter(|action| matches!(action, Action::WriteFile { .. } | Action::RunCommand(_)))
            .count()
    }
}

#[test]
fn a_run_goes_through_all_stages() {
    let mut driver = FakeDriver::new("today I learned", &["01.md", "02.md", "05.md", "notes.md"]);
    assert_eq!(driver.run(), Ok(()));
    assert_eq!(
        driver.actions,
        vec![
            Action::ObtainContent { editor: "vim".to_string() },
            Action::ListFolder { path: "/repo/til".to_string() },
            Action::ReadTemplate { relative_path: ".config/tiller/prepend.md".to_string() },
            Action::WriteFile {
                path: "/repo/til/06.md".to_string(),
                content: "Title: 06 Date: 2024-01-01T00:00:00 \n today I learned".to_string(),
            },
            git(&["add", "/repo/til/06.md"]),
            git(&["commit", "-m", "06.md created"]),
            git(&["push", "origin", "master"]),
            Action::Finish(Ok(())),
        ]
    );
}

#[test]
fn an_empty_body_is_rejected() {
    let mut driver = FakeDriver::new("", &["01.md"]);
    assert_eq!(driver.run(), Err(PipelineError::EmptyInput));
    assert_eq!(driver.writes_and_commands(), 0);
    assert_eq!(
        driver.actions,
        vec![
            Action::ObtainContent { editor: "vim".to_string() },
            Action::Finish(Err(PipelineError::EmptyInput)),
        ]
    );
}

#[test]
fn after_an_empty_body_nothing_is_written_or_run() {
    let failed = Pipeline::new(config()).step(Event::ContentObtained(String::new()));
    assert_eq!(failed.state, PipelineState::Failed(PipelineError::EmptyInput));
    let events = [
        Event::ContentObtained("late".to_string()),
        Event::FolderListed(names(&["01.md"])),
        template_read(),
        Event::FileWritten,
        Event::CommandEnded { succeeded: true },
        Event::CommandEnded { succeeded: false },
        Event::IoFailed,
        Event::Finished,
    ];
    let mut pipeline = failed;
    for event in events {
        pipeline = pipeline.step(event);
        assert_eq!(pipeline.state, PipelineState::Failed(PipelineError::EmptyInput));
        assert_eq!(pipeline.action(), Action::Finish(Err(PipelineError::EmptyInput)));
        assert_eq!(pipeline.outcome(), Some(Err(PipelineError::EmptyInput)));
    }
}

#[test]
fn a_blank_body_is_not_empty() {
    let pipeline = Pipeline::new(config()).step(Event::ContentObtained("\n".to_string()));
    assert_eq!(pipeline.state, PipelineState::ContentObtained { body: "\n".to_string() });
}

#[test]
fn an_unreadable_folder_ends_the_run() {
    let mut driver = FakeDriver::new("body", &[]);
    driver.entries = None;
    assert_eq!(driver.run(), Err(PipelineError::IoError));
    assert_eq!(driver.writes_and_commands(), 0);
}

#[test]
fn an_unreadable_template_ends_the_run() {
    let mut driver = FakeDriver::new("body", &[]);
    driver.template = None;
    assert_eq!(driver.run(), Err(PipelineError::IoError));
    assert_eq!(driver.writes_and_commands(), 0);
}

#[test]
fn a_failed_write_ends_the_run() {
    let mut driver = FakeDriver::new("body", &[]);
    driver.write_succeeds = false;
    assert_eq!(driver.run(), Err(PipelineError::IoError));
    assert_eq!(driver.writes_and_commands(), 1);
    assert_eq!(driver.commands_run, 0);
}

#[test]
fn content_that_cannot_be_obtained_ends_the_run() {
    let pipeline = Pipeline::new(config()).step(Event::IoFailed);
    assert_eq!(pipeline.state, PipelineState::Failed(PipelineError::IoError));
    assert_eq!(pipeline.action(), Action::Finish(Err(PipelineError::IoError)));
}

#[test]
fn a_full_folder_ends_the_run() {
    let mut driver = FakeDriver::new("body", &["99.md", "01.md"]);
    assert_eq!(driver.run(), Err(PipelineError::CapacityExceeded));
    assert_eq!(driver.writes_and_commands(), 0);
}

#[test]
fn a_failed_command_ends_the_run() {
    let operations = [VcsOperation::Add, VcsOperation::Commit, VcsOperation::Push];
    for (at, operation) in operations.iter().enumerate() {
        for outcome in [Some(false), None] {
            let mut driver = FakeDriver::new("body", &["03.md"]);
            driver.command_outcomes[at] = outcome;
            assert_eq!(driver.run(), Err(PipelineError::VersionControlFailure(*operation)));
            assert_eq!(driver.commands_run, at + 1);
            assert_eq!(
                driver.actions.last(),
                Some(&Action::Finish(Err(PipelineError::VersionControlFailure(*operation))))
            );
        }
    }
}

#[test]
fn the_states_are_those_of_the_stages() {
    let pipeline = Pipeline::new(config());
    assert_eq!(pipeline.state, PipelineState::Start);
    assert_eq!(pipeline.outcome(), None);
    let pipeline = pipeline.step(Event::ContentObtained("body".to_string()));
    assert_eq!(pipeline.state, PipelineState::ContentObtained { body: "body".to_string() });
    let pipeline = pipeline.step(Event::FolderListed(names(&["01.md", "02.md", "05.md"])));
    assert_eq!(
        pipeline.state,
        PipelineState::SequenceComputed { body: "body".to_string(), sequence_number: 6 }
    );
    let pipeline = pipeline.step(template_read());
    let note = match &pipeline.state {
        PipelineState::HeaderRendered { note } => note.clone(),
        other => panic!("{:?}", other),
    };
    assert_eq!(note.sequence_number, 6);
    assert_eq!(note.file_name, "06.md");
    assert_eq!(note.file_path, "/repo/til/06.md");
    assert_eq!(note.header, "Title: 06 Date: 2024-01-01T00:00:00");
    assert_eq!(note.body, "body");
    let pipeline = pipeline.step(Event::FileWritten);
    assert_eq!(
        pipeline.state,
        PipelineState::FileWritten { note: note.clone(), next: VcsOperation::Add }
    );
    let pipeline = pipeline.step(Event::CommandEnded { succeeded: true });
    assert_eq!(
        pipeline.state,
        PipelineState::FileWritten { note: note.clone(), next: VcsOperation::Commit }
    );
    let pipeline = pipeline.step(Event::CommandEnded { succeeded: true });
    assert_eq!(
        pipeline.state,
        PipelineState::FileWritten { note: note.clone(), next: VcsOperation::Push }
    );
    assert_eq!(pipeline.outcome(), None);
    let pipeline = pipeline.step(Event::CommandEnded { succeeded: true });
    assert_eq!(pipeline.state, PipelineState::Published { note: note.clone() });
    assert_eq!(pipeline.action(), Action::Finish(Ok(())));
    assert_eq!(pipeline.outcome(), Some(Ok(())));
    let pipeline = pipeline.step(Event::Finished);
    assert_eq!(pipeline.state, PipelineState::Done);
    assert_eq!(pipeline.action(), Action::Finish(Ok(())));
    assert_eq!(pipeline.outcome(), Some(Ok(())));
    let pipeline = pipeline.step(Event::ContentObtained("again".to_string()));
    assert_eq!(pipeline.state, PipelineState::Done);
    assert_eq!(pipeline.config, config());
}

#[test]
fn an_event_that_answers_nothing_changes_nothing() {
    let start = Pipeline::new(config());
    for event in [
        Event::FolderListed(names(&["01.md"])),
        template_read(),
        Event::FileWritten,
        Event::CommandEnded { succeeded: true },
        Event::Finished,
    ] {
        assert_eq!(start.clone().step(event).state, PipelineState::Start);
    }
    let listed = start.step(Event::ContentObtained("body".to_string()));
    for event in [
        Event::ContentObtained("other".to_string()),
        template_read(),
        Event::FileWritten,
        Event::CommandEnded { succeeded: false },
        Event::Finished,
    ] {
        assert_eq!(listed.clone().step(event).state, listed.state);
    }
}

#[test]
fn a_state_with_a_number_out_of_range_fails() {
    for sequence_number in [0, 100, 255] {
        let pipeline = Pipeline {
            config: config(),
            state: PipelineState::SequenceComputed { body: "body".to_string(), sequence_number },
        };
        assert_eq!(
            pipeline.step(template_read()).state,
            PipelineState::Failed(PipelineError::CapacityExceeded)
        );
    }
}

#[test]
fn the_template_is_read_with_the_time_of_reading() {
    match Event::template_read("# $TITLE".to_string()) {
        Event::TemplateRead { template, timestamp } => {
            assert_eq!(template, "# $TITLE");
            let chars: Vec<char> = timestamp.chars().collect();
            assert_eq!(chars.len(), 19);
            for (at, c) in chars.iter().enumerate() {
                match at {
                    4 | 7 => assert_eq!(*c, '-'),
                    10 => assert_eq!(*c, 'T'),
                    13 | 16 => assert_eq!(*c, ':'),
                    _ => assert!(c.is_ascii_digit()),
                }
            }
        }
        other => panic!("{:?}", other),
    }
}

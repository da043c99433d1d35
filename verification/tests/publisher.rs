use tiller::error::PipelineError;
use tiller::publisher::{
    commit_message, publish, Invocation, PublishRecord, PublishState, VcsOperation, BRANCH,
    REMOTE, VCS_PROGRAM,
};

struct FakeRunner {
    ran: Vec<Invocation>,
    fail_at: Option<usize>,
}

impl FakeRunner {
    fn run(&mut self, invocation: Invocation) -> bool {
        self.ran.push(invocation);
        self.fail_at != Some(self.ran.len() - 1)
    }
}

fn drive(record: &PublishRecord, runner: &mut FakeRunner) -> Result<(), PipelineError> {
    let mut state = PublishState::start();
    while let Some(operation) = state.pending() {
        let succeeded = runner.run(record.invocation(operation));
        state = state.step(succeeded);
    }
    state.outcome().unwrap()
}

fn invocation(args: &[&str], working_dir: &str) -> Invocation {
    Invocation {
        program: "git".to_string(),
        args: args.iter().map(|arg| arg.to_string()).collect(),
        working_dir: working_dir.to_string(),
    }
}

#[test]
fn publishing_runs_add_commit_push() {
    let record = PublishRecord::new("/repo/til/06.md", "/repo", "06.md");
    let mut runner = FakeRunner { ran: Vec::new(), fail_at: None };
    assert_eq!(drive(&record, &mut runner), Ok(()));
    assert_eq!(
        runner.ran,
        vec![
            invocation(&["add", "/repo/til/06.md"], "/repo"),
            invocation(&["commit", "-m", "06.md created"], "/repo"),
            invocation(&["push", "origin", "master"], "/repo"),
        ]
    );
}

#[test]
fn the_plan_is_what_a_run_performs() {
    let record = PublishRecord::new("/repo/til/06.md", "/repo", "06.md");
    let mut runner = FakeRunner { ran: Vec::new(), fail_at: None };
    drive(&record, &mut runner).unwrap();
    assert_eq!(publish("/repo/til/06.md", "/repo", "06.md"), runner.ran);
    assert_eq!(publish("a", "b", "c").len(), 3);
}

#[test]
fn the_first_failure_ends_the_publishing() {
    let record = PublishRecord::new("/repo/til/06.md", "/repo", "06.md");
    let operations = [VcsOperation::Add, VcsOperation::Commit, VcsOperation::Push];
    for (at, operation) in operations.iter().enumerate() {
        let mut runner = FakeRunner { ran: Vec::new(), fail_at: Some(at) };
        assert_eq!(
            drive(&record, &mut runner),
            Err(PipelineError::VersionControlFailure(*operation))
        );
        assert_eq!(runner.ran.len(), at + 1);
        assert_eq!(runner.ran, publish("/repo/til/06.md", "/repo", "06.md")[..at + 1].to_vec());
    }
}

#[test]
fn the_states_follow_one_another() {
    let start = PublishState::start();
    assert_eq!(start, PublishState::Pending(VcsOperation::Add));
    assert_eq!(start.step(true), PublishState::Pending(VcsOperation::Commit));
    assert_eq!(start.step(true).step(true), PublishState::Pending(VcsOperation::Push));
    assert_eq!(start.step(true).step(true).step(true), PublishState::Published);
    assert_eq!(start.step(false), PublishState::Failed(VcsOperation::Add));
    assert_eq!(start.step(true).step(false), PublishState::Failed(VcsOperation::Commit));
    assert_eq!(start.step(true).step(true).step(false), PublishState::Failed(VcsOperation::Push));
}

#[test]
fn an_ended_publishing_stays_ended() {
    for succeeded in [true, false] {
        assert_eq!(PublishState::Published.step(succeeded), PublishState::Published);
        for operation in [VcsOperation::Add, VcsOperation::Commit, VcsOperation::Push] {
            let failed = PublishState::Failed(operation);
            assert_eq!(failed.step(succeeded), failed);
            assert_eq!(failed.pending(), None);
        }
    }
    assert_eq!(PublishState::Published.pending(), None);
    assert_eq!(PublishState::Published.outcome(), Some(Ok(())));
    assert_eq!(PublishState::Pending(VcsOperation::Commit).outcome(), None);
    assert_eq!(
        PublishState::Failed(VcsOperation::Push).outcome(),
        Some(Err(PipelineError::VersionControlFailure(VcsOperation::Push)))
    );
}

#[test]
fn the_commit_message_names_the_file() {
    assert_eq!(commit_message("07.md"), "07.md created");
    assert_eq!(commit_message(""), " created");
    let record = PublishRecord::new("p", "r", "07.md");
    assert_eq!(record.file_path, "p");
    assert_eq!(record.repo_path, "r");
    assert_eq!(record.commit_message, "07.md created");
}

#[test]
fn each_command_runs_in_the_repository() {
    let record = PublishRecord::new("/r/n/01.md", "/r", "01.md");
    assert_eq!(VCS_PROGRAM, "git");
    assert_eq!(REMOTE, "origin");
    assert_eq!(BRANCH, "master");
    assert_eq!(record.invocation(VcsOperation::Add), invocation(&["add", "/r/n/01.md"], "/r"));
    assert_eq!(
        record.invocation(VcsOperation::Commit),
        invocation(&["commit", "-m", "01.md created"], "/r")
    );
    assert_eq!(
        record.invocation(VcsOperation::Push),
        invocation(&["push", "origin", "master"], "/r")
    );
}

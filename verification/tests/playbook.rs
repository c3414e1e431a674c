use nix::errno::Errno;
use std::path::PathBuf;
use tag::clock::Timestamp;
use tag::file::{FileAction, FileEvent};
use tag::identity::{ExecNameError, IdentityContext};
use tag::log::{ActivityLog, Log, SocketAddress};
use tag::network::{NetworkAction, NetworkEvent};
use tag::playbook::{run, Action, ActivityError, ActivitySpec, DispatchError, Event, Run, Step};
use tag::process::{ExitOutcome, ProcessAction, ProcessEvent};

fn playbook_identity() -> IdentityContext {
    IdentityContext {
        username: "dave".to_string(),
        pid: 10,
        command_line: "tag playbook -p book.yaml".to_string(),
        process_name: "tag".to_string(),
    }
}

fn playbook_at(secs: i64) -> Timestamp {
    Timestamp { secs, nanos: 0 }
}

fn playbook_record(activity: ActivityLog, secs: i64) -> Log {
    Log {
        activity,
        time: playbook_at(secs),
        username: "dave".to_string(),
        pid: 10,
        command_line: "tag playbook -p book.yaml".to_string(),
        process_name: "tag".to_string(),
    }
}

fn playbook_next(step: Step) -> (Run, Action) {
    match step {
        Step::Next(run, action) => (run, action),
        Step::Done(outcome) => panic!("the playbook ended: {:?}", outcome),
    }
}

fn playbook_done(step: Step) -> Result<Vec<Log>, DispatchError> {
    match step {
        Step::Done(outcome) => outcome,
        Step::Next(_, action) => panic!("the playbook goes on: {:?}", action),
    }
}

fn file_spec(modify: bool) -> ActivitySpec {
    ActivitySpec::File { modify, directory: PathBuf::from("/tmp"), extension: "txt".to_string() }
}

fn create_in_tmp() -> Action {
    Action::File(FileAction::Create { directory: PathBuf::from("/tmp"), suffix: ".txt".to_string() })
}

#[test]
fn empty_playbook_is_over_at_once() {
    let logs = playbook_done(run(Ok(playbook_identity()), Vec::new())).unwrap();
    assert!(logs.is_empty());
}

#[test]
fn empty_playbook_needs_no_identity() {
    let logs = playbook_done(run(Err(ExecNameError::NonUTF8ExecName), Vec::new())).unwrap();
    assert!(logs.is_empty());
}

#[test]
fn playbook_without_identity_fails_at_its_first_activity() {
    let failed = playbook_done(run(Err(ExecNameError::NonUTF8ExecName), vec![file_spec(true), ActivitySpec::Network]));
    match failed {
        Err(DispatchError {
            index: 1,
            cause: ActivityError::File(tag::file::Error::ExecName(ExecNameError::NonUTF8ExecName)),
        }) => {},
        other => panic!("unexpected outcome: {:?}", other),
    }
    let unknown = std::io::Error::new(std::io::ErrorKind::NotFound, "no executable");
    let failed = playbook_done(
        run(Err(ExecNameError::GetExecutable(unknown)), vec![ActivitySpec::Process { with_exec: false }]),
    );
    match failed {
        Err(DispatchError {
            index: 1,
            cause: ActivityError::Process(tag::process::Error::ExecName(ExecNameError::GetExecutable(error))),
        }) => assert_eq!(error.kind(), std::io::ErrorKind::NotFound),
        other => panic!("unexpected outcome: {:?}", other),
    }
    let failed = playbook_done(run(Err(ExecNameError::NonUTF8ExecName), vec![ActivitySpec::Network]));
    match failed {
        Err(DispatchError {
            index: 1,
            cause: ActivityError::Network(tag::network::Error::ExecName(ExecNameError::NonUTF8ExecName)),
        }) => {},
        other => panic!("unexpected outcome: {:?}", other),
    }
}

#[test]
fn playbook_gathers_the_records_in_the_order_of_its_activities() {
    let specs = vec![ActivitySpec::Process { with_exec: true }, file_spec(false), ActivitySpec::Network];
    let (book, action) = playbook_next(run(Ok(playbook_identity()), specs));
    assert_eq!(action, Action::Process(ProcessAction::Fork));
    let (book, action) = playbook_next(book.advance(Event::Process(ProcessEvent::ForkedParent { child: 77 }), playbook_at(1)));
    assert_eq!(action, Action::Process(ProcessAction::Wait { child: 77 }));
    let (book, action) =
        playbook_next(book.advance(Event::Process(ProcessEvent::Waited(ExitOutcome::ExitedZero)), playbook_at(2)));
    assert_eq!(action, create_in_tmp());
    let path = PathBuf::from("/tmp/.tmp1.txt");
    let (book, action) =
        playbook_next(book.advance(Event::File(FileEvent::Created { path: path.clone() }), playbook_at(3)));
    assert_eq!(action, Action::File(FileAction::Release));
    let (book, action) = playbook_next(book.advance(Event::File(FileEvent::Released), playbook_at(4)));
    assert_eq!(action, Action::Network(NetworkAction::Connect { endpoint: "google.com:80".to_string() }));
    let (book, _) = playbook_next(book.advance(Event::Network(NetworkEvent::Connected), playbook_at(5)));
    let (book, _) = playbook_next(book.advance(Event::Network(NetworkEvent::TimeoutSet), playbook_at(6)));
    let (book, _) = playbook_next(book.advance(Event::Network(NetworkEvent::Written), playbook_at(7)));
    let destination = SocketAddress::V4 { address: 0x0808_0808, port: 80 };
    let source = SocketAddress::V4 { address: 0x0a00_0002, port: 45000 };
    let (book, _) = playbook_next(book.advance(Event::Network(NetworkEvent::PeerAddress(destination)), playbook_at(8)));
    let logs = playbook_done(book.advance(Event::Network(NetworkEvent::LocalAddress(source)), playbook_at(9))).unwrap();
    assert_eq!(
        logs,
        vec![
            playbook_record(ActivityLog::Fork { child_pid: 77 }, 1),
            Log {
                activity: ActivityLog::Exec { parent_pid: 10 },
                time: playbook_at(2),
                username: "dave".to_string(),
                pid: 77,
                command_line: "/usr/bin/printf ''".to_string(),
                process_name: "printf".to_string(),
            },
            playbook_record(ActivityLog::FileCreated { path: path.clone() }, 3),
            playbook_record(ActivityLog::FileDeleted { path }, 4),
            playbook_record(ActivityLog::Network { destination, source, protocol: "TCP", bytes_sent: 4 }, 7),
        ]
    );
}

#[test]
fn second_activity_that_fails_is_reported_with_its_number() {
    let specs = vec![file_spec(false), ActivitySpec::Process { with_exec: true }, ActivitySpec::Network];
    let (book, _) = playbook_next(run(Ok(playbook_identity()), specs));
    let (book, _) = playbook_next(
        book.advance(Event::File(FileEvent::Created { path: PathBuf::from("/tmp/a.txt") }), playbook_at(1)),
    );
    let (book, action) = playbook_next(book.advance(Event::File(FileEvent::Released), playbook_at(2)));
    assert_eq!(action, Action::Process(ProcessAction::Fork));
    let (book, _) = playbook_next(book.advance(Event::Process(ProcessEvent::ForkedParent { child: 5 }), playbook_at(3)));
    let failed =
        playbook_done(book.advance(Event::Process(ProcessEvent::Waited(ExitOutcome::ExitedNonZero(2))), playbook_at(4)));
    match failed {
        Err(DispatchError { index: 2, cause: ActivityError::Process(tag::process::Error::ChildExit) }) => {},
        other => panic!("unexpected outcome: {:?}", other),
    }
}

#[test]
fn first_activity_that_fails_is_reported_with_number_one() {
    let specs = vec![file_spec(true), ActivitySpec::Network];
    let (book, _) = playbook_next(run(Ok(playbook_identity()), specs));
    let denied = std::io::Error::new(std::io::ErrorKind::PermissionDenied, "denied");
    let failed = playbook_done(book.advance(Event::File(FileEvent::CreateFailed(denied)), playbook_at(1)));
    match failed {
        Err(DispatchError { index: 1, cause: ActivityError::File(tag::file::Error::Create(error)) }) => {
            assert_eq!(error.kind(), std::io::ErrorKind::PermissionDenied)
        },
        other => panic!("unexpected outcome: {:?}", other),
    }
}

#[test]
fn last_activity_that_fails_is_reported_with_the_number_of_activities() {
    let specs = vec![
        ActivitySpec::Process { with_exec: false },
        ActivitySpec::Process { with_exec: false },
        ActivitySpec::Network,
    ];
    let (book, _) = playbook_next(run(Ok(playbook_identity()), specs));
    let (book, _) = playbook_next(book.advance(Event::Process(ProcessEvent::ForkedParent { child: 5 }), playbook_at(1)));
    let (book, _) =
        playbook_next(book.advance(Event::Process(ProcessEvent::Waited(ExitOutcome::Signaled(9))), playbook_at(2)));
    let (book, _) = playbook_next(book.advance(Event::Process(ProcessEvent::ForkedParent { child: 6 }), playbook_at(3)));
    let (book, action) =
        playbook_next(book.advance(Event::Process(ProcessEvent::Waited(ExitOutcome::ExitedZero)), playbook_at(4)));
    assert_eq!(action, Action::Network(NetworkAction::Connect { endpoint: "google.com:80".to_string() }));
    let refused = std::io::Error::new(std::io::ErrorKind::ConnectionRefused, "refused");
    let failed = playbook_done(book.advance(Event::Network(NetworkEvent::ConnectFailed(refused)), playbook_at(5)));
    match failed {
        Err(DispatchError { index: 3, cause: ActivityError::Network(tag::network::Error::Connect(_)) }) => {},
        other => panic!("unexpected outcome: {:?}", other),
    }
}

#[test]
fn failed_fork_in_a_playbook_is_a_process_failure() {
    let (book, _) = playbook_next(run(Ok(playbook_identity()), vec![ActivitySpec::Process { with_exec: true }]));
    let failed = playbook_done(book.advance(Event::Process(ProcessEvent::ForkFailed(Errno::EAGAIN)), playbook_at(1)));
    match failed {
        Err(DispatchError { index: 1, cause: ActivityError::Process(tag::process::Error::Fork(errno)) }) => {
            assert_eq!(errno, Errno::EAGAIN)
        },
        other => panic!("unexpected outcome: {:?}", other),
    }
}

#[test]
fn event_for_another_generator_is_ignored() {
    let (book, first) = playbook_next(run(Ok(playbook_identity()), vec![file_spec(true)]));
    assert_eq!(first, create_in_tmp());
    let (book, action) = playbook_next(book.advance(Event::Network(NetworkEvent::Connected), playbook_at(1)));
    assert_eq!(action, first);
    let (book, action) = playbook_next(book.advance(Event::Process(ProcessEvent::ForkedChild), playbook_at(1)));
    assert_eq!(action, first);
    let (book, action) = playbook_next(book.advance(Event::File(FileEvent::Written), playbook_at(1)));
    assert_eq!(action, first);
    let (book, action) = playbook_next(
        book.advance(Event::File(FileEvent::Created { path: PathBuf::from("/tmp/a.txt") }), playbook_at(2)),
    );
    assert_eq!(action, Action::File(FileAction::Write { payload: b"tag".to_vec() }));
    let (book, action) = playbook_next(book.advance(Event::Network(NetworkEvent::Written), playbook_at(3)));
    assert_eq!(action, Action::File(FileAction::Write { payload: b"tag".to_vec() }));
    let (book, _) = playbook_next(book.advance(Event::File(FileEvent::Written), playbook_at(4)));
    let logs = playbook_done(book.advance(Event::File(FileEvent::Released), playbook_at(5))).unwrap();
    assert_eq!(logs.len(), 3);
    assert_eq!(logs[1].time, playbook_at(4));
}

#[test]
fn child_of_a_playbook_is_told_what_to_do() {
    let specs = vec![ActivitySpec::Process { with_exec: true }, ActivitySpec::Network];
    let (book, _) = playbook_next(run(Ok(playbook_identity()), specs));
    let (book, action) = playbook_next(book.advance(Event::Process(ProcessEvent::ForkedChild), playbook_at(1)));
    assert_eq!(
        action,
        Action::Process(ProcessAction::Exec {
            program: "/usr/bin/printf".to_string(),
            arguments: vec!["/usr/bin/printf".to_string(), String::new()],
        })
    );
    let (_, action) = playbook_next(book.advance(Event::Process(ProcessEvent::ExecFailed), playbook_at(1)));
    assert_eq!(action, Action::Process(ProcessAction::Abort));
}

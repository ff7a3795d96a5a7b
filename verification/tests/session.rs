use code_uploader::config::Config;
use code_uploader::failure::{Failure, RunError};
use code_uploader::formatter::CommandLine;
use code_uploader::session::{Action, Event, Session, Stage, SUCCESS_MESSAGE};
use code_uploader::target::TargetKind;

type Fault = String;

fn config(target: &str, code: &str) -> Config {
    Config::new(target.to_string(), code.to_string(), None, None)
}

fn words(words: &[&str]) -> Vec<String> {
    words.iter().map(|w| w.to_string()).collect()
}

fn rustfmt_at(program: &str, args: &[&str]) -> CommandLine {
    CommandLine { program: program.to_string(), args: words(args) }
}

/// Takes a run through the events and collects what it asks for.
fn run(config: Config, events: Vec<Event<Fault>>) -> (Session, Vec<Action<Fault>>) {
    let (mut session, first) = Session::begin::<Fault>(config);
    let mut asked = vec![first];
    for event in events {
        let (next, action) = session.step(event);
        session = next;
        asked.extend(action);
    }
    (session, asked)
}

#[test]
fn an_existing_file_is_written_and_formatted() {
    let (session, asked) = run(
        config("/tmp/a.rs", "fn main(){}"),
        vec![
            Event::TargetProbed(TargetKind::File),
            Event::Written,
            Event::LookupFinished { output: b"/usr/bin/rustfmt\n".to_vec() },
            Event::FormatterExited { success: true, status: "ExitStatus(unix_wait_status(0))".to_string() },
        ],
    );
    assert_eq!(
        asked,
        vec![
            Action::ProbeTarget { path: "/tmp/a.rs".to_string() },
            Action::WriteFile { path: "/tmp/a.rs".to_string(), content: b"fn main(){}".to_vec() },
            Action::RunLookup(rustfmt_at("rustup", &["which", "rustfmt"])),
            Action::RunFormatter(rustfmt_at("/usr/bin/rustfmt", &["--emit", "files", "/tmp/a.rs"])),
            Action::Finish { message: "Code successfully uploaded and formatted".to_string() },
        ]
    );
    assert_eq!(session.stage, Stage::Done);
    assert_eq!(SUCCESS_MESSAGE, "Code successfully uploaded and formatted");
}

#[test]
fn a_missing_target_fails_at_once_and_writes_nothing() {
    let (session, asked) = run(
        config("/tmp/missing/x.rs", "x"),
        vec![Event::TargetProbed(TargetKind::Missing), Event::Written, Event::LookupFailed],
    );
    assert_eq!(
        asked,
        vec![
            Action::ProbeTarget { path: "/tmp/missing/x.rs".to_string() },
            Action::Fail(RunError::Failure(Failure::TargetNotFound {
                path: "/tmp/missing/x.rs".to_string()
            })),
        ]
    );
    assert_eq!(session.stage, Stage::Done);
}

#[test]
fn a_directory_target_gets_the_default_file_written() {
    let (session, asked) = run(config("/tmp/proj", "x"), vec![Event::TargetProbed(TargetKind::Directory)]);
    assert_eq!(
        asked[1],
        Action::WriteFile { path: "/tmp/proj/main.rs".to_string(), content: vec![b'x'] }
    );
    assert_eq!(session.stage, Stage::Writing { path: "/tmp/proj/main.rs".to_string() });
}

#[test]
fn the_formatter_is_given_the_file_that_was_written() {
    let full = Config::new(
        "/tmp/proj".to_string(),
        "x".to_string(),
        Some("/etc/rustfmt.toml".to_string()),
        Some("2021".to_string()),
    );
    let (_, asked) = run(
        full,
        vec![
            Event::TargetProbed(TargetKind::Directory),
            Event::Written,
            Event::LookupFinished { output: b"  /opt/bin/rustfmt \n".to_vec() },
        ],
    );
    assert_eq!(
        asked[3],
        Action::RunFormatter(rustfmt_at(
            "/opt/bin/rustfmt",
            &[
                "--emit",
                "files",
                "--config-path",
                "/etc/rustfmt.toml",
                "--edition",
                "2021",
                "/tmp/proj/main.rs"
            ]
        ))
    );
}

#[test]
fn the_text_is_written_byte_for_byte() {
    let code = "  fn main() {}\r\n\n\u{e9}\t";
    let (_, asked) = run(config("out.rs", code), vec![Event::TargetProbed(TargetKind::File)]);
    assert_eq!(
        asked[1],
        Action::WriteFile {
            path: "out.rs".to_string(),
            content: vec![
                b' ', b' ', b'f', b'n', b' ', b'm', b'a', b'i', b'n', b'(', b')', b' ', b'{', b'}',
                b'\r', b'\n', b'\n', 0xc3, 0xa9, b'\t'
            ],
        }
    );
    let (_, asked) = run(config("out.rs", ""), vec![Event::TargetProbed(TargetKind::File)]);
    assert_eq!(asked[1], Action::WriteFile { path: "out.rs".to_string(), content: Vec::new() });
}

#[test]
fn a_failed_write_hands_the_error_back_unchanged() {
    let (session, asked) = run(
        config("/tmp/a.rs", "x"),
        vec![Event::TargetProbed(TargetKind::File), Event::WriteFailed("permission denied".to_string())],
    );
    assert_eq!(asked[2], Action::Fail(RunError::Io("permission denied".to_string())));
    assert_eq!(asked.len(), 3);
    assert_eq!(session.stage, Stage::Done);
}

#[test]
fn a_lookup_that_cannot_start_fails_with_formatter_not_found() {
    let (session, asked) = run(
        config("/tmp/a.rs", "x"),
        vec![Event::TargetProbed(TargetKind::File), Event::Written, Event::LookupFailed],
    );
    assert_eq!(asked[3], Action::Fail(RunError::Failure(Failure::FormatterNotFound)));
    assert_eq!(session.stage, Stage::Done);
}

#[test]
fn lookup_output_that_is_no_text_fails_with_invalid_data() {
    let (session, asked) = run(
        config("/tmp/a.rs", "x"),
        vec![
            Event::TargetProbed(TargetKind::File),
            Event::Written,
            Event::LookupFinished { output: vec![b'/', 0xff] },
        ],
    );
    assert_eq!(asked[3], Action::Fail(RunError::Failure(Failure::InvalidFormatterPath)));
    assert_eq!(session.stage, Stage::Done);
}

#[test]
fn a_formatter_that_cannot_start_hands_the_error_back_unchanged() {
    let (session, asked) = run(
        config("/tmp/a.rs", "x"),
        vec![
            Event::TargetProbed(TargetKind::File),
            Event::Written,
            Event::LookupFinished { output: Vec::new() },
            Event::FormatterNotStarted("No such file or directory".to_string()),
        ],
    );
    assert_eq!(asked[3], Action::RunFormatter(rustfmt_at("", &["--emit", "files", "/tmp/a.rs"])));
    assert_eq!(asked[4], Action::Fail(RunError::Io("No such file or directory".to_string())));
    assert_eq!(session.stage, Stage::Done);
}

#[test]
fn a_formatter_that_fails_is_reported_and_nothing_is_written_again() {
    let (session, asked) = run(
        config("/tmp/a.rs", "fn main( {"),
        vec![
            Event::TargetProbed(TargetKind::File),
            Event::Written,
            Event::LookupFinished { output: b"/usr/bin/rustfmt\n".to_vec() },
            Event::FormatterExited { success: false, status: "ExitStatus(unix_wait_status(256))".to_string() },
            Event::TargetProbed(TargetKind::File),
            Event::Written,
        ],
    );
    assert_eq!(
        asked[4],
        Action::Fail(RunError::Failure(Failure::FormatterFailed {
            status: "ExitStatus(unix_wait_status(256))".to_string()
        }))
    );
    assert_eq!(asked.len(), 5);
    let writes = asked.iter().filter(|action| matches!(action, Action::WriteFile { .. })).count();
    assert_eq!(writes, 1);
    assert_eq!(session.stage, Stage::Done);
}

#[test]
fn an_event_that_answers_nothing_changes_nothing() {
    let (session, _) = Session::begin::<Fault>(config("/tmp/a.rs", "x"));
    let before = session.clone();
    let (session, action) = session.step(Event::<Fault>::Written);
    assert_eq!(action, None);
    assert_eq!(session, before);
    let (session, action) = session.step(Event::<Fault>::LookupFinished { output: Vec::new() });
    assert_eq!(action, None);
    let (session, action) =
        session.step(Event::<Fault>::FormatterExited { success: true, status: String::new() });
    assert_eq!(action, None);
    assert_eq!(session, before);

    let (session, _) = session.step(Event::<Fault>::TargetProbed(TargetKind::File));
    let waiting = session.clone();
    let (session, action) = session.step(Event::<Fault>::TargetProbed(TargetKind::Directory));
    assert_eq!(action, None);
    let (session, action) = session.step(Event::<Fault>::LookupFailed);
    assert_eq!(action, None);
    assert_eq!(session, waiting);
}

#[test]
fn a_finished_run_asks_for_nothing_more() {
    let (session, _) = run(config("/tmp/a.rs", "x"), vec![Event::TargetProbed(TargetKind::Missing)]);
    let events: Vec<Event<Fault>> = vec![
        Event::TargetProbed(TargetKind::File),
        Event::Written,
        Event::WriteFailed("e".to_string()),
        Event::LookupFinished { output: Vec::new() },
        Event::LookupFailed,
        Event::FormatterExited { success: true, status: String::new() },
        Event::FormatterNotStarted("e".to_string()),
    ];
    let mut session = session;
    for event in events {
        let (next, action) = session.step(event);
        assert_eq!(action, None);
        assert_eq!(next.stage, Stage::Done);
        session = next;
    }
}

use launcher_core::locator::{
    action_for, first_line, search_query, start, step, version_query, CommandLine, CommandOutcome,
    LocatorAction, LocatorEvent, LocatorState,
};
use launcher_core::platform::Platform;

struct Host {
    home: Option<&'static str>,
    files: Vec<&'static str>,
    runs: Vec<(CommandLine, bool, &'static str)>,
}

fn command(program: &str, args: &[&str]) -> CommandLine {
    CommandLine { program: program.to_string(), args: args.iter().map(|s| s.to_string()).collect() }
}

fn reply(host: &Host, action: &LocatorAction) -> LocatorEvent {
    match action {
        LocatorAction::ReadVariable { name } => {
            assert_eq!(name, "JAVA_HOME");
            LocatorEvent::Variable { value: host.home.map(|s| s.to_string()) }
        }
        LocatorAction::ProbeFile { path } => {
            LocatorEvent::FileProbed { exists: host.files.iter().any(|f| f == path) }
        }
        LocatorAction::Run { command } => LocatorEvent::Ran {
            outcome: host.runs.iter().find(|(c, _, _)| c == command).map(|(_, success, out)| {
                CommandOutcome { success: *success, stdout: out.to_string() }
            }),
        },
        LocatorAction::Finish { .. } => panic!("nothing is asked once the search has ended"),
    }
}

fn locate(p: Platform, host: &Host) -> (Option<String>, Vec<LocatorAction>) {
    let (mut state, mut action) = start(p);
    let mut asked = Vec::new();
    for _ in 0..5 {
        if let LocatorAction::Finish { runtime } = &action {
            assert_eq!(state, LocatorState::Finished { runtime: runtime.clone() });
            return (runtime.clone(), asked);
        }
        let event = reply(host, &action);
        asked.push(action);
        let next = step(p, state, event);
        state = next.0;
        action = next.1;
    }
    match action {
        LocatorAction::Finish { runtime } => (runtime, asked),
        other => panic!("the search did not end within five steps: {other:?}"),
    }
}

#[test]
fn home_runtime_is_returned_once_it_validates() {
    let host = Host {
        home: Some("/opt/jdk"),
        files: vec!["/opt/jdk/bin/java"],
        runs: vec![(command("/opt/jdk/bin/java", &["-version"]), true, "")],
    };
    let (found, asked) = locate(Platform::Posix, &host);
    assert_eq!(found, Some("/opt/jdk/bin/java".to_string()));
    assert_eq!(
        asked,
        vec![
            LocatorAction::ReadVariable { name: "JAVA_HOME".to_string() },
            LocatorAction::ProbeFile { path: "/opt/jdk/bin/java".to_string() },
            LocatorAction::Run { command: command("/opt/jdk/bin/java", &["-version"]) },
        ]
    );
}

#[test]
fn home_runtime_that_does_not_run_falls_through_to_the_search_path() {
    let host = Host {
        home: Some("/broken"),
        files: vec!["/broken/bin/java"],
        runs: vec![
            (command("which", &["java"]), true, "/usr/bin/java\n/usr/local/bin/java\n"),
            (command("/usr/bin/java", &["-version"]), true, ""),
        ],
    };
    let (found, asked) = locate(Platform::Posix, &host);
    assert_eq!(found, Some("/usr/bin/java".to_string()));
    assert_eq!(asked.len(), 5);
    assert_eq!(asked[2], LocatorAction::Run { command: command("/broken/bin/java", &["-version"]) });
    assert_eq!(asked[3], LocatorAction::Run { command: command("which", &["java"]) });
    assert_eq!(asked[4], LocatorAction::Run { command: command("/usr/bin/java", &["-version"]) });
}

#[test]
fn home_runtime_that_exits_with_failure_falls_through() {
    let host = Host {
        home: Some("/broken"),
        files: vec!["/broken/bin/java"],
        runs: vec![
            (command("/broken/bin/java", &["-version"]), false, ""),
            (command("which", &["java"]), true, "/usr/bin/java"),
            (command("/usr/bin/java", &["-version"]), true, ""),
        ],
    };
    assert_eq!(locate(Platform::Posix, &host).0, Some("/usr/bin/java".to_string()));
}

#[test]
fn missing_home_file_is_never_run() {
    let host = Host {
        home: Some("/gone"),
        files: vec![],
        runs: vec![(command("/gone/bin/java", &["-version"]), true, "")],
    };
    let (found, asked) = locate(Platform::Posix, &host);
    assert_eq!(found, None);
    assert_eq!(
        asked,
        vec![
            LocatorAction::ReadVariable { name: "JAVA_HOME".to_string() },
            LocatorAction::ProbeFile { path: "/gone/bin/java".to_string() },
            LocatorAction::Run { command: command("which", &["java"]) },
        ]
    );
}

#[test]
fn host_without_java_gives_nothing() {
    let host = Host { home: None, files: vec![], runs: vec![] };
    let (found, asked) = locate(Platform::Posix, &host);
    assert_eq!(found, None);
    assert_eq!(asked.len(), 2);
}

#[test]
fn search_that_fails_or_prints_nothing_gives_nothing() {
    let failed = Host {
        home: None,
        files: vec![],
        runs: vec![(command("which", &["java"]), false, "/usr/bin/java\n")],
    };
    assert_eq!(locate(Platform::Posix, &failed).0, None);
    let silent =
        Host { home: None, files: vec![], runs: vec![(command("which", &["java"]), true, "")] };
    assert_eq!(locate(Platform::Posix, &silent).0, None);
    let blank_line = Host {
        home: None,
        files: vec![],
        runs: vec![(command("which", &["java"]), true, "\n/usr/bin/java\n")],
    };
    assert_eq!(locate(Platform::Posix, &blank_line).0, None);
}

#[test]
fn found_candidate_that_does_not_validate_gives_nothing() {
    let host = Host {
        home: None,
        files: vec![],
        runs: vec![
            (command("which", &["java"]), true, "/usr/bin/java\n"),
            (command("/usr/bin/java", &["-version"]), false, ""),
        ],
    };
    assert_eq!(locate(Platform::Posix, &host).0, None);
}

#[test]
fn windows_goes_through_the_command_interpreter() {
    let host = Host {
        home: Some("C:\\Java"),
        files: vec![],
        runs: vec![
            (command("cmd", &["/C", "where", "java.exe"]), true, "C:\\bin\\java.exe\r\nD:\\java.exe\r\n"),
            (command("cmd", &["/C", "\"C:\\bin\\java.exe\" -version"]), true, ""),
        ],
    };
    let (found, asked) = locate(Platform::Windows, &host);
    assert_eq!(found, Some("C:\\bin\\java.exe".to_string()));
    assert_eq!(asked[1], LocatorAction::ProbeFile { path: "C:\\Java\\bin/java.exe".to_string() });
}

#[test]
fn queries_are_built_for_each_platform() {
    assert_eq!(version_query(Platform::Posix, "/j/java"), command("/j/java", &["-version"]));
    assert_eq!(
        version_query(Platform::Windows, "C:\\j\\java.exe"),
        command("cmd", &["/C", "\"C:\\j\\java.exe\" -version"])
    );
    assert_eq!(search_query(Platform::Posix), command("which", &["java"]));
    assert_eq!(search_query(Platform::Windows), command("cmd", &["/C", "where", "java.exe"]));
}

#[test]
fn reply_that_does_not_answer_counts_as_failure() {
    let (state, _) = start(Platform::Posix);
    let (state, action) = step(Platform::Posix, state, LocatorEvent::FileProbed { exists: true });
    assert_eq!(state, LocatorState::AwaitingSearch);
    assert_eq!(action, LocatorAction::Run { command: command("which", &["java"]) });
    let (state, action) = step(Platform::Posix, state, LocatorEvent::Variable { value: None });
    assert_eq!(state, LocatorState::Finished { runtime: None });
    assert_eq!(action, LocatorAction::Finish { runtime: None });
}

#[test]
fn finished_search_stays_finished() {
    let done = LocatorState::Finished { runtime: Some("/usr/bin/java".to_string()) };
    let event = LocatorEvent::Ran { outcome: None };
    let (state, action) = step(Platform::Posix, done.clone(), event);
    assert_eq!(state, done);
    assert_eq!(action, LocatorAction::Finish { runtime: Some("/usr/bin/java".to_string()) });
    assert_eq!(action_for(Platform::Posix, &done), action);
}

#[test]
fn first_line_agrees_with_the_host() {
    for sample in [
        "", "\n", "\r\n", "a", "a\n", "a\r\n", "a\r", "a\rb\n", "a\n\r\n", "\ra\n", "a\r\r\n",
        "/usr/bin/java\n/opt/java\n", "x\r\ny", "\r",
    ] {
        assert_eq!(first_line(sample), sample.lines().next().unwrap_or(""), "{sample:?}");
    }
}

use kritik::cli::join_words;
use kritik::{init_runner, Effect, Event, FinalBehavior, Invocation, KritikError};

fn words(list: &[&str]) -> Vec<String> {
    list.iter().map(|word| word.to_string()).collect()
}

fn bare(command: &[&str]) -> Invocation {
    Invocation {
        showtime: false,
        message: None,
        running_message: None,
        success_message: None,
        failure_message: None,
        command: words(command),
    }
}

#[test]
fn words_are_joined_with_single_spaces() {
    assert_eq!(join_words(&words(&[])), "");
    assert_eq!(join_words(&words(&["ls"])), "ls");
    assert_eq!(join_words(&words(&["git", "pull"])), "git pull");
    assert_eq!(join_words(&words(&["ls", "-l", "/tmp"])), "ls -l /tmp");
    assert_eq!(join_words(&words(&["a", "", "b"])), "a  b");
    assert_eq!(
        join_words(&words(&["git fetch -p origin && git merge origin/master"])),
        "git fetch -p origin && git merge origin/master"
    );
}

#[test]
fn command_line_without_command_is_refused() {
    let invocation = bare(&[]);
    let error = match init_runner(&invocation) {
        Ok(_) => panic!("a command line without a command was accepted"),
        Err(error) => error,
    };
    assert_eq!(error, KritikError::MissingCommand);
    assert_eq!(error.exit_code(), 1);
    assert_eq!(error.message(), "Missing command to run");
}

#[test]
fn command_line_without_command_is_refused_whatever_else_it_holds() {
    let invocation = Invocation {
        showtime: true,
        message: Some(String::from("Updating")),
        running_message: Some(String::from("BUSY")),
        success_message: Some(String::from("DONE")),
        failure_message: Some(String::from("BROKEN")),
        command: Vec::new(),
    };
    assert!(matches!(init_runner(&invocation), Err(KritikError::MissingCommand)));
}

#[test]
fn bare_command_line_keeps_the_defaults() {
    let invocation = bare(&["git", "pull"]);
    let kritik = init_runner(&invocation).ok().unwrap();
    assert_eq!(kritik.command(), "git pull");
    assert_eq!(kritik.message(), "");
    assert_eq!(kritik.display_message(), "git pull");
    assert_eq!(kritik.running_text(), "RUNNING");
    assert_eq!(kritik.success_text(), "SUCCESS");
    assert_eq!(kritik.failure_text(), "FAILURE");
    assert!(!kritik.shows_time());
    assert_eq!(kritik.template(), "");
    assert_eq!(kritik.behavior(), FinalBehavior::Exit);
}

#[test]
fn options_replace_the_defaults() {
    let invocation = Invocation {
        showtime: true,
        message: Some(String::from("Updating")),
        running_message: Some(String::from("BUSY")),
        success_message: Some(String::from("DONE")),
        failure_message: Some(String::from("BROKEN")),
        command: words(&["git", "pull", "--rebase"]),
    };
    let kritik = init_runner(&invocation).ok().unwrap();
    assert_eq!(kritik.command(), "git pull --rebase");
    assert_eq!(kritik.message(), "Updating");
    assert_eq!(kritik.running_text(), "BUSY");
    assert_eq!(kritik.success_text(), "DONE");
    assert_eq!(kritik.failure_text(), "BROKEN");
    assert!(kritik.shows_time());
    assert_eq!(kritik.behavior(), FinalBehavior::Exit);
}

#[test]
fn command_line_runs_to_its_report() {
    let invocation = Invocation {
        showtime: false,
        message: Some(String::from("Updating")),
        running_message: None,
        success_message: None,
        failure_message: Some(String::from("BROKEN")),
        command: words(&["git", "pull"]),
    };
    let mut kritik = init_runner(&invocation).ok().unwrap();
    let started = kritik.step(Event::Start, false);
    assert_eq!(
        started[1],
        Effect::Spawn {
            shell: String::from("bash"),
            flag: String::from("-c"),
            command: String::from("git pull"),
        }
    );
    let result = kritik::ExecutionResult {
        code: Some(128),
        stdout: Vec::new(),
        stderr: b"fatal: not a git repository\n".to_vec(),
    };
    let ended = kritik.step(Event::Finished(result), false);
    assert_eq!(
        ended[1],
        Effect::Report(
            b"  [BROKEN] Updating\n  [ERROR CODE] 128\n  [STDOUT] Empty\n  [STDERR]\nfatal: not a git repository\n"
                .to_vec()
        )
    );
    assert_eq!(ended[2], Effect::Exit(128));
}

#[test]
fn empty_word_is_a_command_line_but_no_command() {
    let invocation = bare(&[""]);
    let mut kritik = init_runner(&invocation).ok().unwrap();
    assert_eq!(kritik.command(), "");
    assert_eq!(
        kritik.step(Event::Start, false),
        vec![Effect::Diagnose(KritikError::MissingCommand), Effect::Exit(1)]
    );
}

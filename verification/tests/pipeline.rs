use ssh_key_setup::error::{Failure, SetupError};
use ssh_key_setup::layout::Config;
use ssh_key_setup::pipeline::{Action, Pipeline, Reply, DISCLOSURE_LABEL, PROMPT};

fn fresh() -> Pipeline {
    Pipeline::start(Config::standard(), Some("/home/user".to_string()))
}

fn abort(failure: Failure, detail: &str) -> Action {
    Action::Abort { error: SetupError { failure, detail: detail.to_string() } }
}

fn probe() -> Action {
    Action::ProbeDirectory { path: "/home/user/.ssh".to_string() }
}

fn generate() -> Action {
    Action::RunGenerator {
        program: "ssh-keygen".to_string(),
        arguments: vec![
            "-t".to_string(),
            "rsa".to_string(),
            "-b".to_string(),
            "4096".to_string(),
            "-C".to_string(),
            "test-key".to_string(),
            "-f".to_string(),
            "/home/user/.ssh/test-key".to_string(),
            "-N".to_string(),
            String::new(),
        ],
    }
}

fn named() -> Pipeline {
    fresh().step(Reply::Line("test-key\n".to_string()))
}

fn generating() -> Pipeline {
    named().step(Reply::Probed(true))
}

fn reading_public_key() -> Pipeline {
    generating().step(Reply::Exited { success: true, diagnostic: String::new() })
}

fn enrolling() -> Pipeline {
    reading_public_key().step(Reply::Contents("ssh-rsa AAAA test-key\n".to_string()))
}

fn reading_private_key() -> Pipeline {
    enrolling().step(Reply::Completed)
}

fn disclosing() -> Pipeline {
    reading_private_key().step(Reply::Contents("-----BEGIN-----\nsecret\n-----END-----\n".to_string()))
}

fn all_replies() -> Vec<Reply> {
    vec![
        Reply::Line("x".to_string()),
        Reply::Probed(true),
        Reply::Probed(false),
        Reply::Completed,
        Reply::Exited { success: true, diagnostic: "d".to_string() },
        Reply::Exited { success: false, diagnostic: "d".to_string() },
        Reply::Contents("c".to_string()),
        Reply::Failed("f".to_string()),
    ]
}

#[test]
fn run_starts_by_asking_for_the_name() {
    let run = fresh();
    assert_eq!(run.pending(), Action::Prompt { text: PROMPT.to_string() });
    assert_eq!(
        PROMPT,
        "Enter the name you want to use for the SSH key (default: github-actions):"
    );
    assert!(!run.is_over());
}

#[test]
fn entered_name_leads_to_probing_the_directory() {
    let run = named();
    assert_eq!(run.pending(), probe());
    assert!(!run.is_over());
}

#[test]
fn blank_line_names_the_default_key() {
    let run = fresh().step(Reply::Line("   \n".to_string())).step(Reply::Probed(true));
    match run.pending() {
        Action::RunGenerator { arguments, .. } => {
            assert_eq!(arguments[5], "github-actions");
            assert_eq!(arguments[7], "/home/user/.ssh/github-actions");
        }
        other => panic!("unexpected action {:?}", other),
    }
    let run = run.step(Reply::Exited { success: true, diagnostic: String::new() });
    assert_eq!(
        run.pending(),
        Action::ReadFile { path: "/home/user/.ssh/github-actions.pub".to_string() }
    );
}

#[test]
fn run_without_home_keeps_the_tilde() {
    let run = Pipeline::start(Config::standard(), None).step(Reply::Line("k".to_string()));
    assert_eq!(run.pending(), Action::ProbeDirectory { path: "~/.ssh".to_string() });
}

#[test]
fn unreadable_input_aborts() {
    let run = fresh().step(Reply::Failed("stream closed".to_string()));
    assert_eq!(run.pending(), abort(Failure::Input, "stream closed"));
    assert!(run.is_over());
}

#[test]
fn missing_directory_is_created() {
    let run = named().step(Reply::Probed(false));
    assert_eq!(run.pending(), Action::CreateDirectory { path: "/home/user/.ssh".to_string() });
    let run = run.step(Reply::Completed);
    assert_eq!(run.pending(), generate());
}

#[test]
fn existing_directory_is_left_alone() {
    let run = named().step(Reply::Probed(true));
    assert_eq!(run.pending(), generate());
    assert!(!run.is_over());
}

#[test]
fn failed_directory_creation_aborts() {
    let run = named().step(Reply::Probed(false)).step(Reply::Failed("Permission denied".to_string()));
    assert_eq!(run.pending(), abort(Failure::Directory, "Permission denied"));
}

#[test]
fn generator_is_run_with_the_fixed_arguments() {
    assert_eq!(generating().pending(), generate());
}

#[test]
fn successful_generation_leads_to_reading_the_public_key() {
    let run = reading_public_key();
    assert_eq!(run.pending(), Action::ReadFile { path: "/home/user/.ssh/test-key.pub".to_string() });
}

#[test]
fn diagnostic_of_successful_generation_is_ignored() {
    let run = generating().step(Reply::Exited { success: true, diagnostic: "noise".to_string() });
    assert_eq!(run.pending(), Action::ReadFile { path: "/home/user/.ssh/test-key.pub".to_string() });
}

#[test]
fn failed_generation_aborts_with_the_diagnostic() {
    let run = generating().step(Reply::Exited { success: false, diagnostic: "boom".to_string() });
    assert_eq!(run.pending(), abort(Failure::Generation, "boom"));
    assert!(run.is_over());
    match run.pending() {
        Action::Abort { error } => assert!(error.message().contains("boom")),
        other => panic!("unexpected action {:?}", other),
    }
}

#[test]
fn generator_that_cannot_be_started_aborts() {
    let run = generating().step(Reply::Failed("No such file or directory".to_string()));
    assert_eq!(run.pending(), abort(Failure::Launch, "No such file or directory"));
}

#[test]
fn public_key_is_appended_as_read() {
    let run = enrolling();
    assert_eq!(
        run.pending(),
        Action::AppendFile {
            path: "/home/user/.ssh/authorized_keys".to_string(),
            text: "ssh-rsa AAAA test-key\n".to_string(),
        }
    );
}

#[test]
fn public_key_without_newline_is_appended_without_newline() {
    let run = reading_public_key().step(Reply::Contents("  ssh-rsa AAAA \r".to_string()));
    match run.pending() {
        Action::AppendFile { text, .. } => assert_eq!(text, "  ssh-rsa AAAA \r"),
        other => panic!("unexpected action {:?}", other),
    }
}

#[test]
fn unreadable_public_key_aborts() {
    let run = reading_public_key().step(Reply::Failed("not found".to_string()));
    assert_eq!(run.pending(), abort(Failure::ReadKey, "not found"));
}

#[test]
fn enrollment_leads_to_reading_the_private_key() {
    let run = reading_private_key();
    assert_eq!(run.pending(), Action::ReadFile { path: "/home/user/.ssh/test-key".to_string() });
}

#[test]
fn failed_enrollment_aborts() {
    let run = enrolling().step(Reply::Failed("Permission denied".to_string()));
    assert_eq!(run.pending(), abort(Failure::Enrollment, "Permission denied"));
    assert!(run.is_over());
}

#[test]
fn unreadable_private_key_aborts() {
    let run = reading_private_key().step(Reply::Failed("gone".to_string()));
    assert_eq!(run.pending(), abort(Failure::ReadKey, "gone"));
}

#[test]
fn private_key_is_disclosed_behind_the_label() {
    let run = disclosing();
    assert_eq!(DISCLOSURE_LABEL, "Private key to add to GitHub Secrets:\n");
    assert_eq!(
        run.pending(),
        Action::Disclose {
            text: "Private key to add to GitHub Secrets:\n-----BEGIN-----\nsecret\n-----END-----\n"
                .to_string(),
        }
    );
}

#[test]
fn disclosure_finishes_the_run() {
    let run = disclosing().step(Reply::Completed);
    assert_eq!(run.pending(), Action::Finish);
    assert!(run.is_over());
}

#[test]
fn finished_run_stays_finished() {
    for reply in all_replies() {
        let run = disclosing().step(Reply::Completed).step(reply);
        assert!(run.is_over());
        assert_eq!(run.pending(), Action::Finish);
    }
}

#[test]
fn aborted_run_stays_aborted() {
    for reply in all_replies() {
        let run = generating()
            .step(Reply::Exited { success: false, diagnostic: "boom".to_string() })
            .step(reply);
        assert!(run.is_over());
        assert_eq!(run.pending(), abort(Failure::Generation, "boom"));
    }
}

#[test]
fn reply_out_of_turn_aborts() {
    let out_of_turn = abort(Failure::OutOfTurn, "");
    assert_eq!(fresh().step(Reply::Completed).pending(), out_of_turn);
    assert_eq!(named().step(Reply::Completed).pending(), out_of_turn);
    assert_eq!(named().step(Reply::Failed("x".to_string())).pending(), out_of_turn);
    assert_eq!(generating().step(Reply::Completed).pending(), out_of_turn);
    assert_eq!(reading_public_key().step(Reply::Line("x".to_string())).pending(), out_of_turn);
    assert_eq!(enrolling().step(Reply::Probed(true)).pending(), out_of_turn);
    assert_eq!(reading_private_key().step(Reply::Completed).pending(), out_of_turn);
    assert_eq!(disclosing().step(Reply::Failed("x".to_string())).pending(), out_of_turn);
}

#[test]
fn every_run_is_over_after_eight_replies() {
    for first in all_replies() {
        for second in all_replies() {
            let mut run = fresh().step(first.clone()).step(second.clone());
            for _ in 0..6 {
                run = run.step(Reply::Completed);
            }
            assert!(run.is_over());
        }
    }
}

#[test]
fn only_in_turn_success_moves_a_run_forward() {
    let states: [fn() -> Pipeline; 8] = [
        fresh,
        named,
        || named().step(Reply::Probed(false)),
        generating,
        reading_public_key,
        enrolling,
        reading_private_key,
        disclosing,
    ];
    for state in states {
        let mut forward = 0;
        for reply in all_replies() {
            if !state().step(reply).is_over() {
                forward += 1;
            }
        }
        // Probing has two answers that go on; the last step has none that is not an end.
        let expected = match state().pending() {
            Action::ProbeDirectory { .. } => 2,
            Action::Disclose { .. } => 0,
            _ => 1,
        };
        assert_eq!(forward, expected, "{:?}", state().pending());
    }
}

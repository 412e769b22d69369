use ssh_key_setup::error::{Failure, SetupError};
use ssh_key_setup::keygen::{
    judge_exit, keygen_arguments_for, KEYGEN_PROGRAM, KEY_ALGORITHM, KEY_BITS,
};

#[test]
fn generator_is_ssh_keygen() {
    assert_eq!(KEYGEN_PROGRAM, "ssh-keygen");
    assert_eq!(KEY_ALGORITHM, "rsa");
    assert_eq!(KEY_BITS, "4096");
}

#[test]
fn arguments_select_key_comment_file_and_empty_passphrase() {
    let arguments = keygen_arguments_for("test-key", "/home/user/.ssh/test-key");
    assert_eq!(
        arguments,
        vec![
            "-t",
            "rsa",
            "-b",
            "4096",
            "-C",
            "test-key",
            "-f",
            "/home/user/.ssh/test-key",
            "-N",
            "",
        ]
    );
}

#[test]
fn arguments_take_name_and_file_verbatim() {
    let arguments = keygen_arguments_for("a b", "~/.ssh/a b");
    assert_eq!(arguments.len(), 10);
    assert_eq!(arguments[5], "a b");
    assert_eq!(arguments[7], "~/.ssh/a b");
    assert_eq!(arguments[9], "");
}

#[test]
fn successful_exit_is_accepted() {
    assert_eq!(judge_exit(true, String::new()), Ok(()));
    assert_eq!(judge_exit(true, "warning".to_string()), Ok(()));
}

#[test]
fn failed_exit_carries_the_diagnostic() {
    assert_eq!(
        judge_exit(false, "boom".to_string()),
        Err(SetupError { failure: Failure::Generation, detail: "boom".to_string() })
    );
}

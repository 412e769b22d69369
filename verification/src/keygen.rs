//! How the key generator is invoked, and how its outcome is judged.

use crate::error::{Failure, SetupError, SetupErrorView};
use vstd::prelude::*;
use vstd::string::StringExecFns;

verus! {

/// The program that generates the key pair.
pub const KEYGEN_PROGRAM: &'static str = "ssh-keygen";

/// The algorithm of the generated key.
pub const KEY_ALGORITHM: &'static str = "rsa";

/// The size of the generated key, in bits.
pub const KEY_BITS: &'static str = "4096";

/// The arguments of the key generator for the key `name`, its private key
/// written to `key_file`: the algorithm, the size, the name as the comment,
/// the file, and an empty passphrase.
pub open spec fn keygen_arguments(name: Seq<char>, key_file: Seq<char>) -> Seq<Seq<char>> {
    seq![
        "-t"@,
        KEY_ALGORITHM@,
        "-b"@,
        KEY_BITS@,
        "-C"@,
        name,
        "-f"@,
        key_file,
        "-N"@,
        Seq::<char>::empty(),
    ]
}

/// Builds the arguments that make the key generator write the key `name` to
/// `key_file` without asking for anything.
pub fn keygen_arguments_for(name: &str, key_file: &str) -> (arguments: Vec<String>)
    ensures
        arguments.deep_view() == keygen_arguments(name@, key_file@),
{
    let mut arguments: Vec<String> = Vec::new();
    arguments.push(String::from_str("-t"));
    arguments.push(String::from_str(KEY_ALGORITHM));
    arguments.push(String::from_str("-b"));
    arguments.push(String::from_str(KEY_BITS));
    arguments.push(String::from_str("-C"));
    arguments.push(String::from_str(name));
    arguments.push(String::from_str("-f"));
    arguments.push(String::from_str(key_file));
    arguments.push(String::from_str("-N"));
    arguments.push(String::new());
    arguments
}

/// How the exit of the key generator is judged: success is accepted, and
/// anything else is an error that carries what the generator wrote to its
/// error stream.
pub open spec fn verdict(success: bool, diagnostic: Seq<char>) -> Result<(), SetupErrorView> {
    if success {
        Ok(())
    } else {
        Err(SetupErrorView { failure: Failure::Generation, detail: diagnostic })
    }
}

/// The view of a judgement.
pub open spec fn verdict_view(judged: Result<(), SetupError>) -> Result<(), SetupErrorView> {
    match judged {
        Ok(()) => Ok(()),
        Err(error) => Err(error@),
    }
}

/// Judges the exit of the key generator.
pub fn judge_exit(success: bool, diagnostic: String) -> (judged: Result<(), SetupError>)
    ensures
        verdict_view(judged) == verdict(success, diagnostic@),
{
    if success {
        Ok(())
    } else {
        Err(SetupError { failure: Failure::Generation, detail: diagnostic })
    }
}

} // verus!

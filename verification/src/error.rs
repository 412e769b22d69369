//! Why a run was given up.

use vstd::prelude::*;
use vstd::string::StringExecFns;

verus! {

/// The step at which a run failed.
#[derive(Clone, Copy, Debug, PartialEq, Eq, Structural)]
pub enum Failure {
    /// The key name could not be read.
    Input,
    /// The key directory could not be created.
    Directory,
    /// The key generator could not be started.
    Launch,
    /// The key generator ran and reported failure.
    Generation,
    /// A key file could not be read.
    ReadKey,
    /// The public key could not be appended to the allow list.
    Enrollment,
    /// A reply did not answer the action that was pending.
    OutOfTurn,
}

/// A failure together with the diagnostic text that came with it.
#[derive(Clone, Debug, PartialEq, Eq)]
pub struct SetupError {
    /// The step that failed.
    pub failure: Failure,
    /// What the system or the key generator said about it, verbatim.
    pub detail: String,
}

/// A [`SetupError`] as plain values.
pub ghost struct SetupErrorView {
    pub failure: Failure,
    pub detail: Seq<char>,
}

impl View for SetupError {
    type V = SetupErrorView;

    open spec fn view(&self) -> SetupErrorView {
        SetupErrorView { failure: self.failure, detail: self.detail@ }
    }
}

/// What a message says before it quotes the diagnostic text.
pub open spec fn headline(failure: Failure) -> Seq<char> {
    match failure {
        Failure::Input => "Failed to read the key name: "@,
        Failure::Directory => "Failed to create the key directory: "@,
        Failure::Launch => "Failed to generate SSH key: "@,
        Failure::Generation => "SSH key generation failed: "@,
        Failure::ReadKey => "Failed to read the key file: "@,
        Failure::Enrollment => "Failed to append the public key: "@,
        Failure::OutOfTurn => "Unexpected reply: "@,
    }
}

/// The message that reports an error: the headline of its failure, then the
/// diagnostic text, unchanged.
pub open spec fn message_of(error: SetupErrorView) -> Seq<char> {
    headline(error.failure) + error.detail
}

/// Whether `needle` occurs in `text` as a run of adjacent characters.
pub open spec fn occurs_in(needle: Seq<char>, text: Seq<char>) -> bool {
    exists|at: int|
        0 <= at <= text.len() - needle.len() && #[trigger] text.subrange(at, at + needle.len())
            == needle
}

impl SetupError {
    /// The headline of a failure.
    fn headline(failure: Failure) -> (text: &'static str)
        ensures
            text@ == headline(failure),
    {
        match failure {
            Failure::Input => "Failed to read the key name: ",
            Failure::Directory => "Failed to create the key directory: ",
            Failure::Launch => "Failed to generate SSH key: ",
            Failure::Generation => "SSH key generation failed: ",
            Failure::ReadKey => "Failed to read the key file: ",
            Failure::Enrollment => "Failed to append the public key: ",
            Failure::OutOfTurn => "Unexpected reply: ",
        }
    }

    /// The message to show for this error.
    pub fn message(&self) -> (text: String)
        ensures
            text@ == message_of(self@),
            occurs_in(self@.detail, text@),
    {
        let text = String::from_str(Self::headline(self.failure)).concat(self.detail.as_str());
        proof {
            lemma_message_quotes_detail(self@);
        }
        text
    }
}

/// Every message holds the diagnostic text of its error, character for
/// character.
pub proof fn lemma_message_quotes_detail(error: SetupErrorView)
    ensures
        occurs_in(error.detail, message_of(error)),
{
    let text = message_of(error);
    let at = headline(error.failure).len() as int;
    assert(text.subrange(at, at + error.detail.len()) =~= error.detail);
}

} // verus!

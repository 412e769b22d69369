//! The order of a run.
//!
//! A run is a sequence of actions on the terminal, the file system and the
//! key generator. This module decides which action comes next; a driver
//! performs it and replies with what happened. The run asks for the name of
//! the key, makes sure the key directory exists, has the key pair generated,
//! appends the public key to the allow list, and at last discloses the
//! private key. The first failure ends it.

use crate::error::{Failure, SetupError, SetupErrorView};
use crate::expand::owned_home_view;
use crate::keygen::{
    judge_exit, keygen_arguments, keygen_arguments_for, verdict, KEYGEN_PROGRAM,
};
use crate::layout::{layout_of, Config, ConfigView, Layout, LayoutView};
use crate::name::{resolve_key_name, resolved_name};
use crate::order::{
    enrolled_before, generated_before, lemma_disclosure_follows_enrollment,
    lemma_enrollment_follows_generation,
};
use vstd::prelude::*;
use vstd::string::StringExecFns;

verus! {

/// What the user is asked before the name of the key is read.
pub const PROMPT: &'static str =
    "Enter the name you want to use for the SSH key (default: github-actions):";

/// What is printed before the private key.
pub const DISCLOSURE_LABEL: &'static str = "Private key to add to GitHub Secrets:\n";

/// What a driver is asked to do.
#[derive(Clone, Debug, PartialEq, Eq)]
pub enum Action {
    /// Show `text` and read one line from the user.
    Prompt { text: String },
    /// Find out whether the directory `path` exists.
    ProbeDirectory { path: String },
    /// Create the directory `path` and every missing directory above it.
    CreateDirectory { path: String },
    /// Run `program` with `arguments` and wait for it to exit.
    RunGenerator { program: String, arguments: Vec<String> },
    /// Read the whole file `path` as text.
    ReadFile { path: String },
    /// Write `text` to the end of the file `path`, creating the file if it
    /// is missing and leaving what it holds untouched.
    AppendFile { path: String, text: String },
    /// Print `text` for the user.
    Disclose { text: String },
    /// End the run: everything was done.
    Finish,
    /// End the run and report `error`.
    Abort { error: SetupError },
}

/// An [`Action`] as plain values.
pub ghost enum ActionView {
    Prompt { text: Seq<char> },
    ProbeDirectory { path: Seq<char> },
    CreateDirectory { path: Seq<char> },
    RunGenerator { program: Seq<char>, arguments: Seq<Seq<char>> },
    ReadFile { path: Seq<char> },
    AppendFile { path: Seq<char>, text: Seq<char> },
    Disclose { text: Seq<char> },
    Finish,
    Abort { error: SetupErrorView },
}

impl View for Action {
    type V = ActionView;

    open spec fn view(&self) -> ActionView {
        match self {
            Action::Prompt { text } => ActionView::Prompt { text: text@ },
            Action::ProbeDirectory { path } => ActionView::ProbeDirectory { path: path@ },
            Action::CreateDirectory { path } => ActionView::CreateDirectory { path: path@ },
            Action::RunGenerator { program, arguments } => ActionView::RunGenerator {
                program: program@,
                arguments: arguments.deep_view(),
            },
            Action::ReadFile { path } => ActionView::ReadFile { path: path@ },
            Action::AppendFile { path, text } => ActionView::AppendFile { path: path@, text: text@ },
            Action::Disclose { text } => ActionView::Disclose { text: text@ },
            Action::Finish => ActionView::Finish,
            Action::Abort { error } => ActionView::Abort { error: error@ },
        }
    }
}

/// What a driver reports after it has performed an action.
#[derive(Clone, Debug, PartialEq, Eq)]
pub enum Reply {
    /// The line that the user entered.
    Line(String),
    /// Whether the directory exists.
    Probed(bool),
    /// The action was performed.
    Completed,
    /// The program ran and exited; `diagnostic` is what it wrote to its
    /// error stream.
    Exited { success: bool, diagnostic: String },
    /// What the file holds.
    Contents(String),
    /// The action could not be performed; the text says why.
    Failed(String),
}

/// A [`Reply`] as plain values.
pub ghost enum ReplyView {
    Line(Seq<char>),
    Probed(bool),
    Completed,
    Exited { success: bool, diagnostic: Seq<char> },
    Contents(Seq<char>),
    Failed(Seq<char>),
}

impl View for Reply {
    type V = ReplyView;

    open spec fn view(&self) -> ReplyView {
        match self {
            Reply::Line(text) => ReplyView::Line(text@),
            Reply::Probed(exists) => ReplyView::Probed(*exists),
            Reply::Completed => ReplyView::Completed,
            Reply::Exited { success, diagnostic } => ReplyView::Exited {
                success: *success,
                diagnostic: diagnostic@,
            },
            Reply::Contents(text) => ReplyView::Contents(text@),
            Reply::Failed(reason) => ReplyView::Failed(reason@),
        }
    }
}

/// What a run waits for, and what it has to remember for the actions to
/// come.
enum Stage {
    AwaitingName { config: Config, home: Option<String> },
    ProbingDirectory { name: String, layout: Layout },
    CreatingDirectory { name: String, layout: Layout },
    Generating { name: String, layout: Layout },
    ReadingPublicKey { layout: Layout },
    Enrolling { layout: Layout, public_key: String },
    ReadingPrivateKey { layout: Layout },
    Disclosing { secret: String },
    Finished,
    Aborted { error: SetupError },
}

/// Where a run began, and what has been replied to it since.
ghost struct Trail {
    start: PipelineView,
    replies: Seq<ReplyView>,
}

/// A run between two actions.
///
/// A run is made by [`Pipeline::start`] and moved on by [`Pipeline::step`],
/// and in no other way: whatever a driver does, the run it holds began by
/// asking for the name of the key and came to where it is reply by reply.
pub struct Pipeline {
    stage: Stage,
    trail: Ghost<Trail>,
}

/// A [`Pipeline`] as plain values: what the run waits for, and what it has
/// to remember for the actions to come.
pub ghost enum PipelineView {
    /// Waiting for the name of the key.
    AwaitingName { config: ConfigView, home: Option<Seq<char>> },
    /// Waiting to learn whether the key directory exists.
    ProbingDirectory { name: Seq<char>, layout: LayoutView },
    /// Waiting for the key directory to be created.
    CreatingDirectory { name: Seq<char>, layout: LayoutView },
    /// Waiting for the key generator to exit.
    Generating { name: Seq<char>, layout: LayoutView },
    /// Waiting for the text of the public key.
    ReadingPublicKey { layout: LayoutView },
    /// Waiting for the public key to be appended to the allow list.
    Enrolling { layout: LayoutView, public_key: Seq<char> },
    /// Waiting for the text of the private key.
    ReadingPrivateKey { layout: LayoutView },
    /// Waiting for the private key to be printed.
    Disclosing { secret: Seq<char> },
    /// Everything was done.
    Finished,
    /// A step failed.
    Aborted { error: SetupErrorView },
}

impl View for Stage {
    type V = PipelineView;

    closed spec fn view(&self) -> PipelineView {
        match self {
            Stage::AwaitingName { config, home } => PipelineView::AwaitingName {
                config: config@,
                home: owned_home_view(*home),
            },
            Stage::ProbingDirectory { name, layout } => PipelineView::ProbingDirectory {
                name: name@,
                layout: layout@,
            },
            Stage::CreatingDirectory { name, layout } => PipelineView::CreatingDirectory {
                name: name@,
                layout: layout@,
            },
            Stage::Generating { name, layout } => PipelineView::Generating {
                name: name@,
                layout: layout@,
            },
            Stage::ReadingPublicKey { layout } => PipelineView::ReadingPublicKey {
                layout: layout@,
            },
            Stage::Enrolling { layout, public_key } => PipelineView::Enrolling {
                layout: layout@,
                public_key: public_key@,
            },
            Stage::ReadingPrivateKey { layout } => PipelineView::ReadingPrivateKey {
                layout: layout@,
            },
            Stage::Disclosing { secret } => PipelineView::Disclosing { secret: secret@ },
            Stage::Finished => PipelineView::Finished,
            Stage::Aborted { error } => PipelineView::Aborted { error: error@ },
        }
    }
}

impl View for Pipeline {
    type V = PipelineView;

    closed spec fn view(&self) -> PipelineView {
        self.stage@
    }
}

/// The state of a run that failed at `failure`, with the diagnostic text
/// `detail`.
pub open spec fn aborted(failure: Failure, detail: Seq<char>) -> PipelineView {
    PipelineView::Aborted { error: SetupErrorView { failure, detail } }
}

/// The state of a run whose driver replied with something that does not
/// answer the pending action.
pub open spec fn out_of_turn() -> PipelineView {
    aborted(Failure::OutOfTurn, Seq::empty())
}

/// The action that a run in `state` is waiting for.
pub open spec fn pending_action(state: PipelineView) -> ActionView {
    match state {
        PipelineView::AwaitingName { .. } => ActionView::Prompt { text: PROMPT@ },
        PipelineView::ProbingDirectory { layout, .. } => ActionView::ProbeDirectory {
            path: layout.directory,
        },
        PipelineView::CreatingDirectory { layout, .. } => ActionView::CreateDirectory {
            path: layout.directory,
        },
        PipelineView::Generating { name, layout } => ActionView::RunGenerator {
            program: KEYGEN_PROGRAM@,
            arguments: keygen_arguments(name, layout.private_key),
        },
        PipelineView::ReadingPublicKey { layout } => ActionView::ReadFile {
            path: layout.public_key,
        },
        PipelineView::Enrolling { layout, public_key } => ActionView::AppendFile {
            path: layout.allow_list,
            text: public_key,
        },
        PipelineView::ReadingPrivateKey { layout } => ActionView::ReadFile {
            path: layout.private_key,
        },
        PipelineView::Disclosing { secret } => ActionView::Disclose {
            text: DISCLOSURE_LABEL@ + secret,
        },
        PipelineView::Finished => ActionView::Finish,
        PipelineView::Aborted { error } => ActionView::Abort { error },
    }
}

/// The state that follows `state` when the driver replies `reply` to the
/// pending action.
///
/// A reply that reports success moves the run to its next step; the
/// directory is created only when it was found missing. A reply that reports
/// failure, an exit of the key generator without success, or a reply that
/// does not answer the pending action ends the run. A run that has ended
/// stays as it is.
pub open spec fn advance(state: PipelineView, reply: ReplyView) -> PipelineView {
    match state {
        PipelineView::AwaitingName { config, home } => match reply {
            ReplyView::Line(text) => PipelineView::ProbingDirectory {
                name: resolved_name(text),
                layout: layout_of(config, resolved_name(text), home),
            },
            ReplyView::Failed(reason) => aborted(Failure::Input, reason),
            _ => out_of_turn(),
        },
        PipelineView::ProbingDirectory { name, layout } => match reply {
            ReplyView::Probed(exists) => if exists {
                PipelineView::Generating { name, layout }
            } else {
                PipelineView::CreatingDirectory { name, layout }
            },
            _ => out_of_turn(),
        },
        PipelineView::CreatingDirectory { name, layout } => match reply {
            ReplyView::Completed => PipelineView::Generating { name, layout },
            ReplyView::Failed(reason) => aborted(Failure::Directory, reason),
            _ => out_of_turn(),
        },
        PipelineView::Generating { name, layout } => match reply {
            ReplyView::Exited { success, diagnostic } => match verdict(success, diagnostic) {
                Ok(_) => PipelineView::ReadingPublicKey { layout },
                Err(error) => PipelineView::Aborted { error },
            },
            ReplyView::Failed(reason) => aborted(Failure::Launch, reason),
            _ => out_of_turn(),
        },
        PipelineView::ReadingPublicKey { layout } => match reply {
            ReplyView::Contents(text) => PipelineView::Enrolling { layout, public_key: text },
            ReplyView::Failed(reason) => aborted(Failure::ReadKey, reason),
            _ => out_of_turn(),
        },
        PipelineView::Enrolling { layout, public_key } => match reply {
            ReplyView::Completed => PipelineView::ReadingPrivateKey { layout },
            ReplyView::Failed(reason) => aborted(Failure::Enrollment, reason),
            _ => out_of_turn(),
        },
        PipelineView::ReadingPrivateKey { layout } => match reply {
            ReplyView::Contents(text) => PipelineView::Disclosing { secret: text },
            ReplyView::Failed(reason) => aborted(Failure::ReadKey, reason),
            _ => out_of_turn(),
        },
        PipelineView::Disclosing { secret } => match reply {
            ReplyView::Completed => PipelineView::Finished,
            _ => out_of_turn(),
        },
        PipelineView::Finished => state,
        PipelineView::Aborted { .. } => state,
    }
}

/// The state of a run that began in `start` once the driver has given
/// `replies`, one to each pending action in turn.
pub open spec fn state_after(start: PipelineView, replies: Seq<ReplyView>) -> PipelineView
    decreases replies.len(),
{
    if replies.len() == 0 {
        start
    } else {
        advance(state_after(start, replies.drop_last()), replies.last())
    }
}

/// A copy of `error`.
fn copy_of(error: &SetupError) -> (copy: SetupError)
    ensures
        copy@ == error@,
{
    SetupError { failure: error.failure, detail: error.detail.clone() }
}

/// The end of a run at `failure`, with the diagnostic text `detail`.
fn abort(failure: Failure, detail: String) -> (next: Stage)
    ensures
        next@ == aborted(failure, detail@),
{
    Stage::Aborted { error: SetupError { failure, detail } }
}

/// The end of a run whose driver replied out of turn.
fn abort_out_of_turn() -> (next: Stage)
    ensures
        next@ == out_of_turn(),
{
    abort(Failure::OutOfTurn, String::new())
}

impl Pipeline {
    /// A run is where its replies have taken it from a fresh start.
    #[verifier::type_invariant]
    spec fn on_trail(&self) -> bool {
        &&& self.trail@.start is AwaitingName
        &&& self.stage@ == state_after(self.trail@.start, self.trail@.replies)
    }

    /// The state that the run began in.
    pub closed spec fn origin(&self) -> PipelineView {
        self.trail@.start
    }

    /// The replies that the run has taken so far, oldest first.
    pub closed spec fn replies(&self) -> Seq<ReplyView> {
        self.trail@.replies
    }

    /// A run that has not done anything yet. Its paths are those of
    /// `config`, expanded with `home`.
    pub fn start(config: Config, home: Option<String>) -> (run: Pipeline)
        ensures
            run@ == (PipelineView::AwaitingName { config: config@, home: owned_home_view(home) }),
            run.origin() == run@,
            run.replies() == Seq::<ReplyView>::empty(),
    {
        let ghost start = PipelineView::AwaitingName {
            config: config@,
            home: owned_home_view(home),
        };
        Pipeline {
            stage: Stage::AwaitingName { config, home },
            trail: Ghost(Trail { start, replies: Seq::empty() }),
        }
    }

    /// Tells whether the run has ended, in success or in failure.
    pub fn is_over(&self) -> (over: bool)
        ensures
            over == (self@ is Finished || self@ is Aborted),
    {
        match &self.stage {
            Stage::Finished => true,
            Stage::Aborted { .. } => true,
            _ => false,
        }
    }

    /// The action that the run is waiting for.
    ///
    /// Whatever it is, the run has come to it from a fresh start by the
    /// replies it has taken. So an append to the allow list is asked for
    /// only after the key generator has exited with success, and the
    /// private key is disclosed only after that append was done.
    pub fn pending(&self) -> (action: Action)
        ensures
            action@ == pending_action(self@),
            self.origin() is AwaitingName,
            self@ == state_after(self.origin(), self.replies()),
            action@ is AppendFile ==> generated_before(
                self.origin(),
                self.replies(),
                self.replies().len() as int,
            ),
            action@ is Disclose ==> enrolled_before(
                self.origin(),
                self.replies(),
                self.replies().len() as int,
            ),
    {
        proof {
            use_type_invariant(self);
            let start = self.trail@.start;
            let replies = self.trail@.replies;
            assert(replies.take(replies.len() as int) =~= replies);
            if self.stage@ is Enrolling {
                lemma_enrollment_follows_generation(start, replies, replies.len() as int);
            }
            if self.stage@ is Disclosing {
                lemma_disclosure_follows_enrollment(start, replies, replies.len() as int);
            }
        }
        match &self.stage {
            Stage::AwaitingName { .. } => Action::Prompt { text: String::from_str(PROMPT) },
            Stage::ProbingDirectory { layout, .. } => Action::ProbeDirectory {
                path: layout.directory.clone(),
            },
            Stage::CreatingDirectory { layout, .. } => Action::CreateDirectory {
                path: layout.directory.clone(),
            },
            Stage::Generating { name, layout } => Action::RunGenerator {
                program: String::from_str(KEYGEN_PROGRAM),
                arguments: keygen_arguments_for(name.as_str(), layout.private_key.as_str()),
            },
            Stage::ReadingPublicKey { layout } => Action::ReadFile {
                path: layout.public_key.clone(),
            },
            Stage::Enrolling { layout, public_key } => Action::AppendFile {
                path: layout.allow_list.clone(),
                text: public_key.clone(),
            },
            Stage::ReadingPrivateKey { layout } => Action::ReadFile {
                path: layout.private_key.clone(),
            },
            Stage::Disclosing { secret } => Action::Disclose {
                text: String::from_str(DISCLOSURE_LABEL).concat(secret.as_str()),
            },
            Stage::Finished => Action::Finish,
            Stage::Aborted { error } => Action::Abort { error: copy_of(error) },
        }
    }

    /// Takes the reply to the pending action and moves on.
    pub fn step(self, reply: Reply) -> (next: Pipeline)
        ensures
            next@ == advance(self@, reply@),
            next.origin() == self.origin(),
            next.replies() == self.replies().push(reply@),
    {
        proof {
            use_type_invariant(&self);
        }
        let ghost trail = Trail {
            start: self.trail@.start,
            replies: self.trail@.replies.push(reply@),
        };
        assert(trail.replies.drop_last() =~= self.trail@.replies);
        let stage = match self.stage {
            Stage::AwaitingName { config, home } => match reply {
                Reply::Line(text) => {
                    let name = String::from_str(resolve_key_name(text.as_str()));
                    let layout = match &home {
                        Some(dir) => Layout::locate(&config, name.as_str(), Some(dir.as_str())),
                        None => Layout::locate(&config, name.as_str(), None),
                    };
                    Stage::ProbingDirectory { name, layout }
                },
                Reply::Failed(reason) => abort(Failure::Input, reason),
                _ => abort_out_of_turn(),
            },
            Stage::ProbingDirectory { name, layout } => match reply {
                Reply::Probed(exists) => if exists {
                    Stage::Generating { name, layout }
                } else {
                    Stage::CreatingDirectory { name, layout }
                },
                _ => abort_out_of_turn(),
            },
            Stage::CreatingDirectory { name, layout } => match reply {
                Reply::Completed => Stage::Generating { name, layout },
                Reply::Failed(reason) => abort(Failure::Directory, reason),
                _ => abort_out_of_turn(),
            },
            Stage::Generating { name, layout } => match reply {
                Reply::Exited { success, diagnostic } => match judge_exit(success, diagnostic) {
                    Ok(_) => Stage::ReadingPublicKey { layout },
                    Err(error) => Stage::Aborted { error },
                },
                Reply::Failed(reason) => abort(Failure::Launch, reason),
                _ => abort_out_of_turn(),
            },
            Stage::ReadingPublicKey { layout } => match reply {
                Reply::Contents(text) => Stage::Enrolling { layout, public_key: text },
                Reply::Failed(reason) => abort(Failure::ReadKey, reason),
                _ => abort_out_of_turn(),
            },
            Stage::Enrolling { layout, public_key } => match reply {
                Reply::Completed => Stage::ReadingPrivateKey { layout },
                Reply::Failed(reason) => abort(Failure::Enrollment, reason),
                _ => abort_out_of_turn(),
            },
            Stage::ReadingPrivateKey { layout } => match reply {
                Reply::Contents(text) => Stage::Disclosing { secret: text },
                Reply::Failed(reason) => abort(Failure::ReadKey, reason),
                _ => abort_out_of_turn(),
            },
            Stage::Disclosing { secret } => match reply {
                Reply::Completed => Stage::Finished,
                _ => abort_out_of_turn(),
            },
            Stage::Finished => Stage::Finished,
            Stage::Aborted { error } => Stage::Aborted { error },
        };
        Pipeline { stage, trail: Ghost(trail) }
    }
}

} // verus!

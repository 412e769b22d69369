//! What holds of every run, whatever the driver replies.

use crate::error::{message_of, occurs_in, lemma_message_quotes_detail, Failure};
use crate::keygen::{keygen_arguments, KEYGEN_PROGRAM};
use crate::layout::{layout_of, lemma_private_key_named_after_key, ConfigView, LayoutView};
use crate::name::{blank, resolved_name, DEFAULT_KEY_NAME};
use crate::pipeline::{
    advance, pending_action, state_after, ActionView, PipelineView, ReplyView, DISCLOSURE_LABEL,
};
use vstd::prelude::*;

verus! {

/// The state of the run after the first `k` of `replies`.
pub open spec fn state_at(start: PipelineView, replies: Seq<ReplyView>, k: int) -> PipelineView {
    state_after(start, replies.take(k))
}

/// The action that the reply number `k` answers.
pub open spec fn action_at(start: PipelineView, replies: Seq<ReplyView>, k: int) -> ActionView {
    pending_action(state_at(start, replies, k))
}

/// Whether, among the first `k` replies, one told that the key generator
/// had exited with success.
pub open spec fn generated_before(start: PipelineView, replies: Seq<ReplyView>, k: int) -> bool {
    exists|j: int|
        #![trigger action_at(start, replies, j)]
        {
            &&& 0 <= j < k
            &&& action_at(start, replies, j) is RunGenerator
            &&& replies[j] matches ReplyView::Exited { success, .. }
            &&& success
        }
}

/// Whether, among the first `k` replies, one told that the append to the
/// allow list was done.
pub open spec fn enrolled_before(start: PipelineView, replies: Seq<ReplyView>, k: int) -> bool {
    exists|j: int|
        #![trigger action_at(start, replies, j)]
        {
            &&& 0 <= j < k
            &&& action_at(start, replies, j) is AppendFile
            &&& replies[j] is Completed
        }
}

/// Whether a run in `state` has ended.
pub open spec fn over(state: PipelineView) -> bool {
    state is Finished || state is Aborted
}

/// How far a run has come: the number of its step, counted from the
/// prompt. A run that succeeded is past every step, and a run that failed is
/// past that.
pub open spec fn progress(state: PipelineView) -> nat {
    match state {
        PipelineView::AwaitingName { .. } => 0,
        PipelineView::ProbingDirectory { .. } => 1,
        PipelineView::CreatingDirectory { .. } => 2,
        PipelineView::Generating { .. } => 3,
        PipelineView::ReadingPublicKey { .. } => 4,
        PipelineView::Enrolling { .. } => 5,
        PipelineView::ReadingPrivateKey { .. } => 6,
        PipelineView::Disclosing { .. } => 7,
        PipelineView::Finished => 8,
        PipelineView::Aborted { .. } => 9,
    }
}

/// The first state of a run is the one it began in, and each later state
/// follows from the one before by the reply in between.
pub proof fn lemma_state_at_unfolds(start: PipelineView, replies: Seq<ReplyView>, k: int)
    requires
        0 <= k <= replies.len(),
    ensures
        k == 0 ==> state_at(start, replies, k) == start,
        k > 0 ==> state_at(start, replies, k) == advance(
            state_at(start, replies, k - 1),
            replies[k - 1],
        ),
{
    if k > 0 {
        assert(replies.take(k).drop_last() =~= replies.take(k - 1));
    }
}

/// No reply takes a run back, and every reply takes a run that has not
/// ended forward.
pub proof fn lemma_step_makes_progress(state: PipelineView, reply: ReplyView)
    ensures
        progress(advance(state, reply)) >= progress(state),
        !over(state) ==> progress(advance(state, reply)) > progress(state),
        over(state) ==> advance(state, reply) == state,
{
}

/// Along a run, progress never falls.
pub proof fn lemma_progress_is_monotone(
    start: PipelineView,
    replies: Seq<ReplyView>,
    i: int,
    k: int,
)
    requires
        0 <= i <= k <= replies.len(),
    ensures
        progress(state_at(start, replies, i)) <= progress(state_at(start, replies, k)),
    decreases k - i,
{
    if i < k {
        lemma_progress_is_monotone(start, replies, i, k - 1);
        lemma_state_at_unfolds(start, replies, k);
        lemma_step_makes_progress(state_at(start, replies, k - 1), replies[k - 1]);
    }
}

/// A run makes at least one step of progress with each reply until it ends.
pub proof fn lemma_progress_keeps_pace(start: PipelineView, replies: Seq<ReplyView>, k: int)
    requires
        0 <= k <= replies.len(),
    ensures
        over(state_at(start, replies, k)) || progress(state_at(start, replies, k)) >= progress(
            start,
        ) + k,
    decreases k,
{
    lemma_state_at_unfolds(start, replies, k);
    if k > 0 {
        lemma_progress_keeps_pace(start, replies, k - 1);
        lemma_step_makes_progress(state_at(start, replies, k - 1), replies[k - 1]);
    }
}

/// Every run ends: after eight replies nothing is left to do.
pub proof fn lemma_run_ends(start: PipelineView, replies: Seq<ReplyView>)
    requires
        replies.len() >= 8,
    ensures
        over(state_after(start, replies)),
{
    lemma_progress_keeps_pace(start, replies, replies.len() as int);
    assert(replies.take(replies.len() as int) =~= replies);
}

/// A run that has ended stays as it ended, whatever is replied.
pub proof fn lemma_end_is_final(start: PipelineView, replies: Seq<ReplyView>)
    requires
        over(start),
    ensures
        state_after(start, replies) == start,
    decreases replies.len(),
{
    if replies.len() > 0 {
        lemma_end_is_final(start, replies.drop_last());
    }
}

/// The public key is appended to the allow list only after the key
/// generator has exited with success.
pub proof fn lemma_enrollment_follows_generation(
    start: PipelineView,
    replies: Seq<ReplyView>,
    k: int,
)
    requires
        start is AwaitingName,
        0 <= k <= replies.len(),
        action_at(start, replies, k) is AppendFile,
    ensures
        generated_before(start, replies, k),
{
    lemma_generated_when_past(start, replies, k);
}

/// The private key is disclosed only after the public key was appended to
/// the allow list and the driver reported that as done.
pub proof fn lemma_disclosure_follows_enrollment(
    start: PipelineView,
    replies: Seq<ReplyView>,
    k: int,
)
    requires
        start is AwaitingName,
        0 <= k <= replies.len(),
        action_at(start, replies, k) is Disclose,
    ensures
        enrolled_before(start, replies, k),
        generated_before(start, replies, k),
{
    lemma_enrolled_when_past(start, replies, k);
    lemma_generated_when_past(start, replies, k);
}

/// A run that is past the generation of the key, and has not failed, was
/// told that the generator had exited with success.
proof fn lemma_generated_when_past(start: PipelineView, replies: Seq<ReplyView>, k: int)
    requires
        start is AwaitingName,
        0 <= k <= replies.len(),
        4 <= progress(state_at(start, replies, k)) <= 8,
    ensures
        generated_before(start, replies, k),
    decreases k,
{
    lemma_state_at_unfolds(start, replies, k);
    if k > 0 {
        let before = state_at(start, replies, k - 1);
        if before is Generating {
            assert(action_at(start, replies, k - 1) is RunGenerator);
        } else {
            lemma_generated_when_past(start, replies, k - 1);
        }
    }
}

/// A run that is past the enrollment, and has not failed, was told that the
/// append to the allow list was done.
proof fn lemma_enrolled_when_past(start: PipelineView, replies: Seq<ReplyView>, k: int)
    requires
        start is AwaitingName,
        0 <= k <= replies.len(),
        6 <= progress(state_at(start, replies, k)) <= 8,
    ensures
        enrolled_before(start, replies, k),
    decreases k,
{
    lemma_state_at_unfolds(start, replies, k);
    if k > 0 {
        let before = state_at(start, replies, k - 1);
        if before is Enrolling {
            assert(action_at(start, replies, k - 1) is AppendFile);
        } else {
            lemma_enrolled_when_past(start, replies, k - 1);
        }
    }
}

/// When the key generator does not exit with success, the run ends there:
/// the allow list is never appended to, before or after, and nothing is
/// disclosed.
pub proof fn lemma_failed_generation_enrolls_nothing(
    start: PipelineView,
    replies: Seq<ReplyView>,
    j: int,
    k: int,
)
    requires
        0 <= j < replies.len(),
        0 <= k <= replies.len(),
        action_at(start, replies, j) is RunGenerator,
        !(replies[j] matches ReplyView::Exited { success, .. } && success),
    ensures
        !(action_at(start, replies, k) is AppendFile),
        !(action_at(start, replies, k) is Disclose),
        k > j ==> state_at(start, replies, k) is Aborted,
{
    if k <= j {
        lemma_progress_is_monotone(start, replies, k, j);
    } else {
        lemma_state_at_unfolds(start, replies, j + 1);
        lemma_progress_is_monotone(start, replies, j + 1, k);
    }
}

/// When the append to the allow list is not reported as done, the run ends
/// there and the private key is never disclosed.
pub proof fn lemma_failed_enrollment_discloses_nothing(
    start: PipelineView,
    replies: Seq<ReplyView>,
    j: int,
    k: int,
)
    requires
        0 <= j < replies.len(),
        0 <= k <= replies.len(),
        action_at(start, replies, j) is AppendFile,
        !(replies[j] is Completed),
    ensures
        !(action_at(start, replies, k) is Disclose),
        k > j ==> state_at(start, replies, k) is Aborted,
{
    if k <= j {
        lemma_progress_is_monotone(start, replies, k, j);
    } else {
        lemma_state_at_unfolds(start, replies, j + 1);
        lemma_progress_is_monotone(start, replies, j + 1, k);
    }
}

/// When the key generator exits without success, the run is given up with an
/// error whose message quotes what the generator wrote to its error stream.
pub proof fn lemma_failed_generation_is_reported(
    state: PipelineView,
    diagnostic: Seq<char>,
)
    requires
        state is Generating,
    ensures
        pending_action(advance(state, ReplyView::Exited { success: false, diagnostic }))
            matches ActionView::Abort { error } && error.failure == Failure::Generation
            && error.detail == diagnostic && occurs_in(diagnostic, message_of(error)),
{
    let next = advance(state, ReplyView::Exited { success: false, diagnostic });
    lemma_message_quotes_detail(next->error);
}

/// What is appended to the allow list is the text of the public key as it
/// was read, character for character, and it is appended right after it was
/// read.
pub proof fn lemma_enrollment_appends_key_verbatim(
    start: PipelineView,
    replies: Seq<ReplyView>,
    k: int,
)
    requires
        start is AwaitingName,
        0 <= k <= replies.len(),
        action_at(start, replies, k) is AppendFile,
    ensures
        k > 0,
        ({
            &&& state_at(start, replies, k - 1) matches PipelineView::ReadingPublicKey { layout }
            &&& replies[k - 1] matches ReplyView::Contents(text)
            &&& action_at(start, replies, k - 1) == (ActionView::ReadFile {
                path: layout.public_key,
            })
            &&& action_at(start, replies, k) == (ActionView::AppendFile {
                path: layout.allow_list,
                text,
            })
        }),
{
    lemma_state_at_unfolds(start, replies, k);
}

/// What is disclosed is the label, then the text of the private key as it
/// was read, character for character.
pub proof fn lemma_disclosure_shows_key_verbatim(
    start: PipelineView,
    replies: Seq<ReplyView>,
    k: int,
)
    requires
        start is AwaitingName,
        0 <= k <= replies.len(),
        action_at(start, replies, k) is Disclose,
    ensures
        k > 0,
        ({
            &&& state_at(start, replies, k - 1) matches PipelineView::ReadingPrivateKey { layout }
            &&& replies[k - 1] matches ReplyView::Contents(text)
            &&& action_at(start, replies, k - 1) == (ActionView::ReadFile {
                path: layout.private_key,
            })
            &&& action_at(start, replies, k) == (ActionView::Disclose {
                text: DISCLOSURE_LABEL@ + text,
            })
        }),
{
    lemma_state_at_unfolds(start, replies, k);
}

/// The key directory is created only right after it was found missing. A
/// directory that was found is left alone, and the run goes on to generate
/// the key.
pub proof fn lemma_directory_created_only_if_missing(
    start: PipelineView,
    replies: Seq<ReplyView>,
    k: int,
)
    requires
        start is AwaitingName,
        0 <= k <= replies.len(),
    ensures
        action_at(start, replies, k) matches ActionView::CreateDirectory { path } ==> k > 0
            && action_at(start, replies, k - 1) == (ActionView::ProbeDirectory { path })
            && replies[k - 1] == ReplyView::Probed(false),
        k > 0 && action_at(start, replies, k - 1) is ProbeDirectory && replies[k - 1]
            == ReplyView::Probed(true) ==> action_at(start, replies, k) is RunGenerator,
{
    lemma_state_at_unfolds(start, replies, k);
}

/// Whether `action` works on the key `name` and on the paths of `layout`,
/// and on nothing else: the generator is told the name and the private key
/// file, only the two key files are read, only the allow list is appended
/// to, and only the key directory is probed or created.
pub open spec fn keeps_to(action: ActionView, name: Seq<char>, layout: LayoutView) -> bool {
    match action {
        ActionView::ProbeDirectory { path } => path == layout.directory,
        ActionView::CreateDirectory { path } => path == layout.directory,
        ActionView::RunGenerator { program, arguments } => program == KEYGEN_PROGRAM@ && arguments
            == keygen_arguments(name, layout.private_key),
        ActionView::ReadFile { path } => path == layout.private_key || path == layout.public_key,
        ActionView::AppendFile { path, .. } => path == layout.allow_list,
        _ => true,
    }
}

/// Whether a run in `state` remembers no other name than `name` and no
/// other layout than `layout`.
pub open spec fn remembers(state: PipelineView, name: Seq<char>, layout: LayoutView) -> bool {
    match state {
        PipelineView::AwaitingName { .. } => false,
        PipelineView::ProbingDirectory { name: n, layout: l } => n == name && l == layout,
        PipelineView::CreatingDirectory { name: n, layout: l } => n == name && l == layout,
        PipelineView::Generating { name: n, layout: l } => n == name && l == layout,
        PipelineView::ReadingPublicKey { layout: l } => l == layout,
        PipelineView::Enrolling { layout: l, .. } => l == layout,
        PipelineView::ReadingPrivateKey { layout: l } => l == layout,
        _ => true,
    }
}

/// From the first reply on, a run works on the key that was named in it and
/// on the layout of that key: every action it asks for keeps to them.
pub proof fn lemma_run_keeps_to_its_key(
    config: ConfigView,
    home: Option<Seq<char>>,
    replies: Seq<ReplyView>,
    k: int,
)
    requires
        1 <= k <= replies.len(),
        replies[0] is Line,
    ensures
        ({
            let start = PipelineView::AwaitingName { config, home };
            let name = resolved_name(replies[0]->Line_0);
            let layout = layout_of(config, name, home);
            &&& remembers(state_at(start, replies, k), name, layout)
            &&& keeps_to(action_at(start, replies, k), name, layout)
        }),
    decreases k,
{
    let start = PipelineView::AwaitingName { config, home };
    lemma_state_at_unfolds(start, replies, k);
    if k == 1 {
        lemma_state_at_unfolds(start, replies, 0);
    } else {
        lemma_run_keeps_to_its_key(config, home, replies, k - 1);
    }
}

/// A blank line gives the key its default name, and the private key file is
/// named after it.
pub proof fn lemma_blank_line_names_default_key(
    config: ConfigView,
    home: Option<Seq<char>>,
    line: Seq<char>,
)
    requires
        blank(line),
    ensures
        advance(PipelineView::AwaitingName { config, home }, ReplyView::Line(line)) == (
        PipelineView::ProbingDirectory {
            name: DEFAULT_KEY_NAME@,
            layout: layout_of(config, DEFAULT_KEY_NAME@, home),
        }),
        (seq!['/'] + DEFAULT_KEY_NAME@).is_suffix_of(
            layout_of(config, DEFAULT_KEY_NAME@, home).private_key,
        ),
{
    lemma_private_key_named_after_key(config, DEFAULT_KEY_NAME@, home);
}

} // verus!

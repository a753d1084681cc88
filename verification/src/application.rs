//! The commit workflow as a state machine. Each step takes what the last
//! action produced and decides the next action; the caller performs the
//! actions (Git, generation, terminal) and reports back.

use vstd::prelude::*;

use crate::adapters::git::{git_error_text, GitError};
use crate::config::ContextLimits;
use crate::domain::commit::{draft_verdict, full_message_text, policy_error_text};
use crate::domain::{validate_draft, CommitDraft, CommitPolicyError, CommitStyle, RepositoryContext};
use crate::generation::prompt::GenerationRequest;
use crate::generation::style::{
    opt_view, resolve_generated_style, style_error_text, style_resolution, HistoryEvidence, InstructionsFile,
    InstructionsRead, ResolvedStyle, StyleError,
};
use crate::generation::{generation_error_text, request, GenerationError};
use crate::text::{push_str, str_equal};

verus! {

/// What the workflow was asked to do.
pub struct WorkflowOptions {
    pub manual_message: Option<String>,
    pub style: CommitStyle,
    pub global_instructions_file: Option<String>,
    pub cli_instructions_file: Option<String>,
    pub one_off_instructions: Option<String>,
    pub limits: ContextLimits,
    pub push: bool,
    pub yes: bool,
    pub interactive: bool,
}

/// How a workflow ended without error.
#[derive(Clone, Debug, PartialEq, Eq)]
pub enum WorkflowOutcome {
    Committed { commit_id: String, pushed: bool },
    Cancelled,
}

/// Why a workflow stopped.
#[derive(Debug)]
pub enum WorkflowError {
    Git(GitError),
    Style(StyleError),
    Generation(GenerationError),
    Policy(CommitPolicyError),
    NonInteractive,
    StagedTreeChanged { before: String, after: String },
    PushFailed { commit_id: String, source: GitError },
    MissingGenerator,
    Ui(String),
}

/// The text that reports a workflow error.
pub open spec fn workflow_error_text(e: WorkflowError) -> Seq<char> {
    match e {
        WorkflowError::Git(g) => git_error_text(g),
        WorkflowError::Style(s) => style_error_text(s),
        WorkflowError::Generation(g) => generation_error_text(g),
        WorkflowError::Policy(p) => policy_error_text(p),
        WorkflowError::NonInteractive =>
            "stdin is not interactive; rerun with --yes to approve the commit before staging"@,
        WorkflowError::StagedTreeChanged { before, after } =>
            "staged tree changed during Yeet workflow ("@ + before@ + " became "@ + after@
            + "); no commit was made"@,
        WorkflowError::PushFailed { commit_id, source } => "commit "@ + commit_id@
            + " succeeded locally, but push failed: "@ + git_error_text(source),
        WorkflowError::MissingGenerator => "generated mode requires the selected harness adapter"@,
        WorkflowError::Ui(message) => message@,
    }
}

impl WorkflowError {
    pub fn message(&self) -> (s: String)
        ensures
            s@ == workflow_error_text(*self),
    {
        match self {
            WorkflowError::Git(g) => g.message(),
            WorkflowError::Style(e) => e.message(),
            WorkflowError::Generation(g) => g.message(),
            WorkflowError::Policy(p) => p.message(),
            WorkflowError::NonInteractive => {
                let mut s = String::new();
                push_str(
                    &mut s,
                    "stdin is not interactive; rerun with --yes to approve the commit before staging",
                );
                assert(s@ =~= workflow_error_text(*self));
                s
            },
            WorkflowError::StagedTreeChanged { before, after } => {
                let mut s = String::new();
                push_str(&mut s, "staged tree changed during Yeet workflow (");
                push_str(&mut s, before.as_str());
                push_str(&mut s, " became ");
                push_str(&mut s, after.as_str());
                push_str(&mut s, "); no commit was made");
                assert(s@ =~= workflow_error_text(*self));
                s
            },
            WorkflowError::PushFailed { commit_id, source } => {
                let mut s = String::new();
                push_str(&mut s, "commit ");
                push_str(&mut s, commit_id.as_str());
                push_str(&mut s, " succeeded locally, but push failed: ");
                let m = source.message();
                push_str(&mut s, m.as_str());
                assert(s@ =~= workflow_error_text(*self));
                s
            },
            WorkflowError::MissingGenerator => {
                let mut s = String::new();
                push_str(&mut s, "generated mode requires the selected harness adapter");
                assert(s@ =~= workflow_error_text(*self));
                s
            },
            WorkflowError::Ui(message) => {
                let mut s = String::new();
                push_str(&mut s, message.as_str());
                assert(s@ =~= message@);
                s
            },
        }
    }
}

/// Where the workflow stands, with what it has learnt so far.
#[derive(Debug)]
pub enum WorkflowState {
    Start,
    VerifyingWorktree,
    CollectingHistory,
    ReadingInstructions { history: Option<HistoryEvidence>, path: String },
    AnnouncingStage { style: Option<ResolvedStyle> },
    Staging { style: Option<ResolvedStyle> },
    CheckingStaged { style: Option<ResolvedStyle> },
    ReadingTree { style: Option<ResolvedStyle> },
    ReadingContext { style: Option<ResolvedStyle>, before: String },
    AnnouncingDraft { style: ResolvedStyle, before: String, context: RepositoryContext },
    Generating { fallback: Option<String>, before: String, stat: String },
    CheckingDraftTree {
        fallback: Option<String>,
        before: String,
        stat: String,
        draft: CommitDraft,
    },
    Previewing { before: String, draft: CommitDraft },
    Confirming { before: String, draft: CommitDraft },
    Cancelling,
    CheckingCommitTree { before: String, draft: CommitDraft },
    Committing,
    AnnouncingPush { commit_id: String },
    Pushing { commit_id: String },
    Reporting { commit_id: String, pushed: bool },
    Done,
}

/// What the caller is asked to do next.
#[derive(Debug)]
pub enum WorkflowAction {
    /// `GitGateway::verify_worktree`, answered by `WorktreeChecked`.
    VerifyWorktree,
    /// `GitGateway::history_evidence`, answered by `HistoryCollected`.
    CollectHistory,
    /// Read the instructions file at this path, answered by `InstructionsRead`.
    ReadInstructions(String),
    /// Show progress, answered by `Acknowledged`.
    Progress(String),
    /// `GitGateway::stage_all`, answered by `Staged`.
    StageAll,
    /// `GitGateway::has_staged_changes`, answered by `StagedChangesChecked`.
    CheckStagedChanges,
    /// `GitGateway::staged_tree_id`, answered by `TreeRead`.
    ReadStagedTree,
    /// `GitGateway::repository_context`, answered by `ContextRead`.
    ReadContext(ContextLimits),
    /// `MessageGenerator::generate`, answered by `Generated`.
    Generate(GenerationRequest),
    /// Show the draft, answered by `Acknowledged`.
    Preview { style: CommitStyle, fallback: Option<String>, stat: String, draft: CommitDraft },
    /// Ask for approval, answered by `Confirmed`.
    Confirm,
    /// Report cancellation, answered by `Acknowledged`.
    ReportCancelled,
    /// `GitGateway::commit` with this message, answered by `Committed`.
    Commit(String),
    /// `GitGateway::push`, answered by `Pushed`.
    Push,
    /// Report the commit, answered by `Acknowledged`.
    ReportCommitted { commit_id: String, pushed: bool },
    /// The workflow is over.
    Finish(Result<WorkflowOutcome, WorkflowError>),
}

/// What the last action produced.
#[derive(Debug)]
pub enum WorkflowEvent {
    Begin,
    Acknowledged,
    WorktreeChecked(Result<(), GitError>),
    HistoryCollected(Result<HistoryEvidence, GitError>),
    InstructionsRead(InstructionsRead),
    Staged(Result<(), GitError>),
    StagedChangesChecked(Result<bool, GitError>),
    TreeRead(Result<String, GitError>),
    ContextRead(Result<RepositoryContext, GitError>),
    Generated(Result<CommitDraft, GenerationError>),
    Confirmed(Result<bool, String>),
    Committed(Result<String, GitError>),
    Pushed(Result<(), GitError>),
}

/// The event that answers the state's pending action.
pub open spec fn expects(state: WorkflowState, event: WorkflowEvent) -> bool {
    match state {
        WorkflowState::Start => event is Begin,
        WorkflowState::VerifyingWorktree => event is WorktreeChecked,
        WorkflowState::CollectingHistory => event is HistoryCollected,
        WorkflowState::ReadingInstructions { .. } => event is InstructionsRead,
        WorkflowState::AnnouncingStage { .. } => event is Acknowledged,
        WorkflowState::Staging { .. } => event is Staged,
        WorkflowState::CheckingStaged { .. } => event is StagedChangesChecked,
        WorkflowState::ReadingTree { .. } => event is TreeRead,
        WorkflowState::ReadingContext { .. } => event is ContextRead,
        WorkflowState::AnnouncingDraft { .. } => event is Acknowledged,
        WorkflowState::Generating { .. } => event is Generated,
        WorkflowState::CheckingDraftTree { .. } => event is TreeRead,
        WorkflowState::Previewing { .. } => event is Acknowledged,
        WorkflowState::Confirming { .. } => event is Confirmed,
        WorkflowState::Cancelling => event is Acknowledged,
        WorkflowState::CheckingCommitTree { .. } => event is TreeRead,
        WorkflowState::Committing => event is Committed,
        WorkflowState::AnnouncingPush { .. } => event is Acknowledged,
        WorkflowState::Pushing { .. } => event is Pushed,
        WorkflowState::Reporting { .. } => event is Acknowledged,
        WorkflowState::Done => false,
    }
}

/// The state waits for the answer to this action.
pub open spec fn awaits(state: WorkflowState, action: WorkflowAction) -> bool {
    match action {
        WorkflowAction::VerifyWorktree => state is VerifyingWorktree,
        WorkflowAction::CollectHistory => state is CollectingHistory,
        WorkflowAction::ReadInstructions(path) => state matches WorkflowState::ReadingInstructions {
            path: p,
            ..
        } && p@ == path@,
        WorkflowAction::Progress(_) => state is AnnouncingStage || state is AnnouncingDraft
            || state is AnnouncingPush,
        WorkflowAction::StageAll => state is Staging,
        WorkflowAction::CheckStagedChanges => state is CheckingStaged,
        WorkflowAction::ReadStagedTree => state is ReadingTree || state is CheckingDraftTree
            || state is CheckingCommitTree,
        WorkflowAction::ReadContext(_) => state is ReadingContext,
        WorkflowAction::Generate(_) => state is Generating,
        WorkflowAction::Preview { .. } => state is Previewing,
        WorkflowAction::Confirm => state is Confirming,
        WorkflowAction::ReportCancelled => state is Cancelling,
        WorkflowAction::Commit(_) => state is Committing,
        WorkflowAction::Push => state is Pushing,
        WorkflowAction::ReportCommitted { .. } => state is Reporting,
        WorkflowAction::Finish(_) => state is Done,
    }
}

/// The manual message, as a draft, breaks no rule of the selected style.
pub open spec fn manual_ok(options: WorkflowOptions) -> bool {
    match options.manual_message {
        Some(m) => draft_verdict(m@, Seq::<char>::empty(), options.style) is Ok,
        None => true,
    }
}

/// Preconditions checked before any Git work: a valid manual message,
/// approval available, a generator for generated mode.
pub open spec fn admitted(options: WorkflowOptions, has_generator: bool) -> bool {
    &&& manual_ok(options)
    &&& (options.yes || options.interactive)
    &&& (options.manual_message is None ==> has_generator)
}

/// A draft that may be committed: it passed the policy, and in manual mode
/// it is the manual message with an empty body.
pub open spec fn acceptable_draft(options: WorkflowOptions, draft: CommitDraft) -> bool {
    &&& draft_verdict(draft.subject@, draft.body@, options.style) is Ok
    &&& match options.manual_message {
        Some(m) => draft.subject@ == m@ && draft.body@.len() == 0,
        None => true,
    }
}

/// A resolved style is present exactly in generated mode.
pub open spec fn style_fits(options: WorkflowOptions, style: Option<ResolvedStyle>) -> bool {
    (style is Some) == (options.manual_message is None)
}

/// What holds in every state a run reaches.
pub open spec fn reachable_state(options: WorkflowOptions, has_generator: bool, state: WorkflowState) -> bool {
    match state {
        WorkflowState::Start => true,
        WorkflowState::Done => true,
        WorkflowState::VerifyingWorktree => admitted(options, has_generator),
        WorkflowState::CollectingHistory => admitted(options, has_generator)
            && options.manual_message is None,
        WorkflowState::ReadingInstructions { .. } => admitted(options, has_generator)
            && options.manual_message is None,
        WorkflowState::AnnouncingStage { style } => admitted(options, has_generator)
            && style_fits(options, style),
        WorkflowState::Staging { style } => admitted(options, has_generator) && style_fits(
            options,
            style,
        ),
        WorkflowState::CheckingStaged { style } => admitted(options, has_generator) && style_fits(
            options,
            style,
        ),
        WorkflowState::ReadingTree { style } => admitted(options, has_generator) && style_fits(
            options,
            style,
        ),
        WorkflowState::ReadingContext { style, .. } => admitted(options, has_generator)
            && style_fits(options, style),
        WorkflowState::AnnouncingDraft { context, before, .. } => admitted(options, has_generator)
            && options.manual_message is None && context.staged_tree@ == before@,
        WorkflowState::Generating { .. } => admitted(options, has_generator)
            && options.manual_message is None,
        WorkflowState::CheckingDraftTree { draft, .. } => admitted(options, has_generator)
            && acceptable_draft(options, draft),
        WorkflowState::Previewing { draft, .. } => admitted(options, has_generator)
            && acceptable_draft(options, draft),
        WorkflowState::Confirming { draft, .. } => admitted(options, has_generator)
            && acceptable_draft(options, draft) && !options.yes,
        WorkflowState::Cancelling => admitted(options, has_generator) && !options.yes,
        WorkflowState::CheckingCommitTree { draft, .. } => admitted(options, has_generator)
            && acceptable_draft(options, draft),
        WorkflowState::Committing => admitted(options, has_generator),
        WorkflowState::AnnouncingPush { .. } => admitted(options, has_generator) && options.push,
        WorkflowState::Pushing { .. } => admitted(options, has_generator) && options.push,
        WorkflowState::Reporting { pushed, .. } => admitted(options, has_generator) && pushed
            == options.push,
    }
}

/// The policy error of an invalid manual message.
pub open spec fn manual_error(options: WorkflowOptions) -> Option<CommitPolicyError> {
    match options.manual_message {
        Some(m) => match draft_verdict(m@, Seq::<char>::empty(), options.style) {
            Err(e) => Some(e),
            Ok(_) => None,
        },
        None => None,
    }
}

/// The workflow ends with `result`.
pub open spec fn finishes(
    next: WorkflowState,
    action: WorkflowAction,
    result: Result<WorkflowOutcome, WorkflowError>,
) -> bool {
    next is Done && action == WorkflowAction::Finish(result)
}

/// The progress message `text` is shown while waiting in `next`.
pub open spec fn announces(action: WorkflowAction, text: Seq<char>) -> bool {
    action matches WorkflowAction::Progress(m) && m@ == text
}

/// The instructions file of a generated run: the command line's, else the
/// configured one.
pub open spec fn selected_instructions_file(options: WorkflowOptions) -> Option<String> {
    match options.cli_instructions_file {
        Some(p) => Some(p),
        None => options.global_instructions_file,
    }
}

/// One-off guidance as text.
pub open spec fn one_off_text(options: WorkflowOptions) -> Option<Seq<char>> {
    match options.one_off_instructions {
        Some(x) => Some(x@),
        None => None,
    }
}

/// Style resolution done: a style error ends the run, a style moves on to
/// staging.
pub open spec fn style_resolved(
    options: WorkflowOptions,
    file: Option<InstructionsFile>,
    history: Option<HistoryEvidence>,
    next: WorkflowState,
    action: WorkflowAction,
) -> bool {
    exists|r: Result<ResolvedStyle, StyleError>|
        #[trigger] style_resolution(options.style, file, one_off_text(options), history, r)
            && match r {
            Err(e) => finishes(next, action, Err(WorkflowError::Style(e))),
            Ok(rs) => next == (WorkflowState::AnnouncingStage { style: Some(rs) }) && announces(
                action,
                "staging all changes"@,
            ),
        }
}

/// After the history is known: generated runs resolve the style (reading
/// the selected instructions file first), manual runs go on to staging.
pub open spec fn after_history(
    options: WorkflowOptions,
    history: Option<HistoryEvidence>,
    next: WorkflowState,
    action: WorkflowAction,
) -> bool {
    if options.manual_message is None {
        match selected_instructions_file(options) {
            Some(p) => (next matches WorkflowState::ReadingInstructions { history: h, path: q } && h
                == history && q@ == p@) && (action matches WorkflowAction::ReadInstructions(a) && a@
                == p@),
            None => style_resolved(options, None, history, next, action),
        }
    } else {
        next == (WorkflowState::AnnouncingStage { style: None }) && announces(
            action,
            "staging all changes"@,
        )
    }
}

/// A Git failure ends the run; success continues as `then` says.
pub open spec fn git_step<T>(
    r: Result<T, GitError>,
    next: WorkflowState,
    action: WorkflowAction,
    then: spec_fn(T) -> bool,
) -> bool {
    match r {
        Err(e) => finishes(next, action, Err(WorkflowError::Git(e))),
        Ok(v) => then(v),
    }
}

/// The staged tree read while checking must equal the tree seen before.
pub open spec fn tree_unchanged(before: String, t: String, next: WorkflowState, action: WorkflowAction, then: bool) -> bool {
    if t@ != before@ {
        finishes(next, action, Err(WorkflowError::StagedTreeChanged { before, after: t }))
    } else {
        then
    }
}

/// One step of the workflow: what the state and the event lead to.
pub open spec fn transition(
    o: WorkflowOptions,
    has_generator: bool,
    state: WorkflowState,
    event: WorkflowEvent,
    next: WorkflowState,
    action: WorkflowAction,
) -> bool {
    match state {
        WorkflowState::Start => match manual_error(o) {
            Some(e) => finishes(next, action, Err(WorkflowError::Policy(e))),
            None => if !(o.yes || o.interactive) {
                finishes(next, action, Err(WorkflowError::NonInteractive))
            } else if o.manual_message is None && !has_generator {
                finishes(next, action, Err(WorkflowError::MissingGenerator))
            } else {
                next is VerifyingWorktree && action is VerifyWorktree
            },
        },
        WorkflowState::VerifyingWorktree => match event {
            WorkflowEvent::WorktreeChecked(Err(e)) => finishes(
                next,
                action,
                Err(WorkflowError::Git(e)),
            ),
            WorkflowEvent::WorktreeChecked(Ok(_)) => if o.manual_message is None && o.style
                == CommitStyle::Repository {
                next is CollectingHistory && action is CollectHistory
            } else {
                after_history(o, None, next, action)
            },
            _ => false,
        },
        WorkflowState::CollectingHistory => match event {
            WorkflowEvent::HistoryCollected(Err(e)) => finishes(
                next,
                action,
                Err(WorkflowError::Git(e)),
            ),
            WorkflowEvent::HistoryCollected(Ok(h)) => after_history(o, Some(h), next, action),
            _ => false,
        },
        WorkflowState::ReadingInstructions { history, path } => match event {
            WorkflowEvent::InstructionsRead(read) => style_resolved(
                o,
                Some(InstructionsFile { path, read }),
                history,
                next,
                action,
            ),
            _ => false,
        },
        WorkflowState::AnnouncingStage { style } => next == (WorkflowState::Staging { style })
            && action is StageAll,
        WorkflowState::Staging { style } => match event {
            WorkflowEvent::Staged(Err(e)) => finishes(next, action, Err(WorkflowError::Git(e))),
            WorkflowEvent::Staged(Ok(_)) => next == (WorkflowState::CheckingStaged { style })
                && action is CheckStagedChanges,
            _ => false,
        },
        WorkflowState::CheckingStaged { style } => match event {
            WorkflowEvent::StagedChangesChecked(Err(e)) => finishes(
                next,
                action,
                Err(WorkflowError::Git(e)),
            ),
            WorkflowEvent::StagedChangesChecked(Ok(false)) => finishes(
                next,
                action,
                Err(WorkflowError::Git(GitError::NoStagedChanges)),
            ),
            WorkflowEvent::StagedChangesChecked(Ok(true)) => next == (WorkflowState::ReadingTree {
                style,
            }) && action is ReadStagedTree,
            _ => false,
        },
        WorkflowState::ReadingTree { style } => match event {
            WorkflowEvent::TreeRead(Err(e)) => finishes(next, action, Err(WorkflowError::Git(e))),
            WorkflowEvent::TreeRead(Ok(t)) => next == (WorkflowState::ReadingContext {
                style,
                before: t,
            }) && action == WorkflowAction::ReadContext(o.limits),
            _ => false,
        },
        WorkflowState::ReadingContext { style, before } => match event {
            WorkflowEvent::ContextRead(Err(e)) => finishes(
                next,
                action,
                Err(WorkflowError::Git(e)),
            ),
            WorkflowEvent::ContextRead(Ok(c)) => if c.staged_tree@ != before@ {
                finishes(
                    next,
                    action,
                    Err(WorkflowError::StagedTreeChanged { before, after: c.staged_tree }),
                )
            } else {
                match o.manual_message {
                    Some(m) => (next matches WorkflowState::CheckingDraftTree {
                        fallback: None,
                        before: b,
                        stat,
                        draft,
                    } && b == before && stat == c.stat && draft.subject@ == m@
                        && draft.body@.len() == 0) && action is ReadStagedTree,
                    None => match style {
                        Some(rs) => next == (WorkflowState::AnnouncingDraft {
                            style: rs,
                            before,
                            context: c,
                        }) && announces(action, "drafting with the selected harness"@),
                        None => false,
                    },
                }
            },
            _ => false,
        },
        WorkflowState::AnnouncingDraft { style, before, context } => (next matches WorkflowState::Generating {
            fallback,
            before: b,
            stat,
        } && fallback == style.fallback && b == before && stat == context.stat) && (action matches WorkflowAction::Generate(req) && req.context == context && req.style
            == style),
        WorkflowState::Generating { fallback, before, stat } => match event {
            WorkflowEvent::Generated(Err(e)) => finishes(
                next,
                action,
                Err(WorkflowError::Generation(e)),
            ),
            WorkflowEvent::Generated(Ok(d)) => match draft_verdict(
                d.subject@,
                d.body@,
                o.style,
            ) {
                Err(e) => finishes(next, action, Err(WorkflowError::Policy(e))),
                Ok(_) => next == (WorkflowState::CheckingDraftTree {
                    fallback,
                    before,
                    stat,
                    draft: d,
                }) && action is ReadStagedTree,
            },
            _ => false,
        },
        WorkflowState::CheckingDraftTree { fallback, before, stat, draft } => match event {
            WorkflowEvent::TreeRead(Err(e)) => finishes(next, action, Err(WorkflowError::Git(e))),
            WorkflowEvent::TreeRead(Ok(t)) => tree_unchanged(
                before,
                t,
                next,
                action,
                next == (WorkflowState::Previewing { before, draft }) && action
                    == (WorkflowAction::Preview { style: o.style, fallback, stat, draft }),
            ),
            _ => false,
        },
        WorkflowState::Previewing { before, draft } => if !o.yes {
            next == (WorkflowState::Confirming { before, draft }) && action is Confirm
        } else {
            next == (WorkflowState::CheckingCommitTree { before, draft }) && action is ReadStagedTree
        },
        WorkflowState::Confirming { before, draft } => match event {
            WorkflowEvent::Confirmed(Err(m)) => finishes(next, action, Err(WorkflowError::Ui(m))),
            WorkflowEvent::Confirmed(Ok(false)) => next is Cancelling && action is ReportCancelled,
            WorkflowEvent::Confirmed(Ok(true)) => next == (WorkflowState::CheckingCommitTree {
                before,
                draft,
            }) && action is ReadStagedTree,
            _ => false,
        },
        WorkflowState::Cancelling => finishes(next, action, Ok(WorkflowOutcome::Cancelled)),
        WorkflowState::CheckingCommitTree { before, draft } => match event {
            WorkflowEvent::TreeRead(Err(e)) => finishes(next, action, Err(WorkflowError::Git(e))),
            WorkflowEvent::TreeRead(Ok(t)) => tree_unchanged(
                before,
                t,
                next,
                action,
                next is Committing && (action matches WorkflowAction::Commit(m) && m@
                    == full_message_text(draft.subject@, draft.body@)),
            ),
            _ => false,
        },
        WorkflowState::Committing => match event {
            WorkflowEvent::Committed(Err(e)) => finishes(next, action, Err(WorkflowError::Git(e))),
            WorkflowEvent::Committed(Ok(id)) => if o.push {
                next == (WorkflowState::AnnouncingPush { commit_id: id }) && announces(
                    action,
                    "pushing commit"@,
                )
            } else {
                next == (WorkflowState::Reporting { commit_id: id, pushed: false })
                    && (action matches WorkflowAction::ReportCommitted { commit_id: c, pushed: false }
                    && c@ == id@)
            },
            _ => false,
        },
        WorkflowState::AnnouncingPush { commit_id } => next == (WorkflowState::Pushing {
            commit_id,
        }) && action is Push,
        WorkflowState::Pushing { commit_id } => match event {
            WorkflowEvent::Pushed(Err(source)) => finishes(
                next,
                action,
                Err(WorkflowError::PushFailed { commit_id, source }),
            ),
            WorkflowEvent::Pushed(Ok(_)) => next == (WorkflowState::Reporting {
                commit_id,
                pushed: true,
            }) && (action matches WorkflowAction::ReportCommitted { commit_id: c, pushed: true }
                && c@ == commit_id@),
            _ => false,
        },
        WorkflowState::Reporting { commit_id, pushed } => finishes(
            next,
            action,
            Ok(WorkflowOutcome::Committed { commit_id, pushed }),
        ),
        WorkflowState::Done => false,
    }
}

fn finish(result: Result<WorkflowOutcome, WorkflowError>) -> (r: (WorkflowState, WorkflowAction))
    ensures
        finishes(r.0, r.1, result),
{
    (WorkflowState::Done, WorkflowAction::Finish(result))
}

fn announce(text: &str) -> (a: WorkflowAction)
    ensures
        announces(a, text@),
{
    WorkflowAction::Progress(text.to_owned())
}

fn opt_string(o: &Option<String>) -> (r: Option<String>)
    ensures
        r == *o,
{
    match o {
        Some(s) => Some(s.clone()),
        None => None,
    }
}

fn step_start(options: &WorkflowOptions, has_generator: bool) -> (r: (WorkflowState, WorkflowAction))
    ensures
        transition(*options, has_generator, WorkflowState::Start, WorkflowEvent::Begin, r.0, r.1),
        reachable_state(*options, has_generator, r.0),
        awaits(r.0, r.1),
{
    if let Some(m) = &options.manual_message {
        let draft = CommitDraft { subject: m.clone(), body: String::new() };
        match validate_draft(&draft, options.style) {
            Err(e) => {
                return finish(Err(WorkflowError::Policy(e)));
            },
            Ok(()) => {},
        }
    }
    if !options.yes && !options.interactive {
        return finish(Err(WorkflowError::NonInteractive));
    }
    if options.manual_message.is_none() && !has_generator {
        return finish(Err(WorkflowError::MissingGenerator));
    }
    (WorkflowState::VerifyingWorktree, WorkflowAction::VerifyWorktree)
}

fn stage_with_style(
    options: &WorkflowOptions,
    has_generator: bool,
    file: Option<InstructionsFile>,
    history: Option<HistoryEvidence>,
) -> (r: (WorkflowState, WorkflowAction))
    requires
        admitted(*options, has_generator),
        options.manual_message is None,
    ensures
        style_resolved(*options, file, history, r.0, r.1),
        reachable_state(*options, has_generator, r.0),
        awaits(r.0, r.1),
{
    let one_off = match &options.one_off_instructions {
        Some(x) => Some(x.as_str()),
        None => None,
    };
    let ghost f = file;
    let ghost h = history;
    let res = resolve_generated_style(options.style, file, one_off, history);
    let ghost rr = res;
    assert(one_off_text(*options) == match one_off {
        Some(x) => Some(x@),
        None => None::<Seq<char>>,
    });
    assert(style_resolution(options.style, f, one_off_text(*options), h, rr));
    match res {
        Err(e) => finish(Err(WorkflowError::Style(e))),
        Ok(rs) => (
            WorkflowState::AnnouncingStage { style: Some(rs) },
            announce("staging all changes"),
        ),
    }
}

fn step_after_history(
    options: &WorkflowOptions,
    has_generator: bool,
    history: Option<HistoryEvidence>,
) -> (r: (WorkflowState, WorkflowAction))
    requires
        admitted(*options, has_generator),
    ensures
        after_history(*options, history, r.0, r.1),
        reachable_state(*options, has_generator, r.0),
        awaits(r.0, r.1),
{
    if options.manual_message.is_none() {
        let selected = match &options.cli_instructions_file {
            Some(p) => Some(p.clone()),
            None => opt_string(&options.global_instructions_file),
        };
        match selected {
            Some(path) => {
                let request = path.clone();
                (
                    WorkflowState::ReadingInstructions { history, path },
                    WorkflowAction::ReadInstructions(request),
                )
            },
            None => stage_with_style(options, has_generator, None, history),
        }
    } else {
        (WorkflowState::AnnouncingStage { style: None }, announce("staging all changes"))
    }
}

fn step_context(
    options: &WorkflowOptions,
    has_generator: bool,
    style: Option<ResolvedStyle>,
    before: String,
    context: RepositoryContext,
) -> (r: (WorkflowState, WorkflowAction))
    requires
        admitted(*options, has_generator),
        style_fits(*options, style),
    ensures
        transition(
            *options,
            has_generator,
            WorkflowState::ReadingContext { style, before },
            WorkflowEvent::ContextRead(Ok(context)),
            r.0,
            r.1,
        ),
        reachable_state(*options, has_generator, r.0),
        awaits(r.0, r.1),
{
    if !str_equal(context.staged_tree.as_str(), before.as_str()) {
        return finish(
            Err(WorkflowError::StagedTreeChanged { before, after: context.staged_tree }),
        );
    }
    match &options.manual_message {
        Some(m) => {
            let draft = CommitDraft { subject: m.clone(), body: String::new() };
            (
                WorkflowState::CheckingDraftTree { fallback: None, before, stat: context.stat, draft },
                WorkflowAction::ReadStagedTree,
            )
        },
        None => match style {
            Some(rs) => (
                WorkflowState::AnnouncingDraft { style: rs, before, context },
                announce("drafting with the selected harness"),
            ),
            None => {
                proof {
                    assert(false);
                }
                finish(Err(WorkflowError::MissingGenerator))
            },
        },
    }
}

fn step_generated(
    options: &WorkflowOptions,
    has_generator: bool,
    fallback: Option<String>,
    before: String,
    stat: String,
    draft: CommitDraft,
) -> (r: (WorkflowState, WorkflowAction))
    requires
        admitted(*options, has_generator),
        options.manual_message is None,
    ensures
        transition(
            *options,
            has_generator,
            WorkflowState::Generating { fallback, before, stat },
            WorkflowEvent::Generated(Ok(draft)),
            r.0,
            r.1,
        ),
        reachable_state(*options, has_generator, r.0),
        awaits(r.0, r.1),
{
    match validate_draft(&draft, options.style) {
        Err(e) => finish(Err(WorkflowError::Policy(e))),
        Ok(()) => (
            WorkflowState::CheckingDraftTree { fallback, before, stat, draft },
            WorkflowAction::ReadStagedTree,
        ),
    }
}

/// One step of the commit workflow. `has_generator` tells whether a message
/// generator is available. The caller performs the returned action and
/// answers with the event it produced; `Finish` ends the run.
pub fn workflow_step(
    options: &WorkflowOptions,
    has_generator: bool,
    state: WorkflowState,
    event: WorkflowEvent,
) -> (r: (WorkflowState, WorkflowAction))
    requires
        reachable_state(*options, has_generator, state),
        expects(state, event),
    ensures
        transition(*options, has_generator, state, event, r.0, r.1),
        reachable_state(*options, has_generator, r.0),
        awaits(r.0, r.1),
{
    match state {
        WorkflowState::Start => step_start(options, has_generator),
        WorkflowState::VerifyingWorktree => match event {
            WorkflowEvent::WorktreeChecked(Err(e)) => finish(Err(WorkflowError::Git(e))),
            WorkflowEvent::WorktreeChecked(Ok(())) => {
                let repository = match options.style {
                    CommitStyle::Repository => true,
                    _ => false,
                };
                if options.manual_message.is_none() && repository {
                    (WorkflowState::CollectingHistory, WorkflowAction::CollectHistory)
                } else {
                    step_after_history(options, has_generator, None)
                }
            },
            _ => unreached(),
        },
        WorkflowState::CollectingHistory => match event {
            WorkflowEvent::HistoryCollected(Err(e)) => finish(Err(WorkflowError::Git(e))),
            WorkflowEvent::HistoryCollected(Ok(h)) => step_after_history(
                options,
                has_generator,
                Some(h),
            ),
            _ => unreached(),
        },
        WorkflowState::ReadingInstructions { history, path } => match event {
            WorkflowEvent::InstructionsRead(read) => stage_with_style(
                options,
                has_generator,
                Some(InstructionsFile { path, read }),
                history,
            ),
            _ => unreached(),
        },
        WorkflowState::AnnouncingStage { style } => (
            WorkflowState::Staging { style },
            WorkflowAction::StageAll,
        ),
        WorkflowState::Staging { style } => match event {
            WorkflowEvent::Staged(Err(e)) => finish(Err(WorkflowError::Git(e))),
            WorkflowEvent::Staged(Ok(())) => (
                WorkflowState::CheckingStaged { style },
                WorkflowAction::CheckStagedChanges,
            ),
            _ => unreached(),
        },
        WorkflowState::CheckingStaged { style } => match event {
            WorkflowEvent::StagedChangesChecked(Err(e)) => finish(Err(WorkflowError::Git(e))),
            WorkflowEvent::StagedChangesChecked(Ok(staged)) => {
                if staged {
                    (WorkflowState::ReadingTree { style }, WorkflowAction::ReadStagedTree)
                } else {
                    finish(Err(WorkflowError::Git(GitError::NoStagedChanges)))
                }
            },
            _ => unreached(),
        },
        WorkflowState::ReadingTree { style } => match event {
            WorkflowEvent::TreeRead(Err(e)) => finish(Err(WorkflowError::Git(e))),
            WorkflowEvent::TreeRead(Ok(t)) => (
                WorkflowState::ReadingContext { style, before: t },
                WorkflowAction::ReadContext(options.limits),
            ),
            _ => unreached(),
        },
        WorkflowState::ReadingContext { style, before } => match event {
            WorkflowEvent::ContextRead(Err(e)) => finish(Err(WorkflowError::Git(e))),
            WorkflowEvent::ContextRead(Ok(c)) => step_context(
                options,
                has_generator,
                style,
                before,
                c,
            ),
            _ => unreached(),
        },
        WorkflowState::AnnouncingDraft { style, before, context } => {
            let fallback = opt_string(&style.fallback);
            let stat = context.stat.clone();
            (
                WorkflowState::Generating { fallback, before, stat },
                WorkflowAction::Generate(request(context, style)),
            )
        },
        WorkflowState::Generating { fallback, before, stat } => match event {
            WorkflowEvent::Generated(Err(e)) => finish(Err(WorkflowError::Generation(e))),
            WorkflowEvent::Generated(Ok(d)) => step_generated(
                options,
                has_generator,
                fallback,
                before,
                stat,
                d,
            ),
            _ => unreached(),
        },
        WorkflowState::CheckingDraftTree { fallback, before, stat, draft } => match event {
            WorkflowEvent::TreeRead(Err(e)) => finish(Err(WorkflowError::Git(e))),
            WorkflowEvent::TreeRead(Ok(t)) => {
                if !str_equal(t.as_str(), before.as_str()) {
                    finish(Err(WorkflowError::StagedTreeChanged { before, after: t }))
                } else {
                    let shown = draft.duplicate();
                    (
                        WorkflowState::Previewing { before, draft },
                        WorkflowAction::Preview { style: options.style, fallback, stat, draft: shown },
                    )
                }
            },
            _ => unreached(),
        },
        WorkflowState::Previewing { before, draft } => {
            if !options.yes {
                (WorkflowState::Confirming { before, draft }, WorkflowAction::Confirm)
            } else {
                (WorkflowState::CheckingCommitTree { before, draft }, WorkflowAction::ReadStagedTree)
            }
        },
        WorkflowState::Confirming { before, draft } => match event {
            WorkflowEvent::Confirmed(Err(m)) => finish(Err(WorkflowError::Ui(m))),
            WorkflowEvent::Confirmed(Ok(approved)) => {
                if approved {
                    (
                        WorkflowState::CheckingCommitTree { before, draft },
                        WorkflowAction::ReadStagedTree,
                    )
                } else {
                    (WorkflowState::Cancelling, WorkflowAction::ReportCancelled)
                }
            },
            _ => unreached(),
        },
        WorkflowState::Cancelling => finish(Ok(WorkflowOutcome::Cancelled)),
        WorkflowState::CheckingCommitTree { before, draft } => match event {
            WorkflowEvent::TreeRead(Err(e)) => finish(Err(WorkflowError::Git(e))),
            WorkflowEvent::TreeRead(Ok(t)) => {
                if !str_equal(t.as_str(), before.as_str()) {
                    finish(Err(WorkflowError::StagedTreeChanged { before, after: t }))
                } else {
                    (WorkflowState::Committing, WorkflowAction::Commit(draft.full_message()))
                }
            },
            _ => unreached(),
        },
        WorkflowState::Committing => match event {
            WorkflowEvent::Committed(Err(e)) => finish(Err(WorkflowError::Git(e))),
            WorkflowEvent::Committed(Ok(id)) => {
                if options.push {
                    (WorkflowState::AnnouncingPush { commit_id: id }, announce("pushing commit"))
                } else {
                    let shown = id.clone();
                    (
                        WorkflowState::Reporting { commit_id: id, pushed: false },
                        WorkflowAction::ReportCommitted { commit_id: shown, pushed: false },
                    )
                }
            },
            _ => unreached(),
        },
        WorkflowState::AnnouncingPush { commit_id } => (
            WorkflowState::Pushing { commit_id },
            WorkflowAction::Push,
        ),
        WorkflowState::Pushing { commit_id } => match event {
            WorkflowEvent::Pushed(Err(source)) => finish(
                Err(WorkflowError::PushFailed { commit_id, source }),
            ),
            WorkflowEvent::Pushed(Ok(())) => {
                let shown = commit_id.clone();
                (
                    WorkflowState::Reporting { commit_id, pushed: true },
                    WorkflowAction::ReportCommitted { commit_id: shown, pushed: true },
                )
            },
            _ => unreached(),
        },
        WorkflowState::Reporting { commit_id, pushed } => finish(
            Ok(WorkflowOutcome::Committed { commit_id, pushed }),
        ),
        WorkflowState::Done => unreached(),
    }
}

/// A commit is made only from the last staged-tree check, when that check
/// found the tree seen before the context was read, and only with a draft
/// that passed the policy (the manual message itself in manual mode); the
/// message is the draft's full message.
pub proof fn law_commit_needs_unchanged_tree_and_valid_draft(
    o: WorkflowOptions,
    has_generator: bool,
    state: WorkflowState,
    event: WorkflowEvent,
    next: WorkflowState,
    action: WorkflowAction,
)
    requires
        reachable_state(o, has_generator, state),
        transition(o, has_generator, state, event, next, action),
        action is Commit,
    ensures
        match (state, event, action) {
            (
                WorkflowState::CheckingCommitTree { before, draft },
                WorkflowEvent::TreeRead(Ok(t)),
                WorkflowAction::Commit(m),
            ) => t@ == before@ && acceptable_draft(o, draft) && m@ == full_message_text(
                draft.subject@,
                draft.body@,
            ) && admitted(o, has_generator),
            _ => false,
        },
{
}

/// Git is touched (worktree check, history, staging, commit, push) only
/// after a manual message passed the policy, approval is available
/// (`--yes` or an interactive terminal) and, in generated mode, a generator
/// exists.
pub proof fn law_git_work_only_when_admitted(
    o: WorkflowOptions,
    has_generator: bool,
    state: WorkflowState,
    event: WorkflowEvent,
    next: WorkflowState,
    action: WorkflowAction,
)
    requires
        reachable_state(o, has_generator, state),
        transition(o, has_generator, state, event, next, action),
        action is VerifyWorktree || action is CollectHistory || action is StageAll
            || action is Commit || action is Push,
    ensures
        admitted(o, has_generator),
        manual_error(o) is None,
{
}

/// `git push` runs only when pushing is enabled.
pub proof fn law_push_only_when_enabled(
    o: WorkflowOptions,
    has_generator: bool,
    state: WorkflowState,
    event: WorkflowEvent,
    next: WorkflowState,
    action: WorkflowAction,
)
    requires
        reachable_state(o, has_generator, state),
        transition(o, has_generator, state, event, next, action),
        action is Push,
    ensures
        o.push,
{
}

/// Confirmation is asked for only without `--yes`.
pub proof fn law_confirm_only_without_yes(
    o: WorkflowOptions,
    has_generator: bool,
    state: WorkflowState,
    event: WorkflowEvent,
    next: WorkflowState,
    action: WorkflowAction,
)
    requires
        reachable_state(o, has_generator, state),
        transition(o, has_generator, state, event, next, action),
        action is Confirm,
    ensures
        !o.yes,
{
}

/// Manual messages bypass history collection, instruction loading and
/// generation.
pub proof fn law_manual_mode_skips_generation(
    o: WorkflowOptions,
    has_generator: bool,
    state: WorkflowState,
    event: WorkflowEvent,
    next: WorkflowState,
    action: WorkflowAction,
)
    requires
        reachable_state(o, has_generator, state),
        transition(o, has_generator, state, event, next, action),
        action is Generate || action is CollectHistory || action is ReadInstructions,
    ensures
        o.manual_message is None,
{
}

/// A failed push ends the run with an error that carries the id of the
/// commit that was made locally.
pub proof fn law_push_failure_reports_commit(
    o: WorkflowOptions,
    has_generator: bool,
    commit_id: String,
    source: GitError,
    next: WorkflowState,
    action: WorkflowAction,
)
    requires
        transition(
            o,
            has_generator,
            WorkflowState::Pushing { commit_id },
            WorkflowEvent::Pushed(Err(source)),
            next,
            action,
        ),
    ensures
        next is Done,
        action == WorkflowAction::Finish(
            Err(WorkflowError::PushFailed { commit_id, source }),
        ),
{
}

/// Declining the confirmation reports the cancellation and ends the run as
/// cancelled, with nothing committed and the staged changes left in place.
pub proof fn law_declining_cancels(
    o: WorkflowOptions,
    has_generator: bool,
    before: String,
    draft: CommitDraft,
    next: WorkflowState,
    action: WorkflowAction,
    next2: WorkflowState,
    action2: WorkflowAction,
)
    requires
        transition(
            o,
            has_generator,
            WorkflowState::Confirming { before, draft },
            WorkflowEvent::Confirmed(Ok(false)),
            next,
            action,
        ),
        transition(o, has_generator, next, WorkflowEvent::Acknowledged, next2, action2),
    ensures
        next is Cancelling,
        action is ReportCancelled,
        next2 is Done,
        action2 == WorkflowAction::Finish(Ok(WorkflowOutcome::Cancelled)),
{
}

/// A generator failure ends the run with that failure, before any commit.
pub proof fn law_generation_failure_ends_run(
    o: WorkflowOptions,
    has_generator: bool,
    fallback: Option<String>,
    before: String,
    stat: String,
    error: GenerationError,
    next: WorkflowState,
    action: WorkflowAction,
)
    requires
        transition(
            o,
            has_generator,
            WorkflowState::Generating { fallback, before, stat },
            WorkflowEvent::Generated(Err(error)),
            next,
            action,
        ),
    ensures
        next is Done,
        action == WorkflowAction::Finish(Err(WorkflowError::Generation(error))),
{
}

/// When the staged tree read after the draft is ready, or again before
/// committing, differs from the one seen before the context was read, the
/// run ends with `StagedTreeChanged` and nothing is committed.
pub proof fn law_changed_tree_aborts(
    o: WorkflowOptions,
    has_generator: bool,
    state: WorkflowState,
    t: String,
    next: WorkflowState,
    action: WorkflowAction,
)
    requires
        transition(o, has_generator, state, WorkflowEvent::TreeRead(Ok(t)), next, action),
        state is CheckingDraftTree || state is CheckingCommitTree,
        match state {
            WorkflowState::CheckingDraftTree { before, .. } => t@ != before@,
            WorkflowState::CheckingCommitTree { before, .. } => t@ != before@,
            _ => false,
        },
    ensures
        next is Done,
        match state {
            WorkflowState::CheckingDraftTree { before, .. } => action == WorkflowAction::Finish(
                Err(WorkflowError::StagedTreeChanged { before, after: t }),
            ),
            WorkflowState::CheckingCommitTree { before, .. } => action == WorkflowAction::Finish(
                Err(WorkflowError::StagedTreeChanged { before, after: t }),
            ),
            _ => false,
        },
{
}

/// A context read from another staged tree than the one just read ends the
/// run with `StagedTreeChanged`.
pub proof fn law_context_of_another_tree_aborts(
    o: WorkflowOptions,
    has_generator: bool,
    style: Option<ResolvedStyle>,
    before: String,
    context: RepositoryContext,
    next: WorkflowState,
    action: WorkflowAction,
)
    requires
        transition(
            o,
            has_generator,
            WorkflowState::ReadingContext { style, before },
            WorkflowEvent::ContextRead(Ok(context)),
            next,
            action,
        ),
        context.staged_tree@ != before@,
    ensures
        next is Done,
        action == WorkflowAction::Finish(
            Err(WorkflowError::StagedTreeChanged { before, after: context.staged_tree }),
        ),
{
}

/// Without `--yes` the preview is followed by the confirmation, and the
/// commit path is taken only when the confirmation approved.
pub proof fn law_approval_precedes_commit(
    o: WorkflowOptions,
    has_generator: bool,
    state: WorkflowState,
    event: WorkflowEvent,
    next: WorkflowState,
    action: WorkflowAction,
)
    requires
        reachable_state(o, has_generator, state),
        transition(o, has_generator, state, event, next, action),
        !o.yes,
    ensures
        state is Previewing ==> next is Confirming && action is Confirm,
        next is CheckingCommitTree ==> state is Confirming && event == WorkflowEvent::Confirmed(
            Ok(true),
        ),
{
}

/// After a successful commit the run pushes exactly when pushing is
/// enabled; otherwise it reports the local commit.
pub proof fn law_commit_then_push_when_enabled(
    o: WorkflowOptions,
    has_generator: bool,
    commit_id: String,
    next: WorkflowState,
    action: WorkflowAction,
)
    requires
        transition(
            o,
            has_generator,
            WorkflowState::Committing,
            WorkflowEvent::Committed(Ok(commit_id)),
            next,
            action,
        ),
    ensures
        o.push ==> next == (WorkflowState::AnnouncingPush { commit_id }) && announces(
            action,
            "pushing commit"@,
        ),
        !o.push ==> next == (WorkflowState::Reporting { commit_id, pushed: false }),
{
}

/// A run that ends with a commit reports it as pushed exactly when pushing
/// was enabled (a failed push ends the run with `PushFailed` instead).
pub proof fn law_committed_outcome_reports_push(
    o: WorkflowOptions,
    has_generator: bool,
    state: WorkflowState,
    event: WorkflowEvent,
    next: WorkflowState,
    action: WorkflowAction,
)
    requires
        reachable_state(o, has_generator, state),
        transition(o, has_generator, state, event, next, action),
        action matches WorkflowAction::Finish(Ok(WorkflowOutcome::Committed { .. })),
    ensures
        action matches WorkflowAction::Finish(Ok(WorkflowOutcome::Committed { pushed, .. })) && pushed
            == o.push,
        admitted(o, has_generator),
{
}

/// Staging that produces no staged changes ends the run with
/// `NoStagedChanges`.
pub proof fn law_nothing_staged_ends_run(
    o: WorkflowOptions,
    has_generator: bool,
    style: Option<ResolvedStyle>,
    next: WorkflowState,
    action: WorkflowAction,
)
    requires
        transition(
            o,
            has_generator,
            WorkflowState::CheckingStaged { style },
            WorkflowEvent::StagedChangesChecked(Ok(false)),
            next,
            action,
        ),
    ensures
        next is Done,
        action == WorkflowAction::Finish(Err(WorkflowError::Git(GitError::NoStagedChanges))),
{
}

} // verus!

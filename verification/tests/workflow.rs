// SPDX-License-Identifier: GPL-3.0-or-later

use yeet_cli::adapters::GitError;
use yeet_cli::application::{
    workflow_step, WorkflowAction, WorkflowError, WorkflowEvent, WorkflowOptions,
    WorkflowOutcome, WorkflowState,
};
use yeet_cli::cli::Cli;
use yeet_cli::config::{default_raw_config, resolve_settings, ContextLimits, Environment};
use yeet_cli::domain::{CommitDraft, CommitStyle, RepositoryContext, Truncation};
use yeet_cli::generation::{GenerationError, HistoryEvidence, InstructionsRead};
use yeet_cli::ui::{committed_text, confirmation_accepted, preview_text, progress_text};
use yeet_cli::{generated_mode_precheck, manual_message, watches_cancellation, workflow_options};

/// A scripted repository, generator and terminal, with a log of what the
/// workflow asked for.
struct World {
    worktree: bool,
    staged: bool,
    trees: Vec<&'static str>,
    generated: Option<Result<CommitDraft, String>>,
    approve: bool,
    push_ok: bool,
    instructions: Option<&'static str>,
    log: Vec<String>,
    previews: Vec<String>,
    committed_messages: Vec<String>,
}

impl World {
    fn new() -> Self {
        World {
            worktree: true,
            staged: true,
            trees: vec!["tree1"],
            generated: None,
            approve: true,
            push_ok: true,
            instructions: None,
            log: Vec::new(),
            previews: Vec::new(),
            committed_messages: Vec::new(),
        }
    }

    fn tree(&mut self) -> String {
        let tree = if self.trees.len() > 1 {
            self.trees.remove(0)
        } else {
            self.trees[0]
        };
        tree.to_string()
    }

    fn run(&mut self, options: &WorkflowOptions, has_generator: bool) -> Result<WorkflowOutcome, WorkflowError> {
        let mut state = WorkflowState::Start;
        let mut event = WorkflowEvent::Begin;
        loop {
            let (next, action) = workflow_step(options, has_generator, state, event);
            state = next;
            event = match action {
                WorkflowAction::VerifyWorktree => {
                    self.log.push("verify".into());
                    WorkflowEvent::WorktreeChecked(if self.worktree {
                        Ok(())
                    } else {
                        Err(GitError::NotWorktree)
                    })
                }
                WorkflowAction::CollectHistory => {
                    self.log.push("history".into());
                    WorkflowEvent::HistoryCollected(Ok(HistoryEvidence {
                        examples: "chore: initial".to_string(),
                        truncated: false,
                        fallback: false,
                    }))
                }
                WorkflowAction::ReadInstructions(path) => {
                    self.log.push(format!("read {path}"));
                    WorkflowEvent::InstructionsRead(match self.instructions {
                        Some(text) => InstructionsRead::Text(text.to_string()),
                        None => InstructionsRead::Missing,
                    })
                }
                WorkflowAction::Progress(message) => {
                    self.log.push(progress_text(&message));
                    WorkflowEvent::Acknowledged
                }
                WorkflowAction::StageAll => {
                    self.log.push("stage".into());
                    WorkflowEvent::Staged(Ok(()))
                }
                WorkflowAction::CheckStagedChanges => {
                    WorkflowEvent::StagedChangesChecked(Ok(self.staged))
                }
                WorkflowAction::ReadStagedTree => WorkflowEvent::TreeRead(Ok(self.tree())),
                WorkflowAction::ReadContext(limits) => {
                    self.log.push(format!("context {}", limits.stat_max_chars));
                    let staged_tree = self.tree();
                    WorkflowEvent::ContextRead(Ok(RepositoryContext {
                        branch: "main".to_string(),
                        staged_tree,
                        stat: " tracked.txt | 1 +".to_string(),
                        patch: "+changed".to_string(),
                        stat_truncation: Truncation::default(),
                        patch_truncation: Truncation::default(),
                    }))
                }
                WorkflowAction::Generate(request) => {
                    self.log.push(format!("generate {}", request.context.staged_tree));
                    WorkflowEvent::Generated(match self.generated.take() {
                        Some(Ok(draft)) => Ok(draft),
                        Some(Err(message)) => Err(GenerationError::Process(message)),
                        None => Err(GenerationError::Cancelled),
                    })
                }
                WorkflowAction::Preview { style, fallback, stat, draft } => {
                    self.previews
                        .push(preview_text(style, fallback.as_deref(), &stat, &draft));
                    WorkflowEvent::Acknowledged
                }
                WorkflowAction::Confirm => {
                    self.log.push("confirm".into());
                    WorkflowEvent::Confirmed(Ok(self.approve))
                }
                WorkflowAction::ReportCancelled => {
                    self.log.push("cancelled".into());
                    WorkflowEvent::Acknowledged
                }
                WorkflowAction::Commit(message) => {
                    self.log.push("commit".into());
                    self.committed_messages.push(message);
                    WorkflowEvent::Committed(Ok("c0ffee".to_string()))
                }
                WorkflowAction::Push => {
                    self.log.push("push".into());
                    WorkflowEvent::Pushed(if self.push_ok {
                        Ok(())
                    } else {
                        Err(GitError::Command {
                            operation: "push".to_string(),
                            status: Some(128),
                            stderr: "fatal: no remote".to_string(),
                        })
                    })
                }
                WorkflowAction::ReportCommitted { commit_id, pushed } => {
                    self.log.push(committed_text(&commit_id, pushed));
                    WorkflowEvent::Acknowledged
                }
                WorkflowAction::Finish(result) => return result,
            };
        }
    }

    fn did(&self, entry: &str) -> bool {
        self.log.iter().any(|line| line == entry)
    }
}

fn options(manual: Option<&str>, style: CommitStyle) -> WorkflowOptions {
    WorkflowOptions {
        manual_message: manual.map(str::to_string),
        style,
        global_instructions_file: None,
        cli_instructions_file: None,
        one_off_instructions: None,
        limits: ContextLimits {
            stat_max_chars: 6000,
            patch_max_chars: 40000,
        },
        push: false,
        yes: true,
        interactive: false,
    }
}

#[test]
fn manual_workflow_commits_without_push() {
    let mut world = World::new();
    let outcome = world
        .run(&options(Some("remove tracked file"), CommitStyle::Repository), false)
        .unwrap();
    assert_eq!(
        outcome,
        WorkflowOutcome::Committed {
            commit_id: "c0ffee".to_string(),
            pushed: false
        }
    );
    assert_eq!(world.committed_messages, vec!["remove tracked file".to_string()]);
    assert!(!world.did("push"));
    assert!(!world.did("history"));
    assert!(!world.did("confirm"));
    assert!(world.did("yeet: staging all changes"));
    assert!(world.did("yeet: committed c0ffee locally (push disabled)"));
    assert_eq!(world.previews.len(), 1);
    assert!(world.previews[0].starts_with("Staged changes (repository style):\n tracked.txt | 1 +\n"));
}

#[test]
fn generated_repository_style_collects_history_before_staging() {
    let mut world = World::new();
    world.generated = Some(Ok(CommitDraft::new("feat: explain staged change", "The body gives context.")));
    let outcome = world.run(&options(None, CommitStyle::Repository), true).unwrap();
    assert!(matches!(outcome, WorkflowOutcome::Committed { .. }));
    let history = world.log.iter().position(|line| line == "history").unwrap();
    let stage = world.log.iter().position(|line| line == "stage").unwrap();
    assert!(history < stage);
    assert!(world.did("generate tree1"));
    assert_eq!(
        world.committed_messages,
        vec!["feat: explain staged change\n\nThe body gives context.".to_string()]
    );
}

#[test]
fn generator_failure_ends_before_commit() {
    let mut world = World::new();
    world.generated = Some(Err("fake generator failed".to_string()));
    let error = world.run(&options(None, CommitStyle::Repository), true).unwrap_err();
    assert!(error.message().contains("fake generator failed"));
    assert!(world.did("stage"));
    assert!(!world.did("commit"));
}

#[test]
fn index_change_during_generation_aborts_before_commit() {
    let mut world = World::new();
    world.trees = vec!["tree1", "tree1", "tree2"];
    world.generated = Some(Ok(CommitDraft::new("feat: x", "")));
    let error = world.run(&options(None, CommitStyle::Repository), true).unwrap_err();
    assert_eq!(
        error.message(),
        "staged tree changed during Yeet workflow (tree1 became tree2); no commit was made"
    );
    assert!(!world.did("commit"));
}

#[test]
fn context_of_another_tree_aborts() {
    let mut world = World::new();
    world.trees = vec!["tree1", "tree9"];
    let error = world.run(&options(Some("fix it"), CommitStyle::Repository), false).unwrap_err();
    assert!(matches!(error, WorkflowError::StagedTreeChanged { .. }));
    assert!(!world.did("commit"));
}

#[test]
fn index_change_during_confirmation_aborts() {
    let mut world = World::new();
    world.trees = vec!["tree1", "tree1", "tree1", "tree3"];
    let mut opts = options(Some("fix it"), CommitStyle::Repository);
    opts.yes = false;
    opts.interactive = true;
    let error = world.run(&opts, false).unwrap_err();
    assert!(matches!(error, WorkflowError::StagedTreeChanged { .. }));
    assert!(world.did("confirm"));
    assert!(!world.did("commit"));
}

#[test]
fn declining_leaves_changes_staged() {
    let mut world = World::new();
    world.approve = false;
    let mut opts = options(Some("cancel this"), CommitStyle::Repository);
    opts.yes = false;
    opts.interactive = true;
    let outcome = world.run(&opts, false).unwrap();
    assert_eq!(outcome, WorkflowOutcome::Cancelled);
    assert!(world.did("stage"));
    assert!(world.did("cancelled"));
    assert!(!world.did("commit"));
}

#[test]
fn conventional_policy_rejects_bad_manual_subject_before_staging() {
    let mut world = World::new();
    let error = world
        .run(&options(Some("Bad subject."), CommitStyle::Conventional), false)
        .unwrap_err();
    assert!(error.message().contains("Conventional"));
    assert!(world.log.is_empty());
}

#[test]
fn noninteractive_runs_need_yes() {
    let mut world = World::new();
    let mut opts = options(Some("fix it"), CommitStyle::Repository);
    opts.yes = false;
    let error = world.run(&opts, false).unwrap_err();
    assert!(error.message().contains("not interactive"));
    assert!(world.log.is_empty());
    assert!(matches!(generated_mode_precheck(false, false), Err(WorkflowError::NonInteractive)));
    assert!(generated_mode_precheck(true, false).is_ok());
    assert!(generated_mode_precheck(false, true).is_ok());
}

#[test]
fn generated_mode_without_generator_fails_early() {
    let mut world = World::new();
    let error = world.run(&options(None, CommitStyle::Repository), false).unwrap_err();
    assert!(matches!(error, WorkflowError::MissingGenerator));
    assert!(world.log.is_empty());
}

#[test]
fn outside_a_worktree_nothing_is_staged() {
    let mut world = World::new();
    world.worktree = false;
    let error = world.run(&options(Some("fix it"), CommitStyle::Repository), false).unwrap_err();
    assert!(matches!(error, WorkflowError::Git(GitError::NotWorktree)));
    assert!(!world.did("stage"));
}

#[test]
fn nothing_staged_ends_the_run() {
    let mut world = World::new();
    world.staged = false;
    let error = world.run(&options(Some("fix it"), CommitStyle::Repository), false).unwrap_err();
    assert_eq!(error.message(), "stage-all produced no staged changes");
    assert!(!world.did("commit"));
}

#[test]
fn push_success_and_failure() {
    let mut world = World::new();
    let mut opts = options(Some("push staged change"), CommitStyle::Repository);
    opts.push = true;
    let outcome = world.run(&opts, false).unwrap();
    assert_eq!(
        outcome,
        WorkflowOutcome::Committed {
            commit_id: "c0ffee".to_string(),
            pushed: true
        }
    );
    assert!(world.did("yeet: committed c0ffee and pushed successfully"));

    let mut failing = World::new();
    failing.push_ok = false;
    let error = failing.run(&opts, false).unwrap_err();
    assert_eq!(
        error.message(),
        "commit c0ffee succeeded locally, but push failed: git push failed with exit status 128: fatal: no remote"
    );
}

#[test]
fn custom_style_reads_the_selected_instructions_file() {
    let mut world = World::new();
    world.instructions = Some("Use a body.");
    world.generated = Some(Ok(CommitDraft::new("Explain change", "Body.")));
    let mut opts = options(None, CommitStyle::Custom);
    opts.global_instructions_file = Some("/cfg/instructions.md".to_string());
    opts.cli_instructions_file = Some("/work/guide.md".to_string());
    world.run(&opts, true).unwrap();
    assert!(world.did("read /work/guide.md"));
    assert!(!world.did("read /cfg/instructions.md"));

    let mut missing = World::new();
    let mut opts = options(None, CommitStyle::Custom);
    opts.global_instructions_file = Some("/cfg/instructions.md".to_string());
    let error = missing.run(&opts, true).unwrap_err();
    assert_eq!(
        error.message(),
        "configured instructions file /cfg/instructions.md does not exist"
    );
    assert!(!missing.did("stage"));
}

#[test]
fn command_line_pieces_become_workflow_options() {
    assert_eq!(manual_message(&vec![]), None);
    assert_eq!(
        manual_message(&vec!["fix".to_string(), "the".to_string(), "parser".to_string()]),
        Some("fix the parser".to_string())
    );
    assert!(watches_cancellation(true, true, false));
    assert!(watches_cancellation(false, false, true));
    assert!(!watches_cancellation(false, true, true));

    let resolved = resolve_settings(
        &default_raw_config(),
        "/cfg/config.toml".to_string(),
        false,
        false,
        None,
        None,
        None,
        &Environment::default(),
    )
    .unwrap();
    let cli = Cli {
        profile: None,
        model: None,
        style: None,
        config: None,
        instructions_file: None,
        instructions: Some("Be brief.".to_string()),
        yes: true,
        no_push: true,
        command: None,
        message: vec![],
    };
    let opts = workflow_options(&cli, &resolved, None, Some("/w/guide.md".to_string()), false);
    assert!(!opts.push);
    assert!(opts.yes);
    assert_eq!(opts.one_off_instructions.as_deref(), Some("Be brief."));
    assert_eq!(opts.cli_instructions_file.as_deref(), Some("/w/guide.md"));
    assert_eq!(opts.style, CommitStyle::Repository);
}

#[test]
fn terminal_texts() {
    assert!(confirmation_accepted(1, "\n"));
    assert!(confirmation_accepted(2, "\r\n"));
    assert!(!confirmation_accepted(0, ""));
    assert!(!confirmation_accepted(4, "no\n"));
    let draft = CommitDraft::new("feat: x", "body");
    assert_eq!(
        preview_text(CommitStyle::Conventional, Some("fallback"), "  ", &draft),
        "Staged changes (conventional style):\n  (stat unavailable)\nStyle fallback: fallback\n\nProposed commit message:\n---\nfeat: x\n\nbody\n---\n"
    );
}

// SPDX-License-Identifier: GPL-3.0-or-later

use yeet_cli::adapters::codex::{
    codex_args_for, codex_failure, codex_outcome, run_failure, CodexFailure, MAX_RESPONSE_BYTES,
};
use yeet_cli::adapters::git::{
    bounded_lossy_with_capture, build_repository_context, capture_limit, commit_arguments,
    commit_id_verdict, detached_branch_verdict, history_from_log, lossy_trim, require_success,
    staged_changes_verdict, staged_tree_verdict, symbolic_ref_verdict, with_bounded_marker,
    worktree_verdict,
};
use yeet_cli::adapters::process::{stdin_failure_matters, supervise};
use yeet_cli::adapters::{
    CapturedBytes, CommandOutput, GitError, LimitedOutput, ResponseSource, Supervision,
};
use yeet_cli::config::{ContextLimits, Profile};
use yeet_cli::domain::CommitPolicyError;
use yeet_cli::generation::GenerationError;

fn output(status: i32, stdout: &[u8], stderr: &[u8]) -> CommandOutput {
    CommandOutput {
        status: Some(status),
        success: status == 0,
        stdout: stdout.to_vec(),
        stderr: stderr.to_vec(),
    }
}

fn captured(bytes: &[u8], truncated: bool) -> CapturedBytes {
    CapturedBytes {
        bytes: bytes.to_vec(),
        truncated,
    }
}

fn limited(status: i32, stdout: CapturedBytes, stderr: &[u8]) -> LimitedOutput {
    LimitedOutput {
        status: Some(status),
        success: status == 0,
        stdout,
        stderr: captured(stderr, false),
    }
}

#[test]
fn capture_keeps_a_prefix_and_marks_overflow() {
    let mut capture = CapturedBytes::new();
    capture.absorb(b"hello", 8);
    assert_eq!(capture.bytes, b"hello");
    assert!(!capture.truncated);
    capture.absorb(b" world", 8);
    assert_eq!(capture.bytes, b"hello wo");
    assert!(capture.truncated);
    capture.absorb(b"!", 8);
    assert_eq!(capture.bytes, b"hello wo");
    assert!(capture.truncated);

    let mut exact = CapturedBytes::new();
    exact.absorb(b"1234", 4);
    assert_eq!(exact.bytes, b"1234");
    assert!(!exact.truncated);
}

#[test]
fn lossy_decoding_replaces_invalid_bytes_and_trims() {
    assert_eq!(lossy_trim(b"  main\n"), "main");
    assert_eq!(lossy_trim(b"a\xffb"), "a\u{FFFD}b");
    assert_eq!(lossy_trim(b"\xe2\x82"), "\u{FFFD}");
    assert_eq!(lossy_trim("é".as_bytes()), "é");
}

#[test]
fn git_error_messages() {
    let error = require_success("push", output(128, b"", b"  fatal: no remote  \n")).unwrap_err();
    assert_eq!(error.message(), "git push failed with exit status 128: fatal: no remote");
    let silent = GitError::Command {
        operation: "push".to_string(),
        status: None,
        stderr: "  ".to_string(),
    };
    assert_eq!(silent.message(), "git push failed");
    let negative = GitError::Command {
        operation: "log".to_string(),
        status: Some(-1),
        stderr: String::new(),
    };
    assert_eq!(negative.message(), "git log failed with exit status -1");
    assert_eq!(
        GitError::Io {
            operation: "add -A".to_string(),
            message: "not found".to_string(),
        }
        .message(),
        "could not run git add -A: not found"
    );
    assert_eq!(
        GitError::NotWorktree.message(),
        "the current directory is not inside a Git worktree"
    );
    assert_eq!(GitError::NoStagedChanges.message(), "stage-all produced no staged changes");
    assert_eq!(require_success("x", output(0, b"out", b"")).unwrap(), b"out");
}

#[test]
fn worktree_and_staged_verdicts() {
    assert!(worktree_verdict(output(0, b"true\n", b"")).is_ok());
    assert!(matches!(worktree_verdict(output(0, b"false\n", b"")), Err(GitError::NotWorktree)));
    assert!(matches!(
        worktree_verdict(output(128, b"", b"fatal: Not a git repository (or any parent)")),
        Err(GitError::NotWorktree)
    ));
    assert!(matches!(
        worktree_verdict(output(128, b"", b"fatal: other")),
        Err(GitError::Command { status: Some(128), .. })
    ));

    assert!(!staged_changes_verdict(output(0, b"", b"")).unwrap());
    assert!(staged_changes_verdict(output(1, b"", b"")).unwrap());
    assert!(matches!(
        staged_changes_verdict(output(2, b"", b"bad")),
        Err(GitError::Command { status: Some(2), .. })
    ));

    assert_eq!(staged_tree_verdict(output(0, b"abc123\n", b"")).unwrap(), "abc123");
    assert_eq!(
        staged_tree_verdict(output(0, b" \n", b"")).unwrap_err().message(),
        "git write-tree failed with exit status 1: Git returned an empty staged tree ID"
    );
    assert_eq!(commit_id_verdict(output(0, b"deadbeef\n", b"")).unwrap(), "deadbeef");
    assert_eq!(
        commit_id_verdict(output(0, b"", b"")).unwrap_err().message(),
        "git rev-parse HEAD failed with exit status 1: Git returned an empty commit ID"
    );

    assert_eq!(symbolic_ref_verdict(output(0, b"main\n", b"")).unwrap().as_deref(), Some("main"));
    assert!(symbolic_ref_verdict(output(1, b"", b"")).unwrap().is_none());
    assert!(symbolic_ref_verdict(output(128, b"", b"fatal")).is_err());
    assert_eq!(detached_branch_verdict(output(0, b"HEAD\n", b"")).unwrap(), "HEAD");
}

#[test]
fn commit_arguments_split_subject_and_body() {
    assert_eq!(commit_arguments("subject"), vec!["commit", "-m", "subject"]);
    assert_eq!(
        commit_arguments("subject\n\nbody\n\nmore"),
        vec!["commit", "-m", "subject", "-m", "body\n\nmore"]
    );
    assert_eq!(commit_arguments("subject\n\n"), vec!["commit", "-m", "subject"]);
}

#[test]
fn context_sections_respect_unicode_limits() {
    let (text, truncation) = bounded_lossy_with_capture("ééé".as_bytes(), 3, false);
    assert_eq!(text, "ééé");
    assert!(!truncation.truncated);
    assert_eq!(truncation.original_code_points, 3);

    let long = "é".repeat(500);
    let (text, truncation) = bounded_lossy_with_capture(long.as_bytes(), 120, false);
    assert!(text.chars().count() <= 120);
    assert!(text.ends_with("\n[context truncated to 120 Unicode code points]"));
    assert!(truncation.truncated);
    assert_eq!(truncation.original_code_points, 500);
    assert_eq!(truncation.retained_code_points, 120 - 47);

    let (text, truncation) = bounded_lossy_with_capture(long.as_bytes(), 40, false);
    assert_eq!(text, "é".repeat(40));
    assert!(truncation.truncated);
    assert_eq!(truncation.retained_code_points, 0);

    let (_, truncation) = bounded_lossy_with_capture(b"abc", 120, true);
    assert!(truncation.truncated);
    assert_eq!(truncation.original_code_points, 121);

    let context = build_repository_context(
        "main".to_string(),
        "tree".to_string(),
        captured(long.as_bytes(), false),
        captured(b"+data", false),
        ContextLimits {
            stat_max_chars: 120,
            patch_max_chars: 500,
        },
    );
    assert_eq!(context.branch, "main");
    assert_eq!(context.staged_tree, "tree");
    assert!(context.stat_truncation.truncated);
    assert_eq!(context.patch, "+data");
    assert!(context.any_truncated());

    assert_eq!(capture_limit(6000), (6000 + 64) * 4 + 4);
    assert_eq!(capture_limit(usize::MAX), usize::MAX);
}

#[test]
fn history_examples_are_joined_and_bounded() {
    let log = limited(0, captured(b"feat: one\n\nbody\0\n\0  fix: two  \0", false), b"");
    let history = history_from_log(log).unwrap();
    assert_eq!(history.examples, "feat: one\n\nbody\n---\nfix: two");
    assert!(!history.truncated);
    assert!(!history.fallback);

    let empty = history_from_log(limited(0, captured(b"\0\0", false), b"")).unwrap();
    assert_eq!(empty.examples, "No eligible non-merge commit history is available.");
    assert!(empty.fallback);

    let unborn = history_from_log(limited(
        128,
        captured(b"", false),
        b"fatal: your current branch 'main' does not have any commits yet",
    ))
    .unwrap();
    assert!(unborn.fallback);

    let failed = history_from_log(limited(128, captured(b"", false), b"fatal: broken")).unwrap_err();
    assert_eq!(failed.message(), "git log --no-merges failed with exit status 128: fatal: broken");

    let big = format!("{}\0{}\0", "a".repeat(11_000), "b".repeat(2_000));
    let bounded = history_from_log(limited(0, captured(big.as_bytes(), false), b"")).unwrap();
    assert!(bounded.truncated);
    assert!(bounded.examples.chars().count() <= 12_000);
    assert!(bounded
        .examples
        .ends_with("\n[history examples truncated to 12000 Unicode code points]"));

    let cut = history_from_log(limited(0, captured(b"feat: a\0", true), b"")).unwrap();
    assert!(cut.truncated);
    assert!(cut.examples.starts_with("feat: a\n[history examples truncated"));

    assert_eq!(with_bounded_marker("abcdef", 5, "[m]"), "a\n[m]");
    assert_eq!(with_bounded_marker("abcdef", 3, "[m]"), "\n[m");
}

fn profile() -> Profile {
    Profile {
        name: "default".to_string(),
        harness: "codex".to_string(),
        model: "gpt-5.6-luna".to_string(),
        reasoning_effort: "low".to_string(),
    }
}

#[test]
fn codex_invocation_is_read_only_ephemeral_and_schema_bound() {
    let args = codex_args_for(&profile(), "/repo", "/tmp/schema.json", "/tmp/last.txt");
    assert!(args.contains(&"--ephemeral".to_string()));
    assert!(args.contains(&"approval_policy=\"never\"".to_string()));
    assert!(args
        .windows(2)
        .any(|pair| pair[0] == "--sandbox" && pair[1] == "read-only"));
    assert!(args
        .windows(2)
        .any(|pair| pair[0] == "--output-schema" && pair[1] == "/tmp/schema.json"));
    assert!(args
        .windows(2)
        .any(|pair| pair[0] == "--output-last-message" && pair[1] == "/tmp/last.txt"));
    assert!(args.windows(2).any(|pair| pair[0] == "--model" && pair[1] == "gpt-5.6-luna"));
    assert!(args.contains(&"model_reasoning_effort=\"low\"".to_string()));
    assert_eq!(args.last().map(String::as_str), Some("-"));
}

#[test]
fn codex_outcomes() {
    assert!(matches!(
        codex_outcome(true, true, "exit status: 0", b"", Some(10), 0),
        Err(GenerationError::Cancelled)
    ));
    match codex_outcome(false, false, "exit status: 2", b" oops \n", None, 0) {
        Err(GenerationError::Process(message)) => {
            assert_eq!(message, "Codex exited with status exit status: 2: oops")
        }
        other => panic!("unexpected {other:?}"),
    }
    match codex_outcome(false, false, "exit status: 2", b"", None, 0) {
        Err(GenerationError::Process(message)) => {
            assert_eq!(message, "Codex exited with status exit status: 2")
        }
        other => panic!("unexpected {other:?}"),
    }
    assert_eq!(
        codex_outcome(false, true, "ok", b"", Some(10), 5).unwrap(),
        ResponseSource::OutputFile
    );
    assert_eq!(codex_outcome(false, true, "ok", b"", None, 5).unwrap(), ResponseSource::Stdout);
    match codex_outcome(false, true, "ok", b"", Some(MAX_RESPONSE_BYTES as u64 + 1), 0) {
        Err(GenerationError::InvalidResponse(CommitPolicyError::ResponseTooLarge { actual, max })) => {
            assert_eq!(actual, MAX_RESPONSE_BYTES + 1);
            assert_eq!(max, MAX_RESPONSE_BYTES);
        }
        other => panic!("unexpected {other:?}"),
    }
    match codex_outcome(false, true, "ok", b"", None, 0) {
        Err(GenerationError::Process(message)) => {
            assert_eq!(message, "Codex did not produce a final message")
        }
        other => panic!("unexpected {other:?}"),
    }
    assert_eq!(
        codex_failure(CodexFailure::Schema, "disk full").message(),
        "cannot create temporary Codex output schema: disk full"
    );
    assert!(matches!(run_failure(true, "cancelled"), GenerationError::Cancelled));
    assert_eq!(run_failure(false, "timed out").message(), "Codex generation failed: timed out");
}

#[test]
fn supervisor_decisions() {
    assert_eq!(supervise(true, true, true), Supervision::Cancel);
    assert_eq!(supervise(false, true, true), Supervision::TimeOut);
    assert_eq!(supervise(false, false, true), Supervision::Finished);
    assert_eq!(supervise(false, false, false), Supervision::Wait);
    assert!(stdin_failure_matters(false, true));
    assert!(!stdin_failure_matters(true, true));
    assert!(!stdin_failure_matters(false, false));
}

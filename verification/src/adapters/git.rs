//! What Git's output means: command verdicts, the bounded repository
//! context and the history examples used as style evidence.

use vstd::prelude::*;

use crate::adapters::capture::CapturedBytes;
use crate::config::ContextLimits;
use crate::domain::{RepositoryContext, Truncation};
use crate::generation::style::{empty_history, empty_history_text, HistoryEvidence};
use crate::text::{
    ascii_lower, chars_of, contains_str, contains_text, decimal, decimal_string,
    decode_utf8_lossy, find, find_chars, find_from, is_blank, lemma_find_from_skip, lowercase_ascii,
    prefix, push_char, push_chars, push_str, sat_add, sat_mul, sat_sub, signed_decimal,
    signed_decimal_string, split_char, split_once, str_equal, str_is_blank, sub_chars, trim,
    trim_bounds, trimmed, utf8_lossy, has_substring, lemma_has_substring_contains,
};

verus! {

/// Bytes of a failing command's stderr that are retained.
pub const MAX_CAPTURED_STDERR_BYTES: usize = 65536;

/// Code points of history examples that are retained.
pub const HISTORY_MAX_CHARS: usize = 12000;

#[derive(Debug)]
pub enum GitError {
    Command { operation: String, status: Option<i32>, stderr: String },
    Io { operation: String, message: String },
    NotWorktree,
    NoStagedChanges,
}

/// The text that reports a Git error.
pub open spec fn git_error_text(e: GitError) -> Seq<char> {
    match e {
        GitError::Command { operation, status, stderr } => (match status {
            Some(code) => "git "@ + operation@ + " failed with exit status "@ + signed_decimal(
                code as int,
            ),
            None => "git "@ + operation@ + " failed"@,
        }) + if is_blank(stderr@) {
            Seq::<char>::empty()
        } else {
            ": "@ + trim(stderr@)
        },
        GitError::Io { operation, message } => "could not run git "@ + operation@ + ": "@
            + message@,
        GitError::NotWorktree => "the current directory is not inside a Git worktree"@,
        GitError::NoStagedChanges => "stage-all produced no staged changes"@,
    }
}

impl GitError {
    pub fn message(&self) -> (s: String)
        ensures
            s@ == git_error_text(*self),
    {
        let mut s = String::new();
        match self {
            GitError::Command { operation, status, stderr } => {
                push_str(&mut s, "git ");
                push_str(&mut s, operation.as_str());
                match status {
                    Some(code) => {
                        push_str(&mut s, " failed with exit status ");
                        let c = signed_decimal_string(*code);
                        push_str(&mut s, c.as_str());
                    },
                    None => {
                        push_str(&mut s, " failed");
                    },
                }
                if !str_is_blank(stderr.as_str()) {
                    push_str(&mut s, ": ");
                    let t = trimmed(stderr.as_str());
                    push_str(&mut s, t.as_str());
                }
            },
            GitError::Io { operation, message } => {
                push_str(&mut s, "could not run git ");
                push_str(&mut s, operation.as_str());
                push_str(&mut s, ": ");
                push_str(&mut s, message.as_str());
            },
            GitError::NotWorktree => {
                push_str(&mut s, "the current directory is not inside a Git worktree");
            },
            GitError::NoStagedChanges => {
                push_str(&mut s, "stage-all produced no staged changes");
            },
        }
        assert(s@ =~= git_error_text(*self));
        s
    }
}

/// A finished Git command: exit code, whether it succeeded, and its output.
#[derive(Debug)]
pub struct CommandOutput {
    pub status: Option<i32>,
    pub success: bool,
    pub stdout: Vec<u8>,
    pub stderr: Vec<u8>,
}

/// A finished Git command whose output was captured within budgets.
#[derive(Debug)]
pub struct LimitedOutput {
    pub status: Option<i32>,
    pub success: bool,
    pub stdout: CapturedBytes,
    pub stderr: CapturedBytes,
}

/// Output bytes decoded lossily and trimmed.
pub open spec fn lossy_trimmed(bytes: Seq<u8>) -> Seq<char> {
    trim(utf8_lossy(bytes))
}

pub fn lossy_trim(bytes: &[u8]) -> (s: String)
    ensures
        s@ == lossy_trimmed(bytes@),
{
    let text = decode_utf8_lossy(bytes);
    trimmed(text.as_str())
}

/// `e` reports that `operation` failed with `status` and `stderr`.
pub open spec fn is_command_error(
    e: GitError,
    operation: Seq<char>,
    status: Option<i32>,
    stderr: Seq<char>,
) -> bool {
    e matches GitError::Command { operation: o, status: st, stderr: err } && o@ == operation && st
        == status && err@ == stderr
}

fn command_error(operation: &str, status: Option<i32>, stderr: String) -> (e: GitError)
    ensures
        is_command_error(e, operation@, status, stderr@),
{
    GitError::Command { operation: operation.to_owned(), status, stderr }
}

/// A command that must succeed: its stdout, or the error naming it.
pub fn require_success(operation: &str, output: CommandOutput) -> (r: Result<Vec<u8>, GitError>)
    ensures
        output.success ==> (r matches Ok(b) && b@ == output.stdout@),
        !output.success ==> (r matches Err(e) && is_command_error(
            e,
            operation@,
            output.status,
            lossy_trimmed(output.stderr@),
        )),
{
    if output.success {
        Ok(output.stdout)
    } else {
        Err(command_error(operation, output.status, lossy_trim(output.stderr.as_slice())))
    }
}

/// A bounded command that must succeed: its captured stdout, or the error
/// naming it.
pub fn require_limited_success(operation: &str, output: LimitedOutput) -> (r: Result<
    CapturedBytes,
    GitError,
>)
    ensures
        output.success ==> (r matches Ok(c) && c == output.stdout),
        !output.success ==> (r matches Err(e) && is_command_error(
            e,
            operation@,
            output.status,
            lossy_trimmed(output.stderr.bytes@),
        )),
{
    if output.success {
        Ok(output.stdout)
    } else {
        Err(command_error(operation, output.status, lossy_trim(output.stderr.bytes.as_slice())))
    }
}

/// Outside a worktree `rev-parse` fails with this complaint.
pub open spec fn outside_repository(stderr: Seq<char>) -> bool {
    contains_text(ascii_lower(stderr), "not a git repository"@)
}

/// The verdict of `git rev-parse --is-inside-work-tree`.
pub fn worktree_verdict(output: CommandOutput) -> (r: Result<(), GitError>)
    ensures
        output.success && lossy_trimmed(output.stdout@) == "true"@ ==> r is Ok,
        output.success && lossy_trimmed(output.stdout@) != "true"@ ==> (r matches Err(
            GitError::NotWorktree,
        )),
        !output.success && outside_repository(lossy_trimmed(output.stderr@)) ==> (r matches Err(
            GitError::NotWorktree,
        )),
        !output.success && !outside_repository(lossy_trimmed(output.stderr@)) ==> (r matches Err(e)
            && is_command_error(
            e,
            "rev-parse --is-inside-work-tree"@,
            output.status,
            lossy_trimmed(output.stderr@),
        )),
{
    if output.success {
        let out = lossy_trim(output.stdout.as_slice());
        if str_equal(out.as_str(), "true") {
            Ok(())
        } else {
            Err(GitError::NotWorktree)
        }
    } else {
        let stderr = lossy_trim(output.stderr.as_slice());
        let v = chars_of(stderr.as_str());
        let lower = lowercase_ascii(v.as_slice());
        if contains_str(lower.as_slice(), "not a git repository") {
            Err(GitError::NotWorktree)
        } else {
            Err(command_error("rev-parse --is-inside-work-tree", output.status, stderr))
        }
    }
}

/// The verdict of `git diff --cached --quiet --exit-code`: exit 0 means
/// nothing staged, exit 1 means changes staged.
pub fn staged_changes_verdict(output: CommandOutput) -> (r: Result<bool, GitError>)
    ensures
        output.status == Some(0i32) ==> r == Ok::<bool, GitError>(false),
        output.status == Some(1i32) ==> r == Ok::<bool, GitError>(true),
        output.status != Some(0i32) && output.status != Some(1i32) ==> (r matches Err(e)
            && is_command_error(
            e,
            "diff --cached --quiet"@,
            output.status,
            lossy_trimmed(output.stderr@),
        )),
{
    match output.status {
        Some(0) => Ok(false),
        Some(1) => Ok(true),
        _ => Err(
            command_error(
                "diff --cached --quiet",
                output.status,
                lossy_trim(output.stderr.as_slice()),
            ),
        ),
    }
}

/// An identifier printed by a successful command; empty output is an error.
pub open spec fn printed_id(
    output: CommandOutput,
    operation: Seq<char>,
    empty_complaint: Seq<char>,
    r: Result<String, GitError>,
) -> bool {
    if !output.success {
        r matches Err(e) && is_command_error(
            e,
            operation,
            output.status,
            lossy_trimmed(output.stderr@),
        )
    } else if lossy_trimmed(output.stdout@).len() == 0 {
        r matches Err(e) && is_command_error(e, operation, Some(1i32), empty_complaint)
    } else {
        r matches Ok(id) && id@ == lossy_trimmed(output.stdout@)
    }
}

fn id_verdict(operation: &str, empty_complaint: &str, output: CommandOutput) -> (r: Result<
    String,
    GitError,
>)
    ensures
        printed_id(output, operation@, empty_complaint@, r),
{
    let ghost out = output;
    let bytes = require_success(operation, output)?;
    let id = lossy_trim(bytes.as_slice());
    if str_is_blank(id.as_str()) {
        assert(id@.len() == 0) by {
            crate::text::lemma_trim_empty_iff_blank(utf8_lossy(out.stdout@));
            crate::text::lemma_trimmed_not_blank(utf8_lossy(out.stdout@));
        }
        Err(command_error(operation, Some(1), empty_complaint.to_owned()))
    } else {
        Ok(id)
    }
}

/// The verdict of `git write-tree`: the staged tree id.
pub fn staged_tree_verdict(output: CommandOutput) -> (r: Result<String, GitError>)
    ensures
        printed_id(output, "write-tree"@, "Git returned an empty staged tree ID"@, r),
{
    id_verdict("write-tree", "Git returned an empty staged tree ID", output)
}

/// The verdict of `git rev-parse HEAD` after committing: the commit id.
pub fn commit_id_verdict(output: CommandOutput) -> (r: Result<String, GitError>)
    ensures
        printed_id(output, "rev-parse HEAD"@, "Git returned an empty commit ID"@, r),
{
    id_verdict("rev-parse HEAD", "Git returned an empty commit ID", output)
}

/// The arguments of `git commit` for a full message: the part before the
/// first blank line is the subject, the rest (if any) the body.
pub open spec fn commit_args(message: Seq<char>) -> Seq<Seq<char>> {
    let (subject, body) = match split_once(message, seq!['\n', '\n']) {
        Some((s, b)) => (s, b),
        None => (message, Seq::<char>::empty()),
    };
    seq!["commit"@, "-m"@, subject] + if body.len() > 0 {
        seq!["-m"@, body]
    } else {
        Seq::<Seq<char>>::empty()
    }
}

/// No blank-line separator starts inside a single-line text, even when
/// something follows it.
proof fn lemma_no_separator_before(line: Seq<char>, rest: Seq<char>, i: int)
    requires
        !line.contains('\n'),
        0 <= i <= line.len(),
    ensures
        find_from(line + rest, seq!['\n', '\n'], i) == find_from(
            line + rest,
            seq!['\n', '\n'],
            line.len() as int,
        ),
    decreases line.len() - i,
{
    if i < line.len() {
        let s = line + rest;
        if i + 2 <= s.len() {
            assert(s.subrange(i, i + 2)[0] == line[i]);
            assert(s.subrange(i, i + 2) != seq!['\n', '\n']);
        }
        lemma_no_separator_before(line, rest, i + 1);
    }
}

/// A draft's full message, committed, gives `git commit` the draft's subject
/// and, when the body has text, the body, each as its own `-m`.
pub proof fn law_commit_args_round_trip(subject: Seq<char>, body: Seq<char>)
    requires
        !subject.contains('\n'),
    ensures
        commit_args(crate::domain::commit::full_message_text(subject, body)) == if is_blank(body) {
            seq!["commit"@, "-m"@, subject]
        } else {
            seq!["commit"@, "-m"@, subject, "-m"@, body]
        },
{
    let sep = seq!['\n', '\n'];
    if is_blank(body) {
        lemma_no_separator_before(subject, Seq::<char>::empty(), 0);
        assert(subject + Seq::<char>::empty() =~= subject);
        assert(find_from(subject, sep, subject.len() as int) is None);
        assert(split_once(subject, sep) is None);
    } else {
        let m = subject + sep + body;
        lemma_no_separator_before(subject, sep + body, 0);
        assert(subject + (sep + body) =~= m);
        assert(m.subrange(subject.len() as int, subject.len() as int + 2) =~= sep);
        assert(find(m, sep) == Some(subject.len() as int));
        assert(m.subrange(0, subject.len() as int) =~= subject);
        assert(m.subrange(subject.len() as int + 2, m.len() as int) =~= body);
        assert(body.len() > 0);
    }
}

/// The texts of a list of strings.
pub open spec fn texts(v: Seq<String>) -> Seq<Seq<char>> {
    v.map_values(|s: String| s@)
}

/// The arguments of `git commit` for a full message.
pub fn commit_arguments(message: &str) -> (args: Vec<String>)
    ensures
        texts(args@) == commit_args(message@),
{
    let v = chars_of(message);
    let sep: Vec<char> = vec!['\n', '\n'];
    let sep_s = sep.as_slice();
    assert(sep_s@ =~= seq!['\n', '\n']);
    let n: usize = v.len();
    let (subject, body) = match find_chars(v.as_slice(), sep_s, 0) {
        Some(k) => {
            let mut s = String::new();
            push_chars(&mut s, v.as_slice(), 0, k);
            let mut b = String::new();
            push_chars(&mut b, v.as_slice(), k + 2, n);
            (s, b)
        },
        None => {
            let mut s = String::new();
            push_chars(&mut s, v.as_slice(), 0, n);
            assert(s@ =~= message@);
            (s, String::new())
        },
    };
    let body_empty = body.as_str().is_empty();
    let mut args: Vec<String> = Vec::new();
    args.push("commit".to_owned());
    args.push("-m".to_owned());
    args.push(subject);
    if !body_empty {
        args.push("-m".to_owned());
        args.push(body);
    }
    assert(texts(args@) =~= commit_args(message@));
    args
}

/// The verdict of `git symbolic-ref --short HEAD`: the branch name, `None`
/// for a detached HEAD (exit 1), or the error.
pub fn symbolic_ref_verdict(output: CommandOutput) -> (r: Result<Option<String>, GitError>)
    ensures
        output.success ==> (r matches Ok(Some(b)) && b@ == lossy_trimmed(output.stdout@)),
        !output.success && output.status == Some(1i32) ==> (r matches Ok(None)),
        !output.success && output.status != Some(1i32) ==> (r matches Err(e) && is_command_error(
            e,
            "symbolic-ref --short HEAD"@,
            output.status,
            lossy_trimmed(output.stderr@),
        )),
{
    if output.success {
        return Ok(Some(lossy_trim(output.stdout.as_slice())));
    }
    match output.status {
        Some(1) => Ok(None),
        _ => Err(
            command_error(
                "symbolic-ref --short HEAD",
                output.status,
                lossy_trim(output.stderr.as_slice()),
            ),
        ),
    }
}

/// The verdict of `git rev-parse --abbrev-ref HEAD` for a detached HEAD.
pub fn detached_branch_verdict(output: CommandOutput) -> (r: Result<String, GitError>)
    ensures
        output.success ==> (r matches Ok(b) && b@ == lossy_trimmed(output.stdout@)),
        !output.success ==> (r matches Err(e) && is_command_error(
            e,
            "rev-parse --abbrev-ref HEAD"@,
            output.status,
            lossy_trimmed(output.stderr@),
        )),
{
    let bytes = require_success("rev-parse --abbrev-ref HEAD", output)?;
    Ok(lossy_trim(bytes.as_slice()))
}

/// Bytes captured for a context section with this code-point budget: room
/// for four bytes per code point plus the marker.
pub open spec fn capture_budget(max_code_points: usize) -> usize {
    sat_add(sat_mul(sat_add(max_code_points, 64), 4), 4)
}

pub fn capture_limit(max_code_points: usize) -> (r: usize)
    ensures
        r == capture_budget(max_code_points),
{
    let a = max_code_points.saturating_add(64);
    let b = if a > usize::MAX / 4 {
        usize::MAX
    } else {
        a * 4
    };
    b.saturating_add(4)
}

/// The marker appended to a cut context section.
pub open spec fn context_marker(max: usize) -> Seq<char> {
    "\n[context truncated to "@ + decimal(max as nat) + " Unicode code points]"@
}

/// A context section bounded to `max` code points, and how it was bounded.
pub open spec fn bounded_context(text: Seq<char>, max: usize, captured_truncated: bool) -> (
    Seq<char>,
    Truncation,
) {
    let n = text.len();
    if !captured_truncated && n <= max {
        (
            text,
            Truncation {
                truncated: false,
                original_code_points: n as usize,
                retained_code_points: n as usize,
            },
        )
    } else {
        let m = context_marker(max);
        let retained = prefix(text, sat_sub(max, m.len() as usize) as int);
        (
            if m.len() <= max {
                retained + m
            } else {
                prefix(text, max as int)
            },
            Truncation {
                truncated: true,
                original_code_points: if captured_truncated {
                    if n >= sat_add(max, 1) {
                        n as usize
                    } else {
                        sat_add(max, 1)
                    }
                } else {
                    n as usize
                },
                retained_code_points: retained.len() as usize,
            },
        )
    }
}

/// A bounded context section never exceeds its budget.
pub proof fn lemma_bounded_context_len(text: Seq<char>, max: usize, captured_truncated: bool)
    ensures
        bounded_context(text, max, captured_truncated).0.len() <= max,
{
}

/// Decode captured output and bound it to `max_code_points`, marking a cut.
pub fn bounded_lossy_with_capture(bytes: &[u8], max_code_points: usize, captured_truncated: bool) -> (r: (
    String,
    Truncation,
))
    ensures
        r.0@ == bounded_context(utf8_lossy(bytes@), max_code_points, captured_truncated).0,
        r.1 == bounded_context(utf8_lossy(bytes@), max_code_points, captured_truncated).1,
{
    let text = decode_utf8_lossy(bytes);
    let v = chars_of(text.as_str());
    let n: usize = v.len();
    if !captured_truncated && n <= max_code_points {
        return (
            text,
            Truncation { truncated: false, original_code_points: n, retained_code_points: n },
        );
    }
    let mut marker = String::new();
    push_str(&mut marker, "\n[context truncated to ");
    let digits = decimal_string(max_code_points as u64);
    push_str(&mut marker, digits.as_str());
    push_str(&mut marker, " Unicode code points]");
    assert(marker@ =~= context_marker(max_code_points));
    let m = chars_of(marker.as_str());
    let mlen: usize = m.len();
    let retained_limit = max_code_points.saturating_sub(mlen);
    let keep = if retained_limit < n {
        retained_limit
    } else {
        n
    };
    let mut value = String::new();
    push_chars(&mut value, v.as_slice(), 0, keep);
    assert(value@ =~= prefix(v@, retained_limit as int));
    if mlen <= max_code_points {
        push_str(&mut value, marker.as_str());
    } else {
        value = String::new();
        let k = if max_code_points < n {
            max_code_points
        } else {
            n
        };
        push_chars(&mut value, v.as_slice(), 0, k);
        assert(value@ =~= prefix(v@, max_code_points as int));
    }
    let original = if captured_truncated {
        let floor = max_code_points.saturating_add(1);
        if n >= floor {
            n
        } else {
            floor
        }
    } else {
        n
    };
    (value, Truncation { truncated: true, original_code_points: original, retained_code_points: keep })
}

/// The repository context from Git's answers, each diff section bounded to
/// its budget.
pub fn build_repository_context(
    branch: String,
    staged_tree: String,
    stat: CapturedBytes,
    patch: CapturedBytes,
    limits: ContextLimits,
) -> (c: RepositoryContext)
    ensures
        c.branch == branch,
        c.staged_tree == staged_tree,
        c.stat@ == bounded_context(
            utf8_lossy(stat.bytes@),
            limits.stat_max_chars,
            stat.truncated,
        ).0,
        c.stat_truncation == bounded_context(
            utf8_lossy(stat.bytes@),
            limits.stat_max_chars,
            stat.truncated,
        ).1,
        c.patch@ == bounded_context(
            utf8_lossy(patch.bytes@),
            limits.patch_max_chars,
            patch.truncated,
        ).0,
        c.patch_truncation == bounded_context(
            utf8_lossy(patch.bytes@),
            limits.patch_max_chars,
            patch.truncated,
        ).1,
{
    let (stat_text, stat_truncation) = bounded_lossy_with_capture(
        stat.bytes.as_slice(),
        limits.stat_max_chars,
        stat.truncated,
    );
    let (patch_text, patch_truncation) = bounded_lossy_with_capture(
        patch.bytes.as_slice(),
        limits.patch_max_chars,
        patch.truncated,
    );
    RepositoryContext {
        branch,
        staged_tree,
        stat: stat_text,
        patch: patch_text,
        stat_truncation,
        patch_truncation,
    }
}

/// The separator between history examples.
pub open spec fn history_separator() -> Seq<char> {
    "\n---\n"@
}

/// The marker appended to cut history examples.
pub open spec fn history_marker() -> Seq<char> {
    "[history examples truncated to 12000 Unicode code points]"@
}

/// Trimmed, non-empty commit messages joined by the separator until the
/// 12000 code-point budget runs out; the flag tells whether it ran out.
pub open spec fn gather(msgs: Seq<Seq<char>>, acc: Seq<char>) -> (Seq<char>, bool)
    decreases msgs.len(),
{
    if msgs.len() == 0 {
        (acc, false)
    } else {
        let m = trim(msgs[0]);
        if m.len() == 0 {
            gather(msgs.drop_first(), acc)
        } else {
            let sep = if acc.len() == 0 {
                Seq::<char>::empty()
            } else {
                history_separator()
            };
            if acc.len() + sep.len() + m.len() > 12000 {
                let available = 12000 - (acc.len() + sep.len());
                (
                    if available > 0 {
                        acc + sep + m.take(available)
                    } else {
                        acc
                    },
                    true,
                )
            } else {
                gather(msgs.drop_first(), acc + sep + m)
            }
        }
    }
}

/// Text cut to fit `max` code points together with a marker on its own line.
pub open spec fn with_marker(text: Seq<char>, max: int, marker: Seq<char>) -> Seq<char> {
    let m = seq!['\n'] + marker;
    if m.len() >= max {
        prefix(m, max)
    } else {
        prefix(text, max - m.len()) + m
    }
}

/// The examples that `git log` output yields, and whether they were cut.
pub open spec fn history_examples(stdout: Seq<u8>, capture_truncated: bool) -> (Seq<char>, bool) {
    let (examples, cut) = gather(split_char(utf8_lossy(stdout), '\0'), Seq::<char>::empty());
    if cut || capture_truncated {
        (with_marker(examples, 12000, history_marker()), true)
    } else {
        (examples, false)
    }
}

/// `git log` on an unborn branch fails with one of these complaints.
pub open spec fn lacks_commits(stderr: Seq<char>) -> bool {
    let lower = ascii_lower(stderr);
    ||| contains_text(lower, "does not have any commits yet"@)
    ||| contains_text(lower, "ambiguous argument 'head'"@)
    ||| contains_text(lower, "your current branch"@) && contains_text(
        lower,
        "does not have any commits"@,
    )
}

/// The complaint of `git log` on a branch without commits, whichever of
/// Git's wordings (in any letter case) its stderr carries.
pub open spec fn names_unborn_branch(stderr: Seq<char>) -> bool {
    ||| has_substring(ascii_lower(stderr), "ambiguous argument 'head'"@)
    ||| has_substring(ascii_lower(stderr), "does not have any commits yet"@)
    ||| has_substring(ascii_lower(stderr), "your current branch"@) && has_substring(
        ascii_lower(stderr),
        "does not have any commits"@,
    )
}

/// A branch without commits is not an error for history collection: every
/// wording of Git's complaint about it is recognised.
pub proof fn law_unborn_branch_is_recognised(stderr: Seq<char>)
    requires
        names_unborn_branch(stderr),
    ensures
        lacks_commits(stderr),
{
    let lower = ascii_lower(stderr);
    if has_substring(lower, "ambiguous argument 'head'"@) {
        lemma_has_substring_contains(lower, "ambiguous argument 'head'"@);
    } else if has_substring(lower, "does not have any commits yet"@) {
        lemma_has_substring_contains(lower, "does not have any commits yet"@);
    } else {
        lemma_has_substring_contains(lower, "your current branch"@);
        lemma_has_substring_contains(lower, "does not have any commits"@);
    }
}

pub proof fn lemma_history_separator_len()
    ensures
        history_separator().len() == 5,
{
    reveal_strlit("\n---\n");
}

/// Gathered examples stay within the budget.
pub proof fn lemma_gather_len(msgs: Seq<Seq<char>>, acc: Seq<char>)
    requires
        acc.len() <= 12000,
    ensures
        gather(msgs, acc).0.len() <= 12000,
    decreases msgs.len(),
{
    lemma_history_separator_len();
    if msgs.len() > 0 {
        let m = trim(msgs[0]);
        if m.len() == 0 {
            lemma_gather_len(msgs.drop_first(), acc);
        } else {
            let sep = if acc.len() == 0 {
                Seq::<char>::empty()
            } else {
                history_separator()
            };
            if acc.len() + sep.len() + m.len() > 12000 {
            } else {
                lemma_gather_len(msgs.drop_first(), acc + sep + m);
            }
        }
    }
}

/// History examples never exceed 12000 code points.
pub proof fn lemma_history_examples_len(stdout: Seq<u8>, capture_truncated: bool)
    ensures
        history_examples(stdout, capture_truncated).0.len() <= 12000,
{
    lemma_gather_len(split_char(utf8_lossy(stdout), '\0'), Seq::<char>::empty());
}

proof fn lemma_split_step(v: Seq<char>, i: int, found: Option<int>)
    requires
        0 <= i <= v.len(),
        found == find_from(v, seq!['\0'], i),
    ensures
        match found {
            Some(k) => i <= k < v.len() && split_char(v.skip(i), '\0') == seq![
                v.subrange(i, k),
            ] + split_char(v.skip(k + 1), '\0'),
            None => split_char(v.skip(i), '\0') == seq![v.subrange(i, v.len() as int)],
        },
{
    lemma_find_from_skip(v, seq!['\0'], i, 0);
    crate::text::lemma_find_from_bounds(v, seq!['\0'], i);
    let t = v.skip(i);
    match found {
        Some(k) => {
            assert(t.take(k - i) =~= v.subrange(i, k));
            assert(t.skip(k - i + 1) =~= v.skip(k + 1));
        },
        None => {
            assert(t =~= v.subrange(i, v.len() as int));
        },
    }
}

fn gather_examples(v: &[char]) -> (r: (String, bool))
    ensures
        (r.0@, r.1) == gather(split_char(v@, '\0'), Seq::<char>::empty()),
{
    proof {
        lemma_history_separator_len();
    }
    let nul: Vec<char> = vec!['\0'];
    let nul_s = nul.as_slice();
    assert(nul_s@ =~= seq!['\0']);
    let n: usize = v.len();
    let mut examples = String::new();
    let mut ex_len: usize = 0;
    let mut i: usize = 0;
    assert(v@.skip(0) =~= v@);
    loop
        invariant
            n == v@.len(),
            i <= n,
            nul_s@ == seq!['\0'],
            ex_len == examples@.len(),
            ex_len <= 12000,
            history_separator().len() == 5,
            gather(split_char(v@, '\0'), Seq::<char>::empty()) == gather(
                split_char(v@.skip(i as int), '\0'),
                examples@,
            ),
        decreases n - i,
    {
        let found = find_chars(v, nul_s, i);
        let end = match found {
            Some(k) => k,
            None => n,
        };
        proof {
            let ghost f = match found {
                Some(k) => Some(k as int),
                None => None::<int>,
            };
            lemma_split_step(v@, i as int, f);
        }
        let seg = sub_chars(v, i, end);
        let ghost msgs = split_char(v@.skip(i as int), '\0');
        assert(msgs[0] == seg@);
        let (a, b) = trim_bounds(seg.as_slice());
        let mlen: usize = b - a;
        if mlen > 0 {
            let sep_len: usize = if ex_len == 0 {
                0
            } else {
                5
            };
            if mlen > 12000 || ex_len + sep_len + mlen > 12000 {
                let used: usize = ex_len + sep_len;
                if used < 12000 {
                    let available: usize = 12000 - used;
                    let ghost before = examples@;
                    if ex_len > 0 {
                        push_str(&mut examples, "\n---\n");
                    }
                    push_chars(&mut examples, seg.as_slice(), a, a + available);
                    assert(seg@.subrange(a as int, a + available) =~= seg@.subrange(
                        a as int,
                        b as int,
                    ).take(available as int));
                    assert(examples@ =~= before + (if before.len() == 0 {
                        Seq::<char>::empty()
                    } else {
                        history_separator()
                    }) + trim(seg@).take(available as int));
                }
                return (examples, true);
            }
            let ghost before = examples@;
            if ex_len > 0 {
                push_str(&mut examples, "\n---\n");
            }
            push_chars(&mut examples, seg.as_slice(), a, b);
            ex_len = ex_len + sep_len + mlen;
            assert(examples@ =~= before + (if before.len() == 0 {
                Seq::<char>::empty()
            } else {
                history_separator()
            }) + trim(msgs[0]));
        }
        proof {
            match found {
                Some(k) => {
                    assert(msgs.drop_first() =~= split_char(v@.skip(k + 1), '\0'));
                },
                None => {
                    assert(msgs.drop_first().len() == 0);
                    assert(gather(msgs.drop_first(), examples@) == (examples@, false));
                },
            }
        }
        match found {
            None => {
                return (examples, false);
            },
            Some(k) => {
                i = k + 1;
            },
        }
    }
}

/// `text` cut to leave room for the marker on its own line, then the marker.
pub fn with_bounded_marker(text: &str, max_code_points: usize, marker: &str) -> (s: String)
    ensures
        s@ == with_marker(text@, max_code_points as int, marker@),
{
    let mut m = String::new();
    push_char(&mut m, '\n');
    push_str(&mut m, marker);
    assert(m@ =~= seq!['\n'] + marker@);
    let mv = chars_of(m.as_str());
    let mlen: usize = mv.len();
    let mut s = String::new();
    if mlen >= max_code_points {
        push_chars(&mut s, mv.as_slice(), 0, max_code_points);
        assert(s@ =~= prefix(m@, max_code_points as int));
    } else {
        let v = chars_of(text);
        let room: usize = max_code_points - mlen;
        let k = if room < v.len() {
            room
        } else {
            v.len()
        };
        push_chars(&mut s, v.as_slice(), 0, k);
        assert(s@ =~= prefix(text@, room as int));
        push_str(&mut s, m.as_str());
    }
    s
}

/// The history evidence that `git log --no-merges -n 20 --format=%B%x00 HEAD`
/// yields. A branch without commits yields the fallback evidence.
pub fn history_from_log(output: LimitedOutput) -> (r: Result<HistoryEvidence, GitError>)
    ensures
        !output.success && lacks_commits(lossy_trimmed(output.stderr.bytes@)) ==> (r matches Ok(h)
            && h.examples@ == empty_history_text() && !h.truncated && h.fallback),
        !output.success && !lacks_commits(lossy_trimmed(output.stderr.bytes@)) ==> (r matches Err(
            e,
        ) && is_command_error(
            e,
            "log --no-merges"@,
            output.status,
            lossy_trimmed(output.stderr.bytes@),
        )),
        !output.success && names_unborn_branch(lossy_trimmed(output.stderr.bytes@)) ==> (r matches Ok(
            h,
        ) && h.examples@ == "No eligible non-merge commit history is available."@ && !h.truncated
            && h.fallback),
        output.success ==> ({
            let (examples, cut) = history_examples(output.stdout.bytes@, output.stdout.truncated);
            if examples.len() == 0 {
                r matches Ok(h) && h.examples@ == empty_history_text() && !h.truncated
                    && h.fallback
            } else {
                r matches Ok(h) && h.examples@ == examples && h.truncated == cut && !h.fallback
            }
        }),
{
    proof {
        if names_unborn_branch(lossy_trimmed(output.stderr.bytes@)) {
            law_unborn_branch_is_recognised(lossy_trimmed(output.stderr.bytes@));
        }
    }
    if !output.success {
        let stderr = lossy_trim(output.stderr.bytes.as_slice());
        let v = chars_of(stderr.as_str());
        let lower = lowercase_ascii(v.as_slice());
        if contains_str(lower.as_slice(), "does not have any commits yet") || contains_str(
            lower.as_slice(),
            "ambiguous argument 'head'",
        ) || (contains_str(lower.as_slice(), "your current branch") && contains_str(
            lower.as_slice(),
            "does not have any commits",
        )) {
            return Ok(empty_history());
        }
        return Err(command_error("log --no-merges", output.status, stderr));
    }
    let text = decode_utf8_lossy(output.stdout.bytes.as_slice());
    let v = chars_of(text.as_str());
    let (gathered, cut) = gather_examples(v.as_slice());
    let (examples, truncated) = if cut || output.stdout.truncated {
        (
            with_bounded_marker(
                gathered.as_str(),
                HISTORY_MAX_CHARS,
                "[history examples truncated to 12000 Unicode code points]",
            ),
            true,
        )
    } else {
        (gathered, false)
    };
    if examples.as_str().is_empty() {
        Ok(empty_history())
    } else {
        Ok(HistoryEvidence { examples, truncated, fallback: false })
    }
}

} // verus!

//! What the terminal shows and how an answer is read. Printing and reading
//! the terminal is the caller's part.

use vstd::prelude::*;

use crate::domain::commit::{full_message_text, style_name};
use crate::domain::{CommitDraft, CommitStyle};
use crate::text::{chars_of, is_blank, push_str, str_is_blank};

verus! {

/// The confirmation prompt.
pub const CONFIRM_PROMPT: &'static str = "Press Enter to commit, or Ctrl+C/EOF to cancel: ";

/// What is reported after a cancellation.
pub const CANCELLED_TEXT: &'static str = "yeet: cancelled; changes remain staged";

/// The preview of a draft: the staged stat (or a note that it is
/// unavailable), the style fallback when there is one, and the message.
pub open spec fn preview_of(
    style: CommitStyle,
    fallback: Option<Seq<char>>,
    stat: Seq<char>,
    message: Seq<char>,
) -> Seq<char> {
    "Staged changes ("@ + style_name(style) + " style):\n"@ + (if is_blank(stat) {
        "  (stat unavailable)\n"@
    } else {
        stat + "\n"@
    }) + (match fallback {
        Some(f) => "Style fallback: "@ + f + "\n"@,
        None => Seq::<char>::empty(),
    }) + "\nProposed commit message:\n---\n"@ + message + "\n---\n"@
}

/// The preview shown before confirmation.
pub fn preview_text(style: CommitStyle, fallback: Option<&str>, stat: &str, draft: &CommitDraft) -> (s:
    String)
    ensures
        s@ == preview_of(
            style,
            match fallback {
                Some(f) => Some(f@),
                None => None,
            },
            stat@,
            full_message_text(draft.subject@, draft.body@),
        ),
{
    let mut s = String::new();
    push_str(&mut s, "Staged changes (");
    push_str(&mut s, style.as_str());
    push_str(&mut s, " style):\n");
    let ghost a = s@;
    if str_is_blank(stat) {
        push_str(&mut s, "  (stat unavailable)\n");
    } else {
        push_str(&mut s, stat);
        push_str(&mut s, "\n");
    }
    let ghost b = s@;
    if let Some(f) = fallback {
        push_str(&mut s, "Style fallback: ");
        push_str(&mut s, f);
        push_str(&mut s, "\n");
    }
    let ghost c = s@;
    push_str(&mut s, "\nProposed commit message:\n---\n");
    let message = draft.full_message();
    push_str(&mut s, message.as_str());
    push_str(&mut s, "\n---\n");
    assert(s@ =~= preview_of(
        style,
        match fallback {
            Some(f) => Some(f@),
            None => None,
        },
        stat@,
        full_message_text(draft.subject@, draft.body@),
    ));
    s
}

/// An answer approves when a line was read and it holds nothing but its
/// line ending.
pub open spec fn approves(read: usize, answer: Seq<char>) -> bool {
    read > 0 && forall|i: int| 0 <= i < answer.len() ==> #[trigger] answer[i] == '\r' || answer[i]
        == '\n'
}

/// Whether the line read from the terminal approves the commit.
pub fn confirmation_accepted(read: usize, answer: &str) -> (b: bool)
    ensures
        b == approves(read, answer@),
{
    if read == 0 {
        return false;
    }
    let v = chars_of(answer);
    let mut i: usize = 0;
    while i < v.len()
        invariant
            i <= v@.len(),
            v@ == answer@,
            forall|j: int| 0 <= j < i ==> #[trigger] v@[j] == '\r' || v@[j] == '\n',
        decreases v@.len() - i,
    {
        if v[i] != '\r' && v[i] != '\n' {
            return false;
        }
        i = i + 1;
    }
    true
}

/// What is reported after a commit.
pub fn committed_text(commit_id: &str, pushed: bool) -> (s: String)
    ensures
        s@ == "yeet: committed "@ + commit_id@ + if pushed {
            " and pushed successfully"@
        } else {
            " locally (push disabled)"@
        },
{
    let mut s = String::new();
    push_str(&mut s, "yeet: committed ");
    push_str(&mut s, commit_id);
    let ghost a = s@;
    if pushed {
        push_str(&mut s, " and pushed successfully");
    } else {
        push_str(&mut s, " locally (push disabled)");
    }
    s
}

/// A progress line.
pub fn progress_text(message: &str) -> (s: String)
    ensures
        s@ == "yeet: "@ + message@,
{
    let mut s = String::new();
    push_str(&mut s, "yeet: ");
    push_str(&mut s, message);
    s
}

} // verus!

//! Writing-style resolution: instructions, one-off guidance, history
//! evidence and the fallback for repositories without usable history.

use vstd::prelude::*;

use crate::domain::CommitStyle;
use crate::text::{chars_of, find, find_chars, is_blank, is_space, push_chars, push_str, str_is_blank};

verus! {

/// Instructions longer than this many code points are cut and marked.
pub const MAX_INSTRUCTION_CODE_POINTS: usize = 12000;

/// Recent commit messages used as style evidence.
#[derive(Clone, Debug, PartialEq, Eq)]
pub struct HistoryEvidence {
    pub examples: String,
    pub truncated: bool,
    pub fallback: bool,
}

/// Everything a generator needs to know about the writing style.
#[derive(Clone, Debug, PartialEq, Eq)]
pub struct ResolvedStyle {
    pub style: CommitStyle,
    pub history: Option<HistoryEvidence>,
    pub instructions: Option<String>,
    pub instructions_truncated: bool,
    pub fallback: Option<String>,
}

impl ResolvedStyle {
    pub fn description(&self) -> (s: &'static str)
        ensures
            s@ == match self.style {
                CommitStyle::Repository => "repository conventions"@,
                CommitStyle::Conventional => "Conventional Commits"@,
                CommitStyle::Custom => "custom instructions"@,
            },
    {
        match self.style {
            CommitStyle::Repository => "repository conventions",
            CommitStyle::Conventional => "Conventional Commits",
            CommitStyle::Custom => "custom instructions",
        }
    }
}

/// Why the writing style could not be resolved.
#[derive(Debug)]
pub enum StyleError {
    ReadInstructions { path: String, message: String },
    InvalidInstructionsUtf8 { path: String },
    MissingInstructions { path: String },
    CustomInstructionsRequired,
}

/// The text that reports a style error.
pub open spec fn style_error_text(e: StyleError) -> Seq<char> {
    match e {
        StyleError::ReadInstructions { path, message } => "cannot read instructions file "@
            + path@ + ": "@ + message@,
        StyleError::InvalidInstructionsUtf8 { path } => "instructions file "@ + path@
            + " is not valid UTF-8"@,
        StyleError::MissingInstructions { path } => "configured instructions file "@ + path@
            + " does not exist"@,
        StyleError::CustomInstructionsRequired =>
            "custom style requires non-whitespace instructions from a file or --instructions"@,
    }
}

impl StyleError {
    pub fn message(&self) -> (s: String)
        ensures
            s@ == style_error_text(*self),
    {
        let mut s = String::new();
        match self {
            StyleError::ReadInstructions { path, message } => {
                push_str(&mut s, "cannot read instructions file ");
                push_str(&mut s, path.as_str());
                push_str(&mut s, ": ");
                push_str(&mut s, message.as_str());
            },
            StyleError::InvalidInstructionsUtf8 { path } => {
                push_str(&mut s, "instructions file ");
                push_str(&mut s, path.as_str());
                push_str(&mut s, " is not valid UTF-8");
            },
            StyleError::MissingInstructions { path } => {
                push_str(&mut s, "configured instructions file ");
                push_str(&mut s, path.as_str());
                push_str(&mut s, " does not exist");
            },
            StyleError::CustomInstructionsRequired => {
                push_str(
                    &mut s,
                    "custom style requires non-whitespace instructions from a file or --instructions",
                );
            },
        }
        assert(s@ =~= style_error_text(*self));
        s
    }
}

/// What reading an instructions file gave.
#[derive(Debug)]
pub enum InstructionsRead {
    /// The file does not exist.
    Missing,
    /// The file exists but could not be read; the reader's complaint.
    Unreadable(String),
    /// The file is not valid UTF-8.
    NotUtf8,
    /// The file's text.
    Text(String),
}

/// A selected instructions file and what reading it gave.
#[derive(Debug)]
pub struct InstructionsFile {
    pub path: String,
    pub read: InstructionsRead,
}

/// The marker appended to instructions that were cut.
pub open spec fn instructions_marker() -> Seq<char> {
    "\n[instructions truncated to 12000 Unicode code points]"@
}

/// Instructions bounded to 12000 code points: longer text keeps its first
/// characters and ends with the marker.
pub open spec fn bounded_instruction_text(text: Seq<char>) -> Seq<char> {
    let m = instructions_marker();
    if text.len() <= 12000 {
        text
    } else if m.len() <= 12000 {
        text.take(12000 - m.len()) + m
    } else {
        m.take(12000)
    }
}

pub proof fn lemma_instructions_marker_len()
    ensures
        instructions_marker().len() == 54,
{
    reveal_strlit("\n[instructions truncated to 12000 Unicode code points]");
}

/// Bounded instructions never exceed 12000 code points.
pub proof fn lemma_bounded_instruction_len(text: Seq<char>)
    ensures
        bounded_instruction_text(text).len() <= 12000,
{
    lemma_instructions_marker_len();
}

/// Instructions of at most 12000 code points are kept unchanged; longer ones
/// become exactly 12000 code points: their first 11946 followed by the
/// truncation marker.
pub proof fn law_instructions_bound(text: Seq<char>)
    ensures
        text.len() <= 12000 ==> bounded_instruction_text(text) == text,
        text.len() > 12000 ==> bounded_instruction_text(text).len() == 12000
            && bounded_instruction_text(text) == text.take(11946)
            + "\n[instructions truncated to 12000 Unicode code points]"@,
{
    lemma_instructions_marker_len();
}

/// Bound instructions to 12000 Unicode code points, marking a cut.
pub fn bounded_instruction(text: &str) -> (s: String)
    ensures
        s@ == bounded_instruction_text(text@),
{
    let v = chars_of(text);
    let marker = "\n[instructions truncated to 12000 Unicode code points]";
    let m = chars_of(marker);
    let mut s = String::new();
    if v.len() <= MAX_INSTRUCTION_CODE_POINTS {
        push_chars(&mut s, v.as_slice(), 0, v.len());
        assert(s@ =~= text@);
    } else if m.len() <= MAX_INSTRUCTION_CODE_POINTS {
        let keep = MAX_INSTRUCTION_CODE_POINTS - m.len();
        push_chars(&mut s, v.as_slice(), 0, keep);
        push_str(&mut s, marker);
        assert(s@ =~= text@.take(keep as int) + marker@);
    } else {
        push_chars(&mut s, m.as_slice(), 0, MAX_INSTRUCTION_CODE_POINTS);
        assert(s@ =~= marker@.take(12000));
    }
    s
}

/// The history used when a repository has no eligible commits.
pub open spec fn empty_history_text() -> Seq<char> {
    "No eligible non-merge commit history is available."@
}

pub fn empty_history() -> (h: HistoryEvidence)
    ensures
        h.examples@ == empty_history_text(),
        !h.truncated,
        h.fallback,
{
    HistoryEvidence { examples: "No eligible non-merge commit history is available.".to_owned(), truncated: false, fallback: true }
}

/// A text's view, if present.
pub open spec fn opt_view(o: Option<String>) -> Option<Seq<char>> {
    match o {
        Some(s) => Some(s@),
        None => None,
    }
}

/// What an instructions file contributes: nothing for blank text, the
/// bounded text otherwise.
pub open spec fn file_instructions(text: Seq<char>) -> Option<Seq<char>> {
    if is_blank(text) {
        None
    } else {
        Some(bounded_instruction_text(text))
    }
}

/// The error that reading an instructions file produced, if any.
pub open spec fn read_error(path: String, read: InstructionsRead) -> Option<StyleError> {
    match read {
        InstructionsRead::Missing => Some(StyleError::MissingInstructions { path }),
        InstructionsRead::Unreadable(message) => Some(
            StyleError::ReadInstructions { path, message },
        ),
        InstructionsRead::NotUtf8 => Some(StyleError::InvalidInstructionsUtf8 { path }),
        InstructionsRead::Text(_) => None,
    }
}

/// Turn the outcome of reading an instructions file into instructions.
pub fn instructions_from_read(file: InstructionsFile) -> (r: Result<Option<String>, StyleError>)
    ensures
        match read_error(file.path, file.read) {
            Some(e) => r == Err::<Option<String>, StyleError>(e),
            None => r matches Ok(o) && file.read matches InstructionsRead::Text(t) && opt_view(o)
                == file_instructions(t@),
        },
{
    match file.read {
        InstructionsRead::Missing => Err(StyleError::MissingInstructions { path: file.path }),
        InstructionsRead::Unreadable(message) => Err(
            StyleError::ReadInstructions { path: file.path, message },
        ),
        InstructionsRead::NotUtf8 => Err(StyleError::InvalidInstructionsUtf8 { path: file.path }),
        InstructionsRead::Text(text) => {
            if str_is_blank(text.as_str()) {
                Ok(None)
            } else {
                Ok(Some(bounded_instruction(text.as_str())))
            }
        },
    }
}

/// The separator placed between file instructions and one-off guidance.
pub open spec fn one_off_separator() -> Seq<char> {
    "\n\nOne-off guidance:\n"@
}

/// File instructions combined with one-off guidance: non-blank guidance is
/// bounded and appended after non-blank file instructions, or replaces them.
pub open spec fn combined_instructions(file: Option<Seq<char>>, one_off: Option<Seq<char>>) -> Option<
    Seq<char>,
> {
    match one_off {
        Some(extra) if !is_blank(extra) => Some(
            match file {
                Some(existing) if !is_blank(existing) => existing + one_off_separator()
                    + bounded_instruction_text(extra),
                _ => bounded_instruction_text(extra),
            },
        ),
        _ => file,
    }
}

/// The fallback guidance for repository style without eligible history.
pub open spec fn history_fallback_text() -> Seq<char> {
    "No eligible commit history is available; use a concise imperative plain-text subject and an optional explanatory body."@
}

/// Repository style falls back to plain guidance when history is absent or
/// itself a fallback.
pub open spec fn style_fallback(style: CommitStyle, history: Option<HistoryEvidence>) -> Option<
    Seq<char>,
> {
    if style == CommitStyle::Repository && match history {
        Some(h) => h.fallback,
        None => true,
    } {
        Some(history_fallback_text())
    } else {
        None
    }
}

/// Whether instructions carry the truncation marker.
pub open spec fn marks_truncation(instructions: Option<Seq<char>>) -> bool {
    match instructions {
        Some(i) => find(i, "[instructions truncated"@) is Some,
        None => false,
    }
}

/// The instructions a resolution starts from, after reading the file.
pub open spec fn file_part(file: Option<InstructionsFile>) -> Result<Option<Seq<char>>, StyleError> {
    match file {
        None => Ok(None),
        Some(f) => match read_error(f.path, f.read) {
            Some(e) => Err(e),
            None => match f.read {
                InstructionsRead::Text(t) => Ok(file_instructions(t@)),
                _ => Ok(None),
            },
        },
    }
}

fn opt_clone(o: &Option<String>) -> (r: Option<String>)
    ensures
        r == *o,
{
    match o {
        Some(s) => Some(s.clone()),
        None => None,
    }
}

/// `r` is how a style resolves: the file's error if reading it failed; for
/// custom style without non-blank instructions, the error that asks for them;
/// otherwise the style with its history, instructions (file instructions and
/// one-off guidance combined), truncation flag and fallback.
pub open spec fn style_resolution(
    style: CommitStyle,
    file: Option<InstructionsFile>,
    one_off: Option<Seq<char>>,
    history: Option<HistoryEvidence>,
    r: Result<ResolvedStyle, StyleError>,
) -> bool {
    match file_part(file) {
        Err(e) => r == Err::<ResolvedStyle, StyleError>(e),
        Ok(base) => {
            let instructions = combined_instructions(base, one_off);
            if style == CommitStyle::Custom && match instructions {
                Some(i) => is_blank(i),
                None => true,
            } {
                r == Err::<ResolvedStyle, StyleError>(StyleError::CustomInstructionsRequired)
            } else {
                r matches Ok(rs) && rs.style == style && rs.history == history && opt_view(
                    rs.instructions,
                ) == instructions && rs.instructions_truncated == marks_truncation(instructions)
                    && opt_view(rs.fallback) == style_fallback(style, history)
            }
        },
    }
}

/// Style resolution: a missing instructions file is an error naming it;
/// custom style without any guidance is refused; repository style without
/// eligible history falls back to plain guidance and other styles never do;
/// short one-off guidance is kept as given, after any file instructions and
/// a "One-off guidance" heading.
pub proof fn law_style_resolution_rules(
    style: CommitStyle,
    file: Option<InstructionsFile>,
    one_off: Option<Seq<char>>,
    history: Option<HistoryEvidence>,
    r: Result<ResolvedStyle, StyleError>,
)
    requires
        style_resolution(style, file, one_off, history, r),
    ensures
        file is Some && file->Some_0.read is Missing ==> r == Err::<ResolvedStyle, StyleError>(
            StyleError::MissingInstructions { path: file->Some_0.path },
        ),
        file is None && one_off is None && style == CommitStyle::Custom ==> r == Err::<
            ResolvedStyle,
            StyleError,
        >(StyleError::CustomInstructionsRequired),
        r is Ok ==> r->Ok_0.style == style && r->Ok_0.history == history,
        r is Ok && style != CommitStyle::Repository ==> r->Ok_0.fallback is None,
        r is Ok && style == CommitStyle::Repository && (history is None
            || history->Some_0.fallback) ==> r->Ok_0.fallback is Some
            && r->Ok_0.fallback->Some_0@
            == "No eligible commit history is available; use a concise imperative plain-text subject and an optional explanatory body."@,
        r is Ok && style == CommitStyle::Repository && history is Some
            && !history->Some_0.fallback ==> r->Ok_0.fallback is None,
        file is None && one_off is Some && !is_blank(one_off->Some_0) && one_off->Some_0.len()
            <= 12000 ==> r is Ok && r->Ok_0.instructions is Some
            && r->Ok_0.instructions->Some_0@ == one_off->Some_0,
        file is Some && file->Some_0.read is Text && !is_blank(file->Some_0.read->Text_0@)
            && file->Some_0.read->Text_0@.len() <= 12000 && one_off is Some && !is_blank(
            one_off->Some_0,
        ) && one_off->Some_0.len() <= 12000 ==> r is Ok && r->Ok_0.instructions is Some
            && r->Ok_0.instructions->Some_0@ == file->Some_0.read->Text_0@
            + "\n\nOne-off guidance:\n"@ + one_off->Some_0,
{
    match one_off {
        Some(x) => {
            law_instructions_bound(x);
        },
        None => {},
    }
    match file {
        Some(f) => match f.read {
            InstructionsRead::Text(t) => {
                law_instructions_bound(t@);
                if !is_blank(t@) && one_off is Some {
                    let joined = t@ + one_off_separator() + bounded_instruction_text(
                        one_off->Some_0,
                    );
                    let k = choose|k: int| 0 <= k < t@.len() && !is_space(#[trigger] t@[k]);
                    assert(joined[k] == t@[k]);
                    assert(!is_blank(joined));
                }
            },
            _ => {},
        },
        None => {},
    }
}

/// Resolve instructions only for generated mode. Manual messages bypass this
/// function, history collection and all harness work.
pub fn resolve_generated_style(
    style: CommitStyle,
    file: Option<InstructionsFile>,
    one_off: Option<&str>,
    history: Option<HistoryEvidence>,
) -> (r: Result<ResolvedStyle, StyleError>)
    ensures
        style_resolution(
            style,
            file,
            match one_off {
                Some(x) => Some(x@),
                None => None,
            },
            history,
            r,
        ),
{
    let mut instructions: Option<String> = match file {
        None => None,
        Some(f) => match instructions_from_read(f) {
            Err(e) => {
                return Err(e);
            },
            Ok(o) => o,
        },
    };
    let ghost base = opt_view(instructions);
    match one_off {
        Some(extra) => {
            if !str_is_blank(extra) {
                let bounded = bounded_instruction(extra);
                let combined = match instructions {
                    Some(existing) => {
                        if !str_is_blank(existing.as_str()) {
                            let mut s = String::new();
                            push_str(&mut s, existing.as_str());
                            push_str(&mut s, "\n\nOne-off guidance:\n");
                            push_str(&mut s, bounded.as_str());
                            assert(s@ =~= existing@ + one_off_separator() + bounded@);
                            s
                        } else {
                            bounded
                        }
                    },
                    None => bounded,
                };
                instructions = Some(combined);
            }
        },
        None => {},
    }
    let blank = match &instructions {
        Some(i) => str_is_blank(i.as_str()),
        None => true,
    };
    if blank {
        if let CommitStyle::Custom = style {
            return Err(StyleError::CustomInstructionsRequired);
        }
    }
    let wants_fallback = match style {
        CommitStyle::Repository => match &history {
            Some(h) => h.fallback,
            None => true,
        },
        _ => false,
    };
    let fallback = if wants_fallback {
        Some(
            "No eligible commit history is available; use a concise imperative plain-text subject and an optional explanatory body.".to_owned(),
        )
    } else {
        None
    };
    let instructions_truncated = match &instructions {
        Some(i) => {
            let v = chars_of(i.as_str());
            let pat = chars_of("[instructions truncated");
            find_chars(v.as_slice(), pat.as_slice(), 0).is_some()
        },
        None => false,
    };
    Ok(ResolvedStyle { style, history, instructions, instructions_truncated, fallback })
}

} // verus!

//! Commit drafts, writing styles and the message policy.

use vstd::prelude::*;

use crate::text::{
    char_is_space, chars_of, contains_char, decimal, decimal_string, find, find_chars, is_blank,
    is_space, push_char, push_chars, push_str, split_once, str_equal, str_is_blank,
    has_substring, lemma_find_from_bounds,
};

verus! {

/// The only message shape accepted from a generator or the manual source.
#[derive(Clone, Debug, PartialEq, Eq)]
pub struct CommitDraft {
    pub subject: String,
    pub body: String,
}

/// The message Git receives: the subject alone when the body is blank,
/// otherwise subject, a blank line and the body.
pub open spec fn full_message_text(subject: Seq<char>, body: Seq<char>) -> Seq<char> {
    if is_blank(body) {
        subject
    } else {
        subject + seq!['\n', '\n'] + body
    }
}

impl CommitDraft {
    pub fn new(subject: &str, body: &str) -> (d: Self)
        ensures
            d.subject@ == subject@,
            d.body@ == body@,
    {
        CommitDraft { subject: subject.to_owned(), body: body.to_owned() }
    }

    /// A copy of the draft.
    pub fn duplicate(&self) -> (d: Self)
        ensures
            d == *self,
    {
        CommitDraft { subject: self.subject.clone(), body: self.body.clone() }
    }

    pub fn full_message(&self) -> (m: String)
        ensures
            m@ == full_message_text(self.subject@, self.body@),
    {
        if str_is_blank(self.body.as_str()) {
            let mut m = String::new();
            push_str(&mut m, self.subject.as_str());
            assert(m@ =~= self.subject@);
            m
        } else {
            let mut m = String::new();
            push_str(&mut m, self.subject.as_str());
            push_char(&mut m, '\n');
            push_char(&mut m, '\n');
            push_str(&mut m, self.body.as_str());
            assert(m@ =~= self.subject@ + seq!['\n', '\n'] + self.body@);
            m
        }
    }
}

/// The writing policy selected independently from a harness/model profile.
#[derive(Clone, Copy, Debug, PartialEq, Eq, Structural)]
pub enum CommitStyle {
    Repository,
    Conventional,
    Custom,
}

/// The name by which configuration and the command line select a style.
pub open spec fn style_name(style: CommitStyle) -> Seq<char> {
    match style {
        CommitStyle::Repository => "repository"@,
        CommitStyle::Conventional => "conventional"@,
        CommitStyle::Custom => "custom"@,
    }
}

/// The style that a name selects, if any.
pub open spec fn style_named(name: Seq<char>) -> Option<CommitStyle> {
    if name == "repository"@ {
        Some(CommitStyle::Repository)
    } else if name == "conventional"@ {
        Some(CommitStyle::Conventional)
    } else if name == "custom"@ {
        Some(CommitStyle::Custom)
    } else {
        None
    }
}

impl CommitStyle {
    pub fn as_str(self) -> (s: &'static str)
        ensures
            s@ == style_name(self),
    {
        match self {
            CommitStyle::Repository => "repository",
            CommitStyle::Conventional => "conventional",
            CommitStyle::Custom => "custom",
        }
    }
}

/// Parse a style name; unknown names are an error carrying the name.
pub fn parse_style(value: &str) -> (r: Result<CommitStyle, CommitPolicyError>)
    ensures
        match style_named(value@) {
            Some(style) => r == Ok::<CommitStyle, CommitPolicyError>(style),
            None => r matches Err(CommitPolicyError::UnknownStyle(name)) && name@ == value@,
        },
{
    if str_equal(value, "repository") {
        Ok(CommitStyle::Repository)
    } else if str_equal(value, "conventional") {
        Ok(CommitStyle::Conventional)
    } else if str_equal(value, "custom") {
        Ok(CommitStyle::Custom)
    } else {
        Err(CommitPolicyError::UnknownStyle(value.to_owned()))
    }
}

impl std::str::FromStr for CommitStyle {
    type Err = CommitPolicyError;

    fn from_str(value: &str) -> (r: Result<CommitStyle, CommitPolicyError>)
        ensures
            match style_named(value@) {
                Some(style) => r == Ok::<CommitStyle, CommitPolicyError>(style),
                None => r matches Err(CommitPolicyError::UnknownStyle(name)) && name@ == value@,
            },
    {
        parse_style(value)
    }
}

/// A style's name selects that style again.
pub proof fn lemma_style_name_round_trip(style: CommitStyle)
    ensures
        style_named(style_name(style)) == Some(style),
{
    reveal_strlit("repository");
    reveal_strlit("conventional");
    reveal_strlit("custom");
    assert("repository"@ != "conventional"@) by {
        assert("repository"@[0] != "conventional"@[0]);
    }
    assert("repository"@ != "custom"@) by {
        assert("repository"@[0] != "custom"@[0]);
    }
    assert("conventional"@ != "custom"@) by {
        assert("conventional"@[1] != "custom"@[1]);
    }
}

#[derive(Debug, PartialEq, Eq)]
pub enum CommitPolicyError {
    UnknownStyle(String),
    EmptySubject,
    MultilineSubject,
    NulCharacter,
    ConventionalSyntax,
    ConventionalLength,
    ConventionalTrailingPeriod,
    InvalidJson(String),
    ResponseTooLarge { actual: usize, max: usize },
}

/// The text that reports a policy error.
pub open spec fn policy_error_text(e: CommitPolicyError) -> Seq<char> {
    match e {
        CommitPolicyError::UnknownStyle(style) => "unknown commit style '"@ + style@
            + "'; use repository, conventional, or custom"@,
        CommitPolicyError::EmptySubject => "commit subject must contain non-whitespace text"@,
        CommitPolicyError::MultilineSubject => "commit subject must be a single line"@,
        CommitPolicyError::NulCharacter => "commit message must not contain NUL characters"@,
        CommitPolicyError::ConventionalSyntax =>
            "Conventional Commit subject must match lowercase type(scope)!: description"@,
        CommitPolicyError::ConventionalLength =>
            "Conventional Commit subject must be at most 72 Unicode code points"@,
        CommitPolicyError::ConventionalTrailingPeriod =>
            "Conventional Commit subject must not end with a period"@,
        CommitPolicyError::InvalidJson(message) => "generator response is not valid commit JSON: "@
            + message@,
        CommitPolicyError::ResponseTooLarge { actual, max } => "generator response is "@ + decimal(
            actual as nat,
        ) + " bytes; the maximum is "@ + decimal(max as nat),
    }
}

impl CommitPolicyError {
    /// The text that reports this error.
    pub fn message(&self) -> (s: String)
        ensures
            s@ == policy_error_text(*self),
    {
        let mut s = String::new();
        match self {
            CommitPolicyError::UnknownStyle(style) => {
                push_str(&mut s, "unknown commit style '");
                push_str(&mut s, style.as_str());
                push_str(&mut s, "'; use repository, conventional, or custom");
            },
            CommitPolicyError::EmptySubject => {
                push_str(&mut s, "commit subject must contain non-whitespace text");
            },
            CommitPolicyError::MultilineSubject => {
                push_str(&mut s, "commit subject must be a single line");
            },
            CommitPolicyError::NulCharacter => {
                push_str(&mut s, "commit message must not contain NUL characters");
            },
            CommitPolicyError::ConventionalSyntax => {
                push_str(
                    &mut s,
                    "Conventional Commit subject must match lowercase type(scope)!: description",
                );
            },
            CommitPolicyError::ConventionalLength => {
                push_str(&mut s, "Conventional Commit subject must be at most 72 Unicode code points");
            },
            CommitPolicyError::ConventionalTrailingPeriod => {
                push_str(&mut s, "Conventional Commit subject must not end with a period");
            },
            CommitPolicyError::InvalidJson(message) => {
                push_str(&mut s, "generator response is not valid commit JSON: ");
                push_str(&mut s, message.as_str());
            },
            CommitPolicyError::ResponseTooLarge { actual, max } => {
                push_str(&mut s, "generator response is ");
                let a = decimal_string(*actual as u64);
                push_str(&mut s, a.as_str());
                push_str(&mut s, " bytes; the maximum is ");
                let m = decimal_string(*max as u64);
                push_str(&mut s, m.as_str());
            },
        }
        assert(s@ =~= policy_error_text(*self));
        s
    }
}

/// A character allowed in a Conventional Commit type: lowercase ASCII
/// letter, ASCII digit, `-` or `_`.
pub open spec fn is_type_char(c: char) -> bool {
    let v = c as u32;
    (0x61 <= v <= 0x7A) || (0x30 <= v <= 0x39) || c == '-' || c == '_'
}

/// A non-empty commit type.
pub open spec fn is_commit_type(t: Seq<char>) -> bool {
    t.len() > 0 && forall|i: int| 0 <= i < t.len() ==> is_type_char(#[trigger] t[i])
}

/// A non-empty scope without parentheses or whitespace.
pub open spec fn is_scope(s: Seq<char>) -> bool {
    s.len() > 0 && forall|i: int|
        0 <= i < s.len() ==> #[trigger] s[i] != '(' && s[i] != ')' && !is_space(s[i])
}

/// `type` or `type(scope)`: the part of the prefix before an optional `!`.
pub open spec fn is_type_and_scope(rest: Seq<char>) -> bool {
    rest.len() > 0 && match find(rest, seq!['(']) {
        None => is_commit_type(rest),
        Some(open) => rest.last() == ')' && open != 0 && open + 2 <= rest.len() && is_scope(
            rest.subrange(open + 1, rest.len() - 1),
        ) && is_commit_type(rest.subrange(0, open)),
    }
}

/// The prefix without one trailing `!`.
pub open spec fn strip_bang(prefix: Seq<char>) -> Seq<char> {
    if prefix.len() > 0 && prefix.last() == '!' {
        prefix.drop_last()
    } else {
        prefix
    }
}

/// `type(scope)!: description`, split at the first `": "`, with a
/// non-blank description.
pub open spec fn is_conventional_subject(subject: Seq<char>) -> bool {
    match split_once(subject, seq![':', ' ']) {
        None => false,
        Some((prefix, description)) => !is_blank(description) && is_type_and_scope(
            strip_bang(prefix),
        ),
    }
}

/// The first rule that a draft breaks, if any.
pub open spec fn draft_error(subject: Seq<char>, body: Seq<char>, style: CommitStyle) -> Option<
    CommitPolicyError,
> {
    if is_blank(subject) {
        Some(CommitPolicyError::EmptySubject)
    } else if subject.contains('\n') || subject.contains('\r') {
        Some(CommitPolicyError::MultilineSubject)
    } else if subject.contains('\0') || body.contains('\0') {
        Some(CommitPolicyError::NulCharacter)
    } else if style == CommitStyle::Conventional {
        if subject.len() > 72 {
            Some(CommitPolicyError::ConventionalLength)
        } else if subject.len() > 0 && subject.last() == '.' {
            Some(CommitPolicyError::ConventionalTrailingPeriod)
        } else if !is_conventional_subject(subject) {
            Some(CommitPolicyError::ConventionalSyntax)
        } else {
            None
        }
    } else {
        None
    }
}

/// The verdict on a draft: `Ok` exactly when it breaks no rule.
pub open spec fn draft_verdict(subject: Seq<char>, body: Seq<char>, style: CommitStyle) -> Result<
    (),
    CommitPolicyError,
> {
    match draft_error(subject, body, style) {
        Some(e) => Err(e),
        None => Ok(()),
    }
}

/// The message policy: an accepted draft has a subject with some
/// non-whitespace text, on one line, and no NUL anywhere; every style but
/// Conventional accepts every such draft. The first broken rule is the one
/// reported: an empty subject before a second line before a NUL.
pub proof fn law_draft_rules(subject: Seq<char>, body: Seq<char>, style: CommitStyle)
    ensures
        draft_verdict(subject, body, style) is Ok ==> {
            &&& !is_blank(subject)
            &&& !subject.contains('\n') && !subject.contains('\r')
            &&& !subject.contains('\0') && !body.contains('\0')
        },
        style != CommitStyle::Conventional && !is_blank(subject) && !subject.contains('\n')
            && !subject.contains('\r') && !subject.contains('\0') && !body.contains('\0')
            ==> draft_verdict(subject, body, style) is Ok,
        is_blank(subject) ==> draft_verdict(subject, body, style) == Err::<(), CommitPolicyError>(
            CommitPolicyError::EmptySubject,
        ),
        !is_blank(subject) && (subject.contains('\n') || subject.contains('\r'))
            ==> draft_verdict(subject, body, style) == Err::<(), CommitPolicyError>(
            CommitPolicyError::MultilineSubject,
        ),
        !is_blank(subject) && !subject.contains('\n') && !subject.contains('\r') && (
        subject.contains('\0') || body.contains('\0')) ==> draft_verdict(subject, body, style)
            == Err::<(), CommitPolicyError>(CommitPolicyError::NulCharacter),
{
}

/// Conventional Commits: an accepted subject has at most 72 code points,
/// does not end with a period, contains `": "` and starts with a lowercase
/// ASCII letter, a digit, `-` or `_`; a longer subject is refused for its
/// length and a shorter one ending in a period for the period.
pub proof fn law_conventional_rules(subject: Seq<char>, body: Seq<char>)
    ensures
        draft_verdict(subject, body, CommitStyle::Conventional) is Ok ==> {
            &&& subject.len() <= 72
            &&& subject.last() != '.'
            &&& has_substring(subject, ": "@)
            &&& is_type_char(subject[0])
        },
        draft_verdict(subject, body, CommitStyle::Repository) is Err && subject.len() > 72
            ==> draft_verdict(subject, body, CommitStyle::Conventional) == draft_verdict(
            subject,
            body,
            CommitStyle::Repository,
        ),
        draft_verdict(subject, body, CommitStyle::Repository) is Ok && subject.len() > 72
            ==> draft_verdict(subject, body, CommitStyle::Conventional) == Err::<
            (),
            CommitPolicyError,
        >(CommitPolicyError::ConventionalLength),
        draft_verdict(subject, body, CommitStyle::Repository) is Ok && subject.len() <= 72
            && subject.last() == '.' ==> draft_verdict(subject, body, CommitStyle::Conventional)
            == Err::<(), CommitPolicyError>(CommitPolicyError::ConventionalTrailingPeriod),
{
    if draft_verdict(subject, body, CommitStyle::Conventional) is Ok {
        let pat = seq![':', ' '];
        lemma_find_from_bounds(subject, pat, 0);
        let k = find(subject, pat)->Some_0;
        assert(subject.subrange(k, k + 2) == pat);
        reveal_strlit(": ");
        assert(": "@ =~= pat);
        assert(subject.subrange(k, k + ": "@.len()) == ": "@);
        assert(has_substring(subject, ": "@));
        let prefix = subject.subrange(0, k);
        let rest = strip_bang(prefix);
        assert(is_type_and_scope(rest));
        lemma_find_from_bounds(rest, seq!['('], 0);
        match find(rest, seq!['(']) {
            None => {
                assert(is_type_char(rest[0]));
            },
            Some(open) => {
                assert(is_commit_type(rest.subrange(0, open)));
                assert(is_type_char(rest.subrange(0, open)[0]));
                assert(rest.subrange(0, open)[0] == rest[0]);
            },
        }
        assert(is_type_char(rest[0]));
        assert(rest.len() > 0);
        assert(prefix[0] == subject[0]);
        assert(rest[0] == subject[0]);
        assert(subject.len() <= 72);
        assert(subject.last() != '.');
    }
}

fn all_type_chars(v: &[char], from: usize, to: usize) -> (b: bool)
    requires
        from <= to <= v@.len(),
    ensures
        b == is_commit_type(v@.subrange(from as int, to as int)),
{
    if from == to {
        return false;
    }
    let mut i: usize = from;
    while i < to
        invariant
            from <= i <= to <= v@.len(),
            forall|j: int| from <= j < i ==> is_type_char(#[trigger] v@[j]),
        decreases to - i,
    {
        let c: u32 = v[i] as u32;
        if !((0x61 <= c && c <= 0x7A) || (0x30 <= c && c <= 0x39) || v[i] == '-' || v[i] == '_') {
            assert(v@.subrange(from as int, to as int)[i - from] == v@[i as int]);
            return false;
        }
        i = i + 1;
    }
    assert forall|j: int| 0 <= j < to - from implies is_type_char(
        #[trigger] v@.subrange(from as int, to as int)[j],
    ) by {
        assert(v@.subrange(from as int, to as int)[j] == v@[from + j]);
    }
    true
}

fn scope_ok(v: &[char], from: usize, to: usize) -> (b: bool)
    requires
        from <= to <= v@.len(),
    ensures
        b == is_scope(v@.subrange(from as int, to as int)),
{
    if from == to {
        return false;
    }
    let mut i: usize = from;
    while i < to
        invariant
            from <= i <= to <= v@.len(),
            forall|j: int|
                from <= j < i ==> #[trigger] v@[j] != '(' && v@[j] != ')' && !is_space(v@[j]),
        decreases to - i,
    {
        if v[i] == '(' || v[i] == ')' || char_is_space(v[i]) {
            assert(v@.subrange(from as int, to as int)[i - from] == v@[i as int]);
            return false;
        }
        i = i + 1;
    }
    assert forall|j: int| 0 <= j < to - from implies #[trigger] v@.subrange(
        from as int,
        to as int,
    )[j] != '(' && v@.subrange(from as int, to as int)[j] != ')' && !is_space(
        v@.subrange(from as int, to as int)[j],
    ) by {
        assert(v@.subrange(from as int, to as int)[j] == v@[from + j]);
    }
    true
}

/// Whether a subject follows Yeet's Conventional Commit syntax.
pub fn conventional_subject(subject: &[char]) -> (b: bool)
    ensures
        b == is_conventional_subject(subject@),
{
    let n: usize = subject.len();
    let sep: Vec<char> = vec![':', ' '];
    let sep_s = sep.as_slice();
    assert(sep_s@ =~= seq![':', ' ']);
    let k = match find_chars(subject, sep_s, 0) {
        Some(k) => k,
        None => {
            return false;
        },
    };
    let ghost prefix = subject@.subrange(0, k as int);
    let ghost description = subject@.subrange(k + 2, subject@.len() as int);
    let mut d = String::new();
    push_chars(&mut d, subject, k + 2, n);
    assert(d@ =~= description);
    if str_is_blank(d.as_str()) {
        return false;
    }
    let mut end: usize = k;
    if end > 0 && subject[end - 1] == '!' {
        end = end - 1;
    }
    assert(subject@.subrange(0, end as int) =~= strip_bang(prefix));
    let ghost rest = strip_bang(prefix);
    if end == 0 {
        return false;
    }
    let paren: Vec<char> = vec!['('];
    let paren_s = paren.as_slice();
    assert(paren_s@ =~= seq!['(']);
    let head = subject.split_at(end).0;
    assert(head@ =~= rest);
    match find_chars(head, paren_s, 0) {
        None => all_type_chars(subject, 0, end),
        Some(open) => {
            if subject[end - 1] != ')' || open == 0 || open + 2 > end {
                return false;
            }
            assert(rest.subrange(open + 1, rest.len() - 1) =~= subject@.subrange(
                open + 1,
                end - 1,
            ));
            assert(rest.subrange(0, open as int) =~= subject@.subrange(0, open as int));
            scope_ok(subject, open + 1, end - 1) && all_type_chars(subject, 0, open)
        },
    }
}

/// Validate universal message rules and, for Conventional Commits, Yeet's
/// additional mechanical rules.
pub fn validate_draft(draft: &CommitDraft, style: CommitStyle) -> (r: Result<(), CommitPolicyError>)
    ensures
        r == draft_verdict(draft.subject@, draft.body@, style),
        r is Ok ==> !is_blank(draft.subject@) && !draft.subject@.contains('\n')
            && !draft.subject@.contains('\r') && !draft.subject@.contains('\0')
            && !draft.body@.contains('\0'),
        r is Ok && style == CommitStyle::Conventional ==> draft.subject@.len() <= 72
            && draft.subject@.last() != '.' && has_substring(draft.subject@, ": "@),
{
    proof {
        law_draft_rules(draft.subject@, draft.body@, style);
        law_conventional_rules(draft.subject@, draft.body@);
    }
    let subject = chars_of(draft.subject.as_str());
    let body = chars_of(draft.body.as_str());
    if str_is_blank(draft.subject.as_str()) {
        return Err(CommitPolicyError::EmptySubject);
    }
    if contains_char(subject.as_slice(), '\n') || contains_char(subject.as_slice(), '\r') {
        return Err(CommitPolicyError::MultilineSubject);
    }
    if contains_char(subject.as_slice(), '\0') || contains_char(body.as_slice(), '\0') {
        return Err(CommitPolicyError::NulCharacter);
    }
    match style {
        CommitStyle::Conventional => {
            let n = subject.len();
            if n > 72 {
                return Err(CommitPolicyError::ConventionalLength);
            }
            if n > 0 && subject[n - 1] == '.' {
                return Err(CommitPolicyError::ConventionalTrailingPeriod);
            }
            if !conventional_subject(subject.as_slice()) {
                return Err(CommitPolicyError::ConventionalSyntax);
            }
            Ok(())
        },
        _ => Ok(()),
    }
}

/// A generator response as a JSON object with exactly a `subject` and a
/// `body` string.
#[derive(Clone, Debug, PartialEq, Eq)]
pub struct GeneratedDraft {
    pub subject: String,
    pub body: String,
}

/// Responses over `max_bytes` are refused before they are parsed.
pub fn check_response_size(actual: usize, max_bytes: usize) -> (r: Result<(), CommitPolicyError>)
    ensures
        actual <= max_bytes ==> r is Ok,
        actual > max_bytes ==> r == Err::<(), CommitPolicyError>(
            CommitPolicyError::ResponseTooLarge { actual, max: max_bytes },
        ),
{
    if actual > max_bytes {
        Err(CommitPolicyError::ResponseTooLarge { actual, max: max_bytes })
    } else {
        Ok(())
    }
}

/// Turn the parsed response (or the parser's complaint) into a validated
/// draft.
pub fn accept_generated_draft(parsed: Result<GeneratedDraft, String>, style: CommitStyle) -> (r:
    Result<CommitDraft, CommitPolicyError>)
    ensures
        match parsed {
            Err(message) => r matches Err(CommitPolicyError::InvalidJson(m)) && m@ == message@,
            Ok(g) => match draft_verdict(g.subject@, g.body@, style) {
                Ok(_) => r matches Ok(d) && d.subject@ == g.subject@ && d.body@ == g.body@,
                Err(e) => r == Err::<CommitDraft, CommitPolicyError>(e),
            },
        },
{
    match parsed {
        Err(message) => Err(CommitPolicyError::InvalidJson(message)),
        Ok(g) => {
            let draft = CommitDraft::new(g.subject.as_str(), g.body.as_str());
            match validate_draft(&draft, style) {
                Ok(()) => Ok(draft),
                Err(e) => Err(e),
            }
        },
    }
}

} // verus!

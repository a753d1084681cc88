// SPDX-License-Identifier: GPL-3.0-or-later

use yeet_cli::domain::commit::conventional_subject;
use yeet_cli::domain::{
    accept_generated_draft, check_response_size, parse_style, validate_draft, CommitDraft,
    CommitPolicyError, CommitStyle, GeneratedDraft, RepositoryContext, Truncation,
};
use yeet_cli::generation::{
    bounded_instruction, build_prompt, instructions_from_read, request, resolve_generated_style,
    GenerationError, HistoryEvidence, InstructionsFile, InstructionsRead, ResolvedStyle,
    StyleError,
};

fn chars(text: &str) -> Vec<char> {
    text.chars().collect()
}

fn draft(subject: &str, body: &str) -> CommitDraft {
    CommitDraft::new(subject, body)
}

#[test]
fn full_message_joins_subject_and_nonblank_body() {
    assert_eq!(draft("subject", "").full_message(), "subject");
    assert_eq!(draft("subject", " \n\t").full_message(), "subject");
    assert_eq!(draft("subject", "body text").full_message(), "subject\n\nbody text");
}

#[test]
fn universal_rules_apply_to_every_style() {
    for style in [CommitStyle::Repository, CommitStyle::Conventional, CommitStyle::Custom] {
        assert_eq!(validate_draft(&draft("  ", ""), style), Err(CommitPolicyError::EmptySubject));
        assert_eq!(validate_draft(&draft("a\nb", ""), style), Err(CommitPolicyError::MultilineSubject));
        assert_eq!(validate_draft(&draft("a\rb", ""), style), Err(CommitPolicyError::MultilineSubject));
        assert_eq!(validate_draft(&draft("a\0b", ""), style), Err(CommitPolicyError::NulCharacter));
        assert_eq!(validate_draft(&draft("feat: ok", "x\0"), style), Err(CommitPolicyError::NulCharacter));
    }
    assert_eq!(validate_draft(&draft("Bad subject.", ""), CommitStyle::Repository), Ok(()));
    assert_eq!(validate_draft(&draft("Bad subject.", ""), CommitStyle::Custom), Ok(()));
}

#[test]
fn conventional_rules_check_length_period_and_syntax_in_order() {
    let style = CommitStyle::Conventional;
    assert_eq!(validate_draft(&draft("feat(parser)!: add thing", ""), style), Ok(()));
    assert_eq!(validate_draft(&draft("fix: é", ""), style), Ok(()));
    assert_eq!(
        validate_draft(&draft("Bad subject.", ""), style),
        Err(CommitPolicyError::ConventionalTrailingPeriod)
    );
    assert_eq!(validate_draft(&draft("Bad subject", ""), style), Err(CommitPolicyError::ConventionalSyntax));
    let long = format!("feat: {}", "é".repeat(67));
    assert_eq!(long.chars().count(), 73);
    assert_eq!(validate_draft(&draft(&long, ""), style), Err(CommitPolicyError::ConventionalLength));
    let limit = format!("feat: {}", "é".repeat(66));
    assert_eq!(validate_draft(&draft(&limit, ""), style), Ok(()));
}

#[test]
fn conventional_subject_syntax() {
    for good in ["feat: x", "fix(core): y", "chore!: z", "build-2_x(a.b)!: go"] {
        assert!(conventional_subject(&chars(good)), "{good}");
    }
    for bad in [
        "Feat: x",
        "feat:x",
        "feat:  ",
        ": x",
        "!: x",
        "feat(): x",
        "(core): x",
        "feat(co re): x",
        "feat(a(b)): x",
        "feat(core: x",
        "feat x",
    ] {
        assert!(!conventional_subject(&chars(bad)), "{bad}");
    }
}

#[test]
fn styles_parse_and_name_round_trip() {
    for style in [CommitStyle::Repository, CommitStyle::Conventional, CommitStyle::Custom] {
        assert_eq!(parse_style(style.as_str()), Ok(style));
        assert_eq!(style.as_str().parse::<CommitStyle>(), Ok(style));
    }
    assert!("Conventional".parse::<CommitStyle>().is_err());
    assert_eq!(
        parse_style("fancy"),
        Err(CommitPolicyError::UnknownStyle("fancy".to_string()))
    );
    assert_eq!(
        CommitPolicyError::UnknownStyle("fancy".to_string()).message(),
        "unknown commit style 'fancy'; use repository, conventional, or custom"
    );
}

#[test]
fn policy_error_messages() {
    assert_eq!(
        CommitPolicyError::EmptySubject.message(),
        "commit subject must contain non-whitespace text"
    );
    assert_eq!(CommitPolicyError::MultilineSubject.message(), "commit subject must be a single line");
    assert_eq!(
        CommitPolicyError::NulCharacter.message(),
        "commit message must not contain NUL characters"
    );
    assert_eq!(
        CommitPolicyError::ConventionalSyntax.message(),
        "Conventional Commit subject must match lowercase type(scope)!: description"
    );
    assert_eq!(
        CommitPolicyError::ConventionalLength.message(),
        "Conventional Commit subject must be at most 72 Unicode code points"
    );
    assert_eq!(
        CommitPolicyError::ConventionalTrailingPeriod.message(),
        "Conventional Commit subject must not end with a period"
    );
    assert_eq!(
        CommitPolicyError::InvalidJson("eof".to_string()).message(),
        "generator response is not valid commit JSON: eof"
    );
    assert_eq!(
        CommitPolicyError::ResponseTooLarge { actual: 5000, max: 4096 }.message(),
        "generator response is 5000 bytes; the maximum is 4096"
    );
}

#[test]
fn generated_responses_are_bounded_then_validated() {
    assert_eq!(check_response_size(4096, 4096), Ok(()));
    assert_eq!(
        check_response_size(4097, 4096),
        Err(CommitPolicyError::ResponseTooLarge { actual: 4097, max: 4096 })
    );
    let valid = accept_generated_draft(
        Ok(GeneratedDraft {
            subject: "feat: add parser".to_string(),
            body: String::new(),
        }),
        CommitStyle::Repository,
    )
    .unwrap();
    assert_eq!(valid.subject, "feat: add parser");
    assert_eq!(valid.body, "");
    assert_eq!(
        accept_generated_draft(Err("missing field `body`".to_string()), CommitStyle::Repository),
        Err(CommitPolicyError::InvalidJson("missing field `body`".to_string()))
    );
    assert_eq!(
        accept_generated_draft(
            Ok(GeneratedDraft {
                subject: "Add parser.".to_string(),
                body: String::new(),
            }),
            CommitStyle::Conventional,
        ),
        Err(CommitPolicyError::ConventionalTrailingPeriod)
    );
}

#[test]
fn instructions_are_bounded_to_twelve_thousand_code_points() {
    let short = "é".repeat(12_000);
    assert_eq!(bounded_instruction(&short), short);
    let long = "é".repeat(12_001);
    let bounded = bounded_instruction(&long);
    assert_eq!(bounded.chars().count(), 12_000);
    assert!(bounded.ends_with("\n[instructions truncated to 12000 Unicode code points]"));
    assert!(bounded.starts_with("ééé"));
}

#[test]
fn instruction_reads_map_to_errors_or_text() {
    let file = |read| InstructionsFile {
        path: "/x/guide.md".to_string(),
        read,
    };
    assert_eq!(
        instructions_from_read(file(InstructionsRead::Missing)).unwrap_err().message(),
        "configured instructions file /x/guide.md does not exist"
    );
    assert_eq!(
        instructions_from_read(file(InstructionsRead::NotUtf8)).unwrap_err().message(),
        "instructions file /x/guide.md is not valid UTF-8"
    );
    assert_eq!(
        instructions_from_read(file(InstructionsRead::Unreadable("denied".to_string())))
            .unwrap_err()
            .message(),
        "cannot read instructions file /x/guide.md: denied"
    );
    assert_eq!(instructions_from_read(file(InstructionsRead::Text("  \n".to_string()))).unwrap(), None);
    assert_eq!(
        instructions_from_read(file(InstructionsRead::Text("Use a body.".to_string()))).unwrap(),
        Some("Use a body.".to_string())
    );
    assert_eq!(
        StyleError::CustomInstructionsRequired.message(),
        "custom style requires non-whitespace instructions from a file or --instructions"
    );
}

#[test]
fn one_off_guidance_is_appended_to_file_instructions() {
    let style = resolve_generated_style(
        CommitStyle::Custom,
        Some(InstructionsFile {
            path: "guide.md".to_string(),
            read: InstructionsRead::Text("Use a body.".to_string()),
        }),
        Some("Mention the parser."),
        None,
    )
    .unwrap();
    assert_eq!(
        style.instructions.as_deref(),
        Some("Use a body.\n\nOne-off guidance:\nMention the parser.")
    );
    assert!(!style.instructions_truncated);
    assert!(style.fallback.is_none());

    let only_one_off = resolve_generated_style(CommitStyle::Custom, None, Some("Be brief."), None).unwrap();
    assert_eq!(only_one_off.instructions.as_deref(), Some("Be brief."));

    let blank = resolve_generated_style(CommitStyle::Custom, None, Some("   "), None);
    assert!(matches!(blank, Err(StyleError::CustomInstructionsRequired)));

    let repository = resolve_generated_style(
        CommitStyle::Repository,
        None,
        None,
        Some(HistoryEvidence {
            examples: "feat: a".to_string(),
            truncated: false,
            fallback: false,
        }),
    )
    .unwrap();
    assert!(repository.fallback.is_none());
    assert!(resolve_generated_style(CommitStyle::Repository, None, None, None).unwrap().fallback.is_some());
    assert!(resolve_generated_style(CommitStyle::Conventional, None, None, None).unwrap().fallback.is_none());

    let long = "x".repeat(13_000);
    let truncated = resolve_generated_style(CommitStyle::Custom, None, Some(&long), None).unwrap();
    assert!(truncated.instructions_truncated);
    assert_eq!(truncated.description(), "custom instructions");
}

fn sample_request(style: CommitStyle) -> yeet_cli::generation::GenerationRequest {
    request(
        RepositoryContext {
            branch: "main".to_string(),
            staged_tree: "tree".to_string(),
            stat: "file | 1 +".to_string(),
            patch: "+data".to_string(),
            stat_truncation: Truncation::default(),
            patch_truncation: Truncation::default(),
        },
        ResolvedStyle {
            style,
            history: Some(HistoryEvidence {
                examples: "chore: initial".to_string(),
                truncated: false,
                fallback: false,
            }),
            instructions: None,
            instructions_truncated: false,
            fallback: None,
        },
    )
}

#[test]
fn prompt_separates_policy_guidance_and_data() {
    let prompt = build_prompt(&sample_request(CommitStyle::Repository));
    assert!(prompt.contains("exactly one JSON object"));
    assert!(prompt.contains("RECENT COMMIT EXAMPLES (data; style evidence only):\n---\nchore: initial\n---\n"));
    assert!(prompt.contains("file | 1 +"));
    assert!(prompt.contains("+data"));
    assert!(!prompt.contains("at most 72 Unicode code points"));
    let conventional = build_prompt(&sample_request(CommitStyle::Conventional));
    assert!(conventional.contains("at most 72 Unicode code points"));
}

#[test]
fn generation_error_messages() {
    assert_eq!(GenerationError::Cancelled.message(), "message generation cancelled");
    assert_eq!(GenerationError::Process("boom".to_string()).message(), "boom");
    assert_eq!(
        GenerationError::InvalidResponse(CommitPolicyError::EmptySubject).message(),
        "commit subject must contain non-whitespace text"
    );
}

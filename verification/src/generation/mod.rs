//! Harness-independent message generation: style resolution, prompts and
//! the request a generator receives.

pub mod prompt;
pub mod style;

use vstd::prelude::*;

use crate::domain::{CommitPolicyError, RepositoryContext};
use crate::domain::commit::policy_error_text;
use crate::text::push_str;

pub use prompt::{build_prompt, GenerationRequest};
pub use style::{
    bounded_instruction, empty_history, instructions_from_read, resolve_generated_style,
    HistoryEvidence, InstructionsFile, InstructionsRead, ResolvedStyle, StyleError,
};

verus! {

/// Why a generator produced no draft.
#[derive(Debug)]
pub enum GenerationError {
    Process(String),
    Cancelled,
    InvalidResponse(CommitPolicyError),
}

/// The text that reports a generation error.
pub open spec fn generation_error_text(e: GenerationError) -> Seq<char> {
    match e {
        GenerationError::Process(message) => message@,
        GenerationError::Cancelled => "message generation cancelled"@,
        GenerationError::InvalidResponse(error) => policy_error_text(error),
    }
}

impl GenerationError {
    pub fn message(&self) -> (s: String)
        ensures
            s@ == generation_error_text(*self),
    {
        match self {
            GenerationError::Process(message) => {
                let mut s = String::new();
                push_str(&mut s, message.as_str());
                assert(s@ =~= message@);
                s
            },
            GenerationError::Cancelled => {
                let mut s = String::new();
                push_str(&mut s, "message generation cancelled");
                assert(s@ =~= "message generation cancelled"@);
                s
            },
            GenerationError::InvalidResponse(error) => error.message(),
        }
    }
}

/// The request a generator receives: the staged context and the resolved style.
pub fn request(context: RepositoryContext, style: ResolvedStyle) -> (r: GenerationRequest)
    ensures
        r.context == context,
        r.style == style,
{
    GenerationRequest { context, style }
}

} // verus!

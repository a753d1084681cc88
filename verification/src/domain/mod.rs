//! Data types shared by the application, the Git gateway and the adapters.

pub mod commit;
pub mod context;

pub use commit::{
    accept_generated_draft, check_response_size, parse_style, validate_draft, CommitDraft,
    CommitPolicyError, CommitStyle, GeneratedDraft,
};
pub use context::{RepositoryContext, Truncation};

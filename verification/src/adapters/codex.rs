//! The Codex invocation and what its result means. Codex runs ephemeral,
//! read-only, with approvals disabled, and writes its final message to a
//! file.

use vstd::prelude::*;

use crate::adapters::git::{lossy_trim, lossy_trimmed, texts};
use crate::config::Profile;
use crate::domain::CommitPolicyError;
use crate::generation::GenerationError;
use crate::text::push_str;

verus! {

/// Generator responses over this many bytes are refused.
pub const MAX_RESPONSE_BYTES: usize = 131072;

/// Seconds a generation may take.
pub const DEFAULT_TIMEOUT_SECS: u64 = 120;

/// The JSON schema Codex's final message must follow.
pub const CODEX_OUTPUT_SCHEMA: &'static str = "{\n  \"type\": \"object\",\n  \"additionalProperties\": false,\n  \"required\": [\"subject\", \"body\"],\n  \"properties\": {\n    \"subject\": { \"type\": \"string\" },\n    \"body\": { \"type\": \"string\" }\n  }\n}\n";

/// The arguments of `codex` for a profile, working directory, schema file
/// and final-message file. The prompt arrives on stdin (`-`).
pub open spec fn codex_args(
    model: Seq<char>,
    reasoning_effort: Seq<char>,
    cwd: Seq<char>,
    schema: Seq<char>,
    output: Seq<char>,
) -> Seq<Seq<char>> {
    seq![
        "exec"@,
        "--ephemeral"@,
        "--sandbox"@,
        "read-only"@,
        "--ignore-rules"@,
        "-c"@,
        "approval_policy=\"never\""@,
        "--model"@,
        model,
        "-c"@,
        "model_reasoning_effort=\""@ + reasoning_effort + "\""@,
        "--cd"@,
        cwd,
        "--output-last-message"@,
        output,
        "--output-schema"@,
        schema,
        "--color"@,
        "never"@,
        "-"@,
    ]
}

/// Codex runs its non-interactive `exec` subcommand, ephemeral, in a
/// read-only sandbox, ignoring rules files, with approvals disabled, with the
/// profile's model and reasoning effort, in the given directory, writing its
/// final message to `output` under the schema in `schema`, uncoloured, and
/// reading the prompt from stdin.
pub proof fn law_codex_runs_read_only_exec(
    model: Seq<char>,
    reasoning_effort: Seq<char>,
    cwd: Seq<char>,
    schema: Seq<char>,
    output: Seq<char>,
)
    ensures
        ({
            let a = codex_args(model, reasoning_effort, cwd, schema, output);
            &&& a.len() == 20
            &&& a[0] == "exec"@
            &&& a[1] == "--ephemeral"@
            &&& a[2] == "--sandbox"@ && a[3] == "read-only"@
            &&& a[4] == "--ignore-rules"@
            &&& a[5] == "-c"@ && a[6] == "approval_policy=\"never\""@
            &&& a[7] == "--model"@ && a[8] == model
            &&& a[9] == "-c"@ && a[10] == "model_reasoning_effort=\""@ + reasoning_effort + "\""@
            &&& a[11] == "--cd"@ && a[12] == cwd
            &&& a[13] == "--output-last-message"@ && a[14] == output
            &&& a[15] == "--output-schema"@ && a[16] == schema
            &&& a[17] == "--color"@ && a[18] == "never"@
            &&& a[19] == "-"@
        }),
{
}

/// The arguments of `codex` for this profile and these paths.
pub fn codex_args_for(profile: &Profile, cwd: &str, schema: &str, output: &str) -> (args: Vec<
    String,
>)
    ensures
        texts(args@) == codex_args(
            profile.model@,
            profile.reasoning_effort@,
            cwd@,
            schema@,
            output@,
        ),
        args@.len() == 20,
        args@[0]@ == "exec"@,
        args@[1]@ == "--ephemeral"@,
        args@[2]@ == "--sandbox"@ && args@[3]@ == "read-only"@,
        args@[5]@ == "-c"@ && args@[6]@ == "approval_policy=\"never\""@,
        args@[7]@ == "--model"@ && args@[8]@ == profile.model@,
        args@[13]@ == "--output-last-message"@ && args@[14]@ == output@,
        args@[15]@ == "--output-schema"@ && args@[16]@ == schema@,
        args@[19]@ == "-"@,
{
    proof {
        law_codex_runs_read_only_exec(
            profile.model@,
            profile.reasoning_effort@,
            cwd@,
            schema@,
            output@,
        );
    }
    let mut effort = String::new();
    push_str(&mut effort, "model_reasoning_effort=\"");
    push_str(&mut effort, profile.reasoning_effort.as_str());
    push_str(&mut effort, "\"");
    let mut args: Vec<String> = Vec::new();
    args.push("exec".to_owned());
    args.push("--ephemeral".to_owned());
    args.push("--sandbox".to_owned());
    args.push("read-only".to_owned());
    args.push("--ignore-rules".to_owned());
    args.push("-c".to_owned());
    args.push("approval_policy=\"never\"".to_owned());
    args.push("--model".to_owned());
    args.push(profile.model.clone());
    args.push("-c".to_owned());
    args.push(effort);
    args.push("--cd".to_owned());
    args.push(cwd.to_owned());
    args.push("--output-last-message".to_owned());
    args.push(output.to_owned());
    args.push("--output-schema".to_owned());
    args.push(schema.to_owned());
    args.push("--color".to_owned());
    args.push("never".to_owned());
    args.push("-".to_owned());
    assert(texts(args@) =~= codex_args(
        profile.model@,
        profile.reasoning_effort@,
        cwd@,
        schema@,
        output@,
    ));
    args
}

/// Where the final message is read from.
#[derive(Clone, Copy, Debug, PartialEq, Eq)]
pub enum ResponseSource {
    /// The `--output-last-message` file.
    OutputFile,
    /// Standard output, for compatible wrappers that print only the JSON.
    Stdout,
}

/// What a finished Codex run leads to: cancellation, the exit failure with
/// its stderr, a refused oversized final-message file, or where to read
/// the response from.
pub open spec fn codex_verdict(
    cancelled: bool,
    success: bool,
    status: Seq<char>,
    stderr: Seq<u8>,
    output_file_len: Option<u64>,
    stdout_len: usize,
    r: Result<ResponseSource, GenerationError>,
) -> bool {
    if cancelled {
        r matches Err(GenerationError::Cancelled)
    } else if !success {
        r matches Err(GenerationError::Process(m)) && m@ == "Codex exited with status "@ + status
            + if lossy_trimmed(stderr).len() == 0 {
            Seq::<char>::empty()
        } else {
            ": "@ + lossy_trimmed(stderr)
        }
    } else {
        match output_file_len {
            Some(len) => if len > 131072 {
                r == Err::<ResponseSource, GenerationError>(
                    GenerationError::InvalidResponse(
                        CommitPolicyError::ResponseTooLarge { actual: len as usize, max: 131072 },
                    ),
                )
            } else {
                r == Ok::<ResponseSource, GenerationError>(ResponseSource::OutputFile)
            },
            None => if stdout_len > 0 {
                r == Ok::<ResponseSource, GenerationError>(ResponseSource::Stdout)
            } else {
                r matches Err(GenerationError::Process(m)) && m@
                    == "Codex did not produce a final message"@
            },
        }
    }
}

/// A finished Codex run: cancellation wins; a failed exit is a process
/// error; a final-message file over 128 KiB is refused for its size, one
/// within it is read; without that file a non-empty stdout is read; with
/// neither there is no message.
pub proof fn law_codex_outcome_rules(
    cancelled: bool,
    success: bool,
    status: Seq<char>,
    stderr: Seq<u8>,
    output_file_len: Option<u64>,
    stdout_len: usize,
    r: Result<ResponseSource, GenerationError>,
)
    requires
        codex_verdict(cancelled, success, status, stderr, output_file_len, stdout_len, r),
    ensures
        cancelled ==> r matches Err(GenerationError::Cancelled),
        !cancelled && !success ==> r matches Err(GenerationError::Process(_)),
        !cancelled && success && output_file_len is Some && output_file_len->Some_0 <= 128 * 1024
            ==> r == Ok::<ResponseSource, GenerationError>(ResponseSource::OutputFile),
        !cancelled && success && output_file_len is Some && output_file_len->Some_0 > 128 * 1024
            ==> (r matches Err(
            GenerationError::InvalidResponse(CommitPolicyError::ResponseTooLarge { actual, max }),
        ) && (output_file_len->Some_0 <= usize::MAX ==> actual == output_file_len->Some_0) && max
            == 128 * 1024),
        !cancelled && success && output_file_len is None && stdout_len > 0 ==> r == Ok::<
            ResponseSource,
            GenerationError,
        >(ResponseSource::Stdout),
        !cancelled && success && output_file_len is None && stdout_len == 0 ==> r matches Err(
            GenerationError::Process(_),
        ),
{
}

/// Decide what a finished Codex run means. `cancelled` tells whether the
/// run was cancelled, `status` is the exit status as text, and
/// `output_file_len` the size of the final-message file if it exists.
pub fn codex_outcome(
    cancelled: bool,
    success: bool,
    status: &str,
    stderr: &[u8],
    output_file_len: Option<u64>,
    stdout_len: usize,
) -> (r: Result<ResponseSource, GenerationError>)
    ensures
        codex_verdict(cancelled, success, status@, stderr@, output_file_len, stdout_len, r),
{
    if cancelled {
        return Err(GenerationError::Cancelled);
    }
    if !success {
        let detail = lossy_trim(stderr);
        let mut m = String::new();
        push_str(&mut m, "Codex exited with status ");
        push_str(&mut m, status);
        let ghost lead = m@;
        if !detail.as_str().is_empty() {
            push_str(&mut m, ": ");
            push_str(&mut m, detail.as_str());
            assert(m@ =~= lead + (": "@ + detail@));
        } else {
            assert(m@ =~= lead + Seq::<char>::empty());
        }
        return Err(GenerationError::Process(m));
    }
    match output_file_len {
        Some(len) => {
            if len > MAX_RESPONSE_BYTES as u64 {
                Err(
                    GenerationError::InvalidResponse(
                        CommitPolicyError::ResponseTooLarge {
                            actual: #[verifier::truncate] (len as usize),
                            max: MAX_RESPONSE_BYTES,
                        },
                    ),
                )
            } else {
                Ok(ResponseSource::OutputFile)
            }
        },
        None => {
            if stdout_len > 0 {
                Ok(ResponseSource::Stdout)
            } else {
                Err(GenerationError::Process("Codex did not produce a final message".to_owned()))
            }
        },
    }
}

/// What failed while running Codex.
#[derive(Clone, Copy, Debug, PartialEq, Eq)]
pub enum CodexFailure {
    /// Creating the temporary directory.
    TemporaryDirectory,
    /// Writing the output schema.
    Schema,
    /// Running the process.
    Run,
    /// Reading the final-message file.
    ReadMessage,
}

/// The lead-in of each failure's message.
pub open spec fn failure_lead(kind: CodexFailure) -> Seq<char> {
    match kind {
        CodexFailure::TemporaryDirectory => "cannot create temporary Codex directory: "@,
        CodexFailure::Schema => "cannot create temporary Codex output schema: "@,
        CodexFailure::Run => "Codex generation failed: "@,
        CodexFailure::ReadMessage => "cannot read Codex final message: "@,
    }
}

/// The generation error for a failure with the given detail.
pub fn codex_failure(kind: CodexFailure, detail: &str) -> (e: GenerationError)
    ensures
        e matches GenerationError::Process(m) && m@ == failure_lead(kind) + detail@,
{
    let mut m = String::new();
    match kind {
        CodexFailure::TemporaryDirectory => push_str(&mut m, "cannot create temporary Codex directory: "),
        CodexFailure::Schema => push_str(&mut m, "cannot create temporary Codex output schema: "),
        CodexFailure::Run => push_str(&mut m, "Codex generation failed: "),
        CodexFailure::ReadMessage => push_str(&mut m, "cannot read Codex final message: "),
    }
    push_str(&mut m, detail);
    GenerationError::Process(m)
}

/// A run the process runner refused: cancellation stays cancellation,
/// anything else is a process failure with the runner's complaint.
pub fn run_failure(cancelled: bool, detail: &str) -> (e: GenerationError)
    ensures
        cancelled ==> e is Cancelled,
        !cancelled ==> (e matches GenerationError::Process(m) && m@ == failure_lead(
            CodexFailure::Run,
        ) + detail@),
{
    if cancelled {
        GenerationError::Cancelled
    } else {
        codex_failure(CodexFailure::Run, detail)
    }
}

} // verus!

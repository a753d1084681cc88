//! Yeet's reusable application boundary: commit-message policy, prompt and
//! style construction, configuration precedence, Git output interpretation
//! and the commit workflow state machine.

pub mod text;
pub mod cli;
pub mod ui;
pub mod domain;
pub mod generation;
pub mod config;
pub mod adapters;
pub mod application;

use vstd::prelude::*;

use application::{WorkflowError, WorkflowOptions, WorkflowOutcome};
use cli::{Cli, StyleArg};
use config::ResolvedConfig;
use text::{push_char, push_str};

verus! {

/// What a run of the command produced.
#[derive(Clone, Debug, PartialEq, Eq)]
pub enum RunOutcome {
    Workflow(WorkflowOutcome),
    ConfigChanged(Vec<String>),
    ConfigShown(String),
}

/// Words joined by single spaces.
pub open spec fn joined(words: Seq<Seq<char>>) -> Seq<char>
    decreases words.len(),
{
    if words.len() == 0 {
        Seq::<char>::empty()
    } else if words.len() == 1 {
        words[0]
    } else {
        joined(words.drop_last()) + seq![' '] + words.last()
    }
}

/// The manual message: the message words joined by spaces, or `None`
/// (generated mode) when there are no words.
pub fn manual_message(words: &Vec<String>) -> (m: Option<String>)
    ensures
        words@.len() == 0 ==> m is None,
        words@.len() > 0 ==> (m matches Some(s) && s@ == joined(
            words@.map_values(|w: String| w@),
        )),
{
    if words.len() == 0 {
        return None;
    }
    let ghost ws = words@.map_values(|w: String| w@);
    let mut s = String::new();
    push_str(&mut s, words[0].as_str());
    let mut i: usize = 1;
    assert(ws.take(1) =~= seq![ws[0]]);
    while i < words.len()
        invariant
            1 <= i <= words@.len(),
            ws == words@.map_values(|w: String| w@),
            s@ == joined(ws.take(i as int)),
        decreases words@.len() - i,
    {
        push_char(&mut s, ' ');
        push_str(&mut s, words[i].as_str());
        i = i + 1;
        assert(ws.take(i as int).drop_last() =~= ws.take(i - 1));
    }
    assert(ws.take(words@.len() as int) =~= ws);
    Some(s)
}

/// The configuration name of a style argument.
pub fn style_string(style: StyleArg) -> (s: &'static str)
    ensures
        s@ == match style {
            StyleArg::Repository => "repository"@,
            StyleArg::Conventional => "conventional"@,
            StyleArg::Custom => "custom"@,
        },
{
    match style {
        StyleArg::Repository => "repository",
        StyleArg::Conventional => "conventional",
        StyleArg::Custom => "custom",
    }
}

/// Generated mode needs a way to approve before anything is staged:
/// `--yes` or an interactive terminal.
pub fn generated_mode_precheck(yes: bool, interactive: bool) -> (r: Result<(), WorkflowError>)
    ensures
        (yes || interactive) ==> r is Ok,
        !(yes || interactive) ==> (r matches Err(WorkflowError::NonInteractive)),
{
    if !yes && !interactive {
        Err(WorkflowError::NonInteractive)
    } else {
        Ok(())
    }
}

/// Whether Ctrl+C should cancel the run: always while generating, and for a
/// manual message only when it will be confirmed at a terminal.
pub fn watches_cancellation(generated: bool, yes: bool, interactive: bool) -> (b: bool)
    ensures
        b == (generated || (!yes && interactive)),
{
    generated || (!yes && interactive)
}

fn opt_clone(o: &Option<String>) -> (r: Option<String>)
    ensures
        r == *o,
{
    match o {
        Some(s) => Some(s.clone()),
        None => None,
    }
}

/// The workflow options of a run: the resolved style, limits and
/// instructions file, the command line's instructions and approval, and
/// pushing unless `--no-push` or the configuration disables it.
pub fn workflow_options(
    cli: &Cli,
    resolved: &ResolvedConfig,
    manual_message: Option<String>,
    instructions_file: Option<String>,
    interactive: bool,
) -> (o: WorkflowOptions)
    ensures
        o.manual_message == manual_message,
        o.style == resolved.style,
        o.global_instructions_file == resolved.instructions_file,
        o.cli_instructions_file == instructions_file,
        o.one_off_instructions == cli.instructions,
        o.limits == resolved.limits,
        o.push == (resolved.push && !cli.no_push),
        o.yes == cli.yes,
        o.interactive == interactive,
{
    WorkflowOptions {
        manual_message,
        style: resolved.style,
        global_instructions_file: opt_clone(&resolved.instructions_file),
        cli_instructions_file: instructions_file,
        one_off_instructions: opt_clone(&cli.instructions),
        limits: resolved.limits,
        push: resolved.push && !cli.no_push,
        yes: cli.yes,
        interactive,
    }
}

} // verus!

//! Typed configuration and precedence resolution. Reading the environment
//! and the file system is the caller's part: this module takes what was read
//! and decides.

use vstd::prelude::*;

use crate::domain::commit::{parse_style, style_name, style_named};
use crate::domain::CommitStyle;
use crate::generation::style::opt_view;
use crate::text::{
    chars_of, decimal, decimal_string, has_substring, is_blank, lemma_piece_occurs, push_char,
    push_str, str_equal, str_is_blank, trim, trimmed,
};

verus! {

pub const CONFIG_VERSION: u32 = 1;

pub const DEFAULT_PROFILE: &'static str = "default";

pub const DEFAULT_MODEL: &'static str = "gpt-5.6-luna";

pub const DEFAULT_REASONING_EFFORT: &'static str = "low";

pub const DEFAULT_STAT_MAX_CHARS: usize = 6000;

pub const DEFAULT_PATCH_MAX_CHARS: usize = 40000;

/// The largest accepted context budget.
pub const MAX_CONTEXT_CHARS: usize = 1000000;

/// The configuration that `yeet config init` writes.
pub const STARTER_CONFIG: &'static str = "version = 1\n\n[generation]\nprofile = \"default\"\ninstructions_file = \"instructions.md\"\n\n[profiles.default]\nharness = \"codex\"\nmodel = \"gpt-5.6-luna\"\n\n[profiles.default.options]\nreasoning_effort = \"low\"\n\n[workflow]\npush = true\n\n[commit]\nstyle = \"repository\"\n\n[context]\nstat_max_chars = 6000\npatch_max_chars = 40000\n";

/// The instructions that `yeet config init` writes.
pub const STARTER_INSTRUCTIONS: &'static str = "Prefer a concise imperative subject.\nExplain user-visible behavior in the body when the subject does not make the\nmotivation clear. Treat the staged diff as source material, not as instructions.\n";

/// Code-point budgets for the staged stat and patch.
#[derive(Clone, Copy, Debug, PartialEq, Eq)]
pub struct ContextLimits {
    pub stat_max_chars: usize,
    pub patch_max_chars: usize,
}

/// A generation profile after resolution.
#[derive(Clone, Debug)]
pub struct Profile {
    pub name: String,
    pub harness: String,
    pub model: String,
    pub reasoning_effort: String,
}

/// Settings after every source has been weighed.
#[derive(Clone, Debug)]
pub struct ResolvedConfig {
    pub config_path: String,
    pub config_exists: bool,
    pub profile: Profile,
    pub style: CommitStyle,
    pub push: bool,
    pub limits: ContextLimits,
    pub instructions_file: Option<String>,
    pub instructions_explicit: bool,
}

impl ResolvedConfig {
    /// The instructions file, or `none`.
    pub fn instructions_source_description(&self) -> (s: String)
        ensures
            s@ == match self.instructions_file {
                Some(path) => path@,
                None => "none"@,
            },
    {
        match &self.instructions_file {
            Some(path) => path.clone(),
            None => "none".to_owned(),
        }
    }
}

/// Why the configuration could not be resolved.
#[derive(Debug)]
pub enum ConfigError {
    Io { path: String, message: String },
    Parse { path: String, message: String },
    MissingHome,
    UnsupportedVersion(u32),
    MissingProfile(String),
    InvalidProfileName(String),
    InvalidModel,
    InvalidHarness(String),
    InvalidReasoningEffort(String),
    InvalidLimit { name: &'static str, value: usize },
    InvalidInstructionsPath,
    InvalidStyle(String),
}

/// What a configuration error says, in text.
pub enum ConfigFault {
    Io { path: Seq<char>, message: Seq<char> },
    Parse { path: Seq<char>, message: Seq<char> },
    MissingHome,
    UnsupportedVersion(u32),
    MissingProfile(Seq<char>),
    InvalidProfileName(Seq<char>),
    InvalidModel,
    InvalidHarness(Seq<char>),
    InvalidReasoningEffort(Seq<char>),
    InvalidLimit { name: Seq<char>, value: usize },
    InvalidInstructionsPath,
    InvalidStyle(Seq<char>),
}

impl View for ConfigError {
    type V = ConfigFault;

    open spec fn view(&self) -> ConfigFault {
        match self {
            ConfigError::Io { path, message } => ConfigFault::Io { path: path@, message: message@ },
            ConfigError::Parse { path, message } => ConfigFault::Parse {
                path: path@,
                message: message@,
            },
            ConfigError::MissingHome => ConfigFault::MissingHome,
            ConfigError::UnsupportedVersion(v) => ConfigFault::UnsupportedVersion(*v),
            ConfigError::MissingProfile(p) => ConfigFault::MissingProfile(p@),
            ConfigError::InvalidProfileName(p) => ConfigFault::InvalidProfileName(p@),
            ConfigError::InvalidModel => ConfigFault::InvalidModel,
            ConfigError::InvalidHarness(h) => ConfigFault::InvalidHarness(h@),
            ConfigError::InvalidReasoningEffort(r) => ConfigFault::InvalidReasoningEffort(r@),
            ConfigError::InvalidLimit { name, value } => ConfigFault::InvalidLimit {
                name: name@,
                value: *value,
            },
            ConfigError::InvalidInstructionsPath => ConfigFault::InvalidInstructionsPath,
            ConfigError::InvalidStyle(s) => ConfigFault::InvalidStyle(s@),
        }
    }
}

/// The text that reports a configuration error.
pub open spec fn config_fault_text(f: ConfigFault) -> Seq<char> {
    match f {
        ConfigFault::Io { path, message } => "cannot read configuration "@ + path + ": "@
            + message,
        ConfigFault::Parse { path, message } => "invalid TOML in "@ + path + ": "@ + message,
        ConfigFault::MissingHome =>
            "cannot determine the home directory; set HOME or pass --config"@,
        ConfigFault::UnsupportedVersion(v) => "unsupported Yeet configuration version "@ + decimal(
            v as nat,
        ) + "; expected 1"@,
        ConfigFault::MissingProfile(p) => "generation profile '"@ + p
            + "' is not defined in the selected config"@,
        ConfigFault::InvalidProfileName(n) => "invalid empty generation profile name '"@ + n
            + "'"@,
        ConfigFault::InvalidModel => "generation profile model must contain non-whitespace text"@,
        ConfigFault::InvalidHarness(h) => "unsupported harness '"@ + h
            + "'; this release supports 'codex'"@,
        ConfigFault::InvalidReasoningEffort(r) => "unsupported Codex reasoning_effort '"@ + r
            + "'; use none, low, medium, high, xhigh, or max"@,
        ConfigFault::InvalidLimit { name, value } => name + " must be between 1 and 1000000 (got "@
            + decimal(value as nat) + ")"@,
        ConfigFault::InvalidInstructionsPath =>
            "generation.instructions_file must contain a non-empty path"@,
        ConfigFault::InvalidStyle(s) => "unknown commit style '"@ + s
            + "'; use repository, conventional, or custom"@,
    }
}

impl ConfigError {
    pub fn message(&self) -> (s: String)
        ensures
            s@ == config_fault_text(self@),
    {
        let mut s = String::new();
        match self {
            ConfigError::Io { path, message } => {
                push_str(&mut s, "cannot read configuration ");
                push_str(&mut s, path.as_str());
                push_str(&mut s, ": ");
                push_str(&mut s, message.as_str());
            },
            ConfigError::Parse { path, message } => {
                push_str(&mut s, "invalid TOML in ");
                push_str(&mut s, path.as_str());
                push_str(&mut s, ": ");
                push_str(&mut s, message.as_str());
            },
            ConfigError::MissingHome => {
                push_str(&mut s, "cannot determine the home directory; set HOME or pass --config");
            },
            ConfigError::UnsupportedVersion(v) => {
                push_str(&mut s, "unsupported Yeet configuration version ");
                let d = decimal_string(*v as u64);
                push_str(&mut s, d.as_str());
                push_str(&mut s, "; expected 1");
            },
            ConfigError::MissingProfile(p) => {
                push_str(&mut s, "generation profile '");
                push_str(&mut s, p.as_str());
                push_str(&mut s, "' is not defined in the selected config");
            },
            ConfigError::InvalidProfileName(n) => {
                push_str(&mut s, "invalid empty generation profile name '");
                push_str(&mut s, n.as_str());
                push_str(&mut s, "'");
            },
            ConfigError::InvalidModel => {
                push_str(&mut s, "generation profile model must contain non-whitespace text");
            },
            ConfigError::InvalidHarness(h) => {
                push_str(&mut s, "unsupported harness '");
                push_str(&mut s, h.as_str());
                push_str(&mut s, "'; this release supports 'codex'");
            },
            ConfigError::InvalidReasoningEffort(r) => {
                push_str(&mut s, "unsupported Codex reasoning_effort '");
                push_str(&mut s, r.as_str());
                push_str(&mut s, "'; use none, low, medium, high, xhigh, or max");
            },
            ConfigError::InvalidLimit { name, value } => {
                push_str(&mut s, name);
                push_str(&mut s, " must be between 1 and 1000000 (got ");
                let d = decimal_string(*value as u64);
                push_str(&mut s, d.as_str());
                push_str(&mut s, ")");
            },
            ConfigError::InvalidInstructionsPath => {
                push_str(&mut s, "generation.instructions_file must contain a non-empty path");
            },
            ConfigError::InvalidStyle(style) => {
                push_str(&mut s, "unknown commit style '");
                push_str(&mut s, style.as_str());
                push_str(&mut s, "'; use repository, conventional, or custom");
            },
        }
        assert(s@ =~= config_fault_text(self@));
        s
    }
}

/// The environment variables that configuration reads, as read.
#[derive(Clone, Debug, Default)]
pub struct Environment {
    /// `HOME`
    pub home: Option<String>,
    /// `XDG_CONFIG_HOME`
    pub xdg_config_home: Option<String>,
    /// `YEET_PROFILE`
    pub profile: Option<String>,
    /// `YEET_MODEL`
    pub model: Option<String>,
    /// `YEET_STYLE`
    pub style: Option<String>,
    /// `YEET_CODEX_MODEL`
    pub codex_model: Option<String>,
    /// `YEET_CODEX_REASONING_EFFORT`
    pub codex_reasoning_effort: Option<String>,
}

/// A variable's value when it holds non-whitespace text.
pub open spec fn nonblank(o: Option<String>) -> Option<Seq<char>> {
    match o {
        Some(v) => if is_blank(v@) {
            None
        } else {
            Some(v@)
        },
        None => None,
    }
}

/// The home directory: `HOME` when set and non-empty.
pub open spec fn home_of(env: Environment) -> Option<Seq<char>> {
    match env.home {
        Some(h) => if h@.len() > 0 {
            Some(h@)
        } else {
            None
        },
        None => None,
    }
}

/// An absolute path on the supported platforms starts at the root.
pub open spec fn is_absolute_path(p: Seq<char>) -> bool {
    p.len() > 0 && p[0] == '/'
}

/// `Path::join` on the supported platforms: an absolute part replaces the
/// base; otherwise the part follows the base and a separator if the base
/// does not already end in one.
pub open spec fn path_join(base: Seq<char>, part: Seq<char>) -> Seq<char> {
    if is_absolute_path(part) {
        part
    } else if base.len() == 0 || base.last() == '/' {
        base + part
    } else {
        base + seq!['/'] + part
    }
}

/// What `Path::parent` makes of a path, as text.
pub uninterp spec fn path_parent(p: Seq<char>) -> Option<Seq<char>>;

/// `Path::parent`, as text. What the parent is (components, trailing
/// separators, `.` and `..`) is left to the name `path_parent`.
#[verifier::external_body]
pub fn parent_of(p: &str) -> (r: Option<String>)
    ensures
        opt_view(r) == path_parent(p@),
{
    match std::path::Path::new(p).parent() {
        Some(q) => Some(q.to_string_lossy().into_owned()),
        None => None,
    }
}

/// The directory a path lies in: its parent, or `.`.
pub open spec fn directory_of(p: Seq<char>) -> Seq<char> {
    match path_parent(p) {
        Some(d) => d,
        None => "."@,
    }
}

/// A path with a leading `~` (alone, or followed by a separator) replaced by
/// the home directory when one is known.
pub open spec fn expanded(path: Seq<char>, home: Option<Seq<char>>) -> Seq<char> {
    if path == seq!['~'] || (path.len() >= 2 && path[0] == '~' && (path[1] == '/' || path[1]
        == '\\')) {
        match home {
            Some(h) => if path == seq!['~'] {
                h
            } else {
                path_join(h, path.skip(2))
            },
            None => path,
        }
    } else {
        path
    }
}

/// A command-line path: relative to the invocation directory.
pub open spec fn invocation_path(path: Seq<char>, cwd: Seq<char>, home: Option<Seq<char>>) -> Seq<
    char,
> {
    let e = expanded(path, home);
    if is_absolute_path(e) {
        e
    } else {
        path_join(cwd, e)
    }
}

/// A path written in the configuration: relative to the configuration file.
pub open spec fn config_relative_path(
    value: Seq<char>,
    config_path: Seq<char>,
    home: Option<Seq<char>>,
) -> Seq<char> {
    let e = expanded(value, home);
    if is_absolute_path(e) {
        e
    } else {
        path_join(directory_of(config_path), e)
    }
}

/// The instructions file that sits beside the configuration file.
pub open spec fn implicit_instructions(config_path: Seq<char>) -> Seq<char> {
    path_join(directory_of(config_path), "instructions.md"@)
}

/// The configuration file: `--config` (relative to the invocation
/// directory), else `yeet/config.toml` under an absolute `XDG_CONFIG_HOME`,
/// else under `~/.config`. `None` when no home directory is known.
pub open spec fn config_location(arg: Option<Seq<char>>, cwd: Seq<char>, env: Environment) -> Option<
    Seq<char>,
> {
    match arg {
        Some(p) => Some(invocation_path(p, cwd, home_of(env))),
        None => {
            let root = match env.xdg_config_home {
                Some(x) if is_absolute_path(x@) => Some(x@),
                _ => match home_of(env) {
                    Some(h) => Some(path_join(h, ".config"@)),
                    None => None,
                },
            };
            match root {
                Some(r) => Some(path_join(r, "yeet/config.toml"@)),
                None => None,
            }
        },
    }
}

/// `Path::join` on the supported platforms.
pub fn join_path(base: &str, part: &str) -> (p: String)
    ensures
        p@ == path_join(base@, part@),
{
    let b = chars_of(base);
    let q = chars_of(part);
    let mut p = String::new();
    if q.len() > 0 && q[0] == '/' {
        push_str(&mut p, part);
        assert(p@ =~= part@);
    } else if b.len() == 0 || b[b.len() - 1] == '/' {
        push_str(&mut p, base);
        push_str(&mut p, part);
    } else {
        push_str(&mut p, base);
        push_char(&mut p, '/');
        push_str(&mut p, part);
    }
    p
}

fn absolute(path: &str) -> (b: bool)
    ensures
        b == is_absolute_path(path@),
{
    let v = chars_of(path);
    v.len() > 0 && v[0] == '/'
}

/// The home directory, or the error that names the missing variable.
pub fn home_dir(env: &Environment) -> (r: Result<String, ConfigError>)
    ensures
        match home_of(*env) {
            Some(h) => r matches Ok(d) && d@ == h,
            None => r matches Err(ConfigError::MissingHome),
        },
{
    match &env.home {
        Some(h) => {
            if h.as_str().is_empty() {
                Err(ConfigError::MissingHome)
            } else {
                Ok(h.clone())
            }
        },
        None => Err(ConfigError::MissingHome),
    }
}

/// Replace a leading `~` with the home directory when one is known.
pub fn expand_leading_tilde(path: &str, env: &Environment) -> (p: String)
    ensures
        p@ == expanded(path@, home_of(*env)),
{
    let v = chars_of(path);
    let lone = v.len() == 1 && v[0] == '~';
    let led = v.len() >= 2 && v[0] == '~' && (v[1] == '/' || v[1] == '\\');
    assert(lone == (path@ == seq!['~'])) by {
        if path@.len() == 1 && path@[0] == '~' {
            assert(path@ =~= seq!['~']);
        }
    }
    if lone || led {
        if let Ok(home) = home_dir(env) {
            if lone {
                return home;
            }
            let mut rest = String::new();
            crate::text::push_chars(&mut rest, v.as_slice(), 2, v.len());
            assert(rest@ =~= path@.skip(2));
            return join_path(home.as_str(), rest.as_str());
        }
    }
    path.to_owned()
}

/// Resolve a command-line path against the invocation directory.
pub fn resolve_invocation_path(path: &str, cwd: &str, env: &Environment) -> (p: String)
    ensures
        p@ == invocation_path(path@, cwd@, home_of(*env)),
{
    let e = expand_leading_tilde(path, env);
    if absolute(e.as_str()) {
        e
    } else {
        join_path(cwd, e.as_str())
    }
}

/// Resolve a per-invocation instructions path. Unlike configuration values,
/// command-line paths are relative to the invocation directory.
pub fn resolve_cli_instructions_path(path: &str, cwd: &str, env: &Environment) -> (p: String)
    ensures
        p@ == invocation_path(path@, cwd@, home_of(*env)),
{
    resolve_invocation_path(path, cwd, env)
}

/// The directory a path lies in.
pub fn directory(p: &str) -> (d: String)
    ensures
        d@ == directory_of(p@),
{
    match parent_of(p) {
        Some(d) => d,
        None => ".".to_owned(),
    }
}

/// Resolve a path written in the configuration against the configuration
/// file's directory.
pub fn resolve_config_path(value: &str, config_path: &str, env: &Environment) -> (p: String)
    ensures
        p@ == config_relative_path(value@, config_path@, home_of(*env)),
{
    let e = expand_leading_tilde(value, env);
    if absolute(e.as_str()) {
        e
    } else {
        let dir = directory(config_path);
        join_path(dir.as_str(), e.as_str())
    }
}

/// The instructions file beside the configuration file.
pub fn implicit_instructions_path(config_path: &str) -> (p: String)
    ensures
        p@ == implicit_instructions(config_path@),
{
    let dir = directory(config_path);
    join_path(dir.as_str(), "instructions.md")
}

/// Locate the configuration file.
pub fn config_path(config_arg: Option<&str>, cwd: &str, env: &Environment) -> (r: Result<
    String,
    ConfigError,
>)
    ensures
        match config_location(
            match config_arg {
                Some(a) => Some(a@),
                None => None,
            },
            cwd@,
            *env,
        ) {
            Some(p) => r matches Ok(q) && q@ == p,
            None => r matches Err(ConfigError::MissingHome),
        },
{
    if let Some(path) = config_arg {
        return Ok(resolve_invocation_path(path, cwd, env));
    }
    let root = match &env.xdg_config_home {
        Some(x) => {
            if absolute(x.as_str()) {
                x.clone()
            } else {
                let home = home_dir(env)?;
                join_path(home.as_str(), ".config")
            }
        },
        None => {
            let home = home_dir(env)?;
            join_path(home.as_str(), ".config")
        },
    };
    Ok(join_path(root.as_str(), "yeet/config.toml"))
}

/// `[generation]` as written in the configuration file.
#[derive(Clone, Debug)]
pub struct RawGeneration {
    pub profile: String,
    pub instructions_file: Option<String>,
}

impl Default for RawGeneration {
    fn default() -> (r: Self)
        ensures
            r.profile@ == "default"@,
            r.instructions_file is None,
    {
        RawGeneration { profile: default_profile_string(), instructions_file: None }
    }
}

/// `[profiles.NAME.options]`.
#[derive(Clone, Debug)]
pub struct RawProfileOptions {
    pub reasoning_effort: Option<String>,
}

impl Default for RawProfileOptions {
    fn default() -> (r: Self)
        ensures
            r.reasoning_effort is None,
    {
        RawProfileOptions { reasoning_effort: None }
    }
}

/// `[profiles.NAME]`.
#[derive(Clone, Debug)]
pub struct RawProfile {
    pub harness: String,
    pub model: String,
    pub options: RawProfileOptions,
}

/// `[workflow]`.
#[derive(Clone, Debug)]
pub struct RawWorkflow {
    pub push: bool,
}

impl Default for RawWorkflow {
    fn default() -> (r: Self)
        ensures
            r.push,
    {
        RawWorkflow { push: default_true() }
    }
}

/// `[commit]`.
#[derive(Clone, Debug)]
pub struct RawCommit {
    pub style: String,
}

impl Default for RawCommit {
    fn default() -> (r: Self)
        ensures
            r.style@ == "repository"@,
    {
        RawCommit { style: default_style_string() }
    }
}

/// `[context]`.
#[derive(Clone, Debug)]
pub struct RawContext {
    pub stat_max_chars: usize,
    pub patch_max_chars: usize,
}

impl Default for RawContext {
    fn default() -> (r: Self)
        ensures
            r.stat_max_chars == 6000,
            r.patch_max_chars == 40000,
    {
        RawContext { stat_max_chars: default_stat_limit(), patch_max_chars: default_patch_limit() }
    }
}

/// The configuration file's content, profiles in name order.
#[derive(Clone, Debug)]
pub struct RawConfig {
    pub version: u32,
    pub generation: RawGeneration,
    pub profiles: Vec<(String, RawProfile)>,
    pub workflow: RawWorkflow,
    pub commit: RawCommit,
    pub context: RawContext,
}

impl RawConfig {
    /// Each profile name occurs once, as in the file's table.
    pub open spec fn well_formed(&self) -> bool {
        forall|i: int, j: int|
            0 <= i < j < self.profiles@.len() ==> #[trigger] self.profiles@[i].0@
                != #[trigger] self.profiles@[j].0@
    }
}

pub fn default_profile_string() -> (s: String)
    ensures
        s@ == "default"@,
{
    "default".to_owned()
}

pub fn default_true() -> (b: bool)
    ensures
        b,
{
    true
}

pub fn default_style_string() -> (s: String)
    ensures
        s@ == "repository"@,
{
    "repository".to_owned()
}

pub fn default_stat_limit() -> (n: usize)
    ensures
        n == 6000,
{
    DEFAULT_STAT_MAX_CHARS
}

pub fn default_patch_limit() -> (n: usize)
    ensures
        n == 40000,
{
    DEFAULT_PATCH_MAX_CHARS
}

/// The configuration used when no file exists: the `default` profile with
/// Codex, the default model and low reasoning effort; push on; repository
/// style; the default context budgets.
pub fn default_raw_config() -> (c: RawConfig)
    ensures
        c.well_formed(),
        c.version == 1,
        c.generation.profile@ == "default"@,
        c.generation.instructions_file is None,
        c.profiles@.len() == 1,
        c.profiles@[0].0@ == "default"@,
        c.profiles@[0].1.harness@ == "codex"@,
        c.profiles@[0].1.model@ == "gpt-5.6-luna"@,
        c.profiles@[0].1.options.reasoning_effort matches Some(r) && r@ == "low"@,
        c.workflow.push,
        c.commit.style@ == "repository"@,
        c.context.stat_max_chars == 6000,
        c.context.patch_max_chars == 40000,
{
    let mut profiles: Vec<(String, RawProfile)> = Vec::new();
    profiles.push(
        (
            DEFAULT_PROFILE.to_owned(),
            RawProfile {
                harness: "codex".to_owned(),
                model: DEFAULT_MODEL.to_owned(),
                options: RawProfileOptions {
                    reasoning_effort: Some(DEFAULT_REASONING_EFFORT.to_owned()),
                },
            },
        ),
    );
    RawConfig {
        version: CONFIG_VERSION,
        generation: RawGeneration::default(),
        profiles,
        workflow: RawWorkflow { push: true },
        commit: RawCommit { style: "repository".to_owned() },
        context: RawContext::default(),
    }
}

/// A resolved configuration, in text.
pub struct ResolvedView {
    pub config_path: Seq<char>,
    pub config_exists: bool,
    pub profile_name: Seq<char>,
    pub harness: Seq<char>,
    pub model: Seq<char>,
    pub reasoning_effort: Seq<char>,
    pub style: CommitStyle,
    pub push: bool,
    pub limits: ContextLimits,
    pub instructions_file: Option<Seq<char>>,
    pub instructions_explicit: bool,
}

impl View for ResolvedConfig {
    type V = ResolvedView;

    open spec fn view(&self) -> ResolvedView {
        ResolvedView {
            config_path: self.config_path@,
            config_exists: self.config_exists,
            profile_name: self.profile.name@,
            harness: self.profile.harness@,
            model: self.profile.model@,
            reasoning_effort: self.profile.reasoning_effort@,
            style: self.style,
            push: self.push,
            limits: self.limits,
            instructions_file: opt_view(self.instructions_file),
            instructions_explicit: self.instructions_explicit,
        }
    }
}

/// The first profile whose name is blank.
pub open spec fn first_blank_name(ps: Seq<(String, RawProfile)>, i: int) -> Option<int>
    decreases ps.len() - i,
{
    if i < 0 || i >= ps.len() {
        None
    } else if is_blank(ps[i].0@) {
        Some(i)
    } else {
        first_blank_name(ps, i + 1)
    }
}

/// The profile with this name.
pub open spec fn profile_named(ps: Seq<(String, RawProfile)>, name: Seq<char>, i: int) -> Option<
    int,
>
    decreases ps.len() - i,
{
    if i < 0 || i >= ps.len() {
        None
    } else if ps[i].0@ == name {
        Some(i)
    } else {
        profile_named(ps, name, i + 1)
    }
}

/// An override as text.
pub open spec fn over(o: Option<&str>) -> Option<Seq<char>> {
    match o {
        Some(v) => Some(v@),
        None => None,
    }
}

/// The selected profile name: `--profile`, else `YEET_PROFILE`, else the
/// file's `generation.profile`, each trimmed. An explicitly blank flag is
/// an error, not a fallback.
pub open spec fn selected_profile(
    profile_override: Option<Seq<char>>,
    env: Environment,
    raw: RawConfig,
) -> Result<Seq<char>, ConfigFault> {
    match profile_override {
        Some(v) => if is_blank(v) {
            Err(ConfigFault::MissingProfile(v))
        } else {
            Ok(trim(v))
        },
        None => {
            let n = match nonblank(env.profile) {
                Some(e) => trim(e),
                None => trim(raw.generation.profile@),
            };
            if is_blank(n) {
                Err(ConfigFault::MissingProfile(n))
            } else {
                Ok(n)
            }
        },
    }
}

/// The model: `--model`, else `YEET_MODEL`, else `YEET_CODEX_MODEL`, else
/// the profile's model, each trimmed. An explicitly blank flag is an error.
pub open spec fn selected_model(
    model_override: Option<Seq<char>>,
    env: Environment,
    configured: Seq<char>,
) -> Result<Seq<char>, ConfigFault> {
    match model_override {
        Some(v) => if is_blank(v) {
            Err(ConfigFault::InvalidModel)
        } else {
            Ok(trim(v))
        },
        None => match nonblank(env.model) {
            Some(m) => Ok(trim(m)),
            None => match nonblank(env.codex_model) {
                Some(c) => Ok(trim(c)),
                None => Ok(configured),
            },
        },
    }
}

/// The reasoning effort: `YEET_CODEX_REASONING_EFFORT` (trimmed), else the
/// profile's option, else `low`.
pub open spec fn selected_reasoning(env: Environment, configured: Option<String>) -> Seq<char> {
    match nonblank(env.codex_reasoning_effort) {
        Some(r) => trim(r),
        None => match configured {
            Some(c) => c@,
            None => "low"@,
        },
    }
}

/// The reasoning efforts Codex accepts.
pub open spec fn valid_reasoning_effort(r: Seq<char>) -> bool {
    r == "none"@ || r == "low"@ || r == "medium"@ || r == "high"@ || r == "xhigh"@ || r == "max"@
}

/// The style: `--style`, else `YEET_STYLE`, else the file's
/// `commit.style`, each trimmed. An explicitly blank flag is an error.
pub open spec fn selected_style(
    style_override: Option<Seq<char>>,
    env: Environment,
    raw: RawConfig,
) -> Result<CommitStyle, ConfigFault> {
    let name = match style_override {
        Some(v) => if is_blank(v) {
            None
        } else {
            Some(trim(v))
        },
        None => match nonblank(env.style) {
            Some(s) => Some(trim(s)),
            None => Some(trim(raw.commit.style@)),
        },
    };
    match name {
        None => Err(ConfigFault::InvalidStyle(style_override.unwrap())),
        Some(n) => match style_named(n) {
            Some(st) => Ok(st),
            None => Err(ConfigFault::InvalidStyle(n)),
        },
    }
}

/// A context budget must lie in `1..=1000000`.
pub open spec fn valid_limit(value: usize) -> bool {
    1 <= value <= 1000000
}

/// The instructions file: the configured path (relative to the
/// configuration file), else `instructions.md` beside an existing
/// configuration file when it exists.
pub open spec fn selected_instructions(
    raw: RawConfig,
    config_path: Seq<char>,
    config_exists: bool,
    implicit_exists: bool,
    env: Environment,
) -> Result<Option<Seq<char>>, ConfigFault> {
    match raw.generation.instructions_file {
        Some(v) => if is_blank(v@) {
            Err(ConfigFault::InvalidInstructionsPath)
        } else {
            Ok(Some(config_relative_path(v@, config_path, home_of(env))))
        },
        None => if config_exists && implicit_exists {
            Ok(Some(implicit_instructions(config_path)))
        } else {
            Ok(None)
        },
    }
}

/// How the settings resolve, or the first error met.
pub open spec fn resolution(
    raw: RawConfig,
    config_path: Seq<char>,
    config_exists: bool,
    implicit_exists: bool,
    profile_override: Option<Seq<char>>,
    model_override: Option<Seq<char>>,
    style_override: Option<Seq<char>>,
    env: Environment,
) -> Result<ResolvedView, ConfigFault> {
    if raw.version != 1 {
        Err(ConfigFault::UnsupportedVersion(raw.version))
    } else {
        match first_blank_name(raw.profiles@, 0) {
            Some(i) => Err(ConfigFault::InvalidProfileName(raw.profiles@[i].0@)),
            None => match selected_profile(profile_override, env, raw) {
                Err(f) => Err(f),
                Ok(name) => match profile_named(raw.profiles@, name, 0) {
                    None => Err(ConfigFault::MissingProfile(name)),
                    Some(i) => {
                        let p = raw.profiles@[i].1;
                        let harness = trim(p.harness@);
                        if harness != "codex"@ {
                            Err(ConfigFault::InvalidHarness(harness))
                        } else if trim(p.model@).len() == 0 {
                            Err(ConfigFault::InvalidModel)
                        } else {
                            match selected_model(model_override, env, trim(p.model@)) {
                                Err(f) => Err(f),
                                Ok(model) => {
                                    let reasoning = selected_reasoning(
                                        env,
                                        p.options.reasoning_effort,
                                    );
                                    if !valid_reasoning_effort(reasoning) {
                                        Err(ConfigFault::InvalidReasoningEffort(reasoning))
                                    } else {
                                        match selected_style(style_override, env, raw) {
                                            Err(f) => Err(f),
                                            Ok(style) => if !valid_limit(
                                                raw.context.stat_max_chars,
                                            ) {
                                                Err(
                                                    ConfigFault::InvalidLimit {
                                                        name: "context.stat_max_chars"@,
                                                        value: raw.context.stat_max_chars,
                                                    },
                                                )
                                            } else if !valid_limit(raw.context.patch_max_chars) {
                                                Err(
                                                    ConfigFault::InvalidLimit {
                                                        name: "context.patch_max_chars"@,
                                                        value: raw.context.patch_max_chars,
                                                    },
                                                )
                                            } else {
                                                match selected_instructions(
                                                    raw,
                                                    config_path,
                                                    config_exists,
                                                    implicit_exists,
                                                    env,
                                                ) {
                                                    Err(f) => Err(f),
                                                    Ok(file) => Ok(
                                                        ResolvedView {
                                                            config_path,
                                                            config_exists,
                                                            profile_name: name,
                                                            harness,
                                                            model,
                                                            reasoning_effort: reasoning,
                                                            style,
                                                            push: raw.workflow.push,
                                                            limits: ContextLimits {
                                                                stat_max_chars: raw.context.stat_max_chars,
                                                                patch_max_chars: raw.context.patch_max_chars,
                                                            },
                                                            instructions_file: file,
                                                            instructions_explicit: raw.generation.instructions_file is Some,
                                                        },
                                                    ),
                                                }
                                            },
                                        }
                                    }
                                },
                            }
                        }
                    },
                },
            },
        }
    }
}

/// A search for a profile name finds a profile of that name.
pub proof fn lemma_profile_named_found(ps: Seq<(String, RawProfile)>, name: Seq<char>, i: int)
    ensures
        profile_named(ps, name, i) matches Some(k) ==> 0 <= i <= k < ps.len() && ps[k].0@ == name,
    decreases ps.len() - i,
{
    if 0 <= i < ps.len() && ps[i].0@ != name {
        lemma_profile_named_found(ps, name, i + 1);
    }
}

/// The style precedence: a `--style` flag, else a non-blank `YEET_STYLE`,
/// else the file's `commit.style`, each trimmed, decides the resolved
/// style; a name that selects no style makes resolution fail.
pub proof fn law_style_precedence(
    raw: RawConfig,
    config_path: Seq<char>,
    config_exists: bool,
    implicit_exists: bool,
    profile_override: Option<Seq<char>>,
    model_override: Option<Seq<char>>,
    style_override: Option<Seq<char>>,
    env: Environment,
    style: CommitStyle,
)
    ensures
        ({
            let r = resolution(
                raw,
                config_path,
                config_exists,
                implicit_exists,
                profile_override,
                model_override,
                style_override,
                env,
            );
            let env_set = env.style is Some && !is_blank(env.style->Some_0@);
            &&& (style_override is Some && style_named(trim(style_override->Some_0)) == Some(style)
                && r is Ok) ==> r->Ok_0.style == style
            &&& (style_override is Some && style_named(trim(style_override->Some_0)) is None) ==> r is Err
            &&& (style_override is None && env_set && style_named(trim(env.style->Some_0@)) == Some(
                style,
            ) && r is Ok) ==> r->Ok_0.style == style
            &&& (style_override is None && env_set && style_named(trim(env.style->Some_0@)) is None)
                ==> r is Err
            &&& (style_override is None && !env_set && style_named(trim(raw.commit.style@)) == Some(
                style,
            ) && r is Ok) ==> r->Ok_0.style == style
            &&& (style_override is None && !env_set && style_named(trim(raw.commit.style@)) is None)
                ==> r is Err
        }),
{
}

/// Resolution keeps the file's push setting and context budgets, and only
/// budgets within `1..=1000000` are accepted.
pub proof fn law_resolution_keeps_file_settings(
    raw: RawConfig,
    config_path: Seq<char>,
    config_exists: bool,
    implicit_exists: bool,
    profile_override: Option<Seq<char>>,
    model_override: Option<Seq<char>>,
    style_override: Option<Seq<char>>,
    env: Environment,
)
    ensures
        resolution(
            raw,
            config_path,
            config_exists,
            implicit_exists,
            profile_override,
            model_override,
            style_override,
            env,
        ) matches Ok(v) ==> {
            &&& v.push == raw.workflow.push
            &&& v.limits.stat_max_chars == raw.context.stat_max_chars
            &&& v.limits.patch_max_chars == raw.context.patch_max_chars
            &&& 1 <= v.limits.stat_max_chars <= 1000000
            &&& 1 <= v.limits.patch_max_chars <= 1000000
            &&& v.config_path == config_path
            &&& v.config_exists == config_exists
            &&& raw.version == 1
        },
{
}

/// The profile precedence: a `--profile` flag, else a non-blank
/// `YEET_PROFILE`, else the file's `generation.profile`, each trimmed, names
/// the profile, which must be defined in the file with the Codex harness;
/// the model comes from `--model`, else `YEET_MODEL`, else
/// `YEET_CODEX_MODEL`, else the profile.
pub proof fn law_profile_and_model_precedence(
    raw: RawConfig,
    config_path: Seq<char>,
    config_exists: bool,
    implicit_exists: bool,
    profile_override: Option<Seq<char>>,
    model_override: Option<Seq<char>>,
    style_override: Option<Seq<char>>,
    env: Environment,
)
    ensures
        resolution(
            raw,
            config_path,
            config_exists,
            implicit_exists,
            profile_override,
            model_override,
            style_override,
            env,
        ) matches Ok(v) ==> {
            &&& (profile_override is Some ==> v.profile_name == trim(profile_override->Some_0))
            &&& (profile_override is None && env.profile is Some && !is_blank(env.profile->Some_0@)
                ==> v.profile_name == trim(env.profile->Some_0@))
            &&& (profile_override is None && !(env.profile is Some && !is_blank(
                env.profile->Some_0@,
            )) ==> v.profile_name == trim(raw.generation.profile@))
            &&& exists|k: int|
                0 <= k < raw.profiles@.len() && #[trigger] raw.profiles@[k].0@ == v.profile_name
                    && trim(raw.profiles@[k].1.harness@) == "codex"@ && v.harness == "codex"@
                    && (model_override is None && !(env.model is Some && !is_blank(
                    env.model->Some_0@,
                )) && !(env.codex_model is Some && !is_blank(env.codex_model->Some_0@))
                    ==> v.model == trim(raw.profiles@[k].1.model@))
            &&& (model_override is Some ==> v.model == trim(model_override->Some_0))
            &&& (model_override is None && env.model is Some && !is_blank(env.model->Some_0@)
                ==> v.model == trim(env.model->Some_0@))
            &&& (model_override is None && !(env.model is Some && !is_blank(env.model->Some_0@))
                && env.codex_model is Some && !is_blank(env.codex_model->Some_0@) ==> v.model
                == trim(env.codex_model->Some_0@))
        },
{
    let r = resolution(
        raw,
        config_path,
        config_exists,
        implicit_exists,
        profile_override,
        model_override,
        style_override,
        env,
    );
    if r is Ok {
        let name = selected_profile(profile_override, env, raw)->Ok_0;
        lemma_profile_named_found(raw.profiles@, name, 0);
        let k = profile_named(raw.profiles@, name, 0)->Some_0;
        assert(raw.profiles@[k].0@ == r->Ok_0.profile_name);
    }
}

/// A text result agrees with its specification.
pub open spec fn text_agrees(r: Result<String, ConfigError>, s: Result<Seq<char>, ConfigFault>) -> bool {
    match s {
        Ok(t) => r matches Ok(v) && v@ == t,
        Err(f) => r matches Err(e) && e@ == f,
    }
}

/// A variable's value when it holds non-whitespace text.
pub fn nonblank_value(o: &Option<String>) -> (r: Option<String>)
    ensures
        opt_view(r) == nonblank(*o),
{
    match o {
        Some(v) => {
            if str_is_blank(v.as_str()) {
                None
            } else {
                Some(v.clone())
            }
        },
        None => None,
    }
}

fn find_blank_name(ps: &Vec<(String, RawProfile)>) -> (r: Option<usize>)
    ensures
        r matches Some(k) ==> first_blank_name(ps@, 0) == Some(k as int) && k < ps@.len(),
        r is None ==> first_blank_name(ps@, 0) is None,
{
    let mut i: usize = 0;
    while i < ps.len()
        invariant
            i <= ps@.len(),
            first_blank_name(ps@, 0) == first_blank_name(ps@, i as int),
        decreases ps@.len() - i,
    {
        if str_is_blank(ps[i].0.as_str()) {
            return Some(i);
        }
        i = i + 1;
    }
    None
}

fn find_profile(ps: &Vec<(String, RawProfile)>, name: &str) -> (r: Option<usize>)
    ensures
        r matches Some(k) ==> profile_named(ps@, name@, 0) == Some(k as int) && k < ps@.len(),
        r is None ==> profile_named(ps@, name@, 0) is None,
{
    let mut i: usize = 0;
    while i < ps.len()
        invariant
            i <= ps@.len(),
            profile_named(ps@, name@, 0) == profile_named(ps@, name@, i as int),
        decreases ps@.len() - i,
    {
        if str_equal(ps[i].0.as_str(), name) {
            return Some(i);
        }
        i = i + 1;
    }
    None
}

fn choose_profile(profile_override: Option<&str>, env: &Environment, raw: &RawConfig) -> (r: Result<
    String,
    ConfigError,
>)
    ensures
        text_agrees(r, selected_profile(over(profile_override), *env, *raw)),
{
    match profile_override {
        Some(v) => {
            if str_is_blank(v) {
                Err(ConfigError::MissingProfile(v.to_owned()))
            } else {
                Ok(trimmed(v))
            }
        },
        None => {
            let n = match nonblank_value(&env.profile) {
                Some(e) => trimmed(e.as_str()),
                None => trimmed(raw.generation.profile.as_str()),
            };
            if str_is_blank(n.as_str()) {
                Err(ConfigError::MissingProfile(n))
            } else {
                Ok(n)
            }
        },
    }
}

fn choose_model(model_override: Option<&str>, env: &Environment, configured: String) -> (r: Result<
    String,
    ConfigError,
>)
    ensures
        text_agrees(r, selected_model(over(model_override), *env, configured@)),
{
    match model_override {
        Some(v) => {
            if str_is_blank(v) {
                Err(ConfigError::InvalidModel)
            } else {
                Ok(trimmed(v))
            }
        },
        None => match nonblank_value(&env.model) {
            Some(m) => Ok(trimmed(m.as_str())),
            None => match nonblank_value(&env.codex_model) {
                Some(c) => Ok(trimmed(c.as_str())),
                None => Ok(configured),
            },
        },
    }
}

fn choose_reasoning(env: &Environment, configured: &Option<String>) -> (r: String)
    ensures
        r@ == selected_reasoning(*env, *configured),
{
    match nonblank_value(&env.codex_reasoning_effort) {
        Some(v) => trimmed(v.as_str()),
        None => match configured {
            Some(c) => c.clone(),
            None => DEFAULT_REASONING_EFFORT.to_owned(),
        },
    }
}

/// Codex accepts `none`, `low`, `medium`, `high`, `xhigh` and `max`.
pub fn validate_reasoning_effort(value: &str) -> (r: Result<(), ConfigError>)
    ensures
        valid_reasoning_effort(value@) ==> r is Ok,
        !valid_reasoning_effort(value@) ==> (r matches Err(e) && e@
            == ConfigFault::InvalidReasoningEffort(value@)),
{
    if str_equal(value, "none") || str_equal(value, "low") || str_equal(value, "medium")
        || str_equal(value, "high") || str_equal(value, "xhigh") || str_equal(value, "max") {
        Ok(())
    } else {
        Err(ConfigError::InvalidReasoningEffort(value.to_owned()))
    }
}

/// A context budget must lie in `1..=1000000`.
pub fn validate_limit(name: &'static str, value: usize) -> (r: Result<(), ConfigError>)
    ensures
        valid_limit(value) ==> r is Ok,
        !valid_limit(value) ==> (r matches Err(e) && e@ == ConfigFault::InvalidLimit {
            name: name@,
            value,
        }),
{
    if 1 <= value && value <= MAX_CONTEXT_CHARS {
        Ok(())
    } else {
        Err(ConfigError::InvalidLimit { name, value })
    }
}

fn choose_style(style_override: Option<&str>, env: &Environment, raw: &RawConfig) -> (r: Result<
    CommitStyle,
    ConfigError,
>)
    ensures
        match selected_style(over(style_override), *env, *raw) {
            Ok(st) => r == Ok::<CommitStyle, ConfigError>(st),
            Err(f) => r matches Err(e) && e@ == f,
        },
{
    let name = match style_override {
        Some(v) => {
            if str_is_blank(v) {
                return Err(ConfigError::InvalidStyle(v.to_owned()));
            }
            trimmed(v)
        },
        None => match nonblank_value(&env.style) {
            Some(s) => trimmed(s.as_str()),
            None => trimmed(raw.commit.style.as_str()),
        },
    };
    match parse_style(name.as_str()) {
        Ok(st) => Ok(st),
        Err(_) => Err(ConfigError::InvalidStyle(name)),
    }
}

fn choose_instructions(
    raw: &RawConfig,
    config_path: &str,
    config_exists: bool,
    implicit_exists: bool,
    env: &Environment,
) -> (r: Result<Option<String>, ConfigError>)
    ensures
        match selected_instructions(*raw, config_path@, config_exists, implicit_exists, *env) {
            Ok(o) => r matches Ok(p) && opt_view(p) == o,
            Err(f) => r matches Err(e) && e@ == f,
        },
{
    match &raw.generation.instructions_file {
        Some(v) => {
            if str_is_blank(v.as_str()) {
                Err(ConfigError::InvalidInstructionsPath)
            } else {
                Ok(Some(resolve_config_path(v.as_str(), config_path, env)))
            }
        },
        None => {
            if config_exists && implicit_exists {
                Ok(Some(implicit_instructions_path(config_path)))
            } else {
                Ok(None)
            }
        },
    }
}

/// Resolve settings from what was read: the configuration file's content
/// (or the defaults when it does not exist), whether `instructions.md`
/// exists beside it, the command-line overrides and the environment.
/// Flags win over environment variables, which win over the file, which
/// wins over built-in defaults.
pub fn resolve_settings(
    raw: &RawConfig,
    config_path: String,
    config_exists: bool,
    implicit_exists: bool,
    profile_override: Option<&str>,
    model_override: Option<&str>,
    style_override: Option<&str>,
    env: &Environment,
) -> (r: Result<ResolvedConfig, ConfigError>)
    ensures
        match resolution(
            *raw,
            config_path@,
            config_exists,
            implicit_exists,
            over(profile_override),
            over(model_override),
            over(style_override),
            *env,
        ) {
            Ok(v) => r matches Ok(c) && c@ == v,
            Err(f) => r matches Err(e) && e@ == f,
        },
{
    if raw.version != CONFIG_VERSION {
        return Err(ConfigError::UnsupportedVersion(raw.version));
    }
    if let Some(i) = find_blank_name(&raw.profiles) {
        let blank_name = raw.profiles[i].0.clone();
        assert(blank_name@ == raw.profiles@[i as int].0@);
        return Err(ConfigError::InvalidProfileName(blank_name));
    }
    let name = choose_profile(profile_override, env, raw)?;
    let index = match find_profile(&raw.profiles, name.as_str()) {
        Some(i) => i,
        None => {
            return Err(ConfigError::MissingProfile(name));
        },
    };
    let profile = &raw.profiles[index].1;
    assert(*profile == raw.profiles@[index as int].1);
    let harness = trimmed(profile.harness.as_str());
    let is_codex = str_equal(harness.as_str(), "codex");
    if !is_codex {
        assert(harness@ != "codex"@);
        return Err(ConfigError::InvalidHarness(harness));
    }
    let configured_model = trimmed(profile.model.as_str());
    if configured_model.as_str().is_empty() {
        return Err(ConfigError::InvalidModel);
    }
    let model = choose_model(model_override, env, configured_model)?;
    let reasoning = choose_reasoning(env, &profile.options.reasoning_effort);
    validate_reasoning_effort(reasoning.as_str())?;
    let style = choose_style(style_override, env, raw)?;
    validate_limit("context.stat_max_chars", raw.context.stat_max_chars)?;
    validate_limit("context.patch_max_chars", raw.context.patch_max_chars)?;
    let instructions_explicit = raw.generation.instructions_file.is_some();
    let instructions_file = choose_instructions(
        raw,
        config_path.as_str(),
        config_exists,
        implicit_exists,
        env,
    )?;
    Ok(
        ResolvedConfig {
            config_path,
            config_exists,
            profile: Profile { name, harness, model, reasoning_effort: reasoning },
            style,
            push: raw.workflow.push,
            limits: ContextLimits {
                stat_max_chars: raw.context.stat_max_chars,
                patch_max_chars: raw.context.patch_max_chars,
            },
            instructions_file,
            instructions_explicit,
        },
    )
}

/// `true` or `false`.
pub open spec fn bool_text(b: bool) -> Seq<char> {
    if b {
        "true"@
    } else {
        "false"@
    }
}

/// The instructions line of `yeet config show`.
pub open spec fn instructions_line(c: ResolvedView, instructions_exists: bool) -> Seq<char> {
    match c.instructions_file {
        Some(p) => p + if instructions_exists {
            " (loaded)"@
        } else if c.instructions_explicit {
            " (missing)"@
        } else {
            " (not present)"@
        },
        None => "none"@,
    }
}

/// The first line of `yeet config show`, without its newline.
pub open spec fn config_header(c: ResolvedView) -> Seq<char> {
    "config: "@ + c.config_path + " ("@ + (if c.config_exists {
        "loaded"@
    } else {
        "defaults"@
    }) + ")"@
}

/// The profile lines of `yeet config show`.
pub open spec fn profile_lines(c: ResolvedView) -> Seq<char> {
    "\nprofile: "@ + c.profile_name + "\nharness: "@ + c.harness + "\nmodel: "@ + c.model
        + "\nreasoning_effort: "@ + c.reasoning_effort
}

/// The style, push and budget lines of `yeet config show`.
pub open spec fn settings_lines(c: ResolvedView) -> Seq<char> {
    "\nstyle: "@ + style_name(c.style) + "\npush: "@ + bool_text(c.push) + "\nstat_max_chars: "@
        + decimal(c.limits.stat_max_chars as nat) + "\npatch_max_chars: "@ + decimal(
        c.limits.patch_max_chars as nat,
    )
}

/// What `yeet config show` prints.
pub open spec fn show_text(c: ResolvedView, instructions_exists: bool) -> Seq<char> {
    config_header(c) + profile_lines(c) + settings_lines(c) + "\ninstructions: "@
        + instructions_line(c, instructions_exists) + "\n"@
}

fn push_instructions_line(s: &mut String, config: &ResolvedConfig, instructions_exists: bool)
    ensures
        final(s)@ == old(s)@ + instructions_line(config@, instructions_exists),
{
    let ghost start = s@;
    match &config.instructions_file {
        Some(path) => {
            push_str(s, path.as_str());
            if instructions_exists {
                push_str(s, " (loaded)");
            } else if config.instructions_explicit {
                push_str(s, " (missing)");
            } else {
                push_str(s, " (not present)");
            }
        },
        None => {
            push_str(s, "none");
        },
    }
    assert(s@ =~= start + instructions_line(config@, instructions_exists));
}

fn push_profile_lines(s: &mut String, config: &ResolvedConfig)
    ensures
        final(s)@ == old(s)@ + profile_lines(config@),
{
    let ghost start = s@;
    push_str(s, "\nprofile: ");
    push_str(s, config.profile.name.as_str());
    push_str(s, "\nharness: ");
    push_str(s, config.profile.harness.as_str());
    push_str(s, "\nmodel: ");
    push_str(s, config.profile.model.as_str());
    push_str(s, "\nreasoning_effort: ");
    push_str(s, config.profile.reasoning_effort.as_str());
    assert(s@ =~= start + profile_lines(config@));
}

fn push_settings_lines(s: &mut String, config: &ResolvedConfig)
    ensures
        final(s)@ == old(s)@ + settings_lines(config@),
{
    let ghost start = s@;
    push_str(s, "\nstyle: ");
    push_str(s, config.style.as_str());
    push_str(s, "\npush: ");
    if config.push {
        push_str(s, "true");
    } else {
        push_str(s, "false");
    }
    push_str(s, "\nstat_max_chars: ");
    let stat = decimal_string(config.limits.stat_max_chars as u64);
    push_str(s, stat.as_str());
    push_str(s, "\npatch_max_chars: ");
    let patch = decimal_string(config.limits.patch_max_chars as u64);
    push_str(s, patch.as_str());
    assert(s@ =~= start + settings_lines(config@));
}

/// `yeet config show` labels each setting with its own value: the
/// profile, model and reasoning effort, and the stat and patch budgets in
/// that order, followed by the instructions line.
pub proof fn law_show_labels_each_value(c: ResolvedView, instructions_exists: bool)
    ensures
        has_substring(
            show_text(c, instructions_exists),
            "\nstat_max_chars: "@ + decimal(c.limits.stat_max_chars as nat) + "\npatch_max_chars: "@
                + decimal(c.limits.patch_max_chars as nat) + "\ninstructions: "@,
        ),
        has_substring(
            show_text(c, instructions_exists),
            "\nprofile: "@ + c.profile_name + "\nharness: "@ + c.harness + "\nmodel: "@ + c.model
                + "\nreasoning_effort: "@ + c.reasoning_effort + "\nstyle: "@,
        ),
{
    let lead = config_header(c) + profile_lines(c) + "\nstyle: "@ + style_name(c.style)
        + "\npush: "@ + bool_text(c.push);
    let t = "\nstat_max_chars: "@ + decimal(c.limits.stat_max_chars as nat) + "\npatch_max_chars: "@
        + decimal(c.limits.patch_max_chars as nat) + "\ninstructions: "@;
    let rest = instructions_line(c, instructions_exists) + "\n"@;
    lemma_piece_occurs(lead, t, rest);
    assert(lead + t + rest =~= show_text(c, instructions_exists));
    let t2 = profile_lines(c) + "\nstyle: "@;
    let rest2 = style_name(c.style) + "\npush: "@ + bool_text(c.push) + "\nstat_max_chars: "@
        + decimal(c.limits.stat_max_chars as nat) + "\npatch_max_chars: "@ + decimal(
        c.limits.patch_max_chars as nat,
    ) + "\ninstructions: "@ + instructions_line(c, instructions_exists) + "\n"@;
    lemma_piece_occurs(config_header(c), t2, rest2);
    assert(config_header(c) + t2 + rest2 =~= show_text(c, instructions_exists));
    assert(t2 =~= "\nprofile: "@ + c.profile_name + "\nharness: "@ + c.harness + "\nmodel: "@
        + c.model + "\nreasoning_effort: "@ + c.reasoning_effort + "\nstyle: "@);
}

/// Format resolved values for `yeet config show` without invoking Git or a
/// harness. Paths are shown even when the configuration is absent;
/// `instructions_exists` tells whether the instructions file exists.
pub fn show(config: &ResolvedConfig, instructions_exists: bool) -> (s: String)
    ensures
        s@ == show_text(config@, instructions_exists),
        has_substring(
            s@,
            "\nstat_max_chars: "@ + decimal(config.limits.stat_max_chars as nat)
                + "\npatch_max_chars: "@ + decimal(config.limits.patch_max_chars as nat)
                + "\ninstructions: "@,
        ),
{
    proof {
        law_show_labels_each_value(config@, instructions_exists);
    }
    let mut s = String::new();
    push_str(&mut s, "config: ");
    push_str(&mut s, config.config_path.as_str());
    push_str(&mut s, " (");
    if config.config_exists {
        push_str(&mut s, "loaded");
    } else {
        push_str(&mut s, "defaults");
    }
    push_str(&mut s, ")");
    assert(s@ =~= config_header(config@));
    push_profile_lines(&mut s, config);
    push_settings_lines(&mut s, config);
    push_str(&mut s, "\ninstructions: ");
    push_instructions_line(&mut s, config, instructions_exists);
    push_str(&mut s, "\n");
    s
}

/// What `yeet config init` reports for a starter file: created, or kept.
pub fn init_message(created: bool, path: &str) -> (s: String)
    ensures
        s@ == (if created {
            "created "@
        } else {
            "kept existing "@
        }) + path@,
{
    let mut s = String::new();
    if created {
        push_str(&mut s, "created ");
    } else {
        push_str(&mut s, "kept existing ");
    }
    push_str(&mut s, path);
    s
}

} // verus!

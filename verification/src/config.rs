//! Configuration: what a repository asks of its reviews, and what one run is told by flags,
//! environment and file.
use vstd::prelude::*;
use vstd::string::*;

use crate::chars;
use crate::chars::{
    begins_with, chars_of, copy_texts, finishes_with, is_blank, pieces, same_text,
    search_char_from, trimmed,
};

verus! {

// ---------------------------------------------------------------------------
// Severity
// ---------------------------------------------------------------------------

/// How much a finding weighs.
#[derive(Debug, Clone, Copy, PartialEq, Eq, Structural)]
pub enum Severity {
    Info,
    Warn,
    Error,
}

/// The rank of a severity: the graver, the higher.
pub open spec fn severity_rank(s: Severity) -> u8 {
    match s {
        Severity::Info => 0,
        Severity::Warn => 1,
        Severity::Error => 2,
    }
}

/// The name of a severity.
pub open spec fn severity_name(s: Severity) -> Seq<char> {
    match s {
        Severity::Info => "info"@,
        Severity::Warn => "warn"@,
        Severity::Error => "error"@,
    }
}

/// The severity of a name.
pub open spec fn severity_named(name: Seq<char>) -> Option<Severity> {
    if name == "info"@ {
        Some(Severity::Info)
    } else if name == "warn"@ {
        Some(Severity::Warn)
    } else if name == "error"@ {
        Some(Severity::Error)
    } else {
        None
    }
}

impl Severity {
    /// The rank of this severity: the graver, the higher.
    pub fn rank(self) -> (r: u8)
        ensures
            r == severity_rank(self),
    {
        match self {
            Severity::Info => 0,
            Severity::Warn => 1,
            Severity::Error => 2,
        }
    }

    /// The name of this severity.
    pub fn as_str(self) -> (r: &'static str)
        ensures
            r@ == severity_name(self),
    {
        match self {
            Severity::Info => "info",
            Severity::Warn => "warn",
            Severity::Error => "error",
        }
    }

    /// The name of this severity in capitals.
    pub fn as_capitals(self) -> (r: &'static str)
        ensures
            r@ == chars::capitals(severity_name(self)),
    {
        proof {
            reveal_strlit("info");
            reveal_strlit("warn");
            reveal_strlit("error");
            reveal_strlit("INFO");
            reveal_strlit("WARN");
            reveal_strlit("ERROR");
        }
        let r: &'static str = match self {
            Severity::Info => "INFO",
            Severity::Warn => "WARN",
            Severity::Error => "ERROR",
        };
        assert(r@ =~= chars::capitals(severity_name(self)));
        r
    }

    /// The severity of a name, if it is one.
    pub fn named(name: &str) -> (r: Option<Severity>)
        ensures
            r == severity_named(name@),
    {
        if same_text(name, "info") {
            Some(Severity::Info)
        } else if same_text(name, "warn") {
            Some(Severity::Warn)
        } else if same_text(name, "error") {
            Some(Severity::Error)
        } else {
            None
        }
    }
}

/// A severity is the one that its name names.
pub proof fn law_severity_names_round_trip(s: Severity)
    ensures
        severity_named(severity_name(s)) == Some(s),
{
    reveal_strlit("info");
    reveal_strlit("warn");
    reveal_strlit("error");
    assert("info"@[0] == 'i' && "warn"@[0] == 'w' && "error"@[0] == 'e');
}

/// Only the names of severities name one.
pub proof fn law_named_severity_has_that_name(name: Seq<char>)
    ensures
        severity_named(name) matches Some(s) ==> severity_name(s) == name,
{
}

// ---------------------------------------------------------------------------
// What a repository asks of its reviews
// ---------------------------------------------------------------------------

/// What to do when a review finds nothing.
#[derive(Debug, Clone, Copy, PartialEq, Eq, Structural)]
pub enum OnClean {
    Approve,
    Skip,
}

/// How reviews are posted.
#[derive(Debug)]
pub struct ReviewConfig {
    pub enabled: bool,
    pub on_clean: OnClean,
    pub auto_merge: bool,
    pub required_checks: Vec<String>,
    pub auto_merge_timeout_ms: u64,
}

/// The contents of a [`ReviewConfig`].
#[verifier::ext_equal]
pub struct ReviewConfigView {
    pub enabled: bool,
    pub on_clean: OnClean,
    pub auto_merge: bool,
    pub required_checks: Seq<Seq<char>>,
    pub auto_merge_timeout_ms: u64,
}

impl View for ReviewConfig {
    type V = ReviewConfigView;

    open spec fn view(&self) -> ReviewConfigView {
        ReviewConfigView {
            enabled: self.enabled,
            on_clean: self.on_clean,
            auto_merge: self.auto_merge,
            required_checks: chars::texts(self.required_checks@),
            auto_merge_timeout_ms: self.auto_merge_timeout_ms,
        }
    }
}

/// The posting rules of a repository that sets none: reviews are posted, but a clean one is
/// passed over in silence.
pub open spec fn default_review() -> ReviewConfigView {
    ReviewConfigView {
        enabled: true,
        on_clean: OnClean::Skip,
        auto_merge: false,
        required_checks: Seq::empty(),
        auto_merge_timeout_ms: 15_000,
    }
}

impl Default for ReviewConfig {
    fn default() -> (r: Self)
        ensures
            r@ == default_review(),
    {
        let r = ReviewConfig {
            enabled: true,
            on_clean: OnClean::Skip,
            auto_merge: false,
            required_checks: Vec::new(),
            auto_merge_timeout_ms: 15_000,
        };
        assert(r@ =~= default_review());
        r
    }
}

impl Clone for ReviewConfig {
    fn clone(&self) -> (r: Self)
        ensures
            r@ == self@,
    {
        ReviewConfig {
            enabled: self.enabled,
            on_clean: self.on_clean,
            auto_merge: self.auto_merge,
            required_checks: copy_texts(&self.required_checks),
            auto_merge_timeout_ms: self.auto_merge_timeout_ms,
        }
    }
}

/// How reviews are worded and what they look at first.
#[derive(Debug)]
pub struct ReviewerConfig {
    pub tone: String,
    pub focus: Vec<String>,
}

/// The contents of a [`ReviewerConfig`].
#[verifier::ext_equal]
pub struct ReviewerConfigView {
    pub tone: Seq<char>,
    pub focus: Seq<Seq<char>>,
}

impl View for ReviewerConfig {
    type V = ReviewerConfigView;

    open spec fn view(&self) -> ReviewerConfigView {
        ReviewerConfigView { tone: self.tone@, focus: chars::texts(self.focus@) }
    }
}

/// Wording and focus where a repository says nothing about them.
pub open spec fn default_reviewer() -> ReviewerConfigView {
    ReviewerConfigView { tone: "neutral"@, focus: Seq::empty() }
}

impl Default for ReviewerConfig {
    fn default() -> (r: Self)
        ensures
            r@ == default_reviewer(),
    {
        let r = ReviewerConfig { tone: "neutral".to_owned(), focus: Vec::new() };
        assert(r@ =~= default_reviewer());
        r
    }
}

impl Clone for ReviewerConfig {
    fn clone(&self) -> (r: Self)
        ensures
            r@ == self@,
    {
        ReviewerConfig { tone: self.tone.clone(), focus: copy_texts(&self.focus) }
    }
}

/// What a repository asks of its reviews. `required_checks` and `auto_merge_timeout_ms` may be
/// given here as well as under `review`.
#[derive(Debug)]
pub struct RepoReviewConfig {
    pub enabled: bool,
    pub ignore: Vec<String>,
    pub severity_threshold: Severity,
    pub max_findings: usize,
    pub reviewer: ReviewerConfig,
    pub review: ReviewConfig,
    pub required_checks: Vec<String>,
    pub auto_merge_timeout_ms: Option<u64>,
}

/// The contents of a [`RepoReviewConfig`].
#[verifier::ext_equal]
pub struct RepoReviewConfigView {
    pub enabled: bool,
    pub ignore: Seq<Seq<char>>,
    pub severity_threshold: Severity,
    pub max_findings: usize,
    pub reviewer: ReviewerConfigView,
    pub review: ReviewConfigView,
    pub required_checks: Seq<Seq<char>>,
    pub auto_merge_timeout_ms: Option<u64>,
}

impl View for RepoReviewConfig {
    type V = RepoReviewConfigView;

    open spec fn view(&self) -> RepoReviewConfigView {
        RepoReviewConfigView {
            enabled: self.enabled,
            ignore: chars::texts(self.ignore@),
            severity_threshold: self.severity_threshold,
            max_findings: self.max_findings,
            reviewer: self.reviewer@,
            review: self.review@,
            required_checks: chars::texts(self.required_checks@),
            auto_merge_timeout_ms: self.auto_merge_timeout_ms,
        }
    }
}

/// The built-in defaults.
pub open spec fn default_config() -> RepoReviewConfigView {
    RepoReviewConfigView {
        enabled: true,
        ignore: Seq::empty(),
        severity_threshold: Severity::Info,
        max_findings: 25,
        reviewer: default_reviewer(),
        review: default_review(),
        required_checks: Seq::empty(),
        auto_merge_timeout_ms: None,
    }
}

impl Default for RepoReviewConfig {
    fn default() -> (r: Self)
        ensures
            r@ == default_config(),
    {
        let r = RepoReviewConfig {
            enabled: true,
            ignore: Vec::new(),
            severity_threshold: Severity::Info,
            max_findings: 25,
            reviewer: ReviewerConfig::default(),
            review: ReviewConfig::default(),
            required_checks: Vec::new(),
            auto_merge_timeout_ms: None,
        };
        assert(r@ =~= default_config());
        r
    }
}

impl Clone for RepoReviewConfig {
    fn clone(&self) -> (r: Self)
        ensures
            r@ == self@,
    {
        RepoReviewConfig {
            enabled: self.enabled,
            ignore: copy_texts(&self.ignore),
            severity_threshold: self.severity_threshold,
            max_findings: self.max_findings,
            reviewer: self.reviewer.clone(),
            review: self.review.clone(),
            required_checks: copy_texts(&self.required_checks),
            auto_merge_timeout_ms: self.auto_merge_timeout_ms,
        }
    }
}

/// The checks that have to pass: those under `review`, or where there are none the top-level
/// ones.
pub open spec fn effective_checks(c: RepoReviewConfigView) -> Seq<Seq<char>> {
    if c.review.required_checks.len() == 0 {
        c.required_checks
    } else {
        c.review.required_checks
    }
}

/// The time that merging may take: the top-level one, or where there is none the one under
/// `review`.
pub open spec fn effective_timeout(c: RepoReviewConfigView) -> u64 {
    match c.auto_merge_timeout_ms {
        Some(t) => t,
        None => c.review.auto_merge_timeout_ms,
    }
}

/// A configuration with the effective checks and timeout under `review`.
pub open spec fn normalized(c: RepoReviewConfigView) -> RepoReviewConfigView {
    RepoReviewConfigView {
        review: ReviewConfigView {
            required_checks: effective_checks(c),
            auto_merge_timeout_ms: effective_timeout(c),
            ..c.review
        },
        ..c
    }
}

/// Normalising twice is normalising once.
pub proof fn law_normalize_idempotent(c: RepoReviewConfigView)
    ensures
        normalized(normalized(c)) == normalized(c),
{
}

/// Checks and timeout count the same at the top level as under `review`.
pub proof fn law_top_level_and_nested_agree(
    c: RepoReviewConfigView,
    checks: Seq<Seq<char>>,
    timeout: u64,
)
    requires
        c.required_checks.len() == 0,
        c.review.required_checks.len() == 0,
        c.auto_merge_timeout_ms is None,
    ensures
        normalized(
            RepoReviewConfigView {
                required_checks: checks,
                auto_merge_timeout_ms: Some(timeout),
                ..c
            },
        ).review == normalized(
            RepoReviewConfigView {
                review: ReviewConfigView {
                    required_checks: checks,
                    auto_merge_timeout_ms: timeout,
                    ..c.review
                },
                ..c
            },
        ).review,
{
    if checks.len() == 0 {
        assert(checks =~= c.required_checks);
    }
}

/// The notation that a configuration file is written in.
#[derive(Debug, Clone, Copy, PartialEq, Eq, Structural)]
pub enum ConfigFormat {
    Json,
    Yaml,
}

/// Files named `*.json` hold JSON; every other one holds YAML.
pub open spec fn format_of_path(path: Seq<char>) -> ConfigFormat {
    if ".json"@.is_suffix_of(path) {
        ConfigFormat::Json
    } else {
        ConfigFormat::Yaml
    }
}

/// The notation of the repository's configuration file at `path`.
pub fn config_format(path: &str) -> (r: ConfigFormat)
    ensures
        r == format_of_path(path@),
{
    if finishes_with(path, ".json") {
        ConfigFormat::Json
    } else {
        ConfigFormat::Yaml
    }
}

/// Why a configuration or a review target could not be had.
#[derive(Debug, Clone)]
pub enum ConfigError {
    /// A required setting is missing or blank.
    NotSet(String),
    /// A configuration file could not be read as what its name says it is.
    Unreadable { format: ConfigFormat, path: String, cause: String },
    /// Nothing names the repository.
    RepoUnknown,
    /// The repository is not written `owner/repository`.
    InvalidRepo(String),
    /// Nothing gives the number of the pull request.
    PrUnknown,
}

/// The contents of a [`ConfigError`].
pub enum ConfigErrorView {
    NotSet(Seq<char>),
    Unreadable { format: ConfigFormat, path: Seq<char>, cause: Seq<char> },
    RepoUnknown,
    InvalidRepo(Seq<char>),
    PrUnknown,
}

impl View for ConfigError {
    type V = ConfigErrorView;

    open spec fn view(&self) -> ConfigErrorView {
        match self {
            ConfigError::NotSet(name) => ConfigErrorView::NotSet(name@),
            ConfigError::Unreadable { format, path, cause } => ConfigErrorView::Unreadable {
                format: *format,
                path: path@,
                cause: cause@,
            },
            ConfigError::RepoUnknown => ConfigErrorView::RepoUnknown,
            ConfigError::InvalidRepo(repo) => ConfigErrorView::InvalidRepo(repo@),
            ConfigError::PrUnknown => ConfigErrorView::PrUnknown,
        }
    }
}

/// The sentence that tells a user about an error.
pub open spec fn error_message(e: ConfigErrorView) -> Seq<char> {
    match e {
        ConfigErrorView::NotSet(name) => name + " is not set"@,
        ConfigErrorView::Unreadable { format, path, cause } => (match format {
            ConfigFormat::Json => "parse JSON config "@,
            ConfigFormat::Yaml => "parse YAML config "@,
        }) + path + ": "@ + cause,
        ConfigErrorView::RepoUnknown =>
            "repo unknown: set --repo, config repo, or GITHUB_REPOSITORY"@,
        ConfigErrorView::InvalidRepo(repo) => "invalid repo: "@ + repo,
        ConfigErrorView::PrUnknown =>
            "pr unknown: set --pr, config pr, or run via pull_request event"@,
    }
}

impl ConfigError {
    /// The sentence that tells a user about this error.
    pub fn message(&self) -> (r: String)
        ensures
            r@ == error_message(self@),
    {
        match self {
            ConfigError::NotSet(name) => {
                let mut r: String = name.clone();
                r.append(" is not set");
                r
            },
            ConfigError::Unreadable { format, path, cause } => {
                let mut r: String = match format {
                    ConfigFormat::Json => "parse JSON config ".to_owned(),
                    ConfigFormat::Yaml => "parse YAML config ".to_owned(),
                };
                r.append(path.as_str());
                r.append(": ");
                r.append(cause.as_str());
                r
            },
            ConfigError::RepoUnknown =>
                "repo unknown: set --repo, config repo, or GITHUB_REPOSITORY".to_owned(),
            ConfigError::InvalidRepo(repo) => {
                let mut r: String = "invalid repo: ".to_owned();
                r.append(repo.as_str());
                r
            },
            ConfigError::PrUnknown =>
                "pr unknown: set --pr, config pr, or run via pull_request event".to_owned(),
        }
    }
}

impl RepoReviewConfig {
    /// Carries top-level checks and timeout over to `review`.
    pub fn normalize(self) -> (r: Self)
        ensures
            r@ == normalized(self@),
    {
        let mut r = self;
        if r.required_checks.len() != 0 && r.review.required_checks.len() == 0 {
            r.review.required_checks = copy_texts(&r.required_checks);
        }
        if let Some(timeout) = r.auto_merge_timeout_ms {
            r.review.auto_merge_timeout_ms = timeout;
        }
        assert(r@ =~~= normalized(self@));
        r
    }

    /// The configuration in the file at `path`, normalised. `parsed` is what the file's text
    /// says in the notation that [`config_format`] tells, or why it says nothing.
    pub fn from_text(path: &str, parsed: Result<RepoReviewConfig, String>) -> (r: Result<
        RepoReviewConfig,
        ConfigError,
    >)
        ensures
            match parsed {
                Ok(config) => r is Ok && r->Ok_0@ == normalized(config@),
                Err(cause) => r is Err && r->Err_0@ == (ConfigErrorView::Unreadable {
                    format: format_of_path(path@),
                    path: path@,
                    cause: cause@,
                }),
            },
    {
        match parsed {
            Ok(config) => Ok(config.normalize()),
            Err(cause) => Err(
                ConfigError::Unreadable {
                    format: config_format(path),
                    path: path.to_owned(),
                    cause,
                },
            ),
        }
    }
}

// ---------------------------------------------------------------------------
// What one run is told
// ---------------------------------------------------------------------------

/// What the file given by `--config` says.
#[derive(Debug, Clone)]
pub struct RuntimeFileConfig {
    pub github_token: Option<String>,
    pub github_repository: Option<String>,
    pub github_event_path: Option<String>,
    pub github_api_url: Option<String>,
    pub openrouter_api_key: Option<String>,
    pub openrouter_api_url: Option<String>,
    pub review_model: Option<String>,
    pub review_model_cascade: Option<String>,
    pub fail_on: Option<Severity>,
    pub no_inline: Option<bool>,
    pub diff_limit: Option<usize>,
    pub check_name: Option<String>,
    pub check_run_id: Option<u64>,
    pub repo: Option<String>,
    pub pr: Option<u64>,
    pub sha: Option<String>,
    pub review: Option<RepoReviewConfig>,
}

/// A file that says nothing.
pub open spec fn silent_file() -> RuntimeFileConfig {
    RuntimeFileConfig {
        github_token: None,
        github_repository: None,
        github_event_path: None,
        github_api_url: None,
        openrouter_api_key: None,
        openrouter_api_url: None,
        review_model: None,
        review_model_cascade: None,
        fail_on: None,
        no_inline: None,
        diff_limit: None,
        check_name: None,
        check_run_id: None,
        repo: None,
        pr: None,
        sha: None,
        review: None,
    }
}

impl Default for RuntimeFileConfig {
    fn default() -> (r: Self)
        ensures
            r == silent_file(),
    {
        RuntimeFileConfig {
            github_token: None,
            github_repository: None,
            github_event_path: None,
            github_api_url: None,
            openrouter_api_key: None,
            openrouter_api_url: None,
            review_model: None,
            review_model_cascade: None,
            fail_on: None,
            no_inline: None,
            diff_limit: None,
            check_name: None,
            check_run_id: None,
            repo: None,
            pr: None,
            sha: None,
            review: None,
        }
    }
}

impl RuntimeFileConfig {
    /// The notation of a file whose name ends in `extension`: JSON where that is `json`, YAML
    /// everywhere else.
    pub fn format(extension: Option<&str>) -> (r: ConfigFormat)
        ensures
            r == ConfigFormat::Json <==> extension is Some && extension->0@ == "json"@,
    {
        match extension {
            Some(e) => if same_text(e, "json") {
                ConfigFormat::Json
            } else {
                ConfigFormat::Yaml
            },
            None => ConfigFormat::Yaml,
        }
    }
}

/// What the command line says.
#[derive(Debug, Clone)]
pub struct RuntimeOverrides {
    pub github_token: Option<String>,
    pub github_repository: Option<String>,
    pub github_event_path: Option<String>,
    pub github_api_url: Option<String>,
    pub openrouter_api_key: Option<String>,
    pub openrouter_api_url: Option<String>,
    pub review_model: Option<String>,
    pub review_model_cascade: Option<String>,
    pub fail_on: Option<Severity>,
    pub no_inline: Option<bool>,
    pub diff_limit: Option<usize>,
    pub check_name: Option<String>,
    pub check_run_id: Option<u64>,
    pub repo: Option<String>,
    pub pr: Option<u64>,
    pub sha: Option<String>,
}

/// A command line that says nothing.
pub open spec fn no_overrides() -> RuntimeOverrides {
    RuntimeOverrides {
        github_token: None,
        github_repository: None,
        github_event_path: None,
        github_api_url: None,
        openrouter_api_key: None,
        openrouter_api_url: None,
        review_model: None,
        review_model_cascade: None,
        fail_on: None,
        no_inline: None,
        diff_limit: None,
        check_name: None,
        check_run_id: None,
        repo: None,
        pr: None,
        sha: None,
    }
}

impl Default for RuntimeOverrides {
    fn default() -> (r: Self)
        ensures
            r == no_overrides(),
    {
        RuntimeOverrides {
            github_token: None,
            github_repository: None,
            github_event_path: None,
            github_api_url: None,
            openrouter_api_key: None,
            openrouter_api_url: None,
            review_model: None,
            review_model_cascade: None,
            fail_on: None,
            no_inline: None,
            diff_limit: None,
            check_name: None,
            check_run_id: None,
            repo: None,
            pr: None,
            sha: None,
        }
    }
}

/// What the environment says.
#[derive(Debug, Clone)]
pub struct RuntimeEnv {
    pub github_token: Option<String>,
    pub github_repository: Option<String>,
    pub github_event_path: Option<String>,
    pub github_api_url: Option<String>,
    pub openrouter_api_key: Option<String>,
    pub openrouter_api_url: Option<String>,
    pub review_model: Option<String>,
    pub review_model_cascade: Option<String>,
    pub fail_on: Option<String>,
    pub check_name: Option<String>,
}

/// The value of the first variable called `name`.
pub open spec fn variable(vars: Seq<(String, String)>, name: Seq<char>) -> Option<Seq<char>>
    decreases vars.len(),
{
    if vars.len() == 0 {
        None
    } else if vars[0].0@ == name {
        Some(vars[0].1@)
    } else {
        variable(vars.skip(1), name)
    }
}

/// The value of the first variable called `name`.
fn read_variable(vars: &Vec<(String, String)>, name: &str) -> (r: Option<String>)
    ensures
        chars::opt_text(r) == variable(vars@, name@),
{
    let mut i: usize = 0;
    assert(vars@.skip(0) == vars@);
    while i < vars.len()
        invariant
            i <= vars.len(),
            variable(vars@, name@) == variable(vars@.skip(i as int), name@),
        decreases vars.len() - i,
    {
        if same_text(vars[i].0.as_str(), name) {
            return Some(vars[i].1.clone());
        }
        assert(vars@.skip(i as int).skip(1) == vars@.skip(i + 1));
        i = i + 1;
    }
    None
}

impl RuntimeEnv {
    /// The settings among the environment's variables.
    pub fn from_vars(vars: &Vec<(String, String)>) -> (r: Self)
        ensures
            chars::opt_text(r.github_token) == variable(vars@, "GITHUB_TOKEN"@),
            chars::opt_text(r.github_repository) == variable(vars@, "GITHUB_REPOSITORY"@),
            chars::opt_text(r.github_event_path) == variable(vars@, "GITHUB_EVENT_PATH"@),
            chars::opt_text(r.github_api_url) == variable(vars@, "POSTIL_GITHUB_API_URL"@),
            chars::opt_text(r.openrouter_api_key) == variable(vars@, "OPENROUTER_API_KEY"@),
            chars::opt_text(r.openrouter_api_url) == variable(vars@, "POSTIL_OPENROUTER_API_URL"@),
            chars::opt_text(r.review_model) == variable(vars@, "REVIEW_MODEL"@),
            chars::opt_text(r.review_model_cascade) == variable(vars@, "REVIEW_MODEL_CASCADE"@),
            chars::opt_text(r.fail_on) == variable(vars@, "POSTIL_FAIL_ON"@),
            chars::opt_text(r.check_name) == variable(vars@, "POSTIL_CHECK_NAME"@),
    {
        RuntimeEnv {
            github_token: read_variable(vars, "GITHUB_TOKEN"),
            github_repository: read_variable(vars, "GITHUB_REPOSITORY"),
            github_event_path: read_variable(vars, "GITHUB_EVENT_PATH"),
            github_api_url: read_variable(vars, "POSTIL_GITHUB_API_URL"),
            openrouter_api_key: read_variable(vars, "OPENROUTER_API_KEY"),
            openrouter_api_url: read_variable(vars, "POSTIL_OPENROUTER_API_URL"),
            review_model: read_variable(vars, "REVIEW_MODEL"),
            review_model_cascade: read_variable(vars, "REVIEW_MODEL_CASCADE"),
            fail_on: read_variable(vars, "POSTIL_FAIL_ON"),
            check_name: read_variable(vars, "POSTIL_CHECK_NAME"),
        }
    }
}

/// The settings of one run.
#[derive(Debug, Clone)]
pub struct RuntimeConfig {
    /// Needed only for pull requests: a diff at hand is reviewed without it.
    pub github_token: Option<String>,
    pub github_repository: Option<String>,
    pub github_event_path: Option<String>,
    pub github_api_url: String,
    pub openrouter_api_key: String,
    pub openrouter_api_url: String,
    pub review_model: String,
    pub review_model_cascade: Option<String>,
    pub fail_on: Severity,
    pub no_inline: bool,
    pub diff_limit: usize,
    pub check_name: String,
    pub check_run_id: Option<u64>,
    pub repo: Option<String>,
    pub pr: Option<u64>,
    pub sha: Option<String>,
    pub file_review_config: Option<RepoReviewConfig>,
}

/// The contents of a [`RuntimeConfig`].
#[verifier::ext_equal]
pub struct RuntimeConfigView {
    pub github_token: Option<Seq<char>>,
    pub github_repository: Option<Seq<char>>,
    pub github_event_path: Option<Seq<char>>,
    pub github_api_url: Seq<char>,
    pub openrouter_api_key: Seq<char>,
    pub openrouter_api_url: Seq<char>,
    pub review_model: Seq<char>,
    pub review_model_cascade: Option<Seq<char>>,
    pub fail_on: Severity,
    pub no_inline: bool,
    pub diff_limit: usize,
    pub check_name: Seq<char>,
    pub check_run_id: Option<u64>,
    pub repo: Option<Seq<char>>,
    pub pr: Option<u64>,
    pub sha: Option<Seq<char>>,
    pub file_review_config: Option<RepoReviewConfigView>,
}

impl View for RuntimeConfig {
    type V = RuntimeConfigView;

    open spec fn view(&self) -> RuntimeConfigView {
        RuntimeConfigView {
            github_token: chars::opt_text(self.github_token),
            github_repository: chars::opt_text(self.github_repository),
            github_event_path: chars::opt_text(self.github_event_path),
            github_api_url: self.github_api_url@,
            openrouter_api_key: self.openrouter_api_key@,
            openrouter_api_url: self.openrouter_api_url@,
            review_model: self.review_model@,
            review_model_cascade: chars::opt_text(self.review_model_cascade),
            fail_on: self.fail_on,
            no_inline: self.no_inline,
            diff_limit: self.diff_limit,
            check_name: self.check_name@,
            check_run_id: self.check_run_id,
            repo: chars::opt_text(self.repo),
            pr: self.pr,
            sha: chars::opt_text(self.sha),
            file_review_config: match self.file_review_config {
                Some(c) => Some(c@),
                None => None,
            },
        }
    }
}

/// The first of three settings that is there.
pub open spec fn first_of<T>(flag: Option<T>, env: Option<T>, file: Option<T>) -> Option<T> {
    if flag is Some {
        flag
    } else if env is Some {
        env
    } else {
        file
    }
}

/// The first of two settings that is there.
pub open spec fn either<T>(flag: Option<T>, file: Option<T>) -> Option<T> {
    if flag is Some {
        flag
    } else {
        file
    }
}

/// A setting, or the text that stands for it when it is missing.
pub open spec fn text_or(value: Option<String>, default: Seq<char>) -> Seq<char> {
    match value {
        Some(v) => v@,
        None => default,
    }
}

/// A text that is there and not blank.
pub open spec fn non_blank(value: Option<String>) -> Option<Seq<char>> {
    match value {
        Some(v) => if chars::blank(v@) {
            None
        } else {
            Some(v@)
        },
        None => None,
    }
}

/// The severity that an environment variable names; white space around it does not count.
pub open spec fn severity_setting(value: Option<String>) -> Option<Severity> {
    match value {
        Some(v) => severity_named(chars::trim(v@)),
        None => None,
    }
}

/// The key of the model provider, which must not be blank.
pub open spec fn provider_key(
    file: RuntimeFileConfig,
    env: RuntimeEnv,
    flags: RuntimeOverrides,
) -> Option<Seq<char>> {
    non_blank(
        first_of(flags.openrouter_api_key, env.openrouter_api_key, file.openrouter_api_key),
    )
}

/// The settings that flags, environment and file add up to. Each is taken from the first of
/// them that gives it.
pub open spec fn settled(
    file: RuntimeFileConfig,
    env: RuntimeEnv,
    flags: RuntimeOverrides,
    openrouter_api_key: Seq<char>,
) -> RuntimeConfigView {
    RuntimeConfigView {
        github_token: non_blank(first_of(flags.github_token, env.github_token, file.github_token)),
        github_repository: chars::opt_text(
            first_of(flags.github_repository, env.github_repository, file.github_repository),
        ),
        github_event_path: chars::opt_text(
            first_of(flags.github_event_path, env.github_event_path, file.github_event_path),
        ),
        github_api_url: text_or(
            first_of(flags.github_api_url, env.github_api_url, file.github_api_url),
            "https://api.github.com"@,
        ),
        openrouter_api_key,
        openrouter_api_url: text_or(
            first_of(flags.openrouter_api_url, env.openrouter_api_url, file.openrouter_api_url),
            "https://openrouter.ai/api/v1"@,
        ),
        review_model: text_or(
            first_of(flags.review_model, env.review_model, file.review_model),
            "moonshotai/kimi-k2.6"@,
        ),
        review_model_cascade: chars::opt_text(
            first_of(
                flags.review_model_cascade,
                env.review_model_cascade,
                file.review_model_cascade,
            ),
        ),
        fail_on: match first_of(flags.fail_on, severity_setting(env.fail_on), file.fail_on) {
            Some(s) => s,
            None => Severity::Error,
        },
        no_inline: match either(flags.no_inline, file.no_inline) {
            Some(b) => b,
            None => false,
        },
        diff_limit: match either(flags.diff_limit, file.diff_limit) {
            Some(n) => n,
            None => 120_000,
        },
        check_name: text_or(
            first_of(flags.check_name, env.check_name, file.check_name),
            "postil/review"@,
        ),
        check_run_id: either(flags.check_run_id, file.check_run_id),
        repo: chars::opt_text(either(flags.repo, file.repo)),
        pr: either(flags.pr, file.pr),
        sha: chars::opt_text(either(flags.sha, file.sha)),
        file_review_config: match file.review {
            Some(c) => Some(normalized(c@)),
            None => None,
        },
    }
}

/// What loading the settings comes to: they are settled where the key of the model provider is
/// given, and otherwise it is missed.
pub open spec fn loaded(
    file: Option<RuntimeFileConfig>,
    env: RuntimeEnv,
    flags: RuntimeOverrides,
) -> Result<RuntimeConfigView, ConfigErrorView> {
    let told = match file {
        Some(f) => f,
        None => silent_file(),
    };
    match provider_key(told, env, flags) {
        Some(key) => Ok(settled(told, env, flags, key)),
        None => Err(ConfigErrorView::NotSet("OPENROUTER_API_KEY"@)),
    }
}

fn pick<T>(flag: Option<T>, env: Option<T>, file: Option<T>) -> (r: Option<T>)
    ensures
        r == first_of(flag, env, file),
{
    match flag {
        Some(v) => Some(v),
        None => match env {
            Some(v) => Some(v),
            None => file,
        },
    }
}

fn pick_text(flag: Option<String>, env: Option<String>, file: Option<String>, default: &str) -> (r:
    String)
    ensures
        r@ == text_or(first_of(flag, env, file), default@),
{
    match pick(flag, env, file) {
        Some(v) => v,
        None => default.to_owned(),
    }
}

fn keep_non_blank(value: Option<String>) -> (r: Option<String>)
    ensures
        chars::opt_text(r) == non_blank(value),
{
    match value {
        Some(v) => if is_blank(v.as_str()) {
            None
        } else {
            Some(v)
        },
        None => None,
    }
}

/// The first of three settings that is there, which must not be blank.
fn pick_required(
    flag: Option<String>,
    env: Option<String>,
    file: Option<String>,
    name: &str,
) -> (r: Result<String, ConfigError>)
    ensures
        match non_blank(first_of(flag, env, file)) {
            Some(v) => r is Ok && r->Ok_0@ == v,
            None => r is Err && r->Err_0@ == ConfigErrorView::NotSet(name@),
        },
{
    match keep_non_blank(pick(flag, env, file)) {
        Some(v) => Ok(v),
        None => Err(ConfigError::NotSet(name.to_owned())),
    }
}

fn severity_env(value: Option<String>) -> (r: Option<Severity>)
    ensures
        r == severity_setting(value),
{
    match value {
        Some(v) => Severity::named(trimmed(v.as_str())),
        None => None,
    }
}

impl RuntimeConfig {
    /// Settles the run: flags count before the environment, the environment before the file, and
    /// the file before the built-in defaults. Only the key of the model provider has to be given.
    pub fn load(
        file: Option<RuntimeFileConfig>,
        env: RuntimeEnv,
        flags: RuntimeOverrides,
    ) -> (r: Result<RuntimeConfig, ConfigError>)
        ensures
            ({
                let told = match file {
                    Some(f) => f,
                    None => silent_file(),
                };
                match provider_key(told, env, flags) {
                    Some(key) => r is Ok && r->Ok_0@ == settled(told, env, flags, key),
                    None => r is Err && r->Err_0@ == ConfigErrorView::NotSet(
                        "OPENROUTER_API_KEY"@,
                    ),
                }
            }),
            match loaded(file, env, flags) {
                Ok(c) => r is Ok && r->Ok_0@ == c,
                Err(e) => r is Err && r->Err_0@ == e,
            },
    {
        let file: RuntimeFileConfig = match file {
            Some(f) => f,
            None => RuntimeFileConfig::default(),
        };
        let openrouter_api_key: String = match pick_required(
            flags.openrouter_api_key,
            env.openrouter_api_key,
            file.openrouter_api_key,
            "OPENROUTER_API_KEY",
        ) {
            Ok(key) => key,
            Err(e) => {
                return Err(e);
            },
        };
        let r = RuntimeConfig {
            github_token: keep_non_blank(
                pick(flags.github_token, env.github_token, file.github_token),
            ),
            github_repository: pick(
                flags.github_repository,
                env.github_repository,
                file.github_repository,
            ),
            github_event_path: pick(
                flags.github_event_path,
                env.github_event_path,
                file.github_event_path,
            ),
            github_api_url: pick_text(
                flags.github_api_url,
                env.github_api_url,
                file.github_api_url,
                "https://api.github.com",
            ),
            openrouter_api_key,
            openrouter_api_url: pick_text(
                flags.openrouter_api_url,
                env.openrouter_api_url,
                file.openrouter_api_url,
                "https://openrouter.ai/api/v1",
            ),
            review_model: pick_text(
                flags.review_model,
                env.review_model,
                file.review_model,
                "moonshotai/kimi-k2.6",
            ),
            review_model_cascade: pick(
                flags.review_model_cascade,
                env.review_model_cascade,
                file.review_model_cascade,
            ),
            fail_on: match pick(flags.fail_on, severity_env(env.fail_on), file.fail_on) {
                Some(s) => s,
                None => Severity::Error,
            },
            no_inline: match pick(flags.no_inline, None, file.no_inline) {
                Some(b) => b,
                None => false,
            },
            diff_limit: match pick(flags.diff_limit, None, file.diff_limit) {
                Some(n) => n,
                None => 120_000,
            },
            check_name: pick_text(
                flags.check_name,
                env.check_name,
                file.check_name,
                "postil/review",
            ),
            check_run_id: pick(flags.check_run_id, None, file.check_run_id),
            repo: pick(flags.repo, None, file.repo),
            pr: pick(flags.pr, None, file.pr),
            sha: pick(flags.sha, None, file.sha),
            file_review_config: match file.review {
                Some(c) => Some(c.normalize()),
                None => None,
            },
        };
        Ok(r)
    }
}

impl RuntimeConfig {
    /// The token for GitHub, which a run on a pull request cannot do without.
    pub fn required_github_token(&self) -> (r: Result<String, ConfigError>)
        ensures
            match self@.github_token {
                Some(token) => r is Ok && r->Ok_0@ == token,
                None => r is Err && r->Err_0@ == ConfigErrorView::NotSet("GITHUB_TOKEN"@),
            },
    {
        match &self.github_token {
            Some(token) => Ok(token.clone()),
            None => Err(ConfigError::NotSet("GITHUB_TOKEN".to_owned())),
        }
    }
}

/// A flag decides its setting, whatever the environment and the file say.
pub proof fn law_flags_come_first(
    file: RuntimeFileConfig,
    env: RuntimeEnv,
    flags: RuntimeOverrides,
    key: Seq<char>,
)
    ensures
        ({
            let c = settled(file, env, flags, key);
            &&& flags.openrouter_api_key is Some ==> provider_key(file, env, flags) == non_blank(
                flags.openrouter_api_key,
            )
            &&& flags.github_token is Some ==> c.github_token == non_blank(flags.github_token)
            &&& flags.github_repository is Some ==> c.github_repository == chars::opt_text(
                flags.github_repository,
            )
            &&& flags.github_event_path is Some ==> c.github_event_path == chars::opt_text(
                flags.github_event_path,
            )
            &&& flags.github_api_url matches Some(v) ==> c.github_api_url == v@
            &&& flags.openrouter_api_url matches Some(v) ==> c.openrouter_api_url == v@
            &&& flags.review_model matches Some(v) ==> c.review_model == v@
            &&& flags.review_model_cascade is Some ==> c.review_model_cascade == chars::opt_text(
                flags.review_model_cascade,
            )
            &&& flags.fail_on matches Some(v) ==> c.fail_on == v
            &&& flags.no_inline matches Some(v) ==> c.no_inline == v
            &&& flags.diff_limit matches Some(v) ==> c.diff_limit == v
            &&& flags.check_name matches Some(v) ==> c.check_name == v@
            &&& flags.check_run_id is Some ==> c.check_run_id == flags.check_run_id
            &&& flags.repo is Some ==> c.repo == chars::opt_text(flags.repo)
            &&& flags.pr is Some ==> c.pr == flags.pr
            &&& flags.sha is Some ==> c.sha == chars::opt_text(flags.sha)
        }),
{
}

/// Where a setting's flag is not given, its variable of the environment decides it, whatever the
/// file says and whatever other flags are given.
pub proof fn law_environment_comes_second(
    file: RuntimeFileConfig,
    env: RuntimeEnv,
    flags: RuntimeOverrides,
    key: Seq<char>,
)
    ensures
        ({
            let c = settled(file, env, flags, key);
            &&& flags.openrouter_api_key is None && env.openrouter_api_key is Some ==> provider_key(
                file,
                env,
                flags,
            ) == non_blank(env.openrouter_api_key)
            &&& flags.github_token is None && env.github_token is Some ==> c.github_token
                == non_blank(env.github_token)
            &&& flags.github_repository is None && env.github_repository is Some
                ==> c.github_repository == chars::opt_text(env.github_repository)
            &&& flags.github_event_path is None && env.github_event_path is Some
                ==> c.github_event_path == chars::opt_text(env.github_event_path)
            &&& flags.github_api_url is None && env.github_api_url is Some ==> c.github_api_url
                == env.github_api_url->0@
            &&& flags.openrouter_api_url is None && env.openrouter_api_url is Some
                ==> c.openrouter_api_url == env.openrouter_api_url->0@
            &&& flags.review_model is None && env.review_model is Some ==> c.review_model
                == env.review_model->0@
            &&& flags.review_model_cascade is None && env.review_model_cascade is Some
                ==> c.review_model_cascade == chars::opt_text(env.review_model_cascade)
            &&& flags.fail_on is None && severity_setting(env.fail_on) is Some ==> Some(c.fail_on)
                == severity_setting(env.fail_on)
            &&& flags.check_name is None && env.check_name is Some ==> c.check_name
                == env.check_name->0@
        }),
{
}

/// Where neither a setting's flag nor its variable is given, the file decides it, whatever other
/// flags and variables are given. What the file asks of reviews has neither flag nor variable.
pub proof fn law_file_comes_third(
    file: RuntimeFileConfig,
    env: RuntimeEnv,
    flags: RuntimeOverrides,
    key: Seq<char>,
)
    ensures
        ({
            let c = settled(file, env, flags, key);
            &&& flags.openrouter_api_key is None && env.openrouter_api_key is None ==> provider_key(
                file,
                env,
                flags,
            ) == non_blank(file.openrouter_api_key)
            &&& flags.github_token is None && env.github_token is None ==> c.github_token
                == non_blank(file.github_token)
            &&& flags.github_repository is None && env.github_repository is None
                ==> c.github_repository == chars::opt_text(file.github_repository)
            &&& flags.github_event_path is None && env.github_event_path is None
                ==> c.github_event_path == chars::opt_text(file.github_event_path)
            &&& flags.github_api_url is None && env.github_api_url is None && file.github_api_url
                is Some ==> c.github_api_url == file.github_api_url->0@
            &&& flags.openrouter_api_url is None && env.openrouter_api_url is None
                && file.openrouter_api_url is Some ==> c.openrouter_api_url
                == file.openrouter_api_url->0@
            &&& flags.review_model is None && env.review_model is None && file.review_model is Some
                ==> c.review_model == file.review_model->0@
            &&& flags.review_model_cascade is None && env.review_model_cascade is None
                ==> c.review_model_cascade == chars::opt_text(file.review_model_cascade)
            &&& flags.fail_on is None && severity_setting(env.fail_on) is None && file.fail_on
                is Some ==> c.fail_on == file.fail_on->0
            &&& flags.no_inline is None && file.no_inline is Some ==> c.no_inline
                == file.no_inline->0
            &&& flags.diff_limit is None && file.diff_limit is Some ==> c.diff_limit
                == file.diff_limit->0
            &&& flags.check_name is None && env.check_name is None && file.check_name is Some
                ==> c.check_name == file.check_name->0@
            &&& flags.check_run_id is None ==> c.check_run_id == file.check_run_id
            &&& flags.repo is None ==> c.repo == chars::opt_text(file.repo)
            &&& flags.pr is None ==> c.pr == file.pr
            &&& flags.sha is None ==> c.sha == chars::opt_text(file.sha)
            &&& file.review matches Some(review) ==> c.file_review_config == Some(
                normalized(review@),
            )
            &&& file.review is None ==> c.file_review_config is None
        }),
{
}

/// Where nothing gives a setting, its built-in default holds, whatever other settings are given.
/// The key of the model provider has none.
pub proof fn law_defaults_come_last(
    file: RuntimeFileConfig,
    env: RuntimeEnv,
    flags: RuntimeOverrides,
    key: Seq<char>,
)
    ensures
        ({
            let c = settled(file, env, flags, key);
            &&& flags.openrouter_api_key is None && env.openrouter_api_key is None
                && file.openrouter_api_key is None ==> provider_key(file, env, flags) is None
            &&& flags.github_token is None && env.github_token is None && file.github_token is None
                ==> c.github_token is None
            &&& flags.github_repository is None && env.github_repository is None
                && file.github_repository is None ==> c.github_repository is None
            &&& flags.github_event_path is None && env.github_event_path is None
                && file.github_event_path is None ==> c.github_event_path is None
            &&& flags.github_api_url is None && env.github_api_url is None && file.github_api_url
                is None ==> c.github_api_url == "https://api.github.com"@
            &&& flags.openrouter_api_url is None && env.openrouter_api_url is None
                && file.openrouter_api_url is None ==> c.openrouter_api_url
                == "https://openrouter.ai/api/v1"@
            &&& flags.review_model is None && env.review_model is None && file.review_model is None
                ==> c.review_model == "moonshotai/kimi-k2.6"@
            &&& flags.review_model_cascade is None && env.review_model_cascade is None
                && file.review_model_cascade is None ==> c.review_model_cascade is None
            &&& flags.fail_on is None && severity_setting(env.fail_on) is None && file.fail_on
                is None ==> c.fail_on == Severity::Error
            &&& flags.no_inline is None && file.no_inline is None ==> !c.no_inline
            &&& flags.diff_limit is None && file.diff_limit is None ==> c.diff_limit == 120_000
            &&& flags.check_name is None && env.check_name is None && file.check_name is None
                ==> c.check_name == "postil/review"@
            &&& flags.check_run_id is None && file.check_run_id is None ==> c.check_run_id is None
            &&& flags.repo is None && file.repo is None ==> c.repo is None
            &&& flags.pr is None && file.pr is None ==> c.pr is None
            &&& flags.sha is None && file.sha is None ==> c.sha is None
        }),
{
}

// ---------------------------------------------------------------------------
// The models to ask
// ---------------------------------------------------------------------------

/// The names in a comma-separated list, without the white space around them and without empty
/// ones.
pub open spec fn listed(raw: Seq<char>) -> Seq<Seq<char>> {
    chars::split_on(raw, ',').map_values(|p: Seq<char>| chars::trim(p)).filter(
        |p: Seq<char>| p.len() > 0,
    )
}

/// The models to ask, in order: those of the cascade, or where that is missing or blank those of
/// the single setting. Where the list names none, the single setting stands as it is.
pub open spec fn model_list(cascade: Option<Seq<char>>, model: Seq<char>) -> Seq<Seq<char>> {
    let raw = match cascade {
        Some(c) => if chars::blank(c) {
            model
        } else {
            c
        },
        None => model,
    };
    if listed(raw).len() == 0 {
        seq![model]
    } else {
        listed(raw)
    }
}

/// There is always a model to ask.
pub proof fn law_some_model_is_asked(cascade: Option<Seq<char>>, model: Seq<char>)
    ensures
        model_list(cascade, model).len() > 0,
{
}

/// A name without commas and surrounding white space is a list of that one model.
pub proof fn law_single_model_is_its_own_list(model: Seq<char>)
    requires
        chars::trim(model) == model,
        !model.contains(','),
    ensures
        model_list(None, model) == seq![model],
{
    chars::lemma_find_from(model, seq![','], 0);
    if let Some(i) = chars::find_char(model, ',') {
        assert(model.subrange(i, i + 1)[0] == ',');
        assert(model[i] == ',');
    }
    let parts = chars::split_on(model, ',').map_values(|p: Seq<char>| chars::trim(p));
    assert(parts =~= seq![model]);
    reveal_with_fuel(Seq::filter, 2);
    assert(parts.drop_last() =~= Seq::empty());
    let kept = parts.filter(|p: Seq<char>| p.len() > 0);
    if model.len() > 0 {
        assert(kept =~= seq![model]);
    } else {
        assert(kept =~= Seq::empty());
    }
}

/// The names in a comma-separated list.
fn list_names(raw: &str) -> (out: Vec<String>)
    ensures
        chars::texts(out@) == listed(raw@),
{
    let parts: Vec<String> = pieces(raw, ',');
    let mut out: Vec<String> = Vec::new();
    let mut i: usize = 0;
    let ghost all = chars::split_on(raw@, ',').map_values(|p: Seq<char>| chars::trim(p));
    let ghost keep = |p: Seq<char>| p.len() > 0;
    proof {
        reveal(Seq::filter);
        assert(all.take(0) =~= Seq::empty());
        assert(chars::texts(out@) =~= Seq::empty());
    }
    while i < parts.len()
        invariant
            i <= parts.len(),
            chars::texts(parts@) == chars::split_on(raw@, ','),
            all == chars::split_on(raw@, ',').map_values(|p: Seq<char>| chars::trim(p)),
            keep == (|p: Seq<char>| p.len() > 0),
            chars::texts(out@) == all.take(i as int).filter(keep),
        decreases parts.len() - i,
    {
        let name: &str = trimmed(parts[i].as_str());
        let ghost before = chars::texts(out@);
        proof {
            reveal(Seq::filter);
            assert(chars::texts(parts@)[i as int] == parts@[i as int]@);
            assert(all[i as int] == name@);
            assert(all.take(i + 1).drop_last() =~= all.take(i as int));
            assert(all.take(i + 1).last() == name@);
        }
        if !name.is_empty() {
            out.push(name.to_owned());
            assert(chars::texts(out@) =~= before.push(name@));
        }
        i = i + 1;
    }
    assert(chars::texts(parts@).len() == parts@.len());
    assert(all.take(i as int) =~= all);
    out
}

impl RuntimeConfig {
    /// The models to ask, in order.
    pub fn models(&self) -> (r: Vec<String>)
        ensures
            chars::texts(r@) == model_list(self@.review_model_cascade, self@.review_model),
            r@.len() > 0,
    {
        let raw: &str = match &self.review_model_cascade {
            Some(c) => if is_blank(c.as_str()) {
                self.review_model.as_str()
            } else {
                c.as_str()
            },
            None => self.review_model.as_str(),
        };
        let models: Vec<String> = list_names(raw);
        assert(chars::texts(models@).len() == models@.len());
        if models.len() == 0 {
            let r: Vec<String> = vec![self.review_model.clone()];
            assert(chars::texts(r@) =~= seq![self.review_model@]);
            r
        } else {
            models
        }
    }
}

// ---------------------------------------------------------------------------
// The pull request to review
// ---------------------------------------------------------------------------

/// A pull request.
#[derive(Debug, Clone, PartialEq, Eq)]
pub struct ReviewTarget {
    pub owner: String,
    pub repo: String,
    pub pull_number: u64,
    pub head_sha: Option<String>,
}

/// The contents of a [`ReviewTarget`].
pub struct ReviewTargetView {
    pub owner: Seq<char>,
    pub repo: Seq<char>,
    pub pull_number: u64,
    pub head_sha: Option<Seq<char>>,
}

impl View for ReviewTarget {
    type V = ReviewTargetView;

    open spec fn view(&self) -> ReviewTargetView {
        ReviewTargetView {
            owner: self.owner@,
            repo: self.repo@,
            pull_number: self.pull_number,
            head_sha: chars::opt_text(self.head_sha),
        }
    }
}

/// The event that started a run.
#[derive(Debug, Clone)]
pub struct GithubEvent {
    pub pull_request: Option<EventPullRequest>,
}

/// The pull request of an event.
#[derive(Debug, Clone)]
pub struct EventPullRequest {
    pub number: Option<u64>,
    pub head: Option<EventHead>,
}

/// The head of an event's pull request.
#[derive(Debug, Clone)]
pub struct EventHead {
    pub sha: Option<String>,
}

/// The pull request number that an event gives.
pub open spec fn event_number(event: Option<GithubEvent>) -> Option<u64> {
    match event {
        Some(e) => match e.pull_request {
            Some(pr) => pr.number,
            None => None,
        },
        None => None,
    }
}

/// The head commit that an event gives.
pub open spec fn event_sha(event: Option<GithubEvent>) -> Option<Seq<char>> {
    match event {
        Some(e) => match e.pull_request {
            Some(pr) => match pr.head {
                Some(head) => chars::opt_text(head.sha),
                None => None,
            },
            None => None,
        },
        None => None,
    }
}

/// The pull request that settings and event point to. The repository is written
/// `owner/repository`; settings count before the event.
pub open spec fn resolved(cfg: RuntimeConfigView, event: Option<GithubEvent>) -> Result<
    ReviewTargetView,
    ConfigErrorView,
> {
    match either(cfg.repo, cfg.github_repository) {
        None => Err(ConfigErrorView::RepoUnknown),
        Some(full) => match chars::find_char(full, '/') {
            None => Err(ConfigErrorView::InvalidRepo(full)),
            Some(i) => if i == 0 || i + 1 == full.len() {
                Err(ConfigErrorView::InvalidRepo(full))
            } else {
                match either(cfg.pr, event_number(event)) {
                    None => Err(ConfigErrorView::PrUnknown),
                    Some(number) => if number == 0 {
                        Err(ConfigErrorView::PrUnknown)
                    } else {
                        Ok(
                            ReviewTargetView {
                                owner: full.take(i),
                                repo: full.skip(i + 1),
                                pull_number: number,
                                head_sha: match either(cfg.sha, event_sha(event)) {
                                    Some(sha) => if chars::blank(sha) {
                                        None
                                    } else {
                                        Some(sha)
                                    },
                                    None => None,
                                },
                            },
                        )
                    },
                }
            },
        },
    }
}

/// A target that was found has an owner, a repository, a number and, where it names a commit, no
/// blank one.
pub proof fn law_target_is_complete(cfg: RuntimeConfigView, event: Option<GithubEvent>)
    ensures
        resolved(cfg, event) matches Ok(t) ==> {
            &&& t.owner.len() > 0
            &&& !t.owner.contains('/')
            &&& t.repo.len() > 0
            &&& t.pull_number > 0
            &&& t.head_sha matches Some(sha) ==> !chars::blank(sha)
        },
{
    if let Some(full) = either(cfg.repo, cfg.github_repository) {
        chars::lemma_find_from(full, seq!['/'], 0);
        if let Some(i) = chars::find_char(full, '/') {
            if full.take(i).contains('/') {
                let j = choose|j: int| 0 <= j < full.take(i).len() && full.take(i)[j] == '/';
                assert(full.subrange(j, j + 1) =~= seq!['/']);
                assert(chars::occurs_at(full, seq!['/'], j));
            }
        }
    }
}

/// The event of a run is not looked at where the settings name pull request and commit.
pub proof fn law_settings_come_before_event(
    cfg: RuntimeConfigView,
    one: Option<GithubEvent>,
    other: Option<GithubEvent>,
)
    requires
        cfg.pr is Some,
        cfg.sha is Some,
    ensures
        resolved(cfg, one) == resolved(cfg, other),
{
}

fn event_pull_number(event: &Option<GithubEvent>) -> (r: Option<u64>)
    ensures
        r == event_number(*event),
{
    match event {
        Some(e) => match &e.pull_request {
            Some(pr) => pr.number,
            None => None,
        },
        None => None,
    }
}

fn event_head_sha(event: &Option<GithubEvent>) -> (r: Option<String>)
    ensures
        chars::opt_text(r) == event_sha(*event),
{
    match event {
        Some(e) => match &e.pull_request {
            Some(pr) => match &pr.head {
                Some(head) => match &head.sha {
                    Some(sha) => Some(sha.clone()),
                    None => None,
                },
                None => None,
            },
            None => None,
        },
        None => None,
    }
}

/// The pull request to review.
pub fn resolve_target(cfg: &RuntimeConfig, event: &Option<GithubEvent>) -> (r: Result<
    ReviewTarget,
    ConfigError,
>)
    ensures
        match resolved(cfg@, *event) {
            Ok(target) => r is Ok && r->Ok_0@ == target,
            Err(e) => r is Err && r->Err_0@ == e,
        },
{
    let full: &str = match &cfg.repo {
        Some(repo) => repo.as_str(),
        None => match &cfg.github_repository {
            Some(repo) => repo.as_str(),
            None => {
                return Err(ConfigError::RepoUnknown);
            },
        },
    };
    let letters: Vec<char> = chars_of(full);
    let slash: usize = match search_char_from(&letters, '/', 0) {
        Some(i) => i,
        None => {
            return Err(ConfigError::InvalidRepo(full.to_owned()));
        },
    };
    if slash == 0 || slash + 1 == letters.len() {
        return Err(ConfigError::InvalidRepo(full.to_owned()));
    }
    let owner: &str = full.substring_char(0, slash);
    let repo: &str = full.substring_char(slash + 1, letters.len());
    assert(owner@ =~= full@.take(slash as int));
    assert(repo@ =~= full@.skip(slash + 1));
    let pull_number: u64 = match pick(cfg.pr, None, event_pull_number(event)) {
        Some(n) => n,
        None => {
            return Err(ConfigError::PrUnknown);
        },
    };
    if pull_number == 0 {
        return Err(ConfigError::PrUnknown);
    }
    let sha: Option<String> = match &cfg.sha {
        Some(sha) => Some(sha.clone()),
        None => event_head_sha(event),
    };
    Ok(
        ReviewTarget {
            owner: owner.to_owned(),
            repo: repo.to_owned(),
            pull_number,
            head_sha: keep_non_blank(sha),
        },
    )
}

// ---------------------------------------------------------------------------
// Configurations of other review tools
// ---------------------------------------------------------------------------

/// The part of a CodeRabbit configuration that counts here.
#[derive(Debug, Clone)]
pub struct CoderabbitConfig {
    pub reviews: Option<CoderabbitReviews>,
}

impl Default for CoderabbitConfig {
    fn default() -> (r: Self)
        ensures
            r.reviews is None,
    {
        CoderabbitConfig { reviews: None }
    }
}

/// The path filters of a CodeRabbit configuration. One that starts with `!` excludes.
#[derive(Debug, Clone)]
pub struct CoderabbitReviews {
    pub path_filters: Vec<String>,
}

impl Default for CoderabbitReviews {
    fn default() -> (r: Self)
        ensures
            r.path_filters@.len() == 0,
    {
        CoderabbitReviews { path_filters: Vec::new() }
    }
}

/// The part of a Kodo configuration that counts here.
#[derive(Debug, Clone)]
pub struct KodoConfig {
    pub exclude: Vec<String>,
    pub severity: Option<Severity>,
}

impl Default for KodoConfig {
    fn default() -> (r: Self)
        ensures
            r.exclude@.len() == 0,
            r.severity is None,
    {
        KodoConfig { exclude: Vec::new(), severity: None }
    }
}

/// The pattern that a path filter excludes, if it excludes one.
pub open spec fn excluded(filter: Seq<char>) -> Option<Seq<char>> {
    if filter.len() > 0 && filter[0] == '!' {
        Some(filter.skip(1))
    } else {
        None
    }
}

/// The path filters of a CodeRabbit configuration.
pub open spec fn path_filters(c: CoderabbitConfig) -> Seq<Seq<char>> {
    match c.reviews {
        Some(r) => chars::texts(r.path_filters@),
        None => Seq::empty(),
    }
}

fn excluded_patterns(filters: &Vec<String>) -> (out: Vec<String>)
    ensures
        chars::texts(out@) == chars::texts(filters@).filter_map(|f: Seq<char>| excluded(f)),
{
    let ghost all = chars::texts(filters@);
    let ghost pick = |f: Seq<char>| excluded(f);
    let mut out: Vec<String> = Vec::new();
    let mut i: usize = 0;
    proof {
        assert(all.take(0) =~= Seq::empty());
        assert(chars::texts(out@) =~= Seq::empty());
    }
    while i < filters.len()
        invariant
            i <= filters.len(),
            all == chars::texts(filters@),
            pick == (|f: Seq<char>| excluded(f)),
            chars::texts(out@) == all.take(i as int).filter_map(pick),
        decreases filters.len() - i,
    {
        let filter: &str = filters[i].as_str();
        let ghost before = chars::texts(out@);
        proof {
            assert(all.take(i + 1).drop_last() =~= all.take(i as int));
            assert(all.take(i + 1).last() == filter@);
            reveal_strlit("!");
            assert("!"@ =~= seq!['!']);
            assert("!"@.is_prefix_of(filter@) <==> excluded(filter@) is Some) by {
                if excluded(filter@) is Some {
                    assert("!"@ =~= filter@.subrange(0, 1));
                }
                if "!"@.is_prefix_of(filter@) {
                    assert(filter@.subrange(0, 1)[0] == '!');
                }
            }
        }
        if begins_with(filter, "!") {
            let rest: &str = filter.substring_char(1, filter.unicode_len());
            assert(rest@ =~= filter@.skip(1));
            out.push(rest.to_owned());
            assert(chars::texts(out@) =~= before.push(rest@));
        }
        i = i + 1;
    }
    assert(all.take(i as int) =~= all);
    out
}

/// The configuration that a list of path filters asks for.
pub open spec fn coderabbit_config(filters: Seq<Seq<char>>) -> RepoReviewConfigView {
    RepoReviewConfigView {
        ignore: filters.filter_map(|f: Seq<char>| excluded(f)),
        ..default_config()
    }
}

/// The configuration that a list of excluded paths and a severity ask for.
pub open spec fn kodo_config(
    exclude: Seq<Seq<char>>,
    severity: Option<Severity>,
) -> RepoReviewConfigView {
    RepoReviewConfigView {
        ignore: exclude,
        severity_threshold: match severity {
            Some(s) => s,
            None => Severity::Info,
        },
        ..default_config()
    }
}

/// What a CodeRabbit configuration asks for: its excluded paths are ignored, and everything else
/// is as built in.
pub fn translate_coderabbit(parsed: CoderabbitConfig) -> (r: RepoReviewConfig)
    ensures
        r@ == (RepoReviewConfigView {
            ignore: path_filters(parsed).filter_map(|f: Seq<char>| excluded(f)),
            ..default_config()
        }),
        r@ == coderabbit_config(path_filters(parsed)),
{
    let mut r: RepoReviewConfig = RepoReviewConfig::default();
    match parsed.reviews {
        Some(reviews) => {
            r.ignore = excluded_patterns(&reviews.path_filters);
        },
        None => {
            assert(path_filters(parsed).filter_map(|f: Seq<char>| excluded(f)) =~= Seq::empty());
        },
    }
    r
}

/// What a Kodo configuration asks for: its excluded paths are ignored, its severity is the
/// threshold, and everything else is as built in.
pub fn translate_kodo(parsed: KodoConfig) -> (r: RepoReviewConfig)
    ensures
        r@ == (RepoReviewConfigView {
            ignore: chars::texts(parsed.exclude@),
            severity_threshold: match parsed.severity {
                Some(s) => s,
                None => Severity::Info,
            },
            ..default_config()
        }),
        r@ == kodo_config(chars::texts(parsed.exclude@), parsed.severity),
{
    let mut r: RepoReviewConfig = RepoReviewConfig::default();
    r.ignore = parsed.exclude;
    r.severity_threshold = match parsed.severity {
        Some(s) => s,
        None => Severity::Info,
    };
    r
}

// ---------------------------------------------------------------------------
// What holds of every configuration
// ---------------------------------------------------------------------------

/// A warning outranks an information, and an error outranks both.
pub proof fn law_graver_severities_rank_higher()
    ensures
        severity_rank(Severity::Info) < severity_rank(Severity::Warn) < severity_rank(
            Severity::Error,
        ),
{
}

/// Normalising settles the checks and the timeout under `review` and leaves everything else as it
/// was. Checks that are given under `review` stay; a timeout that is given at the top level wins.
pub proof fn law_normalize_settles_checks_and_timeout(c: RepoReviewConfigView)
    ensures
        c.review.required_checks.len() > 0 ==> normalized(c).review.required_checks
            == c.review.required_checks,
        c.review.required_checks.len() == 0 ==> normalized(c).review.required_checks
            == c.required_checks,
        c.auto_merge_timeout_ms matches Some(t) ==> normalized(c).review.auto_merge_timeout_ms == t,
        c.auto_merge_timeout_ms is None ==> normalized(c).review.auto_merge_timeout_ms
            == c.review.auto_merge_timeout_ms,
        normalized(c).review.enabled == c.review.enabled,
        normalized(c).review.on_clean == c.review.on_clean,
        normalized(c).review.auto_merge == c.review.auto_merge,
        normalized(c).enabled == c.enabled,
        normalized(c).ignore == c.ignore,
        normalized(c).severity_threshold == c.severity_threshold,
        normalized(c).max_findings == c.max_findings,
        normalized(c).reviewer == c.reviewer,
        normalized(c).required_checks == c.required_checks,
        normalized(c).auto_merge_timeout_ms == c.auto_merge_timeout_ms,
{
}

/// A token or key is taken letter for letter, unless it is missing or all white space.
pub proof fn law_secrets_are_taken_as_they_are(value: Option<String>)
    ensures
        value is None ==> non_blank(value) is None,
        value matches Some(v) ==> (forall|i: int|
            0 <= i < v@.len() ==> chars::white_space(#[trigger] v@[i])) ==> non_blank(value) is None,
        value matches Some(v) ==> (exists|i: int|
            0 <= i < v@.len() && !chars::white_space(#[trigger] v@[i])) ==> non_blank(value)
            == Some(v@),
{
    if let Some(v) = value {
        chars::law_blank_means_all_white_space(v@);
    }
}

/// A variable names a severity by its name, with white space around it or without; nothing else
/// names one.
pub proof fn law_severity_is_named_with_room_around(
    before: Seq<char>,
    severity: Severity,
    after: Seq<char>,
    value: String,
)
    requires
        forall|i: int| 0 <= i < before.len() ==> chars::white_space(#[trigger] before[i]),
        forall|i: int| 0 <= i < after.len() ==> chars::white_space(#[trigger] after[i]),
        value@ == before + severity_name(severity) + after,
    ensures
        severity_setting(Some(value)) == Some(severity),
        severity_setting(None) is None,
{
    reveal_strlit("info");
    reveal_strlit("warn");
    reveal_strlit("error");
    let name = severity_name(severity);
    assert(!chars::white_space(name[0]) && !chars::white_space(name.last()));
    chars::law_trim_takes_white_space_only(before, name, after);
    law_severity_names_round_trip(severity);
}

/// Of the environment's variables the first with the name counts; where none has it, there is
/// none.
pub proof fn law_first_variable_counts(vars: Seq<(String, String)>, name: Seq<char>)
    ensures
        forall|i: int|
            0 <= i < vars.len() && (#[trigger] vars[i]).0@ == name && (forall|j: int|
                0 <= j < i ==> (#[trigger] vars[j]).0@ != name) ==> variable(vars, name) == Some(
                vars[i].1@,
            ),
        (forall|i: int| 0 <= i < vars.len() ==> (#[trigger] vars[i]).0@ != name) ==> variable(
            vars,
            name,
        ) is None,
    decreases vars.len(),
{
    if vars.len() > 0 && vars[0].0@ != name {
        let rest = vars.skip(1);
        law_first_variable_counts(rest, name);
        assert forall|i: int|
            0 <= i < vars.len() && (#[trigger] vars[i]).0@ == name && (forall|j: int|
                0 <= j < i ==> (#[trigger] vars[j]).0@ != name) implies variable(vars, name) == Some(
            vars[i].1@,
        ) by {
            assert(rest[i - 1] == vars[i]);
            assert forall|j: int| 0 <= j < i - 1 implies (#[trigger] rest[j]).0@ != name by {
                assert(rest[j] == vars[j + 1]);
            }
        }
        if forall|i: int| 0 <= i < vars.len() ==> (#[trigger] vars[i]).0@ != name {
            assert forall|i: int| 0 <= i < rest.len() implies (#[trigger] rest[i]).0@ != name by {
                assert(rest[i] == vars[i + 1]);
            }
        }
    }
}

/// The names in two lists with a comma between them are those of the one and then those of the
/// other. A list without a comma names what it holds, without the white space around it, or
/// nothing where it is blank.
pub proof fn law_listed_names_add_up(one: Seq<char>, other: Seq<char>)
    ensures
        listed(one + seq![','] + other) == listed(one) + listed(other),
        !one.contains(',') && !chars::blank(one) ==> listed(one) == seq![chars::trim(one)],
        !one.contains(',') && chars::blank(one) ==> listed(one) == Seq::<Seq<char>>::empty(),
{
    let cut = |p: Seq<char>| chars::trim(p);
    let keep = |p: Seq<char>| p.len() > 0;
    chars::law_pieces_of_both(one, other, ',');
    let a = chars::split_on(one, ',');
    let b = chars::split_on(other, ',');
    assert((a + b).map_values(cut) =~= a.map_values(cut) + b.map_values(cut));
    Seq::filter_distributes_over_add(a.map_values(cut), b.map_values(cut), keep);
    chars::law_find_char_gives_the_first(one, ',');
    if !one.contains(',') {
        assert(a.map_values(cut) =~= seq![chars::trim(one)]);
        reveal_with_fuel(Seq::filter, 2);
        assert(seq![chars::trim(one)].drop_last() =~= Seq::empty());
        if chars::blank(one) {
            assert(listed(one) =~= Seq::empty());
        } else {
            assert(listed(one) =~= seq![chars::trim(one)]);
        }
    }
}

/// The models are those of the cascade where it is not blank, and otherwise those of the single
/// setting. Where that names none, the single setting is asked as it stands.
pub proof fn law_models_are_those_listed(cascade: Option<Seq<char>>, model: Seq<char>)
    ensures
        cascade matches Some(c) ==> !chars::blank(c) && listed(c).len() > 0 ==> model_list(
            cascade,
            model,
        ) == listed(c),
        cascade matches Some(c) ==> !chars::blank(c) && listed(c).len() == 0 ==> model_list(
            cascade,
            model,
        ) == seq![model],
        cascade matches Some(c) ==> chars::blank(c) ==> model_list(cascade, model) == model_list(
            None,
            model,
        ),
        listed(model).len() > 0 ==> model_list(None, model) == listed(model),
        listed(model).len() == 0 ==> model_list(None, model) == seq![model],
{
}

/// A target is the pull request that was named: its owner and repository, with a slash between
/// them, are the repository that the settings name, its number is that of the settings or else of
/// the event, and so is its commit unless that is blank.
pub proof fn law_target_is_what_was_named(cfg: RuntimeConfigView, event: Option<GithubEvent>)
    ensures
        resolved(cfg, event) matches Ok(t) ==> {
            let full = t.owner + seq!['/'] + t.repo;
            &&& cfg.repo == Some(full) || (cfg.repo is None && cfg.github_repository == Some(full))
            &&& cfg.pr == Some(t.pull_number) || (cfg.pr is None && event is Some
                && event->0.pull_request is Some && event->0.pull_request->0.number == Some(
                t.pull_number,
            ))
            &&& cfg.sha matches Some(sha) ==> !chars::blank(sha) ==> t.head_sha == Some(sha)
            &&& cfg.sha matches Some(sha) ==> chars::blank(sha) ==> t.head_sha is None
            &&& cfg.sha is None ==> (t.head_sha matches Some(sha) ==> event is Some
                && event->0.pull_request is Some && event->0.pull_request->0.head is Some
                && event->0.pull_request->0.head->0.sha is Some
                && event->0.pull_request->0.head->0.sha->0@ == sha)
        },
{
    if let Some(full) = either(cfg.repo, cfg.github_repository) {
        chars::law_find_char_gives_the_first(full, '/');
        if let Some(i) = chars::find_char(full, '/') {
            assert(full.take(i) + seq!['/'] + full.skip(i + 1) =~= full);
        }
    }
}

/// A repository `owner/repository` and a number that is not zero make a target, whatever event
/// started the run. The owner ends at the first slash.
pub proof fn law_complete_settings_make_a_target(
    cfg: RuntimeConfigView,
    event: Option<GithubEvent>,
    owner: Seq<char>,
    repo: Seq<char>,
    number: u64,
)
    requires
        owner.len() > 0,
        !owner.contains('/'),
        repo.len() > 0,
        number > 0,
        cfg.repo == Some(owner + seq!['/'] + repo) || (cfg.repo is None && cfg.github_repository
            == Some(owner + seq!['/'] + repo)),
        cfg.pr == Some(number) || (cfg.pr is None && event is Some && event->0.pull_request is Some
            && event->0.pull_request->0.number == Some(number)),
    ensures
        resolved(cfg, event) is Ok,
        resolved(cfg, event)->Ok_0.owner == owner,
        resolved(cfg, event)->Ok_0.repo == repo,
        resolved(cfg, event)->Ok_0.pull_number == number,
        cfg.sha is None && event is Some && event->0.pull_request is Some
            && event->0.pull_request->0.head is Some && event->0.pull_request->0.head->0.sha is Some
            && !chars::blank(event->0.pull_request->0.head->0.sha->0@) ==> resolved(
            cfg,
            event,
        )->Ok_0.head_sha == Some(event->0.pull_request->0.head->0.sha->0@),
{
    let full = owner + seq!['/'] + repo;
    chars::law_find_char_gives_the_first(full, '/');
    let n = owner.len() as int;
    assert(full[n] == '/');
    let i = chars::find_char(full, '/')->0;
    if i < n {
        assert(owner.contains(owner[i]));
    }
    assert(full.take(n) =~= owner);
    assert(full.skip(n + 1) =~= repo);
}

/// A path filter excludes what stands behind its exclamation mark; one without the mark excludes
/// nothing.
pub proof fn law_exclamation_mark_excludes(pattern: Seq<char>)
    ensures
        excluded(seq!['!'] + pattern) == Some(pattern),
        pattern.len() == 0 || pattern[0] != '!' ==> excluded(pattern) is None,
{
    assert((seq!['!'] + pattern).skip(1) =~= pattern);
}

/// Exactly the files whose names end in `.json` hold JSON.
pub proof fn law_json_files_end_in_json(name: Seq<char>)
    ensures
        format_of_path(name + ".json"@) == ConfigFormat::Json,
        format_of_path(name) == ConfigFormat::Json ==> name.len() >= 5 && name.skip(name.len() - 5)
            == ".json"@,
{
    reveal_strlit(".json");
    let whole = name + ".json"@;
    assert(".json"@ =~= whole.subrange(whole.len() - 5, whole.len() as int));
    if format_of_path(name) == ConfigFormat::Json {
        assert(name.skip(name.len() - 5) =~= ".json"@);
    }
}

/// Settings are loaded where the first key of the model provider that is given is not all white
/// space; they hold that key letter for letter. Otherwise the key is missed.
pub proof fn law_settings_need_a_provider_key(
    file: RuntimeFileConfig,
    env: RuntimeEnv,
    flags: RuntimeOverrides,
    key: String,
)
    requires
        flags.openrouter_api_key == Some(key) || (flags.openrouter_api_key is None && (
        env.openrouter_api_key == Some(key) || (env.openrouter_api_key is None
            && file.openrouter_api_key == Some(key)))),
    ensures
        (exists|i: int| 0 <= i < key@.len() && !chars::white_space(#[trigger] key@[i])) ==> loaded(
            Some(file),
            env,
            flags,
        ) == Ok::<RuntimeConfigView, ConfigErrorView>(settled(file, env, flags, key@)),
        settled(file, env, flags, key@).openrouter_api_key == key@,
        (forall|i: int| 0 <= i < key@.len() ==> chars::white_space(#[trigger] key@[i])) ==> loaded(
            Some(file),
            env,
            flags,
        ) == Err::<RuntimeConfigView, ConfigErrorView>(
            ConfigErrorView::NotSet("OPENROUTER_API_KEY"@),
        ),
{
    chars::law_blank_means_all_white_space(key@);
}

/// Where no key of the model provider is given, it is missed. A file that is not given counts as
/// one that says nothing.
pub proof fn law_missing_provider_key_is_missed(
    file: RuntimeFileConfig,
    env: RuntimeEnv,
    flags: RuntimeOverrides,
)
    ensures
        flags.openrouter_api_key is None && env.openrouter_api_key is None
            && file.openrouter_api_key is None ==> loaded(Some(file), env, flags) == Err::<
            RuntimeConfigView,
            ConfigErrorView,
        >(ConfigErrorView::NotSet("OPENROUTER_API_KEY"@)),
        loaded(None, env, flags) == loaded(Some(silent_file()), env, flags),
{
}

/// A path filter that excludes adds its pattern behind the others; any other changes nothing. All
/// else is as built in.
pub proof fn law_excluding_filters_are_ignored_paths(
    filters: Seq<Seq<char>>,
    filter: Seq<char>,
    pattern: Seq<char>,
)
    ensures
        coderabbit_config(Seq::empty()).ignore.len() == 0,
        coderabbit_config(filters.push(seq!['!'] + pattern)).ignore == coderabbit_config(
            filters,
        ).ignore.push(pattern),
        filter.len() == 0 || filter[0] != '!' ==> coderabbit_config(filters.push(filter)).ignore
            == coderabbit_config(filters).ignore,
        coderabbit_config(filters) == (RepoReviewConfigView {
            ignore: coderabbit_config(filters).ignore,
            ..default_config()
        }),
{
    law_exclamation_mark_excludes(pattern);
    law_exclamation_mark_excludes(filter);
    assert(filters.push(seq!['!'] + pattern).drop_last() =~= filters);
    assert(filters.push(filter).drop_last() =~= filters);
}

/// Excluded paths are ignored as they stand, and a severity that is given is the threshold; all
/// else is as built in.
pub proof fn law_kodo_paths_and_severity_carry_over(exclude: Seq<Seq<char>>, severity: Severity)
    ensures
        kodo_config(exclude, Some(severity)).ignore == exclude,
        kodo_config(exclude, Some(severity)).severity_threshold == severity,
        kodo_config(exclude, None).severity_threshold == Severity::Info,
        kodo_config(exclude, None) == (RepoReviewConfigView { ignore: exclude, ..default_config() }),
        kodo_config(exclude, Some(severity)) == (RepoReviewConfigView {
            severity_threshold: severity,
            ..kodo_config(exclude, None)
        }),
{
}

/// Where no target is found, the error says why: nothing names the repository, what names it is
/// not an owner and a repository, or nothing gives a number that is not zero.
pub proof fn law_missing_targets_are_explained(cfg: RuntimeConfigView, event: Option<GithubEvent>)
    ensures
        cfg.repo is None && cfg.github_repository is None <==> resolved(cfg, event) == Err::<
            ReviewTargetView,
            ConfigErrorView,
        >(ConfigErrorView::RepoUnknown),
        resolved(cfg, event) matches Err(e) ==> (match e {
            ConfigErrorView::RepoUnknown => true,
            ConfigErrorView::InvalidRepo(full) => {
                &&& cfg.repo == Some(full) || (cfg.repo is None && cfg.github_repository == Some(
                    full,
                ))
                &&& !full.contains('/') || full[0] == '/' || (full.last() == '/'
                    && !full.drop_last().contains('/'))
            },
            ConfigErrorView::PrUnknown => cfg.pr == Some(0u64) || (cfg.pr is None && !(event is Some
                && event->0.pull_request is Some && event->0.pull_request->0.number is Some
                && event->0.pull_request->0.number->0 > 0)),
            _ => false,
        }),
{
    if let Some(full) = either(cfg.repo, cfg.github_repository) {
        chars::law_find_char_gives_the_first(full, '/');
        if let Some(i) = chars::find_char(full, '/') {
            if i + 1 == full.len() {
                assert(full.last() == '/');
                assert forall|j: int| 0 <= j < full.drop_last().len() implies full.drop_last()[j]
                    != '/' by {
                    assert(full[j] != '/');
                }
            }
        }
    }
}

/// What is said of an error tells its cause.
pub proof fn law_error_messages_tell_the_cause(
    format: ConfigFormat,
    path: Seq<char>,
    cause: Seq<char>,
)
    ensures
        (path + ": "@ + cause).is_suffix_of(
            error_message(ConfigErrorView::Unreadable { format, path, cause }),
        ),
        (cause + " is not set"@) == error_message(ConfigErrorView::NotSet(cause)),
        ("invalid repo: "@ + cause) == error_message(ConfigErrorView::InvalidRepo(cause)),
{
    let all = error_message(ConfigErrorView::Unreadable { format, path, cause });
    let tail = path + ": "@ + cause;
    assert(tail =~= all.subrange(all.len() - tail.len(), all.len() as int));
}

} // verus!

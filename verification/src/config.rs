//! Configuration schema and its validation rules.
//!
//! Loading is fail-fast: a failed validation rule aborts startup with every problem listed.
//! Reading files and the environment happens outside this crate; what is read is checked here.
use vstd::prelude::*;

use crate::error::Describe;
use crate::text::{debug_quoted, debug_text, decimal, usize_text};

verus! {

/// Where the service is running.
#[derive(Debug, Clone, Copy, PartialEq, Eq, Structural)]
pub enum Environment {
    /// A developer machine.
    Development,
    /// Pre-production.
    Staging,
    /// Serving real traffic.
    Production,
}

impl Environment {
    /// `true` when serving real traffic.
    #[verifier::allow_in_spec]
    pub fn is_production(self) -> bool
        returns
            self is Production,
    {
        match self {
            Environment::Production => true,
            _ => false,
        }
    }
}

/// Identity of this deployment.
#[derive(Debug, Clone)]
pub struct AppConfig {
    /// Service name used in logs, metrics and thread names. `[a-z0-9_-]+`.
    pub name: String,
    /// Deployment environment; toggles a few defaults (e.g. log format in production).
    pub environment: Environment,
}

/// Whether `c` may appear in a service name: a lower-case ASCII letter, a digit, `-` or `_`.
pub open spec fn name_char_allowed(c: char) -> bool {
    ('a' <= c <= 'z') || ('0' <= c <= '9') || c == '-' || c == '_'
}

/// Whether every character of `name` may appear in a service name.
pub open spec fn name_chars_allowed(name: Seq<char>) -> bool {
    forall|i: int| 0 <= i < name.len() ==> name_char_allowed(#[trigger] name[i])
}

/// The problems the application section reports.
pub open spec fn app_problems(app: AppConfig) -> Seq<Seq<char>> {
    if app.name@.len() == 0 {
        seq!["app.name must not be empty"@]
    } else if !name_chars_allowed(app.name@) {
        seq!["app.name must match [a-z0-9_-]+, got "@ + debug_quoted(app.name@)]
    } else {
        Seq::empty()
    }
}

/// The texts of a list of problems.
pub open spec fn problem_texts(problems: Seq<String>) -> Seq<Seq<char>> {
    problems.map_values(|p: String| p@)
}

/// The default service name.
pub open spec fn default_app_name() -> Seq<char> {
    "acme-svc"@
}

impl Default for AppConfig {
    fn default() -> (app: AppConfig)
        ensures
            app.name@ == default_app_name(),
            app.environment == Environment::Development,
    {
        AppConfig { name: String::from_str("acme-svc"), environment: Environment::Development }
    }
}

impl AppConfig {
    /// Appends the problems of this section to `problems`.
    pub fn validate(&self, problems: &mut Vec<String>)
        ensures
            problem_texts(final(problems)@) == problem_texts(old(problems)@) + app_problems(*self),
    {
        let ghost before = problem_texts(problems@);
        let name = self.name.as_str();
        let count = name.unicode_len();
        if count == 0 {
            problems.push(String::from_str("app.name must not be empty"));
            assert(problem_texts(problems@) =~= before + app_problems(*self));
            return;
        }
        let mut i: usize = 0;
        let mut allowed = true;
        while i < count
            invariant
                name@ == self.name@,
                count == name@.len(),
                0 <= i <= count,
                allowed <==> forall|j: int| 0 <= j < i ==> name_char_allowed(#[trigger] name@[j]),
            decreases count - i,
        {
            let c = name.get_char(i);
            if !(('a' <= c && c <= 'z') || ('0' <= c && c <= '9') || c == '-' || c == '_') {
                allowed = false;
            }
            i = i + 1;
        }
        if !allowed {
            let mut message = String::from_str("app.name must match [a-z0-9_-]+, got ");
            let quoted = debug_text(name);
            message.append(quoted.as_str());
            problems.push(message);
        }
        assert(problem_texts(problems@) =~= before + app_problems(*self));
    }
}

/// Tokio runtime sizing.
#[derive(Debug, Clone, Copy)]
pub struct RuntimeConfig {
    /// Worker threads; `0` means one per CPU core.
    pub worker_threads: usize,
    /// Upper bound of the blocking thread pool; `0` keeps Tokio's default.
    pub max_blocking_threads: usize,
}

/// The most worker threads considered reasonable.
pub const MAX_WORKER_THREADS: usize = 1024;

/// The problems the runtime section reports.
pub open spec fn runtime_problems(runtime: RuntimeConfig) -> Seq<Seq<char>> {
    if runtime.worker_threads > MAX_WORKER_THREADS {
        seq!["runtime.worker_threads is unreasonably high: "@ + decimal(runtime.worker_threads as nat)]
    } else {
        Seq::empty()
    }
}

impl Default for RuntimeConfig {
    fn default() -> (runtime: RuntimeConfig)
        ensures
            runtime.worker_threads == 0,
            runtime.max_blocking_threads == 512,
    {
        RuntimeConfig { worker_threads: 0, max_blocking_threads: 512 }
    }
}

impl RuntimeConfig {
    /// Appends the problems of this section to `problems`.
    pub fn validate(&self, problems: &mut Vec<String>)
        ensures
            problem_texts(final(problems)@) == problem_texts(old(problems)@) + runtime_problems(*self),
    {
        let ghost before = problem_texts(problems@);
        if self.worker_threads > MAX_WORKER_THREADS {
            let mut message = String::from_str("runtime.worker_threads is unreasonably high: ");
            let count = usize_text(self.worker_threads);
            message.append(count.as_str());
            problems.push(message);
        }
        assert(problem_texts(problems@) =~= before + runtime_problems(*self));
    }
}

/// Lifecycle timeouts, in nanoseconds.
#[derive(Debug, Clone, Copy)]
pub struct ServerConfig {
    /// How long in-flight work may take to finish once shutdown was requested.
    pub grace_period_ns: u128,
    /// How long services may take to report ready before the server degrades.
    pub readiness_timeout_ns: u128,
}

/// The problems the server section reports.
pub open spec fn server_problems(server: ServerConfig) -> Seq<Seq<char>> {
    if server.grace_period_ns == 0 {
        seq!["server.grace_period must be greater than zero"@]
    } else {
        Seq::empty()
    }
}

/// Thirty seconds, in nanoseconds.
pub const THIRTY_SECONDS_NS: u128 = 30_000_000_000;

impl Default for ServerConfig {
    fn default() -> (server: ServerConfig)
        ensures
            server.grace_period_ns == THIRTY_SECONDS_NS,
            server.readiness_timeout_ns == THIRTY_SECONDS_NS,
    {
        ServerConfig { grace_period_ns: THIRTY_SECONDS_NS, readiness_timeout_ns: THIRTY_SECONDS_NS }
    }
}

impl ServerConfig {
    /// Appends the problems of this section to `problems`.
    pub fn validate(&self, problems: &mut Vec<String>)
        ensures
            problem_texts(final(problems)@) == problem_texts(old(problems)@) + server_problems(*self),
    {
        let ghost before = problem_texts(problems@);
        if self.grace_period_ns == 0 {
            problems.push(String::from_str("server.grace_period must be greater than zero"));
        }
        assert(problem_texts(problems@) =~= before + server_problems(*self));
    }
}

/// In-process event bus sizing.
#[derive(Debug, Clone, Copy)]
pub struct EventsConfig {
    /// How many events a slow subscriber may lag behind before it misses some.
    pub capacity: usize,
}

/// The default bus capacity.
pub const DEFAULT_EVENT_CAPACITY: usize = 1024;

/// The problems the events section reports.
pub open spec fn events_problems(events: EventsConfig) -> Seq<Seq<char>> {
    if events.capacity == 0 {
        seq!["events.capacity must be greater than zero"@]
    } else {
        Seq::empty()
    }
}

impl Default for EventsConfig {
    fn default() -> (events: EventsConfig)
        ensures
            events.capacity == DEFAULT_EVENT_CAPACITY,
    {
        EventsConfig { capacity: DEFAULT_EVENT_CAPACITY }
    }
}

impl EventsConfig {
    /// Appends the problems of this section to `problems`.
    pub fn validate(&self, problems: &mut Vec<String>)
        ensures
            problem_texts(final(problems)@) == problem_texts(old(problems)@) + events_problems(*self),
    {
        let ghost before = problem_texts(problems@);
        if self.capacity == 0 {
            problems.push(String::from_str("events.capacity must be greater than zero"));
        }
        assert(problem_texts(problems@) =~= before + events_problems(*self));
    }
}

/// The complete configuration of the service.
#[derive(Debug, Clone)]
pub struct Config {
    /// Identity of this deployment.
    pub app: AppConfig,
    /// Tokio runtime sizing.
    pub runtime: RuntimeConfig,
    /// Lifecycle timeouts.
    pub server: ServerConfig,
    /// In-process event bus.
    pub events: EventsConfig,
}

/// Every problem of `config`, section by section in declaration order.
pub open spec fn config_problems(config: Config) -> Seq<Seq<char>> {
    app_problems(config.app) + runtime_problems(config.runtime) + server_problems(config.server)
        + events_problems(config.events)
}

/// Anything that can go wrong when validating a [`Config`].
#[derive(Debug)]
pub enum ConfigError {
    /// One or more validation rules failed. Every problem is listed.
    Invalid(Vec<String>),
}

impl Default for Config {
    fn default() -> (config: Config)
        ensures
            config.app.name@ == default_app_name(),
            config.app.environment == Environment::Development,
            config.runtime.worker_threads == 0,
            config.runtime.max_blocking_threads == 512,
            config.server.grace_period_ns == THIRTY_SECONDS_NS,
            config.server.readiness_timeout_ns == THIRTY_SECONDS_NS,
            config.events.capacity == DEFAULT_EVENT_CAPACITY,
    {
        Config {
            app: AppConfig::default(),
            runtime: RuntimeConfig::default(),
            server: ServerConfig::default(),
            events: EventsConfig::default(),
        }
    }
}

impl Config {
    /// Checks every rule and reports all violations at once.
    pub fn validate(&self) -> (result: Result<(), ConfigError>)
        ensures
            match result {
                Ok(()) => config_problems(*self).len() == 0,
                Err(ConfigError::Invalid(problems)) => config_problems(*self).len() > 0
                    && problem_texts(problems@) == config_problems(*self),
            },
    {
        let mut problems: Vec<String> = Vec::new();
        assert(problem_texts(problems@) =~= Seq::<Seq<char>>::empty());
        self.app.validate(&mut problems);
        self.runtime.validate(&mut problems);
        self.server.validate(&mut problems);
        self.events.validate(&mut problems);
        assert(problem_texts(problems@) =~= config_problems(*self));
        if problems.len() == 0 {
            Ok(())
        } else {
            Err(ConfigError::Invalid(problems))
        }
    }
}

/// The bullet line of one problem.
pub open spec fn bullet(problem: Seq<char>) -> Seq<char> {
    "  - "@ + problem
}

/// Every problem on a line of its own, as `  - problem`, lines separated by a newline.
pub open spec fn bullet_list(problems: Seq<Seq<char>>) -> Seq<char>
    decreases problems.len(),
{
    if problems.len() == 0 {
        Seq::empty()
    } else if problems.len() == 1 {
        bullet(problems[0])
    } else {
        bullet_list(problems.drop_last()) + "\n"@ + bullet(problems.last())
    }
}

/// Renders every problem on a line of its own, as `  - problem`.
pub fn format_problems(problems: &Vec<String>) -> (text: String)
    ensures
        text@ == bullet_list(problem_texts(problems@)),
{
    let ghost texts = problem_texts(problems@);
    let mut text = String::new();
    let mut i: usize = 0;
    assert(texts.take(0) =~= Seq::<Seq<char>>::empty());
    while i < problems.len()
        invariant
            0 <= i <= problems.len(),
            texts == problem_texts(problems@),
            text@ == bullet_list(texts.take(i as int)),
        decreases problems.len() - i,
    {
        assert(texts.take(i + 1).drop_last() =~= texts.take(i as int));
        if i > 0 {
            text.append("\n");
        }
        text.append("  - ");
        text.append(problems[i].as_str());
        i = i + 1;
    }
    assert(texts.take(problems.len() as int) =~= texts);
    text
}

impl Describe for ConfigError {
    open spec fn text(&self) -> Seq<char> {
        match self {
            ConfigError::Invalid(problems) => "configuration is invalid:\n"@ + bullet_list(
                problem_texts(problems@),
            ),
        }
    }

    fn describe(&self) -> (text: String) {
        match self {
            ConfigError::Invalid(problems) => {
                let mut text = String::from_str("configuration is invalid:\n");
                let list = format_problems(problems);
                text.append(list.as_str());
                text
            },
        }
    }
}

/// Where configuration comes from: an explicit file or the default files, an environment prefix,
/// and explicit overrides.
#[derive(Debug, Clone)]
pub struct Sources {
    /// An explicit file. When set, the default files are not read.
    pub file: Option<String>,
    /// Environment prefix, e.g. `ACME_SVC` for `ACME_SVC__HTTP__BIND`.
    pub env_prefix: String,
    /// Highest-priority overrides as dotted key / value pairs, e.g. `("http.bind", "0.0.0.0:80")`.
    pub overrides: Vec<(String, String)>,
}

impl Sources {
    /// Sources with only the environment prefix set.
    pub fn new(env_prefix: String) -> (sources: Sources)
        ensures
            sources.file == None::<String>,
            sources.env_prefix == env_prefix,
            sources.overrides@ == Seq::<(String, String)>::empty(),
    {
        Sources { file: None, env_prefix, overrides: Vec::new() }
    }

    /// Read exactly this file instead of the default files.
    pub fn with_file(self, file: Option<String>) -> (sources: Sources)
        ensures
            sources.file == file,
            sources.env_prefix == self.env_prefix,
            sources.overrides@ == self.overrides@,
    {
        Sources { file, ..self }
    }

    /// Add a highest-priority override.
    pub fn with_override(self, key: String, value: String) -> (sources: Sources)
        ensures
            sources.file == self.file,
            sources.env_prefix == self.env_prefix,
            sources.overrides@ == self.overrides@.push((key, value)),
    {
        let mut sources = self;
        sources.overrides.push((key, value));
        sources
    }
}

/// The default configuration passes every rule.
pub proof fn law_defaults_are_valid(config: Config)
    requires
        config.app.name@ == default_app_name(),
        config.runtime.worker_threads == 0,
        config.server.grace_period_ns == THIRTY_SECONDS_NS,
        config.events.capacity == DEFAULT_EVENT_CAPACITY,
    ensures
        config_problems(config).len() == 0,
{
    reveal_strlit("acme-svc");
    assert(name_chars_allowed(config.app.name@));
    assert(app_problems(config.app) =~= Seq::<Seq<char>>::empty());
}

/// Validation reports one problem per failing section rule, in section order: an empty or
/// malformed name, too many worker threads, a zero grace period, a zero event capacity.
pub proof fn law_validation_reports_every_problem(config: Config)
    ensures
        config_problems(config).len() == (if config.app.name@.len() == 0 || !name_chars_allowed(
            config.app.name@,
        ) {
            1int
        } else {
            0int
        }) + (if config.runtime.worker_threads > MAX_WORKER_THREADS {
            1int
        } else {
            0int
        }) + (if config.server.grace_period_ns == 0 {
            1int
        } else {
            0int
        }) + (if config.events.capacity == 0 {
            1int
        } else {
            0int
        }),
{
}

/// A service name may hold lower-case ASCII letters, digits, `-` and `_`, and nothing else:
/// upper-case letters in particular are refused.
pub proof fn law_service_name_characters(c: char)
    ensures
        name_char_allowed(c) <==> (('a' <= c <= 'z') || ('0' <= c <= '9') || c == '-' || c == '_'),
        'A' <= c <= 'Z' ==> !name_char_allowed(c),
{
}

/// The name rule: an empty name gives the one "must not be empty" problem; a non-empty name
/// with any character outside `a`-`z`, `0`-`9`, `-` and `_` gives exactly one "must match"
/// problem, which quotes the name, and the whole configuration then fails with it first; a
/// non-empty name made only of those characters gives none.
pub proof fn law_service_name_rule(config: Config)
    ensures
        config.app.name@.len() == 0 ==> app_problems(config.app) == seq![
            "app.name must not be empty"@,
        ],
        (config.app.name@.len() > 0 && exists|i: int|
            0 <= i < config.app.name@.len() && !(('a' <= #[trigger] config.app.name@[i] <= 'z') || (
            '0' <= config.app.name@[i] <= '9') || config.app.name@[i] == '-' || config.app.name@[i]
                == '_')) ==> app_problems(config.app) == seq![
            "app.name must match [a-z0-9_-]+, got "@ + debug_quoted(config.app.name@),
        ] && config_problems(config).len() > 0 && config_problems(config)[0]
            == "app.name must match [a-z0-9_-]+, got "@ + debug_quoted(config.app.name@),
        (config.app.name@.len() > 0 && forall|i: int|
            0 <= i < config.app.name@.len() ==> ('a' <= #[trigger] config.app.name@[i] <= 'z') || (
            '0' <= config.app.name@[i] <= '9') || config.app.name@[i] == '-' || config.app.name@[i]
                == '_') ==> app_problems(config.app).len() == 0,
{
}

} // verus!

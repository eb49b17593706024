use acme_svc::config::{
    format_problems, AppConfig, Config, ConfigError, Environment, RuntimeConfig, ServerConfig,
    Sources,
};
use acme_svc::error::Describe;

#[test]
fn defaults_are_valid() {
    let cfg = Config::default();
    assert!(cfg.validate().is_ok());
    assert_eq!(cfg.app.name, "acme-svc");
    assert_eq!(cfg.app.environment, Environment::Development);
    assert_eq!(cfg.runtime.worker_threads, 0);
    assert_eq!(cfg.runtime.max_blocking_threads, 512);
    assert_eq!(cfg.server.grace_period_ns, 30_000_000_000);
    assert_eq!(cfg.events.capacity, 1024);
}

fn problems_of(cfg: &Config) -> Vec<String> {
    match cfg.validate() {
        Ok(()) => Vec::new(),
        Err(ConfigError::Invalid(problems)) => problems,
    }
}

#[test]
fn validation_lists_every_problem_in_section_order() {
    let mut cfg = Config::default();
    cfg.app.name = String::new();
    cfg.runtime.worker_threads = 2048;
    cfg.server.grace_period_ns = 0;
    cfg.events.capacity = 0;
    assert_eq!(
        problems_of(&cfg),
        vec![
            "app.name must not be empty".to_string(),
            "runtime.worker_threads is unreasonably high: 2048".to_string(),
            "server.grace_period must be greater than zero".to_string(),
            "events.capacity must be greater than zero".to_string(),
        ]
    );
}

#[test]
fn validation_reports_every_problem() {
    let mut cfg = Config::default();
    cfg.server.grace_period_ns = 0;
    cfg.events.capacity = 0;
    cfg.app.name = String::new();
    let problems = problems_of(&cfg);
    assert_eq!(problems.len(), 3, "{problems:?}");
}

#[test]
fn a_malformed_name_is_quoted_in_the_problem() {
    let mut problems = Vec::new();
    let app = AppConfig {
        name: "Acme \"svc\"\n".to_string(),
        environment: Environment::Production,
    };
    app.validate(&mut problems);
    assert_eq!(
        problems,
        vec![r#"app.name must match [a-z0-9_-]+, got "Acme \"svc\"\n""#.to_string()]
    );
    let mut none = Vec::new();
    AppConfig {
        name: "svc_1-a".into(),
        environment: Environment::Staging,
    }
    .validate(&mut none);
    assert!(none.is_empty());
}

#[test]
fn worker_threads_up_to_1024_are_accepted() {
    let mut problems = Vec::new();
    RuntimeConfig {
        worker_threads: 1024,
        max_blocking_threads: 0,
    }
    .validate(&mut problems);
    assert!(problems.is_empty());
    RuntimeConfig {
        worker_threads: 1025,
        max_blocking_threads: 0,
    }
    .validate(&mut problems);
    assert_eq!(problems, vec!["runtime.worker_threads is unreasonably high: 1025".to_string()]);
    let mut server = Vec::new();
    ServerConfig {
        grace_period_ns: 1,
        readiness_timeout_ns: 0,
    }
    .validate(&mut server);
    assert!(server.is_empty());
}

#[test]
fn invalid_configuration_renders_every_problem_as_a_bullet() {
    let problems = vec!["a is wrong".to_string(), "b is wrong".to_string()];
    assert_eq!(format_problems(&problems), "  - a is wrong\n  - b is wrong");
    assert_eq!(format_problems(&Vec::new()), "");
    assert_eq!(
        ConfigError::Invalid(problems).describe(),
        "configuration is invalid:\n  - a is wrong\n  - b is wrong"
    );
}

#[test]
fn only_production_is_production() {
    assert!(Environment::Production.is_production());
    assert!(!Environment::Staging.is_production());
    assert!(!Environment::Development.is_production());
}

#[test]
fn sources_collect_file_prefix_and_overrides_in_order() {
    let sources = Sources::new("ACME_SVC_TEST_NONE".to_string())
        .with_file(None)
        .with_override("http.bind".to_string(), "127.0.0.1:1".to_string())
        .with_override("server.grace_period".to_string(), "5s".to_string());
    assert_eq!(sources.file, None);
    assert_eq!(sources.env_prefix, "ACME_SVC_TEST_NONE");
    assert_eq!(
        sources.overrides,
        vec![
            ("http.bind".to_string(), "127.0.0.1:1".to_string()),
            ("server.grace_period".to_string(), "5s".to_string())
        ]
    );
    let with_file = sources.with_file(Some("custom.toml".to_string()));
    assert_eq!(with_file.file.as_deref(), Some("custom.toml"));
    assert_eq!(with_file.overrides.len(), 2);
}

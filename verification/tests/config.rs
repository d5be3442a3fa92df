use postil_reviewer::config::{
    config_format, resolve_target, translate_coderabbit, translate_kodo, CoderabbitConfig,
    CoderabbitReviews, ConfigError, ConfigFormat, EventHead, EventPullRequest, GithubEvent,
    KodoConfig, OnClean, RepoReviewConfig, ReviewConfig, ReviewTarget, RuntimeConfig, RuntimeEnv,
    RuntimeFileConfig, RuntimeOverrides, Severity,
};

fn some(text: &str) -> Option<String> {
    Some(text.to_string())
}

fn env(vars: &[(&str, &str)]) -> RuntimeEnv {
    let list: Vec<(String, String)> = vars
        .iter()
        .map(|(k, v)| (k.to_string(), v.to_string()))
        .collect();
    RuntimeEnv::from_vars(&list)
}

fn file() -> RuntimeFileConfig {
    RuntimeFileConfig {
        openrouter_api_key: some("key"),
        ..RuntimeFileConfig::default()
    }
}

fn plain() -> RuntimeConfig {
    RuntimeConfig::load(Some(file()), env(&[]), RuntimeOverrides::default()).unwrap()
}

#[test]
fn severities_rank_and_name() {
    assert_eq!(Severity::Info.rank(), 0);
    assert_eq!(Severity::Warn.rank(), 1);
    assert_eq!(Severity::Error.rank(), 2);
    for s in [Severity::Info, Severity::Warn, Severity::Error] {
        assert_eq!(Severity::named(s.as_str()), Some(s));
        assert_eq!(s.as_capitals(), s.as_str().to_uppercase());
    }
    assert_eq!(Severity::Info.as_str(), "info");
    assert_eq!(Severity::Warn.as_str(), "warn");
    assert_eq!(Severity::Error.as_str(), "error");
    assert_eq!(Severity::named("Warn"), None);
    assert_eq!(Severity::named(""), None);
}

#[test]
fn repository_defaults() {
    let c = RepoReviewConfig::default();
    assert!(c.enabled);
    assert!(c.ignore.is_empty());
    assert_eq!(c.severity_threshold, Severity::Info);
    assert_eq!(c.max_findings, 25);
    assert_eq!(c.reviewer.tone, "neutral");
    assert!(c.reviewer.focus.is_empty());
    assert!(c.review.enabled);
    assert_eq!(c.review.on_clean, OnClean::Skip);
    assert!(!c.review.auto_merge);
    assert!(c.review.required_checks.is_empty());
    assert_eq!(c.review.auto_merge_timeout_ms, 15_000);
    assert!(c.required_checks.is_empty());
    assert_eq!(c.auto_merge_timeout_ms, None);
}

#[test]
fn checks_and_timeout_are_accepted_at_both_levels() {
    let top = RepoReviewConfig {
        required_checks: vec!["ci".to_string()],
        auto_merge_timeout_ms: Some(7),
        ..RepoReviewConfig::default()
    }
    .normalize();
    assert_eq!(top.review.required_checks, vec!["ci"]);
    assert_eq!(top.review.auto_merge_timeout_ms, 7);
    assert_eq!(top.required_checks, vec!["ci"]);
    assert_eq!(top.auto_merge_timeout_ms, Some(7));

    let nested = RepoReviewConfig {
        review: ReviewConfig {
            required_checks: vec!["ci".to_string()],
            auto_merge_timeout_ms: 7,
            ..ReviewConfig::default()
        },
        ..RepoReviewConfig::default()
    }
    .normalize();
    assert_eq!(nested.review.required_checks, vec!["ci"]);
    assert_eq!(nested.review.auto_merge_timeout_ms, 7);
    assert!(nested.required_checks.is_empty());

    let both = RepoReviewConfig {
        required_checks: vec!["top".to_string()],
        auto_merge_timeout_ms: Some(1),
        review: ReviewConfig {
            required_checks: vec!["nested".to_string()],
            auto_merge_timeout_ms: 2,
            ..ReviewConfig::default()
        },
        ..RepoReviewConfig::default()
    };
    let once = both.normalize();
    assert_eq!(once.review.required_checks, vec!["nested"]);
    assert_eq!(once.review.auto_merge_timeout_ms, 1);
    let twice = once.clone().normalize();
    assert_eq!(twice.review.required_checks, once.review.required_checks);
    assert_eq!(twice.review.auto_merge_timeout_ms, once.review.auto_merge_timeout_ms);
}

#[test]
fn notation_follows_the_file_name() {
    assert_eq!(config_format(".postil.json"), ConfigFormat::Json);
    assert_eq!(config_format(".postil.yaml"), ConfigFormat::Yaml);
    assert_eq!(config_format("json"), ConfigFormat::Yaml);
    assert_eq!(RuntimeFileConfig::format(Some("json")), ConfigFormat::Json);
    assert_eq!(RuntimeFileConfig::format(Some("JSON")), ConfigFormat::Yaml);
    assert_eq!(RuntimeFileConfig::format(None), ConfigFormat::Yaml);
}

#[test]
fn file_text_is_normalized_or_refused() {
    let parsed = RepoReviewConfig {
        auto_merge_timeout_ms: Some(9),
        ..RepoReviewConfig::default()
    };
    let config = RepoReviewConfig::from_text(".postil.yaml", Ok(parsed)).unwrap();
    assert_eq!(config.review.auto_merge_timeout_ms, 9);

    let yaml = RepoReviewConfig::from_text(".postil.yml", Err("bad".to_string())).unwrap_err();
    assert_eq!(yaml.message(), "parse YAML config .postil.yml: bad");
    let json = RepoReviewConfig::from_text(".postil.json", Err("bad".to_string())).unwrap_err();
    assert_eq!(json.message(), "parse JSON config .postil.json: bad");
    assert!(matches!(json, ConfigError::Unreadable { format: ConfigFormat::Json, .. }));
}

#[test]
fn provider_key_is_required() {
    let err = RuntimeConfig::load(None, env(&[]), RuntimeOverrides::default()).unwrap_err();
    assert!(matches!(&err, ConfigError::NotSet(name) if name == "OPENROUTER_API_KEY"));
    assert_eq!(err.message(), "OPENROUTER_API_KEY is not set");
    let blank = RuntimeOverrides {
        openrouter_api_key: some(" \t"),
        ..RuntimeOverrides::default()
    };
    let err = RuntimeConfig::load(Some(file()), env(&[("OPENROUTER_API_KEY", "e")]), blank)
        .unwrap_err();
    assert_eq!(err.message(), "OPENROUTER_API_KEY is not set");
}

#[test]
fn github_token_is_required_for_pull_requests_only() {
    let err = plain().required_github_token().unwrap_err();
    assert_eq!(err.message(), "GITHUB_TOKEN is not set");
    let told = RuntimeConfig::load(
        Some(file()),
        env(&[("GITHUB_TOKEN", "t")]),
        RuntimeOverrides::default(),
    )
    .unwrap();
    assert_eq!(told.required_github_token().unwrap(), "t");
    let blank = RuntimeConfig::load(
        Some(file()),
        env(&[("GITHUB_TOKEN", " ")]),
        RuntimeOverrides::default(),
    )
    .unwrap();
    assert_eq!(blank.github_token, None);
}

#[test]
fn built_in_defaults_come_last() {
    let c = plain();
    assert_eq!(c.github_token, None);
    assert_eq!(c.github_repository, None);
    assert_eq!(c.github_event_path, None);
    assert_eq!(c.github_api_url, "https://api.github.com");
    assert_eq!(c.openrouter_api_key, "key");
    assert_eq!(c.openrouter_api_url, "https://openrouter.ai/api/v1");
    assert_eq!(c.review_model, "moonshotai/kimi-k2.6");
    assert_eq!(c.review_model_cascade, None);
    assert_eq!(c.fail_on, Severity::Error);
    assert!(!c.no_inline);
    assert_eq!(c.diff_limit, 120_000);
    assert_eq!(c.check_name, "postil/review");
    assert_eq!(c.check_run_id, None);
    assert_eq!(c.repo, None);
    assert_eq!(c.pr, None);
    assert_eq!(c.sha, None);
    assert!(c.file_review_config.is_none());
}

#[test]
fn flags_then_environment_then_file() {
    let vars = [
        ("GITHUB_TOKEN", "env"),
        ("GITHUB_REPOSITORY", "env/env"),
        ("GITHUB_EVENT_PATH", "env.json"),
        ("POSTIL_GITHUB_API_URL", "http://env"),
        ("OPENROUTER_API_KEY", "env"),
        ("POSTIL_OPENROUTER_API_URL", "http://env"),
        ("REVIEW_MODEL", "env"),
        ("REVIEW_MODEL_CASCADE", "env"),
        ("POSTIL_FAIL_ON", " warn "),
        ("POSTIL_CHECK_NAME", "env"),
        ("OTHER", "x"),
    ];
    let full = RuntimeFileConfig {
        github_token: some("file"),
        github_repository: some("file/file"),
        github_event_path: some("file.json"),
        github_api_url: some("http://file"),
        openrouter_api_key: some("file"),
        openrouter_api_url: some("http://file"),
        review_model: some("file"),
        review_model_cascade: some("file"),
        fail_on: Some(Severity::Info),
        no_inline: Some(true),
        diff_limit: Some(5),
        check_name: some("file"),
        check_run_id: Some(8),
        repo: some("f/f"),
        pr: Some(3),
        sha: some("file"),
        review: Some(RepoReviewConfig {
            auto_merge_timeout_ms: Some(4),
            ..RepoReviewConfig::default()
        }),
    };
    let flags = RuntimeOverrides {
        github_token: some("flag"),
        github_repository: some("flag/flag"),
        github_event_path: some("flag.json"),
        github_api_url: some("http://flag"),
        openrouter_api_key: some("flag"),
        openrouter_api_url: some("http://flag"),
        review_model: some("flag"),
        review_model_cascade: some("flag"),
        fail_on: Some(Severity::Error),
        no_inline: Some(false),
        diff_limit: Some(6),
        check_name: some("flag"),
        check_run_id: Some(9),
        repo: some("g/g"),
        pr: Some(2),
        sha: some("flag"),
    };

    let a = RuntimeConfig::load(Some(full.clone()), env(&vars), flags).unwrap();
    assert_eq!(a.github_token.as_deref(), Some("flag"));
    assert_eq!(a.github_repository.as_deref(), Some("flag/flag"));
    assert_eq!(a.github_event_path.as_deref(), Some("flag.json"));
    assert_eq!(a.github_api_url, "http://flag");
    assert_eq!(a.openrouter_api_key, "flag");
    assert_eq!(a.openrouter_api_url, "http://flag");
    assert_eq!(a.review_model, "flag");
    assert_eq!(a.review_model_cascade.as_deref(), Some("flag"));
    assert_eq!(a.fail_on, Severity::Error);
    assert!(!a.no_inline);
    assert_eq!(a.diff_limit, 6);
    assert_eq!(a.check_name, "flag");
    assert_eq!(a.check_run_id, Some(9));
    assert_eq!(a.repo.as_deref(), Some("g/g"));
    assert_eq!(a.pr, Some(2));
    assert_eq!(a.sha.as_deref(), Some("flag"));

    let b = RuntimeConfig::load(Some(full.clone()), env(&vars), RuntimeOverrides::default()).unwrap();
    assert_eq!(b.github_token.as_deref(), Some("env"));
    assert_eq!(b.github_repository.as_deref(), Some("env/env"));
    assert_eq!(b.github_event_path.as_deref(), Some("env.json"));
    assert_eq!(b.github_api_url, "http://env");
    assert_eq!(b.openrouter_api_key, "env");
    assert_eq!(b.openrouter_api_url, "http://env");
    assert_eq!(b.review_model, "env");
    assert_eq!(b.review_model_cascade.as_deref(), Some("env"));
    assert_eq!(b.fail_on, Severity::Warn);
    assert_eq!(b.check_name, "env");

    let c = RuntimeConfig::load(Some(full), env(&[]), RuntimeOverrides::default()).unwrap();
    assert_eq!(c.github_token.as_deref(), Some("file"));
    assert_eq!(c.github_repository.as_deref(), Some("file/file"));
    assert_eq!(c.github_event_path.as_deref(), Some("file.json"));
    assert_eq!(c.github_api_url, "http://file");
    assert_eq!(c.openrouter_api_key, "file");
    assert_eq!(c.openrouter_api_url, "http://file");
    assert_eq!(c.review_model, "file");
    assert_eq!(c.review_model_cascade.as_deref(), Some("file"));
    assert_eq!(c.fail_on, Severity::Info);
    assert!(c.no_inline);
    assert_eq!(c.diff_limit, 5);
    assert_eq!(c.check_name, "file");
    assert_eq!(c.check_run_id, Some(8));
    assert_eq!(c.repo.as_deref(), Some("f/f"));
    assert_eq!(c.pr, Some(3));
    assert_eq!(c.sha.as_deref(), Some("file"));
    assert_eq!(c.file_review_config.unwrap().review.auto_merge_timeout_ms, 4);
}

#[test]
fn unknown_severity_in_the_environment_is_passed_over() {
    let told = RuntimeFileConfig {
        fail_on: Some(Severity::Info),
        ..file()
    };
    let c = RuntimeConfig::load(
        Some(told),
        env(&[("POSTIL_FAIL_ON", "loud")]),
        RuntimeOverrides::default(),
    )
    .unwrap();
    assert_eq!(c.fail_on, Severity::Info);
}

fn models(cascade: Option<&str>, model: &str) -> Vec<String> {
    let mut c = plain();
    c.review_model_cascade = cascade.map(|s| s.to_string());
    c.review_model = model.to_string();
    c.models()
}

#[test]
fn models_come_from_the_cascade_or_the_single_setting() {
    assert_eq!(models(None, "a/b"), vec!["a/b"]);
    assert_eq!(models(Some("bad/model, xiaomi/mimo-v2.5-pro"), "m"), vec!["bad/model", "xiaomi/mimo-v2.5-pro"]);
    assert_eq!(models(Some("  "), "m"), vec!["m"]);
    assert_eq!(models(Some(",a,, b ,"), "m"), vec!["a", "b"]);
    assert_eq!(models(Some(" , "), "m"), vec!["m"]);
    assert_eq!(models(None, "a, b"), vec!["a", "b"]);
    assert_eq!(models(None, " , "), vec![" , "]);
    assert_eq!(models(None, ""), vec![""]);
}

fn event(number: Option<u64>, sha: Option<&str>) -> Option<GithubEvent> {
    Some(GithubEvent {
        pull_request: Some(EventPullRequest {
            number,
            head: Some(EventHead {
                sha: sha.map(|s| s.to_string()),
            }),
        }),
    })
}

#[test]
fn target_comes_from_settings_then_event() {
    let mut c = plain();
    c.repo = some("owner/repo");
    c.github_repository = some("other/other");
    c.pr = Some(42);
    c.sha = some("abc123");
    assert_eq!(
        resolve_target(&c, &event(Some(7), Some("def"))).unwrap(),
        ReviewTarget {
            owner: "owner".to_string(),
            repo: "repo".to_string(),
            pull_number: 42,
            head_sha: some("abc123"),
        }
    );
    let mut d = plain();
    d.github_repository = some("a/b/c");
    assert_eq!(
        resolve_target(&d, &event(Some(7), Some("def"))).unwrap(),
        ReviewTarget {
            owner: "a".to_string(),
            repo: "b/c".to_string(),
            pull_number: 7,
            head_sha: some("def"),
        }
    );
    assert_eq!(resolve_target(&d, &event(Some(7), Some(" "))).unwrap().head_sha, None);
    assert_eq!(resolve_target(&d, &event(Some(7), None)).unwrap().head_sha, None);
    d.sha = some("  ");
    assert_eq!(resolve_target(&d, &event(Some(7), Some("def"))).unwrap().head_sha, None);
}

#[test]
fn target_that_cannot_be_found_is_explained() {
    let mut c = plain();
    let err = resolve_target(&c, &None).unwrap_err();
    assert!(matches!(err, ConfigError::RepoUnknown));
    assert_eq!(
        err.message(),
        "repo unknown: set --repo, config repo, or GITHUB_REPOSITORY"
    );
    for bad in ["owner", "/repo", "owner/", "/", ""] {
        c.repo = some(bad);
        let err = resolve_target(&c, &None).unwrap_err();
        assert!(matches!(&err, ConfigError::InvalidRepo(r) if r == bad));
        assert_eq!(err.message(), format!("invalid repo: {bad}"));
    }
    c.repo = some("o/r");
    let err = resolve_target(&c, &None).unwrap_err();
    assert!(matches!(err, ConfigError::PrUnknown));
    assert_eq!(
        err.message(),
        "pr unknown: set --pr, config pr, or run via pull_request event"
    );
    assert!(matches!(
        resolve_target(&c, &event(Some(0), None)).unwrap_err(),
        ConfigError::PrUnknown
    ));
    assert!(matches!(
        resolve_target(&c, &event(None, None)).unwrap_err(),
        ConfigError::PrUnknown
    ));
    assert!(matches!(
        resolve_target(&c, &Some(GithubEvent { pull_request: None })).unwrap_err(),
        ConfigError::PrUnknown
    ));
}

#[test]
fn coderabbit_exclusions_are_ignored_paths() {
    let c = translate_coderabbit(CoderabbitConfig {
        reviews: Some(CoderabbitReviews {
            path_filters: vec!["!dist/**".to_string(), "src/**".to_string(), "!!x".to_string(), "!".to_string()],
        }),
    });
    assert_eq!(c.ignore, vec!["dist/**", "!x", ""]);
    assert_eq!(c.max_findings, 25);
    assert!(translate_coderabbit(CoderabbitConfig::default()).ignore.is_empty());
    assert!(CoderabbitReviews::default().path_filters.is_empty());
}

#[test]
fn kodo_exclusions_and_severity_carry_over() {
    let c = translate_kodo(KodoConfig {
        exclude: vec!["a".to_string()],
        severity: Some(Severity::Warn),
    });
    assert_eq!(c.ignore, vec!["a"]);
    assert_eq!(c.severity_threshold, Severity::Warn);
    assert!(c.enabled);
    let d = translate_kodo(KodoConfig::default());
    assert!(d.ignore.is_empty());
    assert_eq!(d.severity_threshold, Severity::Info);
}

#[test]
fn each_setting_is_settled_on_its_own() {
    let told = RuntimeFileConfig {
        review_model: some("file"),
        check_name: some("file"),
        github_api_url: some("http://file"),
        ..file()
    };
    let flags = RuntimeOverrides {
        review_model: some("flag"),
        ..RuntimeOverrides::default()
    };
    let c = RuntimeConfig::load(
        Some(told),
        env(&[("REVIEW_MODEL", "env"), ("POSTIL_CHECK_NAME", "env")]),
        flags,
    )
    .unwrap();
    assert_eq!(c.review_model, "flag");
    assert_eq!(c.check_name, "env");
    assert_eq!(c.github_api_url, "http://file");
    assert_eq!(c.openrouter_api_url, "https://openrouter.ai/api/v1");
}

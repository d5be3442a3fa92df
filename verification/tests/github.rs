use postil_reviewer::config::{
    RepoReviewConfig, ReviewTarget, RuntimeConfig, RuntimeEnv, RuntimeFileConfig,
    RuntimeOverrides, Severity,
};
use postil_reviewer::github::{
    check_conclusion, check_run_call, check_run_request, config_candidate, inline_review_request, is_success,
    next_config_step, read_diff, read_file, read_posted, render_findings, start_config_search,
    CandidateOutcome, CheckOutput, CheckRunCall, ConfigSource, GithubApi, SearchStep, CANDIDATES,
};
use postil_reviewer::review::{Finding, ReviewEnvelope, TokenUsage};

fn target(sha: Option<&str>) -> ReviewTarget {
    ReviewTarget {
        owner: "owner".to_string(),
        repo: "repo".to_string(),
        pull_number: 42,
        head_sha: sha.map(|s| s.to_string()),
    }
}

fn runtime(review: Option<RepoReviewConfig>) -> RuntimeConfig {
    let file = RuntimeFileConfig {
        openrouter_api_key: Some("key".to_string()),
        review,
        ..RuntimeFileConfig::default()
    };
    RuntimeConfig::load(
        Some(file),
        RuntimeEnv::from_vars(&Vec::new()),
        RuntimeOverrides::default(),
    )
    .unwrap()
}

fn finding(path: &str, line: u64, severity: Severity, body: &str) -> Finding {
    Finding {
        path: path.to_string(),
        line,
        severity,
        kind: None,
        body: body.to_string(),
    }
}

fn envelope(summary: &str, findings: Vec<Finding>) -> ReviewEnvelope {
    ReviewEnvelope {
        summary: summary.to_string(),
        findings,
        usage: TokenUsage::default(),
        model_used: "m".to_string(),
    }
}

#[test]
fn addresses_are_below_the_base() {
    let api = GithubApi::new("http://host/api//".to_string());
    let t = target(Some("abc"));
    assert_eq!(api.base_url, "http://host/api");
    assert_eq!(api.pull_url(&t), "http://host/api/repos/owner/repo/pulls/42");
    assert_eq!(
        api.contents_url(&t, "abc", ".postil.yaml"),
        "http://host/api/repos/owner/repo/contents/.postil.yaml?ref=abc"
    );
    assert_eq!(
        api.reviews_url(&t),
        "http://host/api/repos/owner/repo/pulls/42/reviews"
    );
    assert_eq!(
        api.issue_comments_url(&t),
        "http://host/api/repos/owner/repo/issues/42/comments"
    );
    assert_eq!(api.check_runs_url(&t), "http://host/api/repos/owner/repo/check-runs");
    assert_eq!(
        api.check_run_url(&t, 17),
        "http://host/api/repos/owner/repo/check-runs/17"
    );
}

#[test]
fn success_is_the_two_hundreds() {
    assert!(!is_success(199));
    assert!(is_success(200));
    assert!(is_success(201));
    assert!(is_success(299));
    assert!(!is_success(300));
    assert!(!is_success(404));
}

#[test]
fn diff_is_cut_or_refused() {
    assert_eq!(read_diff(200, "abc".to_string(), 3), Ok("abc".to_string()));
    assert_eq!(
        read_diff(200, "abcd".to_string(), 3),
        Ok("abc\n\n[diff truncated]".to_string())
    );
    assert_eq!(
        read_diff(502, "down".to_string(), 3),
        Err("github diff 502: down".to_string())
    );
}

#[test]
fn file_is_read_missing_or_refused() {
    assert_eq!(read_file("f", 200, "x".to_string()), Ok(Some("x".to_string())));
    assert_eq!(read_file("f", 404, "x".to_string()), Ok(None));
    assert_eq!(
        read_file("f", 403, "no".to_string()),
        Err("github config f 403: no".to_string())
    );
}

#[test]
fn posts_are_taken_or_refused() {
    assert_eq!(read_posted("review", 201, ""), Ok(()));
    assert_eq!(
        read_posted("review", 422, "bad"),
        Err("github review 422: bad".to_string())
    );
    assert_eq!(
        read_posted("issue comment", 500, ""),
        Err("github issue comment 500: ".to_string())
    );
}

#[test]
fn findings_become_comments() {
    let env = envelope(
        "s",
        vec![
            finding("a.rs", 3, Severity::Error, "bad"),
            finding("b.rs", 4, Severity::Info, "hm"),
        ],
    );
    let request = inline_review_request(&target(Some("abc")), &env, "body");
    assert_eq!(request.commit_id.as_deref(), Some("abc"));
    assert_eq!(request.event, "COMMENT");
    assert_eq!(request.body, "body");
    let comments = request.comments.unwrap();
    assert_eq!(comments.len(), 2);
    assert_eq!(comments[0].path, "a.rs");
    assert_eq!(comments[0].line, 3);
    assert_eq!(comments[0].side, "RIGHT");
    assert_eq!(comments[0].body, "**ERROR** · bad");
    assert_eq!(comments[1].body, "**INFO** · hm");
}

#[test]
fn clean_review_approves() {
    let request = inline_review_request(&target(None), &envelope("", Vec::new()), "body");
    assert_eq!(request.commit_id, None);
    assert_eq!(request.event, "APPROVE");
    assert!(request.comments.is_none());
}

#[test]
fn empty_diff_has_an_output_of_its_own() {
    let output = CheckOutput::empty();
    assert_eq!(output.title, "Empty diff");
    assert_eq!(output.summary, "Nothing to review.");
    assert_eq!(output.text, None);
}

fn title(severities: &[Severity]) -> String {
    let findings: Vec<Finding> = severities.iter().map(|s| finding("p", 1, *s, "b")).collect();
    CheckOutput::from_envelope(&envelope("s", findings)).title
}

#[test]
fn title_counts_the_gravest() {
    assert_eq!(title(&[]), "No issues");
    assert_eq!(title(&[Severity::Info]), "No issues");
    assert_eq!(title(&[Severity::Warn]), "1 warning");
    assert_eq!(title(&[Severity::Warn, Severity::Info, Severity::Warn]), "2 warnings");
    assert_eq!(title(&[Severity::Error, Severity::Warn]), "1 error");
    assert_eq!(title(&[Severity::Error, Severity::Error, Severity::Error]), "3 errors");
}

#[test]
fn output_shows_summary_and_findings() {
    let clean = CheckOutput::from_envelope(&envelope(" ", Vec::new()));
    assert_eq!(clean.summary, "No issues found.");
    assert_eq!(clean.text.as_deref(), Some("No issues found."));
    let silent = CheckOutput::from_envelope(&envelope(
        "",
        vec![
            finding("a.rs", 3, Severity::Warn, "one"),
            finding("b.rs", 12, Severity::Info, "two"),
        ],
    ));
    assert_eq!(silent.summary, "See inline review comments.");
    assert_eq!(
        silent.text.as_deref(),
        Some("**WARN** `a.rs`:3\n\none\n\n---\n\n**INFO** `b.rs`:12\n\ntwo")
    );
    let told = CheckOutput::from_envelope(&envelope(" Said. ", Vec::new()));
    assert_eq!(told.summary, " Said. ");
    assert_eq!(render_findings(&Vec::new()), "");
}

#[test]
fn conclusion_follows_the_gravest() {
    let of = |severities: &[Severity]| -> &'static str {
        check_conclusion(&envelope(
            "s",
            severities.iter().map(|s| finding("p", 1, *s, "b")).collect(),
        ))
    };
    assert_eq!(of(&[]), "success");
    assert_eq!(of(&[Severity::Info]), "success");
    assert_eq!(of(&[Severity::Info, Severity::Warn]), "neutral");
    assert_eq!(of(&[Severity::Warn, Severity::Error]), "failure");
}

#[test]
fn check_run_needs_a_commit() {
    let request = check_run_request(
        &target(Some("abc")),
        "postil/review",
        "neutral",
        CheckOutput::empty(),
        "start",
        "end",
    )
    .unwrap();
    assert_eq!(request.name, "postil/review");
    assert_eq!(request.head_sha.as_deref(), Some("abc"));
    assert_eq!(request.status, "completed");
    assert_eq!(request.conclusion, "neutral");
    assert_eq!(request.started_at, "start");
    assert_eq!(request.completed_at, "end");
    assert_eq!(request.output.title, "Empty diff");
    assert!(check_run_request(&target(None), "n", "c", CheckOutput::empty(), "s", "e").is_none());
}

#[test]
fn configuration_files_count_in_order() {
    let all: Vec<(&str, ConfigSource)> = (0..CANDIDATES).map(config_candidate).collect();
    assert_eq!(
        all,
        vec![
            (".postil.yaml", ConfigSource::Postil),
            (".postil.yml", ConfigSource::Postil),
            (".postil.json", ConfigSource::Postil),
            (".coderabbit.yaml", ConfigSource::Coderabbit),
            (".coderabbit.yml", ConfigSource::Coderabbit),
            (".kodo.yaml", ConfigSource::Kodo),
            (".kodo.yml", ConfigSource::Kodo),
        ]
    );
}

fn marked(max_findings: usize) -> RepoReviewConfig {
    RepoReviewConfig {
        max_findings,
        ..RepoReviewConfig::default()
    }
}

#[test]
fn search_goes_on_past_missing_and_unreadable_files() {
    assert!(matches!(start_config_search(&runtime(None), &target(Some("abc"))), SearchStep::Fetch(0)));
    match start_config_search(&runtime(None), &target(None)) {
        SearchStep::Done(c) => assert_eq!(c.max_findings, 25),
        other => panic!("{other:?}"),
    }
    assert!(matches!(
        next_config_step(0, CandidateOutcome::Missing),
        SearchStep::Fetch(1)
    ));
    assert!(matches!(
        next_config_step(5, CandidateOutcome::Unreadable),
        SearchStep::Fetch(6)
    ));
    match next_config_step(6, CandidateOutcome::Missing) {
        SearchStep::Done(c) => assert_eq!(c.max_findings, 25),
        other => panic!("{other:?}"),
    }
    match next_config_step(usize::MAX, CandidateOutcome::Unreadable) {
        SearchStep::Done(c) => assert_eq!(c.max_findings, 25),
        other => panic!("{other:?}"),
    }
    match next_config_step(2, CandidateOutcome::Loaded(marked(3))) {
        SearchStep::Done(c) => assert_eq!(c.max_findings, 3),
        other => panic!("{other:?}"),
    }
    match next_config_step(2, CandidateOutcome::Failed("down".to_string())) {
        SearchStep::Stop(e) => assert_eq!(e, "down"),
        other => panic!("{other:?}"),
    }
}

#[test]
fn search_takes_the_first_configuration() {
    let mut step = start_config_search(&runtime(None), &target(Some("abc")));
    let mut seen: Vec<usize> = Vec::new();
    let found = loop {
        match step {
            SearchStep::Fetch(index) => {
                seen.push(index);
                let outcome = match index {
                    0 => CandidateOutcome::Unreadable,
                    3 => CandidateOutcome::Loaded(marked(1)),
                    4 => CandidateOutcome::Loaded(marked(2)),
                    _ => CandidateOutcome::Missing,
                };
                step = next_config_step(index, outcome);
            }
            SearchStep::Done(config) => break config,
            SearchStep::Stop(e) => panic!("{e}"),
        }
    };
    assert_eq!(found.max_findings, 1);
    assert_eq!(seen, vec![0, 1, 2, 3]);
}

#[test]
fn configuration_in_the_run_file_comes_first() {
    for sha in [Some("abc"), None] {
        match start_config_search(&runtime(Some(marked(4))), &target(sha)) {
            SearchStep::Done(c) => assert_eq!(c.max_findings, 4),
            other => panic!("{other:?}"),
        }
    }
}

#[test]
fn check_run_is_updated_made_or_left() {
    let call = |sha: Option<&str>, id: Option<u64>| -> Option<CheckRunCall> {
        check_run_call(&target(sha), id, "n", "success", CheckOutput::empty(), "s", "e")
    };
    match call(Some("abc"), None) {
        Some(CheckRunCall::Create(request)) => {
            assert_eq!(request.head_sha.as_deref(), Some("abc"));
            assert_eq!(request.status, "completed");
        }
        other => panic!("{other:?}"),
    }
    for sha in [Some("abc"), None] {
        match call(sha, Some(17)) {
            Some(CheckRunCall::Update(id, request)) => {
                assert_eq!(id, 17);
                assert_eq!(request.head_sha, None);
                assert_eq!(request.name, "n");
                assert_eq!(request.conclusion, "success");
                assert_eq!(request.started_at, "s");
                assert_eq!(request.completed_at, "e");
            }
            other => panic!("{other:?}"),
        }
    }
    assert!(call(None, None).is_none());
}

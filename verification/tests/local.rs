use postil_reviewer::config::{
    RepoReviewConfig, RuntimeConfig, RuntimeEnv, RuntimeFileConfig, RuntimeOverrides, Severity,
};
use postil_reviewer::github::SearchStep;
use postil_reviewer::local::{
    git_failure, next_local_step, render_local_findings, start_local_search, LocalDiffSource,
    LOCAL_CANDIDATES,
};
use postil_reviewer::review::{Finding, ReviewEnvelope, TokenUsage};

fn some(text: &str) -> Option<String> {
    Some(text.to_string())
}

#[test]
fn one_source_at_most() {
    assert!(LocalDiffSource::from_args(false, None, None).unwrap().is_none());
    assert!(matches!(
        LocalDiffSource::from_args(true, None, None),
        Ok(Some(LocalDiffSource::Staged))
    ));
    match LocalDiffSource::from_args(false, some("main"), None) {
        Ok(Some(LocalDiffSource::Base(base))) => assert_eq!(base, "main"),
        other => panic!("{other:?}"),
    }
    match LocalDiffSource::from_args(false, None, some("x.diff")) {
        Ok(Some(LocalDiffSource::DiffFile(path))) => assert_eq!(path, "x.diff"),
        other => panic!("{other:?}"),
    }
    let message: &str = "choose only one local diff source: --staged, --base, or --diff-file";
    assert_eq!(LocalDiffSource::from_args(true, some("m"), None).unwrap_err(), message);
    assert_eq!(LocalDiffSource::from_args(true, None, some("f")).unwrap_err(), message);
    assert_eq!(LocalDiffSource::from_args(false, some("m"), some("f")).unwrap_err(), message);
    assert_eq!(LocalDiffSource::from_args(true, some("m"), some("f")).unwrap_err(), message);
}

#[test]
fn sources_have_labels() {
    assert_eq!(LocalDiffSource::Staged.label(), "staged changes");
    assert_eq!(LocalDiffSource::Base("main".to_string()).label(), "main...HEAD");
    assert_eq!(
        LocalDiffSource::DiffFile("a/b.diff".to_string()).label(),
        "diff file a/b.diff"
    );
}

#[test]
fn git_is_told_what_to_show() {
    assert_eq!(
        LocalDiffSource::Staged.git_args().unwrap(),
        vec!["diff", "--cached", "--no-ext-diff", "--unified=80"]
    );
    assert_eq!(
        LocalDiffSource::Base("main".to_string()).git_args().unwrap(),
        vec!["diff", "--no-ext-diff", "--unified=80", "main...HEAD"]
    );
    assert!(LocalDiffSource::DiffFile("f".to_string()).git_args().is_none());
}

#[test]
fn failure_of_git_is_cut_short() {
    let args: Vec<String> = vec!["diff".to_string(), "--cached".to_string()];
    assert_eq!(git_failure(&args, " fatal \n"), "git diff --cached failed: fatal");
    assert_eq!(
        git_failure(&args, &"x".repeat(1000)),
        format!("git diff --cached failed: {}", "x".repeat(400))
    );
}

#[test]
fn findings_are_shown_one_to_a_line() {
    let finding = |line: u64, severity: Severity, body: &str| -> Finding {
        Finding {
            path: "a.rs".to_string(),
            line,
            severity,
            kind: None,
            body: body.to_string(),
        }
    };
    let envelope = ReviewEnvelope {
        summary: String::new(),
        findings: vec![
            finding(1, Severity::Error, "one"),
            finding(20, Severity::Info, "two"),
        ],
        usage: TokenUsage::default(),
        model_used: "m".to_string(),
    };
    assert_eq!(render_local_findings(&envelope), "ERROR a.rs:1 one\nINFO a.rs:20 two");
}

#[test]
fn first_file_beside_the_working_copy_decides() {
    assert_eq!(LOCAL_CANDIDATES, 3);
    assert!(matches!(next_local_step(0, Ok(None)), SearchStep::Fetch(1)));
    assert!(matches!(next_local_step(1, Ok(None)), SearchStep::Fetch(2)));
    match next_local_step(2, Ok(None)) {
        SearchStep::Done(c) => assert_eq!(c.max_findings, 25),
        other => panic!("{other:?}"),
    }
    let told = RepoReviewConfig {
        max_findings: 3,
        ..RepoReviewConfig::default()
    };
    match next_local_step(0, Ok(Some(told))) {
        SearchStep::Done(c) => assert_eq!(c.max_findings, 3),
        other => panic!("{other:?}"),
    }
    match next_local_step(0, Err("broken".to_string())) {
        SearchStep::Stop(e) => assert_eq!(e, "broken"),
        other => panic!("{other:?}"),
    }
}

#[test]
fn run_file_counts_before_the_working_copy() {
    let start = |review: Option<RepoReviewConfig>| -> SearchStep {
        let file = RuntimeFileConfig {
            openrouter_api_key: some("key"),
            review,
            ..RuntimeFileConfig::default()
        };
        let runtime = RuntimeConfig::load(
            Some(file),
            RuntimeEnv::from_vars(&Vec::new()),
            RuntimeOverrides::default(),
        )
        .unwrap();
        start_local_search(&runtime)
    };
    assert!(matches!(start(None), SearchStep::Fetch(0)));
    let told = RepoReviewConfig {
        max_findings: 3,
        ignore: vec!["a".to_string()],
        ..RepoReviewConfig::default()
    };
    match start(Some(told)) {
        SearchStep::Done(c) => {
            assert_eq!(c.max_findings, 3);
            assert_eq!(c.ignore, vec!["a"]);
        }
        other => panic!("{other:?}"),
    }
}

use postil_reviewer::config::{OnClean, RepoReviewConfig, ReviewTarget, ReviewerConfig, Severity};
use postil_reviewer::openrouter::{Cascade, CascadeStep, OpenRouterResult};
use postil_reviewer::review::{Finding, ReviewEnvelope, TokenUsage, NOT_JSON};
use postil_reviewer::run::{
    after_posting, close_review, json_repair_user_content, open_review, review_user_content, run_fails,
    settle_retry, should_post, take_answer, take_second_answer, Closing, Opening, Reading, Retry,
    ReviewSource, RunSettings, Step,
};
use postil_reviewer::text::limit_text;

const WARNING: &str = "{\"summary\":\"Needs work.\",\"findings\":[{\"path\":\"src/lib.rs\",\"line\":1,\"severity\":\"warn\",\"body\":\"This can fail.\"}]}";

fn remote() -> ReviewSource {
    ReviewSource::Remote(ReviewTarget {
        owner: "owner".to_string(),
        repo: "repo".to_string(),
        pull_number: 42,
        head_sha: Some("abc123".to_string()),
    })
}

fn local() -> ReviewSource {
    ReviewSource::Local("diff file change.diff".to_string())
}

fn settings(fail_on: Severity) -> RunSettings {
    RunSettings {
        fail_on,
        no_inline: false,
        wants_json: false,
    }
}

fn reply(content: &str) -> OpenRouterResult {
    OpenRouterResult {
        content: content.to_string(),
        usage: TokenUsage::default(),
        model_used: "xiaomi/mimo-v2.5-pro".to_string(),
        finish_reason: None,
    }
}

fn accepted(content: &str, cfg: &RepoReviewConfig, source: &ReviewSource) -> ReviewEnvelope {
    match take_answer(&reply(content), cfg, source, "diff\n+x").unwrap() {
        Reading::Accepted(envelope) => envelope,
        Reading::Again(retry) => panic!("{retry:?}"),
    }
}

fn retried(content: &str, cfg: &RepoReviewConfig, source: &ReviewSource) -> Retry {
    match take_answer(&reply(content), cfg, source, "diff\n+x").unwrap() {
        Reading::Accepted(envelope) => panic!("{envelope:?}"),
        Reading::Again(retry) => retry,
    }
}

fn printed(closing: &Closing) -> String {
    let lines: Vec<&str> = closing
        .steps
        .iter()
        .filter_map(|step| match step {
            Step::Print(line) => Some(line.as_str()),
            _ => None,
        })
        .collect();
    lines.join("\n")
}

fn kinds(closing: &Closing) -> Vec<&'static str> {
    closing
        .steps
        .iter()
        .map(|step| match step {
            Step::WriteEnvelope => "write",
            Step::CompleteCheck { .. } => "check",
            Step::PostReview { .. } => "post",
            Step::Print(_) => "print",
        })
        .collect()
}

#[test]
fn posts_review_check_and_json() {
    let cfg = RepoReviewConfig::default();
    let envelope = accepted(WARNING, &cfg, &remote());
    let closing = close_review(
        envelope,
        &cfg,
        RunSettings {
            fail_on: Severity::Error,
            no_inline: false,
            wants_json: true,
        },
        &remote(),
    );
    assert_eq!(closing.exit_code, 0);
    assert_eq!(kinds(&closing), vec!["write", "post", "check", "print"]);
    assert_eq!(
        printed(&closing),
        "[postil] owner/repo#42 -> neutral (1 findings, model: xiaomi/mimo-v2.5-pro)"
    );
    assert_eq!(closing.envelope.model_used, "xiaomi/mimo-v2.5-pro");
    assert_eq!(closing.envelope.findings[0].severity, Severity::Warn);
    match &closing.steps[1] {
        Step::PostReview { request, fallback } => {
            assert_eq!(request.event, "COMMENT");
            assert_eq!(&request.body, fallback);
            assert_eq!(
                fallback,
                "Needs work.\n\nPostil status: needs-attention | errors=0 warnings=1 info=0 inline_comments=1"
            );
        }
        other => panic!("{other:?}"),
    }
    match &closing.steps[2] {
        Step::CompleteCheck { conclusion, output } => {
            assert_eq!(*conclusion, "neutral");
            assert_eq!(output.title, "1 warning");
        }
        other => panic!("{other:?}"),
    }
}

#[test]
fn exits_nonzero_when_a_finding_weighs_enough() {
    let cfg = RepoReviewConfig::default();
    let quiet = RunSettings {
        fail_on: Severity::Warn,
        no_inline: true,
        wants_json: false,
    };
    let closing = close_review(accepted(WARNING, &cfg, &remote()), &cfg, quiet, &remote());
    assert_eq!(closing.exit_code, 1);
    assert_eq!(kinds(&closing), vec!["check", "print"]);
    assert!(printed(&closing).contains("neutral (1 findings"));
}

#[test]
fn next_model_answers_after_a_provider_failure() {
    let mut cfg = RepoReviewConfig::default();
    cfg.review.enabled = false;
    let first = match Cascade::start(vec![
        "bad/model".to_string(),
        "xiaomi/mimo-v2.5-pro".to_string(),
    ]) {
        CascadeStep::Ask(c) => c,
        other => panic!("{other:?}"),
    };
    let second = match first.asked(Err("openrouter 503: down".to_string())) {
        CascadeStep::Ask(c) => c,
        other => panic!("{other:?}"),
    };
    assert_eq!(second.model(), "xiaomi/mimo-v2.5-pro");
    let answer = match second.asked(Ok(reply("{\"summary\":\"Clean.\",\"findings\":[]}"))) {
        CascadeStep::Answer(answer) => answer,
        other => panic!("{other:?}"),
    };
    let envelope = match take_answer(&answer, &cfg, &remote(), "diff\n+ok").unwrap() {
        Reading::Accepted(envelope) => envelope,
        other => panic!("{other:?}"),
    };
    let closing = close_review(envelope, &cfg, settings(Severity::Error), &remote());
    assert_eq!(closing.exit_code, 0);
    assert_eq!(kinds(&closing), vec!["check", "print"]);
    assert!(printed(&closing).contains("model: xiaomi/mimo-v2.5-pro"));
}

#[test]
fn clean_review_is_skipped_by_default() {
    let cfg = RepoReviewConfig::default();
    let envelope = accepted("{\"summary\":\"\",\"findings\":[]}", &cfg, &remote());
    assert!(!should_post(&envelope, &cfg));
    let closing = close_review(envelope, &cfg, settings(Severity::Error), &remote());
    assert_eq!(closing.exit_code, 0);
    assert_eq!(kinds(&closing), vec!["check", "print"]);
    assert!(printed(&closing).contains("success (0 findings"));
}

#[test]
fn clean_review_is_posted_where_asked_for() {
    let mut cfg = RepoReviewConfig::default();
    cfg.review.on_clean = OnClean::Approve;
    let envelope = accepted("{\"summary\":\"\",\"findings\":[]}", &cfg, &remote());
    assert!(should_post(&envelope, &cfg));
    let closing = close_review(envelope, &cfg, settings(Severity::Info), &remote());
    assert_eq!(closing.exit_code, 0);
    assert_eq!(kinds(&closing), vec!["post", "check", "print"]);
    match &closing.steps[0] {
        Step::PostReview { request, fallback } => {
            assert_eq!(request.event, "APPROVE");
            assert_eq!(
                fallback,
                "Postil status: clean | errors=0 warnings=0 info=0 inline_comments=0"
            );
        }
        other => panic!("{other:?}"),
    }
}

#[test]
fn local_diff_is_reviewed_without_github() {
    let cfg = RepoReviewConfig {
        reviewer: ReviewerConfig {
            tone: "neutral".to_string(),
            focus: vec!["security-sensitive behavior".to_string()],
        },
        ..RepoReviewConfig::default()
    };
    let diff: &str = "diff --git a/src/lib.rs b/src/lib.rs\n@@ -1 +1 @@\n+let token = user_input;";
    match open_review(diff, &cfg, &local(), true) {
        Opening::Ask {
            system_prompt,
            user_content,
        } => {
            assert!(system_prompt.contains("security-sensitive behavior"));
            assert_eq!(
                user_content,
                format!("Review source: diff file change.diff\n\nUnified diff:\n\n{diff}")
            );
        }
        other => panic!("{other:?}"),
    }
    let envelope = accepted(
        "{\"summary\":\"Needs human review before merge.\",\"findings\":[{\"path\":\"src/lib.rs\",\"line\":1,\"severity\":\"warn\",\"body\":\"This security-sensitive path needs accountable human review before merge.\"}]}",
        &cfg,
        &local(),
    );
    let closing = close_review(
        envelope,
        &cfg,
        RunSettings {
            fail_on: Severity::Error,
            no_inline: false,
            wants_json: true,
        },
        &local(),
    );
    assert_eq!(closing.exit_code, 0);
    assert_eq!(kinds(&closing), vec!["write", "print", "print"]);
    assert_eq!(
        printed(&closing),
        "[postil] local diff (diff file change.diff) -> neutral (1 findings, model: xiaomi/mimo-v2.5-pro)\nWARN src/lib.rs:1 This security-sensitive path needs accountable human review before merge."
    );
}

#[test]
fn local_diff_is_cut_on_a_character() {
    let diff: String = limit_text("diff --git a/src/lib.rs b/src/lib.rs\n+é".to_string(), 39);
    assert_eq!(diff, "diff --git a/src/lib.rs b/src/lib.rs\n+\n\n[diff truncated]");
    match open_review(&diff, &RepoReviewConfig::default(), &local(), false) {
        Opening::Ask { user_content, .. } => assert!(user_content.contains("[diff truncated]")),
        other => panic!("{other:?}"),
    }
}

#[test]
fn invalid_output_twice_fails_the_run() {
    let cfg = RepoReviewConfig {
        ignore: vec!["**".to_string()],
        max_findings: 0,
        severity_threshold: Severity::Error,
        ..RepoReviewConfig::default()
    };
    for source in [local(), remote()] {
        let retry = retried("not json", &cfg, &source);
        let settled = take_second_answer(retry.first, &reply("still none"), &cfg).unwrap();
        let closing = close_review(settled, &cfg, settings(Severity::Error), &source);
        assert_eq!(closing.exit_code, 1);
        assert_eq!(closing.envelope.findings[0].body, NOT_JSON);
        assert!(printed(&closing).contains("failure (1 findings"));
        if let ReviewSource::Local(_) = source {
            assert!(printed(&closing).contains("Model output was not valid Postil JSON"));
            assert_eq!(kinds(&closing), vec!["print", "print"]);
        } else {
            assert_eq!(kinds(&closing), vec!["post", "check", "print"]);
        }
    }
}

#[test]
fn second_question_goes_to_the_model_that_answered() {
    let cfg = RepoReviewConfig::default();
    let retry = retried("not json", &cfg, &local());
    assert_eq!(retry.model, "xiaomi/mimo-v2.5-pro");
    assert_eq!(
        retry.warning,
        "[postil] model output was not valid JSON; retrying once with a compact JSON repair prompt"
    );
    assert_eq!(
        retry.user_content,
        "The previous response was not valid Postil JSON or was truncated. Return ONLY one compact valid JSON object matching the schema from the system prompt. Do not include markdown, reasoning, or prose.\n\nReview source: diff file change.diff\n\nPrevious invalid output excerpt:\nnot json\n\nUnified diff:\n\ndiff\n+x"
    );
    let mut cut = reply("{\"summary\":");
    cut.finish_reason = Some("length".to_string());
    match take_answer(&cut, &cfg, &local(), "diff").unwrap() {
        Reading::Again(retry) => assert_eq!(
            retry.warning,
            "[postil] model output was not valid JSON (finish_reason: length); retrying once with a compact JSON repair prompt"
        ),
        Reading::Accepted(envelope) => panic!("{envelope:?}"),
    }
    let second = take_second_answer(retry.first, &reply(WARNING), &cfg).unwrap();
    assert_eq!(second.summary, "Needs work.");
}

#[test]
fn second_answer_counts_only_when_it_is_a_review() {
    let cfg = RepoReviewConfig::default();
    let first = retried("{\"summary\":\"s\"}", &cfg, &local()).first;
    let other = retried("none", &cfg, &local()).first;
    let good = accepted(WARNING, &cfg, &local());
    assert_eq!(settle_retry(first.clone(), other), first);
    assert_eq!(settle_retry(first, good.clone()), good);
}

#[test]
fn bad_pattern_ends_the_run() {
    let cfg = RepoReviewConfig {
        ignore: vec!["{".to_string()],
        ..RepoReviewConfig::default()
    };
    let err = take_answer(&reply(WARNING), &cfg, &local(), "diff").unwrap_err();
    assert!(err.message().starts_with("invalid ignore glob {: error parsing glob '{': "));
    let clean = ReviewEnvelope {
        summary: String::new(),
        findings: Vec::new(),
        usage: TokenUsage::default(),
        model_used: "m".to_string(),
    };
    let err = take_second_answer(clean, &reply(WARNING), &cfg).unwrap_err();
    assert!(err.message().starts_with("invalid ignore glob {: error parsing glob '{': "));
}

#[test]
fn empty_diff_ends_well() {
    let mut cfg = RepoReviewConfig::default();
    cfg.enabled = false;
    let closing = match open_review(" \n\t", &cfg, &remote(), true) {
        Opening::Closed(closing) => closing,
        other => panic!("{other:?}"),
    };
    assert_eq!(closing.exit_code, 0);
    assert_eq!(kinds(&closing), vec!["write", "check", "print"]);
    assert_eq!(printed(&closing), "[postil] empty diff - nothing to review");
    assert_eq!(closing.envelope.summary, "Nothing to review.");
    assert_eq!(closing.envelope.model_used, "none");
    match &closing.steps[1] {
        Step::CompleteCheck { conclusion, output } => {
            assert_eq!(*conclusion, "neutral");
            assert_eq!(output.title, "Empty diff");
        }
        other => panic!("{other:?}"),
    }
    match open_review("", &cfg, &local(), false) {
        Opening::Closed(closing) => assert_eq!(kinds(&closing), vec!["print"]),
        other => panic!("{other:?}"),
    }
}

#[test]
fn disabled_repository_ends_well() {
    let mut cfg = RepoReviewConfig::default();
    cfg.enabled = false;
    let closing = match open_review("diff", &cfg, &remote(), true) {
        Opening::Closed(closing) => closing,
        other => panic!("{other:?}"),
    };
    assert_eq!(closing.exit_code, 0);
    assert_eq!(kinds(&closing), vec!["check", "write", "print"]);
    assert_eq!(
        printed(&closing),
        "[postil] owner/repo#42 -> neutral (disabled by config)"
    );
    assert_eq!(
        closing.envelope.summary,
        "Postil is disabled for this repo via config."
    );
    match &closing.steps[0] {
        Step::CompleteCheck { conclusion, output } => {
            assert_eq!(*conclusion, "neutral");
            assert_eq!(output.title, "Postil Review");
            assert_eq!(output.summary, "Postil is disabled for this repo via config.");
            assert_eq!(output.text, None);
        }
        other => panic!("{other:?}"),
    }
    match open_review("diff", &cfg, &local(), false) {
        Opening::Closed(closing) => {
            assert_eq!(kinds(&closing), vec!["print"]);
            assert_eq!(
                printed(&closing),
                "[postil] local diff (diff file change.diff) -> neutral (disabled by config)"
            );
        }
        other => panic!("{other:?}"),
    }
}

#[test]
fn questions_name_their_source() {
    assert_eq!(remote().label(), "github pull request");
    assert_eq!(
        review_user_content("x", "d"),
        "Review source: x\n\nUnified diff:\n\nd"
    );
    let long: String = "é".repeat(3000);
    let asked: String = json_repair_user_content("x", "d", &long);
    assert!(asked.contains(&format!("\n{}\n\n[diff truncated]\n\n", "é".repeat(2000))));
    assert!(!asked.contains(&"é".repeat(2001)));
}

#[test]
fn run_fails_from_its_severity_on() {
    let all: Vec<Finding> = vec![Finding {
        path: "p".to_string(),
        line: 1,
        severity: Severity::Warn,
        kind: None,
        body: String::new(),
    }];
    assert!(run_fails(&all, Severity::Info));
    assert!(run_fails(&all, Severity::Warn));
    assert!(!run_fails(&all, Severity::Error));
    assert!(!run_fails(&Vec::new(), Severity::Info));
}

#[test]
fn run_that_fails_on_errors_agrees_with_its_check() {
    let cfg = RepoReviewConfig::default();
    for severity in ["info", "warn", "error"] {
        let content: String = WARNING.replace("warn", severity);
        let envelope = accepted(&content, &cfg, &remote());
        let closing = close_review(envelope, &cfg, settings(Severity::Error), &remote());
        let conclusions: Vec<&str> = closing
            .steps
            .iter()
            .filter_map(|step| match step {
                Step::CompleteCheck { conclusion, .. } => Some(*conclusion),
                _ => None,
            })
            .collect();
        assert_eq!(conclusions.len(), 1);
        assert_eq!(closing.exit_code == 1, conclusions[0] == "failure");
        assert_eq!(closing.exit_code == 1, severity == "error");
    }
}

#[test]
fn review_that_is_not_taken_becomes_a_comment() {
    assert!(after_posting("body".to_string(), Ok(())).is_none());
    let instead = after_posting("body".to_string(), Err("github review 422: bad".to_string())).unwrap();
    assert_eq!(instead.comment, "body");
    assert_eq!(
        instead.warning,
        "[postil] inline review post failed: github review 422: bad"
    );
}

use postil_reviewer::config::{RepoReviewConfig, ReviewerConfig, Severity};
use postil_reviewer::ignore::IgnoreError;
use postil_reviewer::review::{
    append_status, apply_config, apply_rules, count_findings, fenced_json, invalid_model_output,
    is_model_output_error, json_object_slice, parse_envelope, review_body, review_json, status_line,
    system_prompt, Finding, FindingKind, ReviewEnvelope, TokenUsage, BASE_SYSTEM_PROMPT,
    INVALID_FINDING, NOT_JSON, NO_FINDINGS, NO_SUMMARY,
};

fn finding(path: &str, line: u64, severity: Severity, body: &str) -> Finding {
    Finding {
        path: path.to_string(),
        line,
        severity,
        kind: None,
        body: body.to_string(),
    }
}

fn envelope(summary: &str, findings: Vec<Finding>) -> ReviewEnvelope {
    ReviewEnvelope {
        summary: summary.to_string(),
        findings,
        usage: TokenUsage::default(),
        model_used: "m".to_string(),
    }
}

#[test]
fn parses_fenced_json() {
    let env = parse_envelope(
        "```json\n{\"summary\":\"ok\",\"findings\":[{\"path\":\"src/lib.rs\",\"line\":3,\"severity\":\"warn\",\"kind\":\"humanEscalation\",\"body\":\"bug\"}]}\n```",
        TokenUsage::default(),
        "m".into(),
    );
    assert_eq!(env.summary, "ok");
    assert_eq!(env.findings.len(), 1);
    assert_eq!(env.findings[0].severity, Severity::Warn);
    assert_eq!(env.findings[0].kind, Some(FindingKind::HumanEscalation));
}

#[test]
fn invalid_model_output_fails_closed() {
    let env = parse_envelope("plain output", TokenUsage::default(), "m".into());
    assert_eq!(env.summary, "Postil could not validate the model output.");
    assert_eq!(env.findings.len(), 1);
    assert_eq!(env.findings[0].severity, Severity::Error);
    assert_eq!(env.findings[0].path, ".postil/model-output");
}

#[test]
fn invalid_finding_fails_closed() {
    let env = parse_envelope(
        "{\"summary\":\"s\",\"findings\":[{\"path\":\"src/lib.rs\",\"line\":\"bad\",\"severity\":\"warn\",\"body\":\"risk\"}]}",
        TokenUsage::default(),
        "m".into(),
    );
    assert_eq!(env.findings.len(), 1);
    assert_eq!(env.findings[0].severity, Severity::Error);
}

#[test]
fn filters_findings() {
    let envelope = ReviewEnvelope {
        summary: "s".into(),
        usage: TokenUsage::default(),
        model_used: "m".into(),
        findings: vec![
            Finding {
                path: "src/a.rs".into(),
                line: 1,
                severity: Severity::Info,
                kind: None,
                body: "i".into(),
            },
            Finding {
                path: "dist/a.js".into(),
                line: 1,
                severity: Severity::Error,
                kind: None,
                body: "e".into(),
            },
            Finding {
                path: "src/b.rs".into(),
                line: 1,
                severity: Severity::Warn,
                kind: None,
                body: "w".into(),
            },
        ],
    };
    let cfg = RepoReviewConfig {
        severity_threshold: Severity::Warn,
        ignore: vec!["dist/**".into()],
        ..RepoReviewConfig::default()
    };
    let filtered = apply_config(envelope, &cfg).unwrap();
    assert_eq!(filtered.findings.len(), 1);
    assert_eq!(filtered.findings[0].path, "src/b.rs");
}

#[test]
fn model_output_error_survives_ignore_and_max_findings() {
    let envelope = parse_envelope("plain output", TokenUsage::default(), "m".into());
    let cfg = RepoReviewConfig {
        ignore: vec![".postil/**".into()],
        max_findings: 0,
        ..RepoReviewConfig::default()
    };
    let filtered = apply_config(envelope, &cfg).unwrap();
    assert_eq!(filtered.findings.len(), 1);
    assert_eq!(filtered.findings[0].path, ".postil/model-output");
}

#[test]
fn prompt_encodes_low_noise_doctrine() {
    let prompt = system_prompt(&RepoReviewConfig::default());
    assert!(prompt.contains("Silence is a feature"));
    assert!(prompt.contains("Comment only when"));
    assert!(prompt.contains("durable guardrail"));
    assert!(prompt.contains("accountable humans"));
    assert!(prompt.contains("self-dismissing findings"));
    assert!(prompt.contains("empty summary string"));
}

#[test]
fn review_body_uses_merge_relevant_fallback_only_for_findings() {
    let clean = ReviewEnvelope {
        summary: String::new(),
        findings: Vec::new(),
        usage: TokenUsage::default(),
        model_used: "m".into(),
    };
    assert_eq!(
        review_body(&clean, 0, "clean"),
        "Postil status: clean | errors=0 warnings=0 info=0 inline_comments=0"
    );

    let dirty = ReviewEnvelope {
        summary: String::new(),
        findings: vec![Finding {
            path: "src/lib.rs".into(),
            line: 1,
            severity: Severity::Warn,
            kind: None,
            body: "risk".into(),
        }],
        usage: TokenUsage::default(),
        model_used: "m".into(),
    };
    assert!(review_body(&dirty, 1, "needs-attention").contains("merge-relevant"));
}

#[test]
fn default_prompt_is_the_base_prompt() {
    assert_eq!(system_prompt(&RepoReviewConfig::default()), BASE_SYSTEM_PROMPT);
    assert!(BASE_SYSTEM_PROMPT.starts_with("You are Postil, a low-noise review gate"));
    assert!(BASE_SYSTEM_PROMPT.ends_with("\"body\": \"...\" } ]\n}"));
}

#[test]
fn prompt_carries_focus_and_tone() {
    let cfg = RepoReviewConfig {
        reviewer: ReviewerConfig {
            tone: " dry ".to_string(),
            focus: vec![" a ".to_string(), "  ".to_string(), "b".to_string()],
        },
        ..RepoReviewConfig::default()
    };
    assert_eq!(
        system_prompt(&cfg),
        format!(
            "{BASE_SYSTEM_PROMPT}\n\nRepository review focus:\n- a\n- b\n\nReviewer tone preference: dry. Keep the result direct and merge-relevant."
        )
    );
    let blank = RepoReviewConfig {
        reviewer: ReviewerConfig {
            tone: "  ".to_string(),
            focus: vec![" ".to_string()],
        },
        ..RepoReviewConfig::default()
    };
    assert_eq!(system_prompt(&blank), BASE_SYSTEM_PROMPT);
}

#[test]
fn fence_is_found_and_trimmed() {
    assert_eq!(fenced_json("x ```json\n {} \n``` y"), Some("{}"));
    assert_eq!(fenced_json("no fence"), None);
    assert_eq!(fenced_json("```open"), None);
    assert_eq!(fenced_json("```{}```"), Some("{}"));
    assert_eq!(fenced_json("```a\nb```c```"), Some("b"));
    assert_eq!(fenced_json("```{}``` tail\nmore"), None);
    assert_eq!(fenced_json("``````"), Some(""));
}

#[test]
fn object_goes_from_first_to_last_brace() {
    assert_eq!(json_object_slice("a {b} {c} d"), Some("{b} {c}"));
    assert_eq!(json_object_slice("}{"), None);
    assert_eq!(json_object_slice("{"), None);
    assert_eq!(json_object_slice("}"), None);
    assert_eq!(json_object_slice("{}"), Some("{}"));
}

fn body_of(text: &str) -> String {
    let env = parse_envelope(text, TokenUsage::default(), "m".to_string());
    assert_eq!(env.findings.len(), 1);
    assert!(is_model_output_error(&env));
    assert_eq!(env.findings[0].line, 1);
    assert_eq!(env.findings[0].kind, Some(FindingKind::Risk));
    env.findings[0].body.clone()
}

#[test]
fn each_fault_of_the_output_is_named() {
    assert_eq!(body_of("plain"), NOT_JSON);
    assert_eq!(body_of("{broken}"), NOT_JSON);
    assert_eq!(body_of("{\"findings\":[]}"), NO_SUMMARY);
    assert_eq!(body_of("{\"summary\":1,\"findings\":[]}"), NO_SUMMARY);
    assert_eq!(body_of("{\"summary\":\"s\"}"), NO_FINDINGS);
    assert_eq!(body_of("{\"summary\":\"s\",\"findings\":{}}"), NO_FINDINGS);
    assert_eq!(body_of("{\"summary\":\"s\",\"findings\":[1]}"), INVALID_FINDING);
    assert_eq!(
        body_of("{\"summary\":\"s\",\"findings\":[{\"path\":\"p\",\"line\":1,\"severity\":\"fatal\",\"body\":\"b\"}]}"),
        INVALID_FINDING
    );
    assert_eq!(
        body_of("{\"summary\":\"s\",\"findings\":[{\"path\":\"p\",\"line\":-1,\"severity\":\"warn\",\"body\":\"b\"}]}"),
        INVALID_FINDING
    );
    assert_eq!(
        body_of("{\"summary\":\"s\",\"findings\":[{\"path\":\"p\",\"line\":1.0,\"severity\":\"warn\",\"body\":\"b\"}]}"),
        INVALID_FINDING
    );
    assert_eq!(
        body_of("{\"summary\":\"s\",\"findings\":[{\"path\":\"p\",\"line\":1,\"severity\":\"warn\",\"kind\":\"style\",\"body\":\"b\"}]}"),
        INVALID_FINDING
    );
    assert_eq!(
        body_of("{\"summary\":\"s\",\"findings\":[{\"line\":1,\"severity\":\"warn\",\"body\":\"b\"}]}"),
        INVALID_FINDING
    );
    assert_eq!(
        NOT_JSON,
        "Model output was not valid Postil JSON; review must be retried before merge."
    );
    assert_eq!(
        NO_SUMMARY,
        "Model output omitted the required summary string; review must be retried before merge."
    );
    assert_eq!(
        NO_FINDINGS,
        "Model output omitted the required findings array; review must be retried before merge."
    );
    assert_eq!(
        INVALID_FINDING,
        "Model output contained an invalid finding; review must be retried before merge."
    );
}

#[test]
fn usage_and_model_are_kept() {
    let usage = TokenUsage {
        prompt_tokens: 1,
        completion_tokens: 2,
        total_tokens: 3,
    };
    let good = parse_envelope("{\"summary\":\"\",\"findings\":[]}", usage, "a/b".to_string());
    assert_eq!(good.usage, usage);
    assert_eq!(good.model_used, "a/b");
    assert!(good.findings.is_empty());
    assert!(!is_model_output_error(&good));
    let bad = parse_envelope("", usage, "a/b".to_string());
    assert_eq!(bad.usage, usage);
    assert_eq!(bad.model_used, "a/b");
    assert_eq!(bad, invalid_model_output(NOT_JSON, usage, "a/b".to_string()));
}

#[test]
fn findings_are_read_field_by_field() {
    let env = parse_envelope(
        "Sure: {\"summary\":\"s\",\"extra\":null,\"findings\":[\
         {\"path\":\"a\",\"line\":18446744073709551615,\"severity\":\"info\",\"kind\":null,\"body\":\"x\",\"note\":1},\
         {\"body\":\"y\",\"severity\":\"error\",\"line\":0,\"path\":\"b\",\"kind\":\"risk\"},\
         {\"path\":\"c\",\"line\":2,\"severity\":\"warn\",\"kind\":\"guardrail\",\"body\":\"é\\n\"},\
         {\"path\":\"d\",\"line\":3,\"severity\":\"warn\",\"kind\":\"uncertainty\",\"body\":\"\"}]} done",
        TokenUsage::default(),
        "m".to_string(),
    );
    let mut first = finding("a", u64::MAX, Severity::Info, "x");
    first.kind = None;
    let mut second = finding("b", 0, Severity::Error, "y");
    second.kind = Some(FindingKind::Risk);
    let mut third = finding("c", 2, Severity::Warn, "é\n");
    third.kind = Some(FindingKind::Guardrail);
    let mut fourth = finding("d", 3, Severity::Warn, "");
    fourth.kind = Some(FindingKind::Uncertainty);
    assert_eq!(env.findings, vec![first, second, third, fourth]);
}

#[test]
fn findings_are_read_from_lists_and_tagged_variants() {
    let env = parse_envelope(
        "{\"summary\":\"s\",\"findings\":[[\"a\",1,\"warn\",null,\"x\"],{\"path\":\"b\",\"line\":2,\"severity\":{\"error\":null},\"body\":\"y\"}]}",
        TokenUsage::default(),
        "m".to_string(),
    );
    assert_eq!(
        env.findings,
        vec![
            finding("a", 1, Severity::Warn, "x"),
            finding("b", 2, Severity::Error, "y")
        ]
    );
    assert_eq!(
        body_of("{\"summary\":\"s\",\"findings\":[[\"a\",1,\"warn\",null]]}"),
        INVALID_FINDING
    );
    assert_eq!(
        body_of("{\"summary\":\"s\",\"findings\":[{\"path\":\"b\",\"line\":2,\"severity\":{\"error\":1},\"body\":\"y\"}]}"),
        INVALID_FINDING
    );
}

#[test]
fn of_two_fields_with_one_name_the_last_counts() {
    let env = parse_envelope(
        "{\"summary\":\"first\",\"summary\":\"last\",\"findings\":[]}",
        TokenUsage::default(),
        "m".to_string(),
    );
    assert_eq!(env.summary, "last");
}

#[test]
fn cap_keeps_the_first_findings() {
    let env = envelope(
        "s",
        vec![
            finding("a", 1, Severity::Info, ""),
            finding("b", 2, Severity::Info, ""),
            finding("c", 3, Severity::Info, ""),
        ],
    );
    let cfg = RepoReviewConfig {
        max_findings: 2,
        ..RepoReviewConfig::default()
    };
    let cut = apply_config(env.clone(), &cfg).unwrap();
    assert_eq!(cut.findings, env.findings[..2].to_vec());
    assert_eq!(apply_config(cut.clone(), &cfg).unwrap(), cut);
    let none = RepoReviewConfig {
        max_findings: 0,
        ..RepoReviewConfig::default()
    };
    assert!(apply_config(env, &none).unwrap().findings.is_empty());
}

#[test]
fn permissive_config_changes_nothing() {
    let env = envelope("s", vec![finding("dist/x", 1, Severity::Info, "b")]);
    assert_eq!(apply_config(env.clone(), &RepoReviewConfig::default()).unwrap(), env);
}

#[test]
fn one_error_about_the_output_keeps_everything_that_weighs_enough() {
    let env = envelope(
        "s",
        vec![
            finding("a", 1, Severity::Warn, ""),
            finding(".postil/model-output", 1, Severity::Error, ""),
            finding("b", 1, Severity::Info, ""),
        ],
    );
    let cfg = RepoReviewConfig {
        ignore: vec!["**".to_string()],
        max_findings: 0,
        severity_threshold: Severity::Warn,
        ..RepoReviewConfig::default()
    };
    let out = apply_config(env.clone(), &cfg).unwrap();
    assert_eq!(out.findings, vec![env.findings[1].clone()]);
    let uncapped = apply_rules(env.clone(), &vec![false, true, false], Severity::Info, 1);
    assert_eq!(uncapped, env);
}

#[test]
fn patterns_add_up() {
    let env = envelope(
        "s",
        vec![
            finding("dist/a.js", 1, Severity::Error, ""),
            finding("src/gen/x.rs", 1, Severity::Error, ""),
            finding("src/x.rs", 1, Severity::Error, ""),
            finding("notes.md", 1, Severity::Error, ""),
        ],
    );
    let ignoring = |globs: Vec<&str>| -> Vec<String> {
        let cfg = RepoReviewConfig {
            ignore: globs.iter().map(|g| g.to_string()).collect(),
            ..RepoReviewConfig::default()
        };
        let out = apply_config(env.clone(), &cfg).unwrap();
        out.findings.iter().map(|f| f.path.clone()).collect()
    };
    assert_eq!(ignoring(vec!["dist/**"]), vec!["src/gen/x.rs", "src/x.rs", "notes.md"]);
    assert_eq!(ignoring(vec!["**/gen/*.rs"]), vec!["dist/a.js", "src/x.rs", "notes.md"]);
    assert_eq!(ignoring(vec!["dist/**", "**/gen/*.rs"]), vec!["src/x.rs", "notes.md"]);
    assert_eq!(ignoring(vec!["*.{md,js}"]), vec!["src/gen/x.rs", "src/x.rs"]);
    assert_eq!(ignoring(vec![]).len(), 4);
}

#[test]
fn first_bad_pattern_is_named() {
    let cfg = RepoReviewConfig {
        ignore: vec!["ok/**".to_string(), "a[".to_string(), "b{".to_string()],
        ..RepoReviewConfig::default()
    };
    let err = apply_config(envelope("s", Vec::new()), &cfg).unwrap_err();
    assert_eq!(
        err.message(),
        "invalid ignore glob a[: error parsing glob 'a[': unclosed character class; missing ']'"
    );
    match err {
        IgnoreError::InvalidGlob { glob, cause } => {
            assert_eq!(glob, "a[");
            assert_eq!(
                cause,
                "error parsing glob 'a[': unclosed character class; missing ']'"
            );
        }
        IgnoreError::Build { .. } => panic!("the pattern should be refused on its own"),
    }
}

#[test]
fn pattern_that_is_too_large_makes_no_set() {
    let large: String = "[!a]".repeat(400_000);
    let cfg = RepoReviewConfig {
        ignore: vec![large],
        ..RepoReviewConfig::default()
    };
    let err = apply_config(envelope("s", Vec::new()), &cfg).unwrap_err();
    let message: String = err.message();
    match err {
        IgnoreError::Build { cause } => {
            assert_eq!(cause, "error building NFA");
            assert_eq!(message, format!("build ignore glob set: {cause}"));
        }
        IgnoreError::InvalidGlob { .. } => panic!("the pattern should be accepted on its own"),
    }
}

#[test]
fn status_line_counts_by_severity() {
    let env = envelope(
        "s",
        vec![
            finding("a", 1, Severity::Error, ""),
            finding("b", 1, Severity::Warn, ""),
            finding("c", 1, Severity::Warn, ""),
            finding("d", 1, Severity::Info, ""),
            finding("e", 1, Severity::Info, ""),
            finding("f", 1, Severity::Info, ""),
        ],
    );
    assert_eq!(count_findings(&env.findings, Severity::Error), 1);
    assert_eq!(count_findings(&env.findings, Severity::Warn), 2);
    assert_eq!(count_findings(&env.findings, Severity::Info), 3);
    assert_eq!(
        status_line(&env, 6, "needs-attention"),
        "Postil status: needs-attention | errors=1 warnings=2 info=3 inline_comments=6"
    );
}

#[test]
fn status_comes_behind_the_text() {
    assert_eq!(append_status(" text \n", "status"), "text\n\nstatus");
    assert_eq!(append_status(" \n", "status"), "status");
    assert_eq!(
        review_body(&envelope(" Fine. ", Vec::new()), 0, "clean"),
        "Fine.\n\nPostil status: clean | errors=0 warnings=0 info=0 inline_comments=0"
    );
    assert_eq!(
        review_body(&envelope(" ", vec![finding("a", 1, Severity::Info, "")]), 1, "needs-attention"),
        "Postil found merge-relevant review findings.\n\nPostil status: needs-attention | errors=0 warnings=0 info=1 inline_comments=1"
    );
}

#[test]
fn review_is_written_with_its_fields_in_order() {
    let mut second = finding("b", 2, Severity::Info, "y");
    second.kind = Some(FindingKind::HumanEscalation);
    let env = ReviewEnvelope {
        summary: "s".to_string(),
        findings: vec![finding("a", 1, Severity::Warn, "x\n\"é\""), second],
        usage: TokenUsage {
            prompt_tokens: 10,
            completion_tokens: 5,
            total_tokens: 15,
        },
        model_used: "m".to_string(),
    };
    assert_eq!(
        review_json(&env),
        "{\n  \"summary\": \"s\",\n  \"findings\": [\n    {\n      \"path\": \"a\",\n      \"line\": 1,\n      \"severity\": \"warn\",\n      \"body\": \"x\\n\\\"é\\\"\"\n    },\n    {\n      \"path\": \"b\",\n      \"line\": 2,\n      \"severity\": \"info\",\n      \"kind\": \"humanEscalation\",\n      \"body\": \"y\"\n    }\n  ],\n  \"usage\": {\n    \"promptTokens\": 10,\n    \"completionTokens\": 5,\n    \"totalTokens\": 15\n  },\n  \"modelUsed\": \"m\"\n}"
    );
    assert_eq!(
        review_json(&envelope("", Vec::new())),
        "{\n  \"summary\": \"\",\n  \"findings\": [],\n  \"usage\": {\n    \"promptTokens\": 0,\n    \"completionTokens\": 0,\n    \"totalTokens\": 0\n  },\n  \"modelUsed\": \"m\"\n}"
    );
}

#[test]
fn written_review_is_read_back() {
    let mut all: Vec<Finding> = Vec::new();
    for kind in [
        None,
        Some(FindingKind::Risk),
        Some(FindingKind::HumanEscalation),
        Some(FindingKind::Guardrail),
        Some(FindingKind::Uncertainty),
    ] {
        for severity in [Severity::Info, Severity::Warn, Severity::Error] {
            let mut f = finding("src/{x}.rs", u64::MAX, severity, "{\"a\"} \u{1} \u{7f} 😀 `` \\");
            f.kind = kind;
            all.push(f);
        }
    }
    for env in [envelope("", Vec::new()), envelope(" } s { ", all)] {
        let text: String = review_json(&env);
        for whole in [text.clone(), format!("Here it is:\n{text}\nThat is all.")] {
            assert_eq!(parse_envelope(&whole, env.usage, env.model_used.clone()), env);
        }
    }
}

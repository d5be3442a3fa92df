use postil_reviewer::openrouter::{
    provider_refusal, read_answer, read_completion, Cascade, CascadeStep, Choice, CompletionRequest,
    CompletionResponse, MessageResponse, OpenRouterApi, OpenRouterResult, Usage,
};
use postil_reviewer::review::TokenUsage;

fn reply(model: &str) -> OpenRouterResult {
    OpenRouterResult {
        content: "text".to_string(),
        usage: TokenUsage::default(),
        model_used: model.to_string(),
        finish_reason: None,
    }
}

fn choice(content: Option<&str>, finish_reason: Option<&str>) -> Choice {
    Choice {
        message: MessageResponse {
            content: content.map(|s| s.to_string()),
        },
        finish_reason: finish_reason.map(|s| s.to_string()),
    }
}

#[test]
fn completions_are_below_the_base() {
    let api = OpenRouterApi::new("https://openrouter.ai/api/v1/".to_string());
    assert_eq!(api.completions_url(), "https://openrouter.ai/api/v1/chat/completions");
}

#[test]
fn request_asks_for_one_object() {
    let r = CompletionRequest::new("a/b", "system text", "user text");
    assert_eq!(r.model, "a/b");
    assert_eq!(r.messages.len(), 2);
    assert_eq!(r.messages[0].role, "system");
    assert_eq!(r.messages[0].content, "system text");
    assert_eq!(r.messages[1].role, "user");
    assert_eq!(r.messages[1].content, "user text");
    assert_eq!(r.max_tokens, 2500);
    assert_eq!(r.response_format.kind, "json_object");
}

#[test]
fn first_choice_is_the_completion() {
    let response = CompletionResponse {
        choices: vec![choice(Some("one"), Some("length")), choice(Some("two"), None)],
        usage: Some(Usage {
            prompt_tokens: Some(10),
            completion_tokens: None,
            total_tokens: Some(15),
        }),
    };
    let r = read_completion(&response, "a/b");
    assert_eq!(r.content, "one");
    assert_eq!(r.model_used, "a/b");
    assert_eq!(r.finish_reason.as_deref(), Some("length"));
    assert_eq!(
        r.usage,
        TokenUsage {
            prompt_tokens: 10,
            completion_tokens: 0,
            total_tokens: 15,
        }
    );
}

#[test]
fn missing_parts_of_an_answer_count_as_nothing() {
    let none = CompletionResponse {
        choices: Vec::new(),
        usage: None,
    };
    let r = read_completion(&none, "m");
    assert_eq!(r.content, "");
    assert_eq!(r.usage, TokenUsage::default());
    assert_eq!(r.finish_reason, None);
    let silent = CompletionResponse {
        choices: vec![choice(None, None)],
        usage: None,
    };
    assert_eq!(read_completion(&silent, "m").content, "");
}

#[test]
fn refusal_is_cut_short() {
    assert_eq!(provider_refusal(503, "down"), "openrouter 503: down");
    let long: String = "é".repeat(500);
    assert_eq!(
        provider_refusal(500, &long),
        format!("openrouter 500: {}", "é".repeat(400))
    );
}

#[test]
fn cascade_asks_until_one_answers() {
    let models: Vec<String> = vec!["a".to_string(), "b".to_string(), "c".to_string()];
    let first = match Cascade::start(models) {
        CascadeStep::Ask(c) => c,
        other => panic!("{other:?}"),
    };
    assert_eq!(first.model(), "a");
    let second = match first.asked(Err("openrouter 503: down".to_string())) {
        CascadeStep::Ask(c) => c,
        other => panic!("{other:?}"),
    };
    assert_eq!(second.model(), "b");
    match second.asked(Ok(reply("b"))) {
        CascadeStep::Answer(r) => assert_eq!(r.model_used, "b"),
        other => panic!("{other:?}"),
    }
}

#[test]
fn cascade_names_every_failure() {
    let mut step = Cascade::start(vec!["a".to_string(), "b".to_string()]);
    let message = loop {
        match step {
            CascadeStep::Ask(c) => {
                let cause: String = format!("no {}", c.model());
                step = c.asked(Err(cause));
            }
            CascadeStep::GiveUp(message) => break message,
            CascadeStep::Answer(r) => panic!("{r:?}"),
        }
    };
    assert_eq!(message, "all models failed:\na: no a\nb: no b");
    match Cascade::start(Vec::new()) {
        CascadeStep::GiveUp(message) => assert_eq!(message, "all models failed:\n"),
        other => panic!("{other:?}"),
    }
}

#[test]
fn answer_is_a_completion_or_says_what_went_wrong() {
    let response = || -> CompletionResponse {
        CompletionResponse {
            choices: vec![choice(Some("one"), None)],
            usage: None,
        }
    };
    assert_eq!(read_answer(200, "", Ok(response()), "a/b").unwrap().content, "one");
    assert_eq!(read_answer(299, "", Ok(response()), "a/b").unwrap().model_used, "a/b");
    assert_eq!(
        read_answer(503, "down", Ok(response()), "a/b").unwrap_err(),
        "openrouter 503: down"
    );
    assert_eq!(
        read_answer(503, "down", Err(String::new()), "a/b").unwrap_err(),
        "openrouter 503: down"
    );
    assert_eq!(
        read_answer(200, "", Err("expected value".to_string()), "a/b").unwrap_err(),
        "parse OpenRouter response: expected value"
    );
}

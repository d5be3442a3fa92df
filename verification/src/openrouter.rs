//! What is asked of the model provider and what is made of its answers.
use vstd::prelude::*;
use vstd::string::*;

use crate::chars;
use crate::chars::{decimal_text, head_of, joined, without_end_slashes};
use crate::github;
use crate::github::is_success;
use crate::review;
use crate::review::TokenUsage;

verus! {

// ---------------------------------------------------------------------------
// Asking
// ---------------------------------------------------------------------------

/// Where the provider's interface is.
#[derive(Debug, Clone)]
pub struct OpenRouterApi {
    pub base_url: String,
}

impl OpenRouterApi {
    /// The interface at `base_url`; slashes at its end do not count.
    pub fn new(base_url: String) -> (r: Self)
        ensures
            r.base_url@ == chars::trim_end_slashes(base_url@),
    {
        OpenRouterApi { base_url: without_end_slashes(base_url.as_str()).to_owned() }
    }

    /// The address that completions are asked for at.
    pub fn completions_url(&self) -> (r: String)
        ensures
            r@ == self.base_url@ + "/chat/completions"@,
    {
        let mut r: String = self.base_url.clone();
        r.append("/chat/completions");
        r
    }
}

/// A message of a conversation.
#[derive(Debug, Clone)]
pub struct Message {
    pub role: &'static str,
    pub content: String,
}

/// The form that an answer has to have.
#[derive(Debug, Clone)]
pub struct ResponseFormat {
    pub kind: &'static str,
}

/// What a model is asked, but for the temperature, which is a fraction.
#[derive(Debug, Clone)]
pub struct CompletionRequest {
    pub model: String,
    pub messages: Vec<Message>,
    pub max_tokens: u32,
    pub response_format: ResponseFormat,
}

/// The contents of a [`CompletionRequest`]: its messages by role and content, and its form by
/// name.
pub struct CompletionRequestView {
    pub model: Seq<char>,
    pub messages: Seq<(Seq<char>, Seq<char>)>,
    pub max_tokens: u32,
    pub form: Seq<char>,
}

impl View for CompletionRequest {
    type V = CompletionRequestView;

    open spec fn view(&self) -> CompletionRequestView {
        CompletionRequestView {
            model: self.model@,
            messages: self.messages@.map_values(|m: Message| (m.role@, m.content@)),
            max_tokens: self.max_tokens,
            form: self.response_format.kind@,
        }
    }
}

/// The request for one JSON object.
pub open spec fn request_of(
    model: Seq<char>,
    system_prompt: Seq<char>,
    user_content: Seq<char>,
) -> CompletionRequestView {
    CompletionRequestView {
        model,
        messages: seq![("system"@, system_prompt), ("user"@, user_content)],
        max_tokens: 2500,
        form: "json_object"@,
    }
}

impl CompletionRequest {
    /// Asks `model` for one JSON object: the instructions first, then what to look at.
    pub fn new(model: &str, system_prompt: &str, user_content: &str) -> (r: Self)
        ensures
            r.model@ == model@,
            r.messages@.len() == 2,
            r.messages@[0].role@ == "system"@,
            r.messages@[0].content@ == system_prompt@,
            r.messages@[1].role@ == "user"@,
            r.messages@[1].content@ == user_content@,
            r.max_tokens == 2500,
            r.response_format.kind@ == "json_object"@,
            r@ == request_of(model@, system_prompt@, user_content@),
    {
        let r = CompletionRequest {
            model: model.to_owned(),
            messages: vec![
                Message { role: "system", content: system_prompt.to_owned() },
                Message { role: "user", content: user_content.to_owned() },
            ],
            max_tokens: 2500,
            response_format: ResponseFormat { kind: "json_object" },
        };
        assert(r@.messages =~= request_of(model@, system_prompt@, user_content@).messages);
        r
    }
}

// ---------------------------------------------------------------------------
// Answers
// ---------------------------------------------------------------------------

/// What the provider answers.
#[derive(Debug, Clone)]
pub struct CompletionResponse {
    pub choices: Vec<Choice>,
    pub usage: Option<Usage>,
}

/// One of the answers that a model gives.
#[derive(Debug, Clone)]
pub struct Choice {
    pub message: MessageResponse,
    pub finish_reason: Option<String>,
}

/// The text of an answer.
#[derive(Debug, Clone)]
pub struct MessageResponse {
    pub content: Option<String>,
}

/// The tokens that an answer took, as far as they are told.
#[derive(Debug, Clone, Copy)]
pub struct Usage {
    pub prompt_tokens: Option<u64>,
    pub completion_tokens: Option<u64>,
    pub total_tokens: Option<u64>,
}

/// A completion.
#[derive(Debug, Clone)]
pub struct OpenRouterResult {
    pub content: String,
    pub usage: TokenUsage,
    pub model_used: String,
    pub finish_reason: Option<String>,
}

/// The contents of an [`OpenRouterResult`].
pub struct OpenRouterResultView {
    pub content: Seq<char>,
    pub usage: TokenUsage,
    pub model_used: Seq<char>,
    pub finish_reason: Option<Seq<char>>,
}

impl View for OpenRouterResult {
    type V = OpenRouterResultView;

    open spec fn view(&self) -> OpenRouterResultView {
        OpenRouterResultView {
            content: self.content@,
            usage: self.usage,
            model_used: self.model_used@,
            finish_reason: chars::opt_text(self.finish_reason),
        }
    }
}

/// A number that is told, or zero.
pub open spec fn or_zero(n: Option<u64>) -> u64 {
    match n {
        Some(n) => n,
        None => 0,
    }
}

/// The tokens that a completion took; what is not told counts as zero.
pub open spec fn usage_of(usage: Option<Usage>) -> TokenUsage {
    match usage {
        Some(u) => TokenUsage {
            prompt_tokens: or_zero(u.prompt_tokens),
            completion_tokens: or_zero(u.completion_tokens),
            total_tokens: or_zero(u.total_tokens),
        },
        None => review::no_usage(),
    }
}

/// The completion in an answer: its first choice, or an empty text where there is none.
pub open spec fn completion_of(response: CompletionResponse, model: Seq<char>) ->
    OpenRouterResultView {
    OpenRouterResultView {
        content: if response.choices@.len() > 0 {
            match response.choices@[0].message.content {
                Some(content) => content@,
                None => Seq::empty(),
            }
        } else {
            Seq::empty()
        },
        usage: usage_of(response.usage),
        model_used: model,
        finish_reason: if response.choices@.len() > 0 {
            chars::opt_text(response.choices@[0].finish_reason)
        } else {
            None
        },
    }
}

fn number(n: Option<u64>) -> (r: u64)
    ensures
        r == or_zero(n),
{
    match n {
        Some(n) => n,
        None => 0,
    }
}

fn copy_opt(value: &Option<String>) -> (r: Option<String>)
    ensures
        r == *value,
{
    match value {
        Some(s) => Some(s.clone()),
        None => None,
    }
}

/// The completion in an answer of `model`.
pub fn read_completion(response: &CompletionResponse, model: &str) -> (r: OpenRouterResult)
    ensures
        r@ == completion_of(*response, model@),
{
    let usage: TokenUsage = match &response.usage {
        Some(u) => TokenUsage {
            prompt_tokens: number(u.prompt_tokens),
            completion_tokens: number(u.completion_tokens),
            total_tokens: number(u.total_tokens),
        },
        None => TokenUsage::default(),
    };
    let mut content: String = String::new();
    let mut finish_reason: Option<String> = None;
    if response.choices.len() > 0 {
        if let Some(text) = &response.choices[0].message.content {
            content = text.clone();
        }
        finish_reason = copy_opt(&response.choices[0].finish_reason);
    }
    OpenRouterResult { content, usage, model_used: model.to_owned(), finish_reason }
}

/// What is said when the provider answers with an error: no more than the first 400 characters
/// of it.
pub open spec fn refusal_of(status: u16, body: Seq<char>) -> Seq<char> {
    "openrouter "@ + chars::decimal(status as nat) + ": "@ + chars::first_chars(body, 400)
}

/// What is said when the provider answers with an error.
pub fn provider_refusal(status: u16, body: &str) -> (r: String)
    ensures
        r@ == refusal_of(status, body@),
{
    let mut r: String = "openrouter ".to_owned();
    r.append(decimal_text(status as u64).as_str());
    r.append(": ");
    r.append(head_of(body, 400));
    r
}

/// What came of asking a model.
pub open spec fn answer_of(
    status: u16,
    body: Seq<char>,
    parsed: Result<CompletionResponse, String>,
    model: Seq<char>,
) -> Result<OpenRouterResultView, Seq<char>> {
    if !github::success(status) {
        Err(refusal_of(status, body))
    } else {
        match parsed {
            Ok(response) => Ok(completion_of(response, model)),
            Err(cause) => Err("parse OpenRouter response: "@ + cause@),
        }
    }
}

/// What came of asking `model`: the completion where the status tells of success and the answer
/// can be read, and otherwise what went wrong. `body` is the answer's text, and `parsed` is what it
/// says, or why it says nothing.
pub fn read_answer(
    status: u16,
    body: &str,
    parsed: Result<CompletionResponse, String>,
    model: &str,
) -> (r: Result<OpenRouterResult, String>)
    ensures
        !github::success(status) ==> r is Err && r->Err_0@ == refusal_of(status, body@),
        github::success(status) ==> (match parsed {
            Ok(response) => r is Ok && r->Ok_0@ == completion_of(response, model@),
            Err(cause) => r is Err && r->Err_0@ == "parse OpenRouter response: "@ + cause@,
        }),
        match answer_of(status, body@, parsed, model@) {
            Ok(result) => r is Ok && r->Ok_0@ == result,
            Err(message) => r is Err && r->Err_0@ == message,
        },
{
    if !is_success(status) {
        return Err(provider_refusal(status, body));
    }
    match parsed {
        Ok(response) => Ok(read_completion(&response, model)),
        Err(cause) => {
            let mut message: String = "parse OpenRouter response: ".to_owned();
            message.append(cause.as_str());
            Err(message)
        },
    }
}

// ---------------------------------------------------------------------------
// One model after the other
// ---------------------------------------------------------------------------

/// Models that are asked one after the other until one answers, and what came of those that were
/// asked. There is always one left to ask.
#[derive(Debug)]
pub struct Cascade {
    models: Vec<String>,
    failures: Vec<String>,
}

impl Cascade {
    #[verifier::type_invariant]
    closed spec fn well_formed(self) -> bool {
        self.failures@.len() < self.models@.len()
    }
}

/// The contents of a [`Cascade`].
#[verifier::ext_equal]
pub struct CascadeView {
    pub models: Seq<Seq<char>>,
    pub failures: Seq<Seq<char>>,
}

impl View for Cascade {
    type V = CascadeView;

    closed spec fn view(&self) -> CascadeView {
        CascadeView { models: chars::texts(self.models@), failures: chars::texts(self.failures@) }
    }
}

impl CascadeView {
    /// There is a model left to ask.
    pub open spec fn open(self) -> bool {
        self.failures.len() < self.models.len()
    }

    /// The model to ask next.
    pub open spec fn model(self) -> Seq<char> {
        self.models[self.failures.len() as int]
    }
}

/// What to do next.
#[derive(Debug)]
pub enum CascadeStep {
    /// Ask the cascade's next model.
    Ask(Cascade),
    /// This is the answer.
    Answer(OpenRouterResult),
    /// No model has answered.
    GiveUp(String),
}

/// The contents of a [`CascadeStep`].
pub enum CascadeStepView {
    Ask(CascadeView),
    Answer(OpenRouterResultView),
    GiveUp(Seq<char>),
}

impl View for CascadeStep {
    type V = CascadeStepView;

    open spec fn view(&self) -> CascadeStepView {
        match self {
            CascadeStep::Ask(c) => CascadeStepView::Ask(c@),
            CascadeStep::Answer(r) => CascadeStepView::Answer(r@),
            CascadeStep::GiveUp(m) => CascadeStepView::GiveUp(m@),
        }
    }
}

/// What is said when no model has answered.
pub open spec fn all_failed(failures: Seq<Seq<char>>) -> Seq<char> {
    "all models failed:\n"@ + chars::join(failures, "\n"@)
}

/// What to do with a cascade: ask its next model, or give up where there is none.
pub open spec fn cascade_step(c: CascadeView) -> CascadeStepView {
    if c.open() {
        CascadeStepView::Ask(c)
    } else {
        CascadeStepView::GiveUp(all_failed(c.failures))
    }
}

/// A cascade after its next model has failed.
pub open spec fn after_failure(c: CascadeView, cause: Seq<char>) -> CascadeView {
    CascadeView { failures: c.failures.push(c.model() + ": "@ + cause), ..c }
}

/// What a model did when it was asked.
pub open spec fn after_asking(
    c: CascadeView,
    outcome: Result<OpenRouterResultView, Seq<char>>,
) -> CascadeStepView {
    match outcome {
        Ok(result) => CascadeStepView::Answer(result),
        Err(cause) => cascade_step(after_failure(c, cause)),
    }
}

/// Asks the next of `models`, of which as many have failed as there are `failures`, or gives up.
fn next_step(models: Vec<String>, failures: Vec<String>) -> (r: CascadeStep)
    ensures
        r@ == cascade_step(
            CascadeView { models: chars::texts(models@), failures: chars::texts(failures@) },
        ),
{
    if failures.len() < models.len() {
        CascadeStep::Ask(Cascade { models, failures })
    } else {
        let mut message: String = "all models failed:\n".to_owned();
        message.append(joined(&failures, "\n").as_str());
        CascadeStep::GiveUp(message)
    }
}

impl Cascade {
    /// Starts with the first of `models`.
    pub fn start(models: Vec<String>) -> (r: CascadeStep)
        ensures
            r@ == cascade_step(
                CascadeView { models: chars::texts(models@), failures: Seq::empty() },
            ),
    {
        let failures: Vec<String> = Vec::new();
        assert(chars::texts(failures@) =~= Seq::empty());
        next_step(models, failures)
    }

    /// The model to ask next.
    pub fn model(&self) -> (r: &str)
        ensures
            self@.open(),
            r@ == self@.model(),
    {
        proof {
            use_type_invariant(self);
        }
        self.models[self.failures.len()].as_str()
    }

    /// Goes on with what the next model did when it was asked.
    pub fn asked(self, outcome: Result<OpenRouterResult, String>) -> (r: CascadeStep)
        ensures
            self@.open(),
            r@ == after_asking(
                self@,
                match outcome {
                    Ok(result) => Ok(result@),
                    Err(cause) => Err(cause@),
                },
            ),
    {
        proof {
            use_type_invariant(&self);
        }
        match outcome {
            Ok(result) => CascadeStep::Answer(result),
            Err(cause) => {
                let mut failure: String = self.model().to_owned();
                failure.append(": ");
                failure.append(cause.as_str());
                let Cascade { models, failures } = self;
                let mut failures: Vec<String> = failures;
                failures.push(failure);
                assert(chars::texts(failures@) =~= self@.failures.push(failure@));
                next_step(models, failures)
            },
        }
    }
}

/// Where a cascade ends, when the models do as `outcomes` tells.
pub open spec fn cascade_end(
    c: CascadeView,
    outcomes: Seq<Result<OpenRouterResultView, Seq<char>>>,
) -> CascadeStepView
    decreases c.models.len() - c.failures.len(),
{
    if !c.open() {
        cascade_step(c)
    } else {
        match outcomes[c.failures.len() as int] {
            Ok(result) => CascadeStepView::Answer(result),
            Err(cause) => cascade_end(after_failure(c, cause), outcomes),
        }
    }
}

/// The answer of a cascade is that of the first model, in order, that gives one; the models after
/// it are not asked. Where none gives one, every model is named with its failure, in order.
pub proof fn law_cascade_takes_the_first_answer(
    c: CascadeView,
    outcomes: Seq<Result<OpenRouterResultView, Seq<char>>>,
)
    requires
        c.failures.len() <= c.models.len() == outcomes.len(),
        forall|i: int|
            0 <= i < c.failures.len() ==> (#[trigger] outcomes[i]) is Err && c.failures[i]
                == c.models[i] + ": "@ + outcomes[i]->Err_0,
    ensures
        ({
            ||| exists|k: int|
                c.failures.len() <= k < outcomes.len() && (#[trigger] outcomes[k]) is Ok && (forall|
                    i: int,
                |
                    0 <= i < k ==> (#[trigger] outcomes[i]) is Err) && cascade_end(c, outcomes)
                    == CascadeStepView::Answer(outcomes[k]->Ok_0)
            ||| (forall|i: int| 0 <= i < outcomes.len() ==> (#[trigger] outcomes[i]) is Err)
                && cascade_end(c, outcomes) == CascadeStepView::GiveUp(
                all_failed(
                    Seq::new(
                        c.models.len(),
                        |i: int| c.models[i] + ": "@ + outcomes[i]->Err_0,
                    ),
                ),
            )
        }),
    decreases c.models.len() - c.failures.len(),
{
    let n = c.failures.len() as int;
    if !c.open() {
        assert(c.failures =~= Seq::new(
            c.models.len(),
            |i: int| c.models[i] + ": "@ + outcomes[i]->Err_0,
        ));
    } else {
        match outcomes[n] {
            Ok(result) => {
                assert(outcomes[n] is Ok);
            },
            Err(cause) => {
                law_cascade_takes_the_first_answer(after_failure(c, cause), outcomes);
            },
        }
    }
}

/// A completion is the text and the reason of the first choice, the tokens that were told and the
/// model that was asked; what is missing counts as empty or zero.
pub proof fn law_completion_is_the_first_choice(response: CompletionResponse, model: Seq<char>)
    ensures
        ({
            let r = completion_of(response, model);
            let n = response.choices@.len();
            &&& r.model_used == model
            &&& n > 0 && response.choices@[0].message.content is Some ==> r.content
                == response.choices@[0].message.content->0@
            &&& n == 0 || response.choices@[0].message.content is None ==> r.content.len() == 0
            &&& n > 0 && response.choices@[0].finish_reason is Some ==> r.finish_reason == Some(
                response.choices@[0].finish_reason->0@,
            )
            &&& n == 0 || response.choices@[0].finish_reason is None ==> r.finish_reason is None
            &&& response.usage is None ==> r.usage.prompt_tokens == 0 && r.usage.completion_tokens
                == 0 && r.usage.total_tokens == 0
            &&& response.usage matches Some(u) ==> {
                &&& r.usage.prompt_tokens == u.prompt_tokens.unwrap_or(0)
                &&& r.usage.completion_tokens == u.completion_tokens.unwrap_or(0)
                &&& r.usage.total_tokens == u.total_tokens.unwrap_or(0)
            }
        }),
{
}

/// What is said of an error begins with the status and ends with the answer, or with its first
/// characters where it is long.
pub proof fn law_provider_refusals_tell_the_answer(status: u16, body: Seq<char>)
    ensures
        ({
            let head = "openrouter "@ + chars::decimal(status as nat) + ": "@;
            let all = refusal_of(status, body);
            &&& head.is_prefix_of(all)
            &&& body.len() <= 400 ==> all == head + body
            &&& body.len() > 400 ==> all == head + body.take(400)
        }),
{
    let head = "openrouter "@ + chars::decimal(status as nat) + ": "@;
    let all = refusal_of(status, body);
    assert(head =~= all.subrange(0, head.len() as int));
}

/// A model that answers ends the cascade with its answer. One that fails is named with its
/// failure, and the next one is asked; after the last one every failure is told.
pub proof fn law_cascade_goes_on_or_ends(
    c: CascadeView,
    result: OpenRouterResultView,
    cause: Seq<char>,
)
    requires
        c.failures.len() < c.models.len(),
    ensures
        after_asking(c, Ok(result)) == CascadeStepView::Answer(result),
        c.model() == c.models[c.failures.len() as int],
        ({
            let failed = c.failures.push(c.models[c.failures.len() as int] + ": "@ + cause);
            let next = after_asking(c, Err(cause));
            &&& c.failures.len() + 1 < c.models.len() ==> next == CascadeStepView::Ask(
                CascadeView { models: c.models, failures: failed },
            )
            &&& c.failures.len() + 1 == c.models.len() ==> next == CascadeStepView::GiveUp(
                all_failed(failed),
            )
        }),
        c.failures.len() == 0 ==> cascade_step(c) == CascadeStepView::Ask(c),
{
}

/// Where all models fail, the text that says so names every failure on a line of its own, in
/// order.
pub proof fn law_every_failure_is_told(failures: Seq<Seq<char>>, failure: Seq<char>)
    ensures
        all_failed(seq![failure]) == "all models failed:\n"@ + failure,
        failures.len() > 0 ==> all_failed(failures.push(failure)) == all_failed(failures) + "\n"@
            + failure,
{
    chars::law_join_grows(Seq::empty(), failure, "\n"@);
    assert(Seq::<Seq<char>>::empty().push(failure) =~= seq![failure]);
    chars::law_join_grows(failures, failure, "\n"@);
    if failures.len() > 0 {
        assert(all_failed(failures.push(failure)) =~= all_failed(failures) + "\n"@ + failure);
    }
}

/// A cascade asks its models in order until one answers.
pub proof fn law_cascade_runs_step_by_step(
    c: CascadeView,
    outcomes: Seq<Result<OpenRouterResultView, Seq<char>>>,
)
    requires
        c.failures.len() < c.models.len(),
    ensures
        cascade_end(c, outcomes) == (match after_asking(c, outcomes[c.failures.len() as int]) {
            CascadeStepView::Ask(next) => cascade_end(next, outcomes),
            end => end,
        }),
{
    reveal_with_fuel(cascade_end, 2);
}

/// A model is asked with the instructions first and what to look at behind them, both in full, and
/// for one JSON object.
pub proof fn law_request_holds_both_messages(
    model: Seq<char>,
    system_prompt: Seq<char>,
    user_content: Seq<char>,
)
    ensures
        ({
            let r = request_of(model, system_prompt, user_content);
            &&& r.model == model
            &&& r.messages.len() == 2
            &&& r.messages[0].0 == "system"@ && r.messages[0].1 == system_prompt
            &&& r.messages[1].0 == "user"@ && r.messages[1].1 == user_content
            &&& r.form == "json_object"@
            &&& r.max_tokens == 2500
        }),
{
}

/// An answer counts exactly where its status tells of success and it can be read; otherwise it is
/// told what went wrong.
pub proof fn law_answer_counts_where_it_can_be_read(
    status: u16,
    body: Seq<char>,
    response: CompletionResponse,
    cause: String,
    model: Seq<char>,
)
    ensures
        status / 100 == 2 ==> answer_of(status, body, Ok(response), model) is Ok && answer_of(
            status,
            body,
            Ok(response),
            model,
        )->Ok_0 == completion_of(response, model),
        status / 100 == 2 ==> answer_of(status, body, Err(cause), model) is Err
            && cause@.is_suffix_of(answer_of(status, body, Err(cause), model)->Err_0)
            && "parse OpenRouter response: "@.is_prefix_of(
            answer_of(status, body, Err(cause), model)->Err_0,
        ),
        status / 100 != 2 ==> answer_of(status, body, Ok(response), model) is Err && answer_of(
            status,
            body,
            Ok(response),
            model,
        )->Err_0 == refusal_of(status, body) && answer_of(status, body, Err(cause), model)
            == answer_of(status, body, Ok(response), model),
{
    let head = "parse OpenRouter response: "@;
    let all = head + cause@;
    assert(head =~= all.subrange(0, head.len() as int));
    assert(cause@ =~= all.subrange(all.len() - cause@.len(), all.len() as int));
}

} // verus!

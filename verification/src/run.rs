//! One run: from a diff to a review, and from the review to what is written, posted and printed.
use vstd::prelude::*;
use vstd::string::*;

use crate::chars;
use crate::chars::{decimal_text, is_blank};
use crate::config;
use crate::config::{
    OnClean, RepoReviewConfig, RepoReviewConfigView, ReviewTarget, ReviewTargetView, Severity,
};
use crate::github;
use crate::github::{
    check_conclusion, inline_review_request, CheckOutput, CheckOutputView, PullReviewRequest,
    PullReviewRequestView,
};
use crate::ignore;
use crate::ignore::IgnoreError;
use crate::local;
use crate::local::render_local_findings;
use crate::openrouter::{OpenRouterResult, OpenRouterResultView};
use crate::review;
use crate::review::{
    apply_config, is_model_output_error, parse_envelope, review_body, system_prompt, Finding,
    FindingView, ReviewEnvelope, ReviewEnvelopeView, TokenUsage,
};
use crate::text;
use crate::text::limit_text;

verus! {

// ---------------------------------------------------------------------------
// What is reviewed
// ---------------------------------------------------------------------------

/// What a run reviews.
#[derive(Debug, Clone)]
pub enum ReviewSource {
    /// A pull request.
    Remote(ReviewTarget),
    /// A diff at hand, known by its label.
    Local(String),
}

/// The contents of a [`ReviewSource`].
pub enum ReviewSourceView {
    Remote(ReviewTargetView),
    Local(Seq<char>),
}

impl View for ReviewSource {
    type V = ReviewSourceView;

    open spec fn view(&self) -> ReviewSourceView {
        match self {
            ReviewSource::Remote(target) => ReviewSourceView::Remote(target@),
            ReviewSource::Local(label) => ReviewSourceView::Local(label@),
        }
    }
}

/// How the model is told where a diff comes from.
pub open spec fn label_of(source: ReviewSourceView) -> Seq<char> {
    match source {
        ReviewSourceView::Remote(_) => "github pull request"@,
        ReviewSourceView::Local(label) => label,
    }
}

/// How a user is told what was reviewed.
pub open spec fn subject_of(source: ReviewSourceView) -> Seq<char> {
    match source {
        ReviewSourceView::Remote(target) => target.owner + "/"@ + target.repo + "#"@
            + chars::decimal(target.pull_number as nat),
        ReviewSourceView::Local(label) => "local diff ("@ + label + ")"@,
    }
}

impl ReviewSource {
    /// How the model is told where the diff comes from.
    pub fn label(&self) -> (r: &str)
        ensures
            r@ == label_of(self@),
    {
        match self {
            ReviewSource::Remote(_) => "github pull request",
            ReviewSource::Local(label) => label.as_str(),
        }
    }

    /// How a user is told what was reviewed.
    pub fn subject(&self) -> (r: String)
        ensures
            r@ == subject_of(self@),
    {
        match self {
            ReviewSource::Remote(target) => {
                let mut r: String = target.owner.clone();
                r.append("/");
                r.append(target.repo.as_str());
                r.append("#");
                r.append(decimal_text(target.pull_number).as_str());
                r
            },
            ReviewSource::Local(label) => {
                let mut r: String = "local diff (".to_owned();
                r.append(label.as_str());
                r.append(")");
                r
            },
        }
    }
}

/// What the model is asked to review.
pub open spec fn user_content(label: Seq<char>, diff: Seq<char>) -> Seq<char> {
    "Review source: "@ + label + "\n\nUnified diff:\n\n"@ + diff
}

/// What the model is asked to review.
pub fn review_user_content(source_label: &str, diff: &str) -> (r: String)
    ensures
        r@ == user_content(source_label@, diff@),
{
    let mut r: String = "Review source: ".to_owned();
    r.append(source_label);
    r.append("\n\nUnified diff:\n\n");
    r.append(diff);
    r
}

/// The number of bytes of an invalid output that the model is shown again.
pub const EXCERPT_LIMIT: usize = 4_000;

/// What the model is asked after output that is no review.
pub open spec fn repair_content(
    label: Seq<char>,
    diff: Seq<char>,
    previous: Seq<char>,
) -> Seq<char> {
    "The previous response was not valid Postil JSON or was truncated. Return ONLY one compact valid JSON object matching the schema from the system prompt. Do not include markdown, reasoning, or prose.\n\nReview source: "@
        + label + "\n\nPrevious invalid output excerpt:\n"@ + text::limited(
        previous,
        EXCERPT_LIMIT as int,
    ) + "\n\nUnified diff:\n\n"@ + diff
}

/// What the model is asked after output that is no review.
pub fn json_repair_user_content(source_label: &str, diff: &str, previous_output: &str) -> (r:
    String)
    ensures
        r@ == repair_content(source_label@, diff@, previous_output@),
{
    let previous: String = limit_text(previous_output.to_owned(), EXCERPT_LIMIT);
    let mut r: String =
        "The previous response was not valid Postil JSON or was truncated. Return ONLY one compact valid JSON object matching the schema from the system prompt. Do not include markdown, reasoning, or prose.\n\nReview source: ".to_owned();
    r.append(source_label);
    r.append("\n\nPrevious invalid output excerpt:\n");
    r.append(previous.as_str());
    r.append("\n\nUnified diff:\n\n");
    r.append(diff);
    r
}

// ---------------------------------------------------------------------------
// How a run ends
// ---------------------------------------------------------------------------

/// Something that is done at the end of a run.
#[derive(Debug)]
pub enum Step {
    /// Write the review to the file that was asked for.
    WriteEnvelope,
    /// Complete the check run.
    CompleteCheck { conclusion: &'static str, output: CheckOutput },
    /// Post the review. [`after_posting`] tells what comes of `fallback`.
    PostReview { request: PullReviewRequest, fallback: String },
    /// Print a line.
    Print(String),
}

/// The contents of a [`Step`].
pub enum StepView {
    WriteEnvelope,
    CompleteCheck { conclusion: Seq<char>, output: CheckOutputView },
    PostReview { request: PullReviewRequestView, fallback: Seq<char> },
    Print(Seq<char>),
}

impl View for Step {
    type V = StepView;

    open spec fn view(&self) -> StepView {
        match self {
            Step::WriteEnvelope => StepView::WriteEnvelope,
            Step::CompleteCheck { conclusion, output } => StepView::CompleteCheck {
                conclusion: conclusion@,
                output: output@,
            },
            Step::PostReview { request, fallback } => StepView::PostReview {
                request: request@,
                fallback: fallback@,
            },
            Step::Print(line) => StepView::Print(line@),
        }
    }
}

/// The end of a run: the review, what is done with it in order, and the code that the program
/// exits with.
#[derive(Debug)]
pub struct Closing {
    pub envelope: ReviewEnvelope,
    pub steps: Vec<Step>,
    pub exit_code: u8,
}

/// The contents of a [`Closing`].
#[verifier::ext_equal]
pub struct ClosingView {
    pub envelope: ReviewEnvelopeView,
    pub steps: Seq<StepView>,
    pub exit_code: u8,
}

impl View for Closing {
    type V = ClosingView;

    open spec fn view(&self) -> ClosingView {
        ClosingView {
            envelope: self.envelope@,
            steps: step_views(self.steps@),
            exit_code: self.exit_code,
        }
    }
}

/// The contents of a list of steps.
pub open spec fn step_views(steps: Seq<Step>) -> Seq<StepView> {
    steps.map_values(|s: Step| s@)
}

/// A step that is taken under a condition.
pub open spec fn when(condition: bool, step: StepView) -> Seq<StepView> {
    if condition {
        seq![step]
    } else {
        Seq::empty()
    }
}

/// A review that no model made, with nothing but a summary.
pub open spec fn bare_review(summary: Seq<char>) -> ReviewEnvelopeView {
    ReviewEnvelopeView {
        summary,
        findings: Seq::empty(),
        usage: review::no_usage(),
        model_used: "none"@,
    }
}

/// The end of a run on an empty diff.
pub open spec fn empty_closing(source: ReviewSourceView, wants_json: bool) -> ClosingView {
    ClosingView {
        envelope: bare_review("Nothing to review."@),
        steps: when(wants_json, StepView::WriteEnvelope) + when(
            source is Remote,
            StepView::CompleteCheck {
                conclusion: "neutral"@,
                output: github::empty_output(),
            },
        ) + seq![StepView::Print("[postil] empty diff - nothing to review"@)],
        exit_code: 0,
    }
}

/// What is said of a repository that has switched reviews off.
pub const DISABLED: &'static str = "Postil is disabled for this repo via config.";

/// The end of a run on a repository that has switched reviews off.
pub open spec fn disabled_closing(source: ReviewSourceView, wants_json: bool) -> ClosingView {
    ClosingView {
        envelope: bare_review(DISABLED@),
        steps: when(
            source is Remote,
            StepView::CompleteCheck {
                conclusion: "neutral"@,
                output: CheckOutputView {
                    title: "Postil Review"@,
                    summary: DISABLED@,
                    text: None,
                },
            },
        ) + when(wants_json, StepView::WriteEnvelope) + seq![
            StepView::Print(
                "[postil] "@ + subject_of(source) + " -> neutral (disabled by config)"@,
            ),
        ],
        exit_code: 0,
    }
}

/// Whether a review is posted: where posting is on, unless the review is clean and clean ones are
/// passed over.
pub open spec fn posts(findings: Seq<FindingView>, cfg: RepoReviewConfigView) -> bool {
    cfg.review.enabled && !(findings.len() == 0 && cfg.review.on_clean == OnClean::Skip)
}

/// What a review is called in its status line.
pub open spec fn verdict(findings: Seq<FindingView>) -> Seq<char> {
    if findings.len() == 0 {
        "clean"@
    } else {
        "needs-attention"@
    }
}

/// A finding that makes the run fail.
pub open spec fn fails(findings: Seq<FindingView>, fail_on: Severity) -> bool {
    exists|i: int|
        0 <= i < findings.len() && config::severity_rank((#[trigger] findings[i]).severity)
            >= config::severity_rank(fail_on)
}

/// What is posted with a review, whose findings are all comments.
pub open spec fn posted_body(envelope: ReviewEnvelopeView) -> Seq<char> {
    review::body_text(envelope, envelope.findings.len(), verdict(envelope.findings))
}

/// The line that a run prints about its review.
pub open spec fn closing_line(source: ReviewSourceView, envelope: ReviewEnvelopeView) -> Seq<
    char,
> {
    "[postil] "@ + subject_of(source) + " -> "@ + github::conclusion(envelope.findings) + " ("@
        + chars::decimal(envelope.findings.len()) + " findings, model: "@ + envelope.model_used
        + ")"@
}

/// The end of a run that has made a review: the review is written where that was asked for, then
/// posted where it is posted, then the check run is completed, and then it is told what was
/// found.
pub open spec fn review_closing(
    envelope: ReviewEnvelopeView,
    cfg: RepoReviewConfigView,
    settings: RunSettings,
    source: ReviewSourceView,
) -> ClosingView {
    ClosingView {
        envelope,
        steps: when(settings.wants_json, StepView::WriteEnvelope) + (match source {
            ReviewSourceView::Remote(target) => when(
                posts(envelope.findings, cfg) && !settings.no_inline,
                StepView::PostReview {
                    request: github::review_request(
                        target,
                        envelope.findings,
                        posted_body(envelope),
                    ),
                    fallback: posted_body(envelope),
                },
            ) + seq![
                StepView::CompleteCheck {
                    conclusion: github::conclusion(envelope.findings),
                    output: github::output_of(envelope),
                },
                StepView::Print(closing_line(source, envelope)),
            ],
            ReviewSourceView::Local(_) => seq![StepView::Print(closing_line(source, envelope))]
                + when(
                envelope.findings.len() > 0,
                StepView::Print(local::local_lines(envelope.findings)),
            ),
        }),
        exit_code: if fails(envelope.findings, settings.fail_on) {
            1
        } else {
            0
        },
    }
}

/// What a run is told about its end.
#[derive(Debug, Clone, Copy)]
pub struct RunSettings {
    /// The severity from which on a finding makes the run fail.
    pub fail_on: Severity,
    /// Whether the review is kept from being posted.
    pub no_inline: bool,
    /// Whether the review is written to a file.
    pub wants_json: bool,
}

fn bare_envelope(summary: &str) -> (r: ReviewEnvelope)
    ensures
        r@ == bare_review(summary@),
{
    let r = ReviewEnvelope {
        summary: summary.to_owned(),
        findings: Vec::new(),
        usage: TokenUsage::default(),
        model_used: "none".to_owned(),
    };
    assert(r@ =~= bare_review(summary@));
    r
}

/// The end of a run on an empty diff.
pub fn close_empty(source: &ReviewSource, wants_json: bool) -> (r: Closing)
    ensures
        r@ == empty_closing(source@, wants_json),
{
    let mut steps: Vec<Step> = Vec::new();
    if wants_json {
        steps.push(Step::WriteEnvelope);
    }
    if let ReviewSource::Remote(_) = source {
        steps.push(Step::CompleteCheck { conclusion: "neutral", output: CheckOutput::empty() });
    }
    steps.push(Step::Print("[postil] empty diff - nothing to review".to_owned()));
    let r = Closing { envelope: bare_envelope("Nothing to review."), steps, exit_code: 0 };
    assert(r@.steps =~= empty_closing(source@, wants_json).steps);
    r
}

/// The end of a run on a repository that has switched reviews off.
pub fn close_disabled(source: &ReviewSource, wants_json: bool) -> (r: Closing)
    ensures
        r@ == disabled_closing(source@, wants_json),
{
    let mut steps: Vec<Step> = Vec::new();
    if let ReviewSource::Remote(_) = source {
        steps.push(
            Step::CompleteCheck {
                conclusion: "neutral",
                output: CheckOutput {
                    title: "Postil Review".to_owned(),
                    summary: DISABLED.to_owned(),
                    text: None,
                },
            },
        );
    }
    if wants_json {
        steps.push(Step::WriteEnvelope);
    }
    let mut line: String = "[postil] ".to_owned();
    line.append(source.subject().as_str());
    line.append(" -> neutral (disabled by config)");
    steps.push(Step::Print(line));
    let r = Closing { envelope: bare_envelope(DISABLED), steps, exit_code: 0 };
    assert(r@.steps =~= disabled_closing(source@, wants_json).steps);
    r
}

/// Whether a finding makes the run fail.
pub fn run_fails(findings: &Vec<Finding>, fail_on: Severity) -> (r: bool)
    ensures
        r == fails(review::finding_views(findings@), fail_on),
{
    let ghost all = review::finding_views(findings@);
    let mut i: usize = 0;
    while i < findings.len()
        invariant
            i <= findings.len(),
            all == review::finding_views(findings@),
            forall|j: int|
                0 <= j < i ==> config::severity_rank((#[trigger] all[j]).severity)
                    < config::severity_rank(fail_on),
        decreases findings.len() - i,
    {
        assert(all[i as int] == findings@[i as int]@);
        if findings[i].severity.rank() >= fail_on.rank() {
            return true;
        }
        i = i + 1;
    }
    false
}

/// Whether a review is posted.
pub fn should_post(envelope: &ReviewEnvelope, cfg: &RepoReviewConfig) -> (r: bool)
    ensures
        r == posts(envelope@.findings, cfg@),
{
    assert(envelope@.findings.len() == envelope.findings@.len());
    cfg.review.enabled && !(envelope.findings.len() == 0 && cfg.review.on_clean == OnClean::Skip)
}

/// The end of a run that has made a review.
pub fn close_review(
    envelope: ReviewEnvelope,
    cfg: &RepoReviewConfig,
    settings: RunSettings,
    source: &ReviewSource,
) -> (r: Closing)
    ensures
        r@ == review_closing(envelope@, cfg@, settings, source@),
{
    let ghost e = envelope@;
    assert(e.findings.len() == envelope.findings@.len());
    let label: &str = if envelope.findings.len() == 0 {
        "clean"
    } else {
        "needs-attention"
    };
    let body: String = review_body(&envelope, envelope.findings.len(), label);
    let conclusion: &'static str = check_conclusion(&envelope);
    let mut line: String = "[postil] ".to_owned();
    line.append(source.subject().as_str());
    line.append(" -> ");
    line.append(conclusion);
    line.append(" (");
    line.append(decimal_text(envelope.findings.len() as u64).as_str());
    line.append(" findings, model: ");
    line.append(envelope.model_used.as_str());
    line.append(")");
    assert(line@ =~= closing_line(source@, e));
    let mut steps: Vec<Step> = Vec::new();
    if settings.wants_json {
        steps.push(Step::WriteEnvelope);
    }
    match source {
        ReviewSource::Remote(target) => {
            if should_post(&envelope, cfg) && !settings.no_inline {
                let request: PullReviewRequest = inline_review_request(
                    target,
                    &envelope,
                    body.as_str(),
                );
                steps.push(Step::PostReview { request, fallback: body });
            }
            steps.push(
                Step::CompleteCheck { conclusion, output: CheckOutput::from_envelope(&envelope) },
            );
            steps.push(Step::Print(line));
        },
        ReviewSource::Local(_) => {
            steps.push(Step::Print(line));
            if envelope.findings.len() != 0 {
                steps.push(Step::Print(render_local_findings(&envelope)));
            }
        },
    }
    let exit_code: u8 = if run_fails(&envelope.findings, settings.fail_on) {
        1
    } else {
        0
    };
    let r = Closing { envelope, steps, exit_code };
    assert(r@.steps =~= review_closing(e, cfg@, settings, source@).steps);
    r
}

/// What is done when a review could not be posted.
#[derive(Debug)]
pub struct Fallback {
    /// What a user is told.
    pub warning: String,
    /// What is posted as a comment instead.
    pub comment: String,
}

/// The contents of a [`Fallback`].
pub struct FallbackView {
    pub warning: Seq<char>,
    pub comment: Seq<char>,
}

impl View for Fallback {
    type V = FallbackView;

    open spec fn view(&self) -> FallbackView {
        FallbackView { warning: self.warning@, comment: self.comment@ }
    }
}

/// What follows the posting of a review: a warning and a comment, or nothing.
pub open spec fn fallback_of(fallback: Seq<char>, outcome: Result<(), String>) -> Option<
    FallbackView,
> {
    match outcome {
        Ok(()) => None,
        Err(cause) => Some(
            FallbackView {
                warning: "[postil] inline review post failed: "@ + cause@,
                comment: fallback,
            },
        ),
    }
}

/// Decides what follows the posting of a review: nothing where it was taken, and otherwise a
/// warning with the cause and `fallback` as a comment.
pub fn after_posting(fallback: String, outcome: Result<(), String>) -> (r: Option<Fallback>)
    ensures
        outcome is Ok ==> r is None,
        outcome matches Err(cause) ==> r is Some && r->0.comment@ == fallback@ && r->0.warning@
            == "[postil] inline review post failed: "@ + cause@,
        fallback_of(fallback@, outcome) == (match r {
            Some(f) => Some(f@),
            None => None,
        }),
{
    match outcome {
        Ok(()) => None,
        Err(cause) => {
            let mut warning: String = "[postil] inline review post failed: ".to_owned();
            warning.append(cause.as_str());
            Some(Fallback { warning, comment: fallback })
        },
    }
}

// ---------------------------------------------------------------------------
// The course of a run
// ---------------------------------------------------------------------------

/// What comes of a diff.
#[derive(Debug)]
pub enum Opening {
    /// The run is at its end: no model is asked.
    Closed(Closing),
    /// A model is asked.
    Ask { system_prompt: String, user_content: String },
}

/// The contents of an [`Opening`].
pub enum OpeningView {
    Closed(ClosingView),
    Ask { system_prompt: Seq<char>, user_content: Seq<char> },
}

impl View for Opening {
    type V = OpeningView;

    open spec fn view(&self) -> OpeningView {
        match self {
            Opening::Closed(c) => OpeningView::Closed(c@),
            Opening::Ask { system_prompt, user_content } => OpeningView::Ask {
                system_prompt: system_prompt@,
                user_content: user_content@,
            },
        }
    }
}

/// What comes of a diff: nothing where it is blank, nothing where the repository has switched
/// reviews off, and otherwise a question to a model.
pub open spec fn opening(
    diff: Seq<char>,
    cfg: RepoReviewConfigView,
    source: ReviewSourceView,
    wants_json: bool,
) -> OpeningView {
    if chars::blank(diff) {
        OpeningView::Closed(empty_closing(source, wants_json))
    } else if !cfg.enabled {
        OpeningView::Closed(disabled_closing(source, wants_json))
    } else {
        OpeningView::Ask {
            system_prompt: review::prompt_text(cfg),
            user_content: user_content(label_of(source), diff),
        }
    }
}

/// Decides what comes of a diff.
pub fn open_review(
    diff: &str,
    cfg: &RepoReviewConfig,
    source: &ReviewSource,
    wants_json: bool,
) -> (r: Opening)
    ensures
        r@ == opening(diff@, cfg@, source@, wants_json),
{
    if is_blank(diff) {
        Opening::Closed(close_empty(source, wants_json))
    } else if !cfg.enabled {
        Opening::Closed(close_disabled(source, wants_json))
    } else {
        Opening::Ask {
            system_prompt: system_prompt(cfg),
            user_content: review_user_content(source.label(), diff),
        }
    }
}

/// The review that a model's answer gives under a repository's configuration.
pub open spec fn review_of(reply: OpenRouterResultView, cfg: RepoReviewConfigView) ->
    ReviewEnvelopeView {
    review::configured(review::review_text(reply.content, reply.usage, reply.model_used), cfg)
}

/// The review that a model's answer gives under a repository's configuration.
pub fn read_reply(reply: &OpenRouterResult, cfg: &RepoReviewConfig) -> (r: Result<
    ReviewEnvelope,
    IgnoreError,
>)
    ensures
        match r {
            Ok(envelope) => ignore::usable(cfg@.ignore) && envelope@ == review_of(reply@, cfg@),
            Err(e) => ignore::ignore_error(cfg@.ignore, e@),
        },
        cfg@.ignore.len() == 0 ==> r is Ok,
{
    apply_config(
        parse_envelope(reply.content.as_str(), reply.usage, reply.model_used.clone()),
        cfg,
    )
}

/// The second question to a model whose output was no review.
#[derive(Debug)]
pub struct Retry {
    /// What the first question gave.
    pub first: ReviewEnvelope,
    /// What a user is told.
    pub warning: String,
    pub model: String,
    pub user_content: String,
}

/// The contents of a [`Retry`].
pub struct RetryView {
    pub first: ReviewEnvelopeView,
    pub warning: Seq<char>,
    pub model: Seq<char>,
    pub user_content: Seq<char>,
}

impl View for Retry {
    type V = RetryView;

    open spec fn view(&self) -> RetryView {
        RetryView {
            first: self.first@,
            warning: self.warning@,
            model: self.model@,
            user_content: self.user_content@,
        }
    }
}

/// What a user is told before the second question.
pub open spec fn retry_warning(finish_reason: Option<Seq<char>>) -> Seq<char> {
    "[postil] model output was not valid JSON"@ + (match finish_reason {
        Some(reason) => " (finish_reason: "@ + reason + ")"@,
        None => Seq::empty(),
    }) + "; retrying once with a compact JSON repair prompt"@
}

/// The second question, which goes to the model that answered the first.
pub open spec fn retry_of(
    reply: OpenRouterResultView,
    first: ReviewEnvelopeView,
    label: Seq<char>,
    diff: Seq<char>,
) -> RetryView {
    RetryView {
        first,
        warning: retry_warning(reply.finish_reason),
        model: reply.model_used,
        user_content: repair_content(label, diff, reply.content),
    }
}

/// What comes of a model's answer.
#[derive(Debug)]
pub enum Reading {
    /// The answer is a review.
    Accepted(ReviewEnvelope),
    /// The answer is none: the model is asked once more.
    Again(Retry),
}

/// The contents of a [`Reading`].
pub enum ReadingView {
    Accepted(ReviewEnvelopeView),
    Again(RetryView),
}

impl View for Reading {
    type V = ReadingView;

    open spec fn view(&self) -> ReadingView {
        match self {
            Reading::Accepted(e) => ReadingView::Accepted(e@),
            Reading::Again(retry) => ReadingView::Again(retry@),
        }
    }
}

/// What comes of the review that an answer gives: it is accepted, unless it says that the answer
/// was none.
pub open spec fn reading(
    reply: OpenRouterResultView,
    envelope: ReviewEnvelopeView,
    label: Seq<char>,
    diff: Seq<char>,
) -> ReadingView {
    if review::model_output_error(envelope.findings) {
        ReadingView::Again(retry_of(reply, envelope, label, diff))
    } else {
        ReadingView::Accepted(envelope)
    }
}

/// Decides what comes of the review that an answer gives.
pub fn judge_reply(
    reply: &OpenRouterResult,
    envelope: ReviewEnvelope,
    source: &ReviewSource,
    diff: &str,
) -> (r: Reading)
    ensures
        r@ == reading(reply@, envelope@, label_of(source@), diff@),
{
    if is_model_output_error(&envelope) {
        let mut warning: String = "[postil] model output was not valid JSON".to_owned();
        let ghost head = warning@;
        match &reply.finish_reason {
            Some(reason) => {
                warning.append(" (finish_reason: ");
                warning.append(reason.as_str());
                warning.append(")");
                assert(warning@ =~= head + (" (finish_reason: "@ + reason@ + ")"@));
            },
            None => {
                assert(warning@ =~= head + Seq::<char>::empty());
            },
        }
        warning.append("; retrying once with a compact JSON repair prompt");
        Reading::Again(
            Retry {
                first: envelope,
                warning,
                model: reply.model_used.clone(),
                user_content: json_repair_user_content(
                    source.label(),
                    diff,
                    reply.content.as_str(),
                ),
            },
        )
    } else {
        Reading::Accepted(envelope)
    }
}

/// The review that counts after a second question: the second one, unless it is none either.
pub open spec fn settled_review(first: ReviewEnvelopeView, second: ReviewEnvelopeView) ->
    ReviewEnvelopeView {
    if review::model_output_error(second.findings) {
        first
    } else {
        second
    }
}

/// The review that counts after a second question.
pub fn settle_retry(first: ReviewEnvelope, second: ReviewEnvelope) -> (r: ReviewEnvelope)
    ensures
        r@ == settled_review(first@, second@),
{
    if is_model_output_error(&second) {
        first
    } else {
        second
    }
}

/// Takes the answer to the first question.
pub fn take_answer(
    reply: &OpenRouterResult,
    cfg: &RepoReviewConfig,
    source: &ReviewSource,
    diff: &str,
) -> (r: Result<Reading, IgnoreError>)
    ensures
        match r {
            Ok(next) => ignore::usable(cfg@.ignore) && next@ == reading(
                reply@,
                review_of(reply@, cfg@),
                label_of(source@),
                diff@,
            ),
            Err(e) => ignore::ignore_error(cfg@.ignore, e@),
        },
        cfg@.ignore.len() == 0 ==> r is Ok,
{
    match read_reply(reply, cfg) {
        Ok(envelope) => Ok(judge_reply(reply, envelope, source, diff)),
        Err(e) => Err(e),
    }
}

/// Takes the answer to the second question: the review that counts.
pub fn take_second_answer(
    first: ReviewEnvelope,
    reply: &OpenRouterResult,
    cfg: &RepoReviewConfig,
) -> (r: Result<ReviewEnvelope, IgnoreError>)
    ensures
        match r {
            Ok(envelope) => ignore::usable(cfg@.ignore) && envelope@ == settled_review(
                first@,
                review_of(reply@, cfg@),
            ),
            Err(e) => ignore::ignore_error(cfg@.ignore, e@),
        },
        cfg@.ignore.len() == 0 ==> r is Ok,
{
    match read_reply(reply, cfg) {
        Ok(second) => Ok(settle_retry(first, second)),
        Err(e) => Err(e),
    }
}

// ---------------------------------------------------------------------------
// What holds of every run
// ---------------------------------------------------------------------------

/// The run fails exactly when a finding weighs as much as it was told to fail on.
pub proof fn law_exit_code_tells_of_grave_findings(
    envelope: ReviewEnvelopeView,
    cfg: RepoReviewConfigView,
    settings: RunSettings,
    source: ReviewSourceView,
)
    ensures
        review_closing(envelope, cfg, settings, source).exit_code == 1 <==> exists|i: int|
            0 <= i < envelope.findings.len() && config::severity_rank(
                (#[trigger] envelope.findings[i]).severity,
            ) >= config::severity_rank(settings.fail_on),
        review_closing(envelope, cfg, settings, source).exit_code <= 1,
{
}

/// Output that is no review, first and again, blocks: whatever the repository configures and
/// whatever the run fails on, the exit code tells of failure, and on a pull request the check run
/// fails.
pub proof fn law_invalid_output_blocks_the_merge(
    first: OpenRouterResultView,
    second: OpenRouterResultView,
    cfg: RepoReviewConfigView,
    settings: RunSettings,
    source: ReviewSourceView,
    why_first: Seq<char>,
    why_second: Seq<char>,
)
    requires
        review::review_text(first.content, first.usage, first.model_used)
            == review::invalid_output(why_first, first.usage, first.model_used),
        review::review_text(second.content, second.usage, second.model_used)
            == review::invalid_output(why_second, second.usage, second.model_used),
    ensures
        ({
            let end = review_closing(
                settled_review(review_of(first, cfg), review_of(second, cfg)),
                cfg,
                settings,
                source,
            );
            &&& end.exit_code == 1
            &&& end.envelope == review::invalid_output(why_first, first.usage, first.model_used)
            &&& source is Remote ==> end.steps.contains(
                StepView::CompleteCheck {
                    conclusion: "failure"@,
                    output: github::output_of(end.envelope),
                },
            )
        }),
{
    review::law_invalid_output_survives_any_config(why_first, first.usage, first.model_used, cfg);
    review::law_invalid_output_survives_any_config(
        why_second,
        second.usage,
        second.model_used,
        cfg,
    );
    github::law_invalid_output_fails_the_check(why_first, first.usage, first.model_used);
    let e = review::invalid_output(why_first, first.usage, first.model_used);
    assert(config::severity_rank(e.findings[0].severity) >= config::severity_rank(
        settings.fail_on,
    ));
    law_pull_request_runs_complete_their_check(e, cfg, settings, source);
}

/// A run on a pull request completes the check run with the review's conclusion.
pub proof fn law_pull_request_runs_complete_their_check(
    envelope: ReviewEnvelopeView,
    cfg: RepoReviewConfigView,
    settings: RunSettings,
    source: ReviewSourceView,
)
    ensures
        source is Remote ==> review_closing(envelope, cfg, settings, source).steps.contains(
            StepView::CompleteCheck {
                conclusion: github::conclusion(envelope.findings),
                output: github::output_of(envelope),
            },
        ),
{
    let steps = review_closing(envelope, cfg, settings, source).steps;
    if let ReviewSourceView::Remote(_) = source {
        assert(steps[steps.len() - 2] == (StepView::CompleteCheck {
            conclusion: github::conclusion(envelope.findings),
            output: github::output_of(envelope),
        }));
    }
}

/// Exactly one of the steps completes a check run.
pub open spec fn one_check(steps: Seq<StepView>) -> bool {
    exists|i: int|
        0 <= i < steps.len() && (#[trigger] steps[i]) is CompleteCheck && forall|j: int|
            0 <= j < steps.len() && j != i ==> !((#[trigger] steps[j]) is CompleteCheck)
}

/// However a run on a pull request ends, it completes one check run and no more.
pub proof fn law_pull_request_runs_complete_one_check(
    envelope: ReviewEnvelopeView,
    cfg: RepoReviewConfigView,
    settings: RunSettings,
    source: ReviewSourceView,
)
    requires
        source is Remote,
    ensures
        one_check(review_closing(envelope, cfg, settings, source).steps),
        one_check(empty_closing(source, settings.wants_json).steps),
        one_check(disabled_closing(source, settings.wants_json).steps),
{
    lemma_one_check_at(
        review_closing(envelope, cfg, settings, source).steps,
        review_closing(envelope, cfg, settings, source).steps.len() - 2,
    );
    lemma_one_check_at(
        empty_closing(source, settings.wants_json).steps,
        empty_closing(source, settings.wants_json).steps.len() - 2,
    );
    lemma_one_check_at(disabled_closing(source, settings.wants_json).steps, 0);
}

proof fn lemma_one_check_at(steps: Seq<StepView>, at: int)
    requires
        0 <= at < steps.len(),
        steps[at] is CompleteCheck,
        forall|j: int|
            0 <= j < steps.len() && j != at ==> !((#[trigger] steps[j]) is CompleteCheck),
    ensures
        one_check(steps),
{
}

/// A run that fails on errors fails exactly when its check run does.
pub proof fn law_exit_code_agrees_with_the_check(
    envelope: ReviewEnvelopeView,
    cfg: RepoReviewConfigView,
    settings: RunSettings,
    source: ReviewSourceView,
)
    requires
        settings.fail_on == Severity::Error,
    ensures
        review_closing(envelope, cfg, settings, source).exit_code == 1 <==> github::conclusion(
            envelope.findings,
        ) == "failure"@,
{
    github::law_title_agrees_with_conclusion(envelope.findings);
    review::lemma_count_is_positive(envelope.findings, Severity::Error);
    if fails(envelope.findings, Severity::Error) {
        let i = choose|i: int|
            0 <= i < envelope.findings.len() && config::severity_rank(
                (#[trigger] envelope.findings[i]).severity,
            ) >= config::severity_rank(Severity::Error);
        assert(envelope.findings[i].severity == Severity::Error);
    }
    if review::count_of(envelope.findings, Severity::Error) > 0 {
        let i = choose|i: int|
            0 <= i < envelope.findings.len() && (#[trigger] envelope.findings[i]).severity
                == Severity::Error;
        assert(config::severity_rank(envelope.findings[i].severity) >= config::severity_rank(
            Severity::Error,
        ));
    }
}

/// A step that reaches GitHub.
pub open spec fn reaches_github(step: StepView) -> bool {
    step is CompleteCheck || step is PostReview
}

/// No run on a diff at hand reaches GitHub.
pub proof fn law_local_runs_stay_local(
    envelope: ReviewEnvelopeView,
    cfg: RepoReviewConfigView,
    settings: RunSettings,
    source: ReviewSourceView,
    i: int,
)
    requires
        source is Local,
    ensures
        0 <= i < review_closing(envelope, cfg, settings, source).steps.len() ==> !reaches_github(
            review_closing(envelope, cfg, settings, source).steps[i],
        ),
        0 <= i < empty_closing(source, settings.wants_json).steps.len() ==> !reaches_github(
            empty_closing(source, settings.wants_json).steps[i],
        ),
        0 <= i < disabled_closing(source, settings.wants_json).steps.len() ==> !reaches_github(
            disabled_closing(source, settings.wants_json).steps[i],
        ),
{
}

/// A review is posted exactly where it is a pull request's, posting is on for the run and for the
/// repository, and there is something to say: a clean review is passed over where the repository
/// passes over clean ones.
pub proof fn law_review_is_posted_when_asked_for(
    envelope: ReviewEnvelopeView,
    cfg: RepoReviewConfigView,
    settings: RunSettings,
    source: ReviewSourceView,
)
    ensures
        (exists|i: int|
            0 <= i < review_closing(envelope, cfg, settings, source).steps.len() && (
            #[trigger] review_closing(envelope, cfg, settings, source).steps[i]) is PostReview)
            <==> source is Remote && !settings.no_inline && cfg.review.enabled && (
        envelope.findings.len() > 0 || cfg.review.on_clean == OnClean::Approve),
{
    let steps = review_closing(envelope, cfg, settings, source).steps;
    if source is Remote && posts(envelope.findings, cfg) && !settings.no_inline {
        assert(steps[steps.len() - 3] is PostReview);
    }
}

/// By default a clean review is passed over in silence.
pub proof fn law_clean_reviews_are_silent_by_default(
    envelope: ReviewEnvelopeView,
    settings: RunSettings,
    source: ReviewSourceView,
    i: int,
)
    requires
        envelope.findings.len() == 0,
        0 <= i < review_closing(envelope, config::default_config(), settings, source).steps.len(),
    ensures
        !(review_closing(envelope, config::default_config(), settings, source).steps[i]
            is PostReview),
{
    law_review_is_posted_when_asked_for(envelope, config::default_config(), settings, source);
}

/// The review is written to a file exactly where that was asked for, however the run ends.
pub proof fn law_json_is_written_when_asked_for(
    envelope: ReviewEnvelopeView,
    cfg: RepoReviewConfigView,
    settings: RunSettings,
    source: ReviewSourceView,
)
    ensures
        review_closing(envelope, cfg, settings, source).steps.contains(StepView::WriteEnvelope)
            <==> settings.wants_json,
        empty_closing(source, settings.wants_json).steps.contains(StepView::WriteEnvelope)
            <==> settings.wants_json,
        disabled_closing(source, settings.wants_json).steps.contains(StepView::WriteEnvelope)
            <==> settings.wants_json,
{
    if settings.wants_json {
        assert(review_closing(envelope, cfg, settings, source).steps[0]
            == StepView::WriteEnvelope);
        assert(empty_closing(source, true).steps[0] == StepView::WriteEnvelope);
        let steps = disabled_closing(source, true).steps;
        assert(steps[steps.len() - 2] == StepView::WriteEnvelope);
    }
}

/// A model is asked only about a diff that is not blank, for a repository that has reviews on;
/// the run that asks none ends well.
pub proof fn law_nothing_to_review_ends_well(
    diff: Seq<char>,
    cfg: RepoReviewConfigView,
    source: ReviewSourceView,
    wants_json: bool,
)
    ensures
        opening(diff, cfg, source, wants_json) is Ask <==> !chars::blank(diff) && cfg.enabled,
        opening(diff, cfg, source, wants_json) matches OpeningView::Closed(end) ==> end.exit_code
            == 0 && end.envelope.findings.len() == 0,
{
}

/// A second answer takes the place of the first exactly when it is a review.
pub proof fn law_retry_counts_only_when_it_is_a_review(
    first: ReviewEnvelopeView,
    second: ReviewEnvelopeView,
)
    ensures
        !review::model_output_error(second.findings) ==> settled_review(first, second) == second,
        review::model_output_error(second.findings) ==> settled_review(first, second) == first,
{
}

/// Exactly where a diff holds something and reviews are on, a model is asked. It is given the
/// repository's instructions, and then, for a pull request as for a diff at hand, where the diff
/// comes from and the whole diff.
pub proof fn law_model_is_given_the_whole_diff(
    diff: Seq<char>,
    cfg: RepoReviewConfigView,
    source: ReviewSourceView,
    wants_json: bool,
)
    ensures
        opening(diff, cfg, source, wants_json) is Ask <==> cfg.enabled && exists|i: int|
            0 <= i < diff.len() && !chars::white_space(#[trigger] diff[i]),
        opening(diff, cfg, source, wants_json) matches OpeningView::Ask {
            system_prompt,
            user_content,
        } ==> {
            let label = match source {
                ReviewSourceView::Remote(_) => "github pull request"@,
                ReviewSourceView::Local(label) => label,
            };
            let head = "Review source: "@ + label + "\n\n"@;
            let tail = "Unified diff:\n\n"@ + diff;
            &&& system_prompt == review::prompt_text(cfg)
            &&& head.is_prefix_of(user_content)
            &&& tail.is_suffix_of(user_content)
            &&& user_content.len() == head.len() + tail.len()
        },
{
    chars::law_blank_means_all_white_space(diff);
    if let OpeningView::Ask { system_prompt, user_content } = opening(diff, cfg, source, wants_json) {
        let label = label_of(source);
        let head = "Review source: "@ + label + "\n\n"@;
        let tail = "Unified diff:\n\n"@ + diff;
        reveal_strlit("\n\n");
        reveal_strlit("Unified diff:\n\n");
        reveal_strlit("\n\nUnified diff:\n\n");
        assert("\n\nUnified diff:\n\n"@ =~= "\n\n"@ + "Unified diff:\n\n"@);
        assert(user_content =~= head + tail);
        lemma_ends(head, tail);
    }
}

/// Two texts in a row begin with the one and end with the other.
proof fn lemma_ends(head: Seq<char>, tail: Seq<char>)
    ensures
        head.is_prefix_of(head + tail),
        tail.is_suffix_of(head + tail),
{
    let all = head + tail;
    assert(head =~= all.subrange(0, head.len() as int));
    assert(tail =~= all.subrange(all.len() - tail.len(), all.len() as int));
}

/// The second question begins with the demand for one valid object, and then tells the model where
/// the diff comes from, what it answered, cut to a limit, and the whole diff.
pub proof fn law_second_question_shows_answer_and_diff(
    label: Seq<char>,
    diff: Seq<char>,
    previous: Seq<char>,
)
    ensures
        ({
            let asked = repair_content(label, diff, previous);
            let demand =
                "The previous response was not valid Postil JSON or was truncated. Return ONLY one compact valid JSON object matching the schema from the system prompt. Do not include markdown, reasoning, or prose.\n\nReview source: "@;
            let tail = label + "\n\nPrevious invalid output excerpt:\n"@ + text::limited(
                previous,
                4_000,
            ) + "\n\nUnified diff:\n\n"@ + diff;
            &&& demand.is_prefix_of(asked)
            &&& tail.is_suffix_of(asked)
            &&& diff.is_suffix_of(asked)
            &&& asked.len() == demand.len() + tail.len()
        }),
{
    let asked = repair_content(label, diff, previous);
    let demand =
        "The previous response was not valid Postil JSON or was truncated. Return ONLY one compact valid JSON object matching the schema from the system prompt. Do not include markdown, reasoning, or prose.\n\nReview source: "@;
    let shown = "\n\nPrevious invalid output excerpt:\n"@ + text::limited(previous, 4_000)
        + "\n\nUnified diff:\n\n"@;
    let tail = label + "\n\nPrevious invalid output excerpt:\n"@ + text::limited(previous, 4_000)
        + "\n\nUnified diff:\n\n"@ + diff;
    assert(tail =~= label + shown + diff);
    assert(asked =~= demand + tail);
    lemma_ends(demand, tail);
    assert(asked =~= (demand + label + shown) + diff);
    lemma_ends(demand + label + shown, diff);
}

/// An answer is accepted as it is unless a finding of it is about the model's output. Otherwise
/// the model that gave it is asked once more: it is shown the answer and the whole diff, and the
/// user is told why.
pub proof fn law_only_invalid_output_is_asked_again(
    reply: OpenRouterResultView,
    envelope: ReviewEnvelopeView,
    label: Seq<char>,
    diff: Seq<char>,
)
    ensures
        (forall|i: int|
            0 <= i < envelope.findings.len() ==> (#[trigger] envelope.findings[i]).path
                != ".postil/model-output"@) ==> reading(reply, envelope, label, diff)
            == ReadingView::Accepted(envelope),
        (exists|i: int|
            0 <= i < envelope.findings.len() && (#[trigger] envelope.findings[i]).path
                == ".postil/model-output"@) ==> (reading(
            reply,
            envelope,
            label,
            diff,
        ) matches ReadingView::Again(retry) && retry.first == envelope && retry.model
            == reply.model_used && retry.user_content == repair_content(label, diff, reply.content)
            && "[postil] model output was not valid JSON"@.is_prefix_of(retry.warning)
            && "; retrying once with a compact JSON repair prompt"@.is_suffix_of(retry.warning) && (
        reply.finish_reason matches Some(reason) ==> chars::within(
            retry.warning,
            " (finish_reason: "@ + reason + ")"@,
        ))),
{
    review::law_output_errors_have_their_path(envelope.findings);
    if review::model_output_error(envelope.findings) {
        let warning = retry_warning(reply.finish_reason);
        let head = "[postil] model output was not valid JSON"@;
        let tail = "; retrying once with a compact JSON repair prompt"@;
        let middle = match reply.finish_reason {
            Some(reason) => " (finish_reason: "@ + reason + ")"@,
            None => Seq::empty(),
        };
        assert(warning =~= head + (middle + tail));
        lemma_ends(head, middle + tail);
        assert(warning =~= (head + middle) + tail);
        lemma_ends(head + middle, tail);
        chars::lemma_within(head, middle, tail);
    }
}

/// Tokens and model of a review are those of the answer that it was read from.
pub proof fn law_review_tells_its_model_and_tokens(
    reply: OpenRouterResultView,
    cfg: RepoReviewConfigView,
)
    ensures
        review_of(reply, cfg).usage == reply.usage,
        review_of(reply, cfg).model_used == reply.model_used,
        ({
            let read = review::review_text(reply.content, reply.usage, reply.model_used);
            cfg.ignore.len() == 0 && cfg.severity_threshold == Severity::Info && read.findings.len()
                <= cfg.max_findings ==> review_of(reply, cfg) == read
        }),
{
    let read = review::review_text(reply.content, reply.usage, reply.model_used);
    review::law_output_fails_closed(reply.content, reply.usage, reply.model_used);
    review::law_configured_findings(read, cfg);
    if cfg.ignore.len() == 0 && cfg.severity_threshold == Severity::Info && read.findings.len()
        <= cfg.max_findings {
        review::law_permissive_config_changes_nothing(read, cfg);
    }
}

/// A pull request is called by owner, repository and number, a diff at hand by its label.
pub proof fn law_subjects_name_their_source(target: ReviewTargetView, label: Seq<char>)
    ensures
        subject_of(ReviewSourceView::Remote(target)) == target.owner + "/"@ + target.repo + "#"@
            + chars::decimal(target.pull_number as nat),
        subject_of(ReviewSourceView::Local(label)) == "local diff ("@ + label + ")"@,
{
}

/// The line about a review begins with what was reviewed and ends with how it concluded, how many
/// findings there are and which model was asked.
pub proof fn law_closing_line_tells_the_outcome(
    source: ReviewSourceView,
    envelope: ReviewEnvelopeView,
)
    ensures
        ({
            let line = closing_line(source, envelope);
            let head = "[postil] "@ + subject_of(source);
            let tail = " -> "@ + github::conclusion(envelope.findings) + " ("@ + chars::decimal(
                envelope.findings.len(),
            ) + " findings, model: "@ + envelope.model_used + ")"@;
            &&& head.is_prefix_of(line)
            &&& tail.is_suffix_of(line)
            &&& line.len() == head.len() + tail.len()
        }),
{
    let head = "[postil] "@ + subject_of(source);
    let tail = " -> "@ + github::conclusion(envelope.findings) + " ("@ + chars::decimal(
        envelope.findings.len(),
    ) + " findings, model: "@ + envelope.model_used + ")"@;
    assert(closing_line(source, envelope) =~= head + tail);
    lemma_ends(head, tail);
}

/// What a run posts is the review of its pull request: it is of the target's commit, has a comment
/// on the path and line of every finding, and ends with the status line, which calls the review
/// clean exactly where there are no findings. What is posted in its place says the same.
pub proof fn law_posted_review_is_the_review(
    envelope: ReviewEnvelopeView,
    cfg: RepoReviewConfigView,
    settings: RunSettings,
    target: ReviewTargetView,
    k: int,
    i: int,
)
    requires
        0 <= k < review_closing(envelope, cfg, settings, ReviewSourceView::Remote(target)).steps.len(),
    ensures
        review_closing(
            envelope,
            cfg,
            settings,
            ReviewSourceView::Remote(target),
        ).steps[k] matches StepView::PostReview { request, fallback } ==> {
            let n = envelope.findings.len();
            let status = review::status_text(
                envelope.findings,
                n,
                if n == 0 {
                    "clean"@
                } else {
                    "needs-attention"@
                },
            );
            &&& request.body == fallback
            &&& request.commit_id == target.head_sha
            &&& status.is_suffix_of(fallback)
            &&& chars::trim(envelope.summary).len() > 0 ==> chars::trim(
                envelope.summary,
            ).is_prefix_of(fallback)
            &&& n == 0 ==> request.event == "APPROVE"@ && request.comments is None
            &&& n > 0 ==> request.event == "COMMENT"@ && request.comments is Some
                && request.comments->0.len() == n
            &&& 0 <= i < n ==> request.comments->0[i].path == envelope.findings[i].path
                && request.comments->0[i].line == envelope.findings[i].line
                && envelope.findings[i].body.is_suffix_of(request.comments->0[i].body)
        },
{
    let body = posted_body(envelope);
    let n = envelope.findings.len();
    github::law_each_finding_gets_its_comment(target, envelope.findings, body, i);
    github::law_each_finding_gets_its_comment(target, envelope.findings, body, 0);
    github::law_request_approves_only_clean_reviews(target, envelope.findings, body);
    review::law_posted_text_ends_with_the_status(envelope, n, verdict(envelope.findings));
    let summary = chars::trim(envelope.summary);
    if summary.len() > 0 {
        assert(summary =~= body.subrange(0, summary.len() as int)) by {
            assert((summary + "\n\n"@).is_prefix_of(body));
            let start = summary + "\n\n"@;
            assert(start =~= body.subrange(0, start.len() as int));
            assert forall|j: int| 0 <= j < summary.len() implies summary[j] == body[j] by {
                assert(start[j] == body.subrange(0, start.len() as int)[j]);
            }
        }
    }
}

/// However a run ends, it tells of the review that it ends with. A check run that it completes
/// has that review's conclusion and shows that review, and what it prints last is the line about
/// the review, for a diff at hand followed by its findings.
pub proof fn law_run_tells_of_its_review(
    envelope: ReviewEnvelopeView,
    cfg: RepoReviewConfigView,
    settings: RunSettings,
    source: ReviewSourceView,
    k: int,
)
    requires
        0 <= k < review_closing(envelope, cfg, settings, source).steps.len(),
    ensures
        ({
            let end = review_closing(envelope, cfg, settings, source);
            let line = StepView::Print(closing_line(source, envelope));
            &&& end.envelope == envelope
            &&& end.steps[k] matches StepView::CompleteCheck { conclusion, output } ==> conclusion
                == github::conclusion(envelope.findings) && output == github::output_of(envelope)
            &&& end.steps[k] is WriteEnvelope ==> k == 0
            &&& source is Remote || envelope.findings.len() == 0 ==> end.steps.last() == line
            &&& source is Local && envelope.findings.len() > 0 ==> end.steps.last()
                == StepView::Print(local::local_lines(envelope.findings)) && end.steps.len() >= 2
                && end.steps[end.steps.len() - 2] == line
        }),
{
}

/// A run with nothing to review ends well and posts nothing: its check run is neutral, and the
/// review that it writes has no findings, no model and no tokens, and says why.
pub proof fn law_runs_without_review_are_neutral(source: ReviewSourceView, wants_json: bool, k: int)
    ensures
        empty_closing(source, wants_json).exit_code == 0,
        disabled_closing(source, wants_json).exit_code == 0,
        ({
            let empty = empty_closing(source, wants_json).envelope;
            let disabled = disabled_closing(source, wants_json).envelope;
            &&& empty.summary == "Nothing to review."@
            &&& disabled.summary == "Postil is disabled for this repo via config."@
            &&& empty.findings.len() == 0 && disabled.findings.len() == 0
            &&& empty.model_used == "none"@ && disabled.model_used == "none"@
            &&& empty.usage == review::no_usage() && disabled.usage == review::no_usage()
        }),
        0 <= k < empty_closing(source, wants_json).steps.len() ==> (match empty_closing(
            source,
            wants_json,
        ).steps[k] {
            StepView::CompleteCheck { conclusion, output } => conclusion == "neutral"@
                && output.summary == "Nothing to review."@,
            StepView::PostReview { .. } => false,
            StepView::WriteEnvelope => wants_json,
            StepView::Print(line) => line == "[postil] empty diff - nothing to review"@,
        }),
        0 <= k < disabled_closing(source, wants_json).steps.len() ==> (match disabled_closing(
            source,
            wants_json,
        ).steps[k] {
            StepView::CompleteCheck { conclusion, output } => conclusion == "neutral"@
                && output.summary == "Postil is disabled for this repo via config."@,
            StepView::PostReview { .. } => false,
            StepView::WriteEnvelope => wants_json,
            StepView::Print(line) => line == "[postil] "@ + subject_of(source)
                + " -> neutral (disabled by config)"@,
        }),
{
}

/// A blank diff ends the run as empty also where reviews are off; a diff that holds something ends
/// it as disabled exactly where they are.
pub proof fn law_blank_diff_comes_before_disabled(
    diff: Seq<char>,
    cfg: RepoReviewConfigView,
    source: ReviewSourceView,
    wants_json: bool,
)
    ensures
        (forall|i: int| 0 <= i < diff.len() ==> chars::white_space(#[trigger] diff[i])) ==> opening(
            diff,
            cfg,
            source,
            wants_json,
        ) == OpeningView::Closed(empty_closing(source, wants_json)),
        (exists|i: int| 0 <= i < diff.len() && !chars::white_space(#[trigger] diff[i]))
            && !cfg.enabled ==> opening(diff, cfg, source, wants_json) == OpeningView::Closed(
            disabled_closing(source, wants_json),
        ),
{
    chars::law_blank_means_all_white_space(diff);
}

/// A review that was taken is not posted again; one that was not is posted in full as a comment,
/// and the user is told the cause.
pub proof fn law_refused_review_becomes_a_comment(
    fallback: Seq<char>,
    outcome: Result<(), String>,
    cause: String,
)
    ensures
        fallback_of(fallback, outcome) is None <==> outcome is Ok,
        (fallback_of(fallback, Err(cause))->0).comment == fallback,
        cause@.is_suffix_of((fallback_of(fallback, Err(cause))->0).warning),
        "[postil] inline review post failed: "@.is_prefix_of(
            (fallback_of(fallback, Err(cause))->0).warning,
        ),
{
    lemma_ends("[postil] inline review post failed: "@, cause@);
}

/// A run takes no steps but those that are called for: writing and posting where they are, the
/// check run of a pull request, the line about the review, and the findings of a diff at hand.
pub proof fn law_run_takes_no_other_steps(
    envelope: ReviewEnvelopeView,
    cfg: RepoReviewConfigView,
    settings: RunSettings,
    source: ReviewSourceView,
)
    ensures
        ({
            let written: int = if settings.wants_json {
                1
            } else {
                0
            };
            let posted: int = if !settings.no_inline && cfg.review.enabled && (
            envelope.findings.len() > 0 || cfg.review.on_clean == OnClean::Approve) {
                1
            } else {
                0
            };
            let shown: int = if envelope.findings.len() > 0 {
                1
            } else {
                0
            };
            &&& source is Remote ==> review_closing(envelope, cfg, settings, source).steps.len()
                == written + posted + 2
            &&& source is Local ==> review_closing(envelope, cfg, settings, source).steps.len()
                == written + shown + 1
            &&& source is Remote ==> empty_closing(source, settings.wants_json).steps.len()
                == written + 2 && disabled_closing(source, settings.wants_json).steps.len()
                == written + 2
            &&& source is Local ==> empty_closing(source, settings.wants_json).steps.len()
                == written + 1 && disabled_closing(source, settings.wants_json).steps.len()
                == written + 1
        }),
{
}

} // verus!

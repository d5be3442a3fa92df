//! Reviews: the prompt that asks for one, the findings that come back, and what is said of them.
use vstd::prelude::*;
use vstd::string::*;

use crate::chars;
use crate::chars::{
    chars_of, decimal_text, is_blank, rsearch_char, same_text, search_char_from, search_from,
    trimmed,
};
use crate::config;
use crate::config::{RepoReviewConfig, RepoReviewConfigView, Severity};
use crate::ignore;
use crate::ignore::{build_ignore, is_ignored, IgnoreError};
use crate::json;
use crate::json::{parse_json, write_json, Json, JsonTree};

verus! {

// ---------------------------------------------------------------------------
// The prompt
// ---------------------------------------------------------------------------

/// What every model is told.
pub const BASE_SYSTEM_PROMPT: &'static str = r#"You are Postil, a low-noise review gate for agent-speed development. You receive a unified diff for a pull request and produce structured findings as JSON.

Product doctrine:
- Silence is a feature. Do not comment to prove that you reviewed the diff.
- Comment only when the finding can affect whether this change should merge.
- A valid finding must identify concrete risk, request a specific fix, block or warn against merge, request accountable human review, explain an intent mismatch, suggest a durable guardrail, or clarify uncertainty that materially affects merge safety.
- Escalate consequential decisions to accountable humans instead of pretending to own product, architecture, security, infrastructure, cost, data deletion, permissions, billing, migrations, persistent storage, external dependency, or major behavior-change tradeoffs.
- When an objective, recurring issue should be enforced outside review, suggest a durable guardrail in the finding body: test, lint rule, CI check, policy, pre-commit hook, or documented convention.

Rules:
- Focus on correctness, security, reliability, intent mismatch, and context-dependent merge risk.
- Do not flag style, formatting, imports, naming, summaries, praise, or preferences unless they create merge-relevant risk.
- Do not include self-dismissing findings. If the body would say there is no concrete risk, that behavior is acceptable, or the code is safe, omit the finding.
- Every finding cites a specific path and line number that exists in the diff.
- Severity is one of: info, warn, error.
- Use error only for concrete issues that should block merge until fixed. If uncertainty remains, use warn or info.
- Use warn for issues that should delay merge until fixed or accepted by a human.
- Use info only for merge-relevant human escalation, durable guardrail suggestions, or material uncertainty.
- If the diff has no merge-relevant findings, return an empty summary string and an empty findings array.
- Return at most 25 findings.
- Keep each finding body under 1200 characters.

Reply with ONLY a single JSON object, no prose, no markdown fence:
{
  "summary": "<empty string when clean; otherwise 1-2 sentences about merge risk only>",
  "findings": [ { "path": "...", "line": <int>, "severity": "info|warn|error", "kind": "risk|humanEscalation|guardrail|uncertainty", "body": "..." } ]
}"#;

/// The items of a list that are not blank, without the white space around them.
pub open spec fn focus_items(focus: Seq<Seq<char>>) -> Seq<Seq<char>> {
    focus.map_values(|item: Seq<char>| chars::trim(item)).filter(|item: Seq<char>| item.len() > 0)
}

/// The items, each on a line of its own with a dash before it.
pub open spec fn bullet_lines(items: Seq<Seq<char>>) -> Seq<char>
    decreases items.len(),
{
    if items.len() == 0 {
        Seq::empty()
    } else {
        bullet_lines(items.drop_last()) + "- "@ + items.last() + "\n"@
    }
}

/// What a repository's focus adds to the prompt.
pub open spec fn focus_section(focus: Seq<Seq<char>>) -> Seq<char> {
    if focus_items(focus).len() == 0 {
        Seq::empty()
    } else {
        "\n\nRepository review focus:\n"@ + bullet_lines(focus_items(focus))
    }
}

/// What a repository's tone adds to the prompt.
pub open spec fn tone_section(tone: Seq<char>) -> Seq<char> {
    if chars::blank(tone) || chars::trim(tone) == "neutral"@ {
        Seq::empty()
    } else {
        "\nReviewer tone preference: "@ + chars::trim(tone)
            + ". Keep the result direct and merge-relevant."@
    }
}

/// The instructions for the model: the base prompt, then the repository's focus, then its tone.
pub open spec fn prompt_text(cfg: RepoReviewConfigView) -> Seq<char> {
    BASE_SYSTEM_PROMPT@ + focus_section(cfg.reviewer.focus) + tone_section(cfg.reviewer.tone)
}

/// The items of `focus` that are not blank, trimmed.
fn focus_list(focus: &Vec<String>) -> (out: Vec<String>)
    ensures
        chars::texts(out@) == focus_items(chars::texts(focus@)),
{
    let ghost all = chars::texts(focus@).map_values(|item: Seq<char>| chars::trim(item));
    let ghost keep = |item: Seq<char>| item.len() > 0;
    let mut out: Vec<String> = Vec::new();
    let mut i: usize = 0;
    proof {
        reveal(Seq::filter);
        assert(all.take(0) =~= Seq::empty());
        assert(chars::texts(out@) =~= Seq::empty());
    }
    while i < focus.len()
        invariant
            i <= focus.len(),
            all == chars::texts(focus@).map_values(|item: Seq<char>| chars::trim(item)),
            keep == (|item: Seq<char>| item.len() > 0),
            chars::texts(out@) == all.take(i as int).filter(keep),
        decreases focus.len() - i,
    {
        let item: &str = trimmed(focus[i].as_str());
        let ghost before = chars::texts(out@);
        proof {
            reveal(Seq::filter);
            assert(all.take(i + 1).drop_last() =~= all.take(i as int));
            assert(all.take(i + 1).last() == item@);
        }
        if !item.is_empty() {
            out.push(item.to_owned());
            assert(chars::texts(out@) =~= before.push(item@));
        }
        i = i + 1;
    }
    assert(all.take(i as int) =~= all);
    out
}

/// The instructions for the model.
pub fn system_prompt(cfg: &RepoReviewConfig) -> (prompt: String)
    ensures
        prompt@ == prompt_text(cfg@),
{
    let mut prompt: String = BASE_SYSTEM_PROMPT.to_owned();
    let focus: Vec<String> = focus_list(&cfg.reviewer.focus);
    let ghost items = chars::texts(focus@);
    assert(items.len() == focus@.len());
    if focus.len() != 0 {
        prompt.append("\n\nRepository review focus:\n");
        let ghost head = prompt@;
        let mut i: usize = 0;
        assert(items.take(0) =~= Seq::empty());
        assert(head + bullet_lines(items.take(0)) =~= head);
        while i < focus.len()
            invariant
                i <= focus.len(),
                items == chars::texts(focus@),
                prompt@ == head + bullet_lines(items.take(i as int)),
            decreases focus.len() - i,
        {
            prompt.append("- ");
            prompt.append(focus[i].as_str());
            prompt.append("\n");
            assert(items.take(i + 1).drop_last() =~= items.take(i as int));
            assert(items.take(i + 1).last() == focus@[i as int]@);
            assert(prompt@ =~= head + bullet_lines(items.take(i + 1)));
            i = i + 1;
        }
        assert(items.take(i as int) =~= items);
    }
    assert(prompt@ =~= BASE_SYSTEM_PROMPT@ + focus_section(cfg@.reviewer.focus));
    let tone: &str = trimmed(cfg.reviewer.tone.as_str());
    if !tone.is_empty() && !same_text(tone, "neutral") {
        prompt.append("\nReviewer tone preference: ");
        prompt.append(tone);
        prompt.append(". Keep the result direct and merge-relevant.");
    }
    assert(prompt@ =~= prompt_text(cfg@));
    prompt
}

/// Whatever a repository configures, the prompt begins with the base prompt, and one that
/// configures nothing gets no more than that.
pub proof fn law_prompt_begins_with_base(cfg: RepoReviewConfigView)
    ensures
        BASE_SYSTEM_PROMPT@.is_prefix_of(prompt_text(cfg)),
        cfg.reviewer == config::default_reviewer() ==> prompt_text(cfg) == BASE_SYSTEM_PROMPT@,
{
    let p = prompt_text(cfg);
    let n = BASE_SYSTEM_PROMPT@.len() as int;
    assert(BASE_SYSTEM_PROMPT@ =~= p.subrange(0, n));
    if cfg.reviewer == config::default_reviewer() {
        assert(cfg.reviewer.focus.map_values(|item: Seq<char>| chars::trim(item)) =~= Seq::empty());
        reveal(Seq::filter);
        assert(focus_items(cfg.reviewer.focus).len() == 0);
        reveal_strlit("neutral");
        assert(!chars::white_space("neutral"@[0]) && !chars::white_space("neutral"@.last()));
        assert(chars::trim("neutral"@) == "neutral"@);
        assert(p =~= BASE_SYSTEM_PROMPT@);
    }
}

// ---------------------------------------------------------------------------
// Findings
// ---------------------------------------------------------------------------

/// What a finding is about.
#[derive(Debug, Clone, Copy, PartialEq, Eq, Structural)]
pub enum FindingKind {
    Risk,
    HumanEscalation,
    Guardrail,
    Uncertainty,
}

/// The name of a kind.
pub open spec fn kind_name(kind: FindingKind) -> Seq<char> {
    match kind {
        FindingKind::Risk => "risk"@,
        FindingKind::HumanEscalation => "humanEscalation"@,
        FindingKind::Guardrail => "guardrail"@,
        FindingKind::Uncertainty => "uncertainty"@,
    }
}

/// The kind of a name.
pub open spec fn kind_named(name: Seq<char>) -> Option<FindingKind> {
    if name == "risk"@ {
        Some(FindingKind::Risk)
    } else if name == "humanEscalation"@ {
        Some(FindingKind::HumanEscalation)
    } else if name == "guardrail"@ {
        Some(FindingKind::Guardrail)
    } else if name == "uncertainty"@ {
        Some(FindingKind::Uncertainty)
    } else {
        None
    }
}

impl FindingKind {
    /// The name of this kind.
    pub fn name(self) -> (r: &'static str)
        ensures
            r@ == kind_name(self),
    {
        match self {
            FindingKind::Risk => "risk",
            FindingKind::HumanEscalation => "humanEscalation",
            FindingKind::Guardrail => "guardrail",
            FindingKind::Uncertainty => "uncertainty",
        }
    }

    /// The kind of a name, if it is one.
    pub fn named(name: &str) -> (r: Option<FindingKind>)
        ensures
            r == kind_named(name@),
    {
        if same_text(name, "risk") {
            Some(FindingKind::Risk)
        } else if same_text(name, "humanEscalation") {
            Some(FindingKind::HumanEscalation)
        } else if same_text(name, "guardrail") {
            Some(FindingKind::Guardrail)
        } else if same_text(name, "uncertainty") {
            Some(FindingKind::Uncertainty)
        } else {
            None
        }
    }
}

/// A kind is the one that its name names.
pub proof fn law_kind_names_round_trip(kind: FindingKind)
    ensures
        kind_named(kind_name(kind)) == Some(kind),
{
    reveal_strlit("risk");
    reveal_strlit("humanEscalation");
    reveal_strlit("guardrail");
    reveal_strlit("uncertainty");
    assert("risk"@[0] == 'r' && "humanEscalation"@[0] == 'h' && "guardrail"@[0] == 'g'
        && "uncertainty"@[0] == 'u');
}

/// Something that a review has to say about a line.
#[derive(Debug, Clone, PartialEq, Eq)]
pub struct Finding {
    pub path: String,
    pub line: u64,
    pub severity: Severity,
    pub kind: Option<FindingKind>,
    pub body: String,
}

/// The contents of a [`Finding`].
pub struct FindingView {
    pub path: Seq<char>,
    pub line: u64,
    pub severity: Severity,
    pub kind: Option<FindingKind>,
    pub body: Seq<char>,
}

impl View for Finding {
    type V = FindingView;

    open spec fn view(&self) -> FindingView {
        FindingView {
            path: self.path@,
            line: self.line,
            severity: self.severity,
            kind: self.kind,
            body: self.body@,
        }
    }
}

/// The contents of a list of findings.
pub open spec fn finding_views(findings: Seq<Finding>) -> Seq<FindingView> {
    findings.map_values(|f: Finding| f@)
}

/// The tokens that a completion took.
#[derive(Debug, Clone, Copy, PartialEq, Eq, Structural)]
pub struct TokenUsage {
    pub prompt_tokens: u64,
    pub completion_tokens: u64,
    pub total_tokens: u64,
}

/// No tokens.
pub open spec fn no_usage() -> TokenUsage {
    TokenUsage { prompt_tokens: 0, completion_tokens: 0, total_tokens: 0 }
}

impl Default for TokenUsage {
    fn default() -> (r: Self)
        ensures
            r == no_usage(),
    {
        TokenUsage { prompt_tokens: 0, completion_tokens: 0, total_tokens: 0 }
    }
}

/// A review.
#[derive(Debug, Clone, PartialEq, Eq)]
pub struct ReviewEnvelope {
    pub summary: String,
    pub findings: Vec<Finding>,
    pub usage: TokenUsage,
    pub model_used: String,
}

/// The contents of a [`ReviewEnvelope`].
#[verifier::ext_equal]
pub struct ReviewEnvelopeView {
    pub summary: Seq<char>,
    pub findings: Seq<FindingView>,
    pub usage: TokenUsage,
    pub model_used: Seq<char>,
}

impl View for ReviewEnvelope {
    type V = ReviewEnvelopeView;

    open spec fn view(&self) -> ReviewEnvelopeView {
        ReviewEnvelopeView {
            summary: self.summary@,
            findings: finding_views(self.findings@),
            usage: self.usage,
            model_used: self.model_used@,
        }
    }
}

// ---------------------------------------------------------------------------
// Output that is no review
// ---------------------------------------------------------------------------

/// The path of the finding that stands for output that is no review.
pub const MODEL_OUTPUT_PATH: &'static str = ".postil/model-output";

/// The summary of output that is no review.
pub const INVALID_SUMMARY: &'static str = "Postil could not validate the model output.";

/// What is said of output that holds no JSON object.
pub const NOT_JSON: &'static str = "Model output was not valid Postil JSON; review must be retried before merge.";

/// What is said of output without a summary.
pub const NO_SUMMARY: &'static str = "Model output omitted the required summary string; review must be retried before merge.";

/// What is said of output without a list of findings.
pub const NO_FINDINGS: &'static str = "Model output omitted the required findings array; review must be retried before merge.";

/// What is said of output with something else among its findings.
pub const INVALID_FINDING: &'static str = "Model output contained an invalid finding; review must be retried before merge.";

/// The one finding of output that is no review: an error, whose body says what is wrong.
pub open spec fn model_output_finding(body: Seq<char>) -> FindingView {
    FindingView {
        path: MODEL_OUTPUT_PATH@,
        line: 1,
        severity: Severity::Error,
        kind: Some(FindingKind::Risk),
        body,
    }
}

/// The review that stands for output that is none.
pub open spec fn invalid_output(
    body: Seq<char>,
    usage: TokenUsage,
    model_used: Seq<char>,
) -> ReviewEnvelopeView {
    ReviewEnvelopeView {
        summary: INVALID_SUMMARY@,
        findings: seq![model_output_finding(body)],
        usage,
        model_used,
    }
}

/// A finding about the model's output.
pub open spec fn about_model_output(f: FindingView) -> bool {
    f.path == MODEL_OUTPUT_PATH@
}

/// A review that has a finding about the model's output.
pub open spec fn model_output_error(findings: Seq<FindingView>) -> bool {
    exists|i: int| 0 <= i < findings.len() && about_model_output(#[trigger] findings[i])
}

/// The review that stands for output that is none.
pub fn invalid_model_output(body: &str, usage: TokenUsage, model_used: String) -> (r:
    ReviewEnvelope)
    ensures
        r@ == invalid_output(body@, usage, model_used@),
{
    let r = ReviewEnvelope {
        summary: INVALID_SUMMARY.to_owned(),
        findings: vec![
            Finding {
                path: MODEL_OUTPUT_PATH.to_owned(),
                line: 1,
                severity: Severity::Error,
                kind: Some(FindingKind::Risk),
                body: body.to_owned(),
            },
        ],
        usage,
        model_used,
    };
    assert(r@ =~= invalid_output(body@, usage, model_used@));
    r
}

/// Whether one of the findings is about the model's output.
fn has_model_output(findings: &Vec<Finding>) -> (r: bool)
    ensures
        r == model_output_error(finding_views(findings@)),
{
    let ghost all = finding_views(findings@);
    let mut i: usize = 0;
    while i < findings.len()
        invariant
            i <= findings.len(),
            all == finding_views(findings@),
            forall|j: int| 0 <= j < i ==> !about_model_output(#[trigger] all[j]),
        decreases findings.len() - i,
    {
        assert(all[i as int] == findings@[i as int]@);
        if same_text(findings[i].path.as_str(), MODEL_OUTPUT_PATH) {
            return true;
        }
        i = i + 1;
    }
    false
}

/// Whether a review stands for output that is none.
pub fn is_model_output_error(envelope: &ReviewEnvelope) -> (r: bool)
    ensures
        r == model_output_error(envelope@.findings),
{
    has_model_output(&envelope.findings)
}

// ---------------------------------------------------------------------------
// Reading the model's output
// ---------------------------------------------------------------------------

/// The inside of the first code fence of a text, trimmed. What follows the opening fence on its
/// line does not belong to the inside.
pub open spec fn fenced(text: Seq<char>) -> Option<Seq<char>> {
    match chars::find(text, "```"@) {
        None => None,
        Some(open) => {
            let after = text.skip(open + 3);
            let content = after.skip(
                match chars::find_char(after, '\n') {
                    Some(i) => i + 1,
                    None => 0,
                },
            );
            match chars::find(content, "```"@) {
                None => None,
                Some(close) => Some(chars::trim(content.take(close))),
            }
        },
    }
}

/// The stretch of a text from its first opening brace to its last closing one.
pub open spec fn object_slice(text: Seq<char>) -> Option<Seq<char>> {
    match (chars::find_char(text, '{'), chars::rfind_char(text, '}')) {
        (Some(start), Some(end)) => if end <= start {
            None
        } else {
            Some(text.subrange(start, end + 1))
        },
        _ => None,
    }
}

/// The part of a model's output that is read as JSON: an object in the first code fence, or
/// where there is no fence in the whole text.
pub open spec fn json_part(text: Seq<char>) -> Option<Seq<char>> {
    match fenced(text) {
        Some(inside) => object_slice(inside),
        None => object_slice(text),
    }
}

/// The inside of the first code fence of `text`, trimmed.
pub fn fenced_json(text: &str) -> (r: Option<&str>)
    ensures
        match r {
            Some(inside) => fenced(text@) == Some(inside@),
            None => fenced(text@) is None,
        },
{
    let letters: Vec<char> = chars_of(text);
    let fence: Vec<char> = chars_of("```");
    proof {
        reveal_strlit("```");
    }
    let open: usize = match search_from(&letters, &fence, 0) {
        Some(i) => i,
        None => {
            return None;
        },
    };
    let after: usize = open + 3;
    proof {
        chars::lemma_find_skip(text@, seq!['\n'], after as int, 0);
    }
    let start: usize = match search_char_from(&letters, '\n', after) {
        Some(i) => i + 1,
        None => after,
    };
    let ghost content = text@.skip(after as int).skip(start - after);
    proof {
        assert(content =~= text@.skip(start as int));
        chars::lemma_find_skip(text@, "```"@, start as int, 0);
    }
    match search_from(&letters, &fence, start) {
        Some(end) => {
            assert(content.take(end - start) =~= text@.subrange(start as int, end as int));
            Some(trimmed(text.substring_char(start, end)))
        },
        None => None,
    }
}

/// The stretch of `text` from its first opening brace to its last closing one.
pub fn json_object_slice(text: &str) -> (r: Option<&str>)
    ensures
        match r {
            Some(slice) => object_slice(text@) == Some(slice@),
            None => object_slice(text@) is None,
        },
{
    let letters: Vec<char> = chars_of(text);
    match (search_char_from(&letters, '{', 0), rsearch_char(&letters, '}')) {
        (Some(start), Some(end)) => if end <= start {
            None
        } else {
            Some(text.substring_char(start, end + 1))
        },
        _ => None,
    }
}

/// The name of a variant: a text, or an object with that one key and nothing in it.
pub open spec fn variant_name(tree: JsonTree) -> Option<Seq<char>> {
    match tree {
        JsonTree::Text(s) => Some(s),
        JsonTree::Object(fields) => if fields.len() == 1 && fields[0].1 is Null {
            Some(fields[0].0)
        } else {
            None
        },
        _ => None,
    }
}

/// The severity that a value gives.
pub open spec fn severity_value(tree: JsonTree) -> Option<Severity> {
    match variant_name(tree) {
        Some(name) => config::severity_named(name),
        None => None,
    }
}

/// The kind that a value gives, or that there is none because the value is missing or null.
/// Nothing where the value gives no kind.
pub open spec fn kind_value(tree: Option<JsonTree>) -> Option<Option<FindingKind>> {
    match tree {
        None => Some(None),
        Some(JsonTree::Null) => Some(None),
        Some(other) => match variant_name(other) {
            Some(name) => match kind_named(name) {
                Some(kind) => Some(Some(kind)),
                None => None,
            },
            None => None,
        },
    }
}

/// The finding that its five values give. All but the kind must be there.
pub open spec fn finding_of_parts(
    path: Option<JsonTree>,
    line: Option<JsonTree>,
    severity: Option<JsonTree>,
    kind: Option<JsonTree>,
    body: Option<JsonTree>,
) -> Option<FindingView> {
    match (path, line, severity, kind_value(kind), body) {
        (
            Some(JsonTree::Text(path)),
            Some(JsonTree::Number(Some(line))),
            Some(severity),
            Some(kind),
            Some(JsonTree::Text(body)),
        ) => match severity_value(severity) {
            Some(severity) => Some(FindingView { path, line, severity, kind, body }),
            None => None,
        },
        _ => None,
    }
}

/// The finding that a JSON value gives: an object with fields of the finding's names, others
/// being passed over, or an array of the five values in order.
pub open spec fn finding_value(tree: JsonTree) -> Option<FindingView> {
    match tree {
        JsonTree::Object(fields) => finding_of_parts(
            json::field(tree, "path"@),
            json::field(tree, "line"@),
            json::field(tree, "severity"@),
            json::field(tree, "kind"@),
            json::field(tree, "body"@),
        ),
        JsonTree::Array(items) => if items.len() == 5 {
            finding_of_parts(
                Some(items[0]),
                Some(items[1]),
                Some(items[2]),
                Some(items[3]),
                Some(items[4]),
            )
        } else {
            None
        },
        _ => None,
    }
}

/// Every one of the values gives a finding.
pub open spec fn all_findings(items: Seq<JsonTree>) -> bool {
    forall|i: int| 0 <= i < items.len() ==> finding_value(#[trigger] items[i]) is Some
}

/// The review that a JSON value gives. It needs a summary text and an array of findings, each of
/// which must be one; what falls short of that is no review.
pub open spec fn review_value(
    tree: JsonTree,
    usage: TokenUsage,
    model_used: Seq<char>,
) -> ReviewEnvelopeView {
    match json::field(tree, "summary"@) {
        Some(JsonTree::Text(summary)) => match json::field(tree, "findings"@) {
            Some(JsonTree::Array(items)) => if all_findings(items) {
                ReviewEnvelopeView {
                    summary,
                    findings: items.map_values(|item: JsonTree| finding_value(item)->0),
                    usage,
                    model_used,
                }
            } else {
                invalid_output(INVALID_FINDING@, usage, model_used)
            },
            _ => invalid_output(NO_FINDINGS@, usage, model_used),
        },
        _ => invalid_output(NO_SUMMARY@, usage, model_used),
    }
}

/// The review that a model's output gives.
pub open spec fn review_text(
    text: Seq<char>,
    usage: TokenUsage,
    model_used: Seq<char>,
) -> ReviewEnvelopeView {
    match json_part(text) {
        Some(part) => match json::json_document(part) {
            Some(tree) => review_value(tree, usage, model_used),
            None => invalid_output(NOT_JSON@, usage, model_used),
        },
        None => invalid_output(NOT_JSON@, usage, model_used),
    }
}

/// The name of the variant that a value is.
fn read_variant(value: &Json) -> (r: Option<&str>)
    ensures
        match r {
            Some(name) => variant_name(value@) == Some(name@),
            None => variant_name(value@) is None,
        },
{
    match value {
        Json::Text(s) => Some(s.as_str()),
        Json::Object(fields) => {
            if fields.len() != 1 {
                return None;
            }
            assert(value@->Object_0[0] == (fields@[0].0@, fields@[0].1@));
            match &fields[0].1 {
                Json::Null => Some(fields[0].0.as_str()),
                _ => None,
            }
        },
        _ => None,
    }
}

fn read_severity(value: &Json) -> (r: Option<Severity>)
    ensures
        r == severity_value(value@),
{
    match read_variant(value) {
        Some(name) => Severity::named(name),
        None => None,
    }
}

/// The contents of an optional JSON value.
pub open spec fn opt_tree(value: Option<&Json>) -> Option<JsonTree> {
    match value {
        Some(v) => Some(v@),
        None => None,
    }
}

fn read_kind(value: Option<&Json>) -> (r: Option<Option<FindingKind>>)
    ensures
        r == kind_value(opt_tree(value)),
{
    match value {
        None => Some(None),
        Some(Json::Null) => Some(None),
        Some(other) => match read_variant(other) {
            Some(name) => match FindingKind::named(name) {
                Some(kind) => Some(Some(kind)),
                None => None,
            },
            None => None,
        },
    }
}

fn read_parts(
    path: Option<&Json>,
    line: Option<&Json>,
    severity: Option<&Json>,
    kind: Option<&Json>,
    body: Option<&Json>,
) -> (r: Option<Finding>)
    ensures
        finding_of_parts(
            opt_tree(path),
            opt_tree(line),
            opt_tree(severity),
            opt_tree(kind),
            opt_tree(body),
        ) == (match r {
            Some(f) => Some(f@),
            None => None,
        }),
{
    let kind: Option<FindingKind> = match read_kind(kind) {
        Some(kind) => kind,
        None => {
            return None;
        },
    };
    match (path, line, severity, body) {
        (
            Some(Json::Text(path)),
            Some(Json::Number(Some(line))),
            Some(severity),
            Some(Json::Text(body)),
        ) => match read_severity(severity) {
            Some(severity) => Some(
                Finding { path: path.clone(), line: *line, severity, kind, body: body.clone() },
            ),
            None => None,
        },
        _ => None,
    }
}

/// The finding that a JSON value gives.
pub fn read_finding(value: &Json) -> (r: Option<Finding>)
    ensures
        finding_value(value@) == (match r {
            Some(f) => Some(f@),
            None => None,
        }),
{
    match value {
        Json::Object(_) => read_parts(
            value.get("path"),
            value.get("line"),
            value.get("severity"),
            value.get("kind"),
            value.get("body"),
        ),
        Json::Array(items) => {
            let ghost trees = value@->Array_0;
            assert(trees.len() == items@.len());
            if items.len() == 5 {
                assert(forall|i: int| 0 <= i < 5 ==> trees[i] == (#[trigger] items@[i])@);
                read_parts(
                    Some(&items[0]),
                    Some(&items[1]),
                    Some(&items[2]),
                    Some(&items[3]),
                    Some(&items[4]),
                )
            } else {
                None
            }
        },
        _ => None,
    }
}

/// The review that a JSON value gives.
pub fn parse_value(value: &Json, usage: TokenUsage, model_used: String) -> (r: ReviewEnvelope)
    ensures
        r@ == review_value(value@, usage, model_used@),
{
    let summary: &str = match value.get("summary") {
        Some(v) => match v.as_str() {
            Some(s) => s,
            None => {
                return invalid_model_output(NO_SUMMARY, usage, model_used);
            },
        },
        None => {
            return invalid_model_output(NO_SUMMARY, usage, model_used);
        },
    };
    let items: &Vec<Json> = match value.get("findings") {
        Some(v) => match v.as_array() {
            Some(items) => items,
            None => {
                return invalid_model_output(NO_FINDINGS, usage, model_used);
            },
        },
        None => {
            return invalid_model_output(NO_FINDINGS, usage, model_used);
        },
    };
    let ghost trees = json::field(value@, "findings"@)->0->Array_0;
    let mut findings: Vec<Finding> = Vec::new();
    let mut i: usize = 0;
    while i < items.len()
        invariant
            i <= items.len(),
            trees.len() == items@.len(),
            forall|j: int| 0 <= j < trees.len() ==> (#[trigger] trees[j]) == items@[j]@,
            findings@.len() == i,
            forall|j: int| 0 <= j < i ==> finding_value(#[trigger] trees[j]) == Some(findings@[j]@),
            json::field(value@, "findings"@) == Some(JsonTree::Array(trees)),
            json::field(value@, "summary"@) == Some(JsonTree::Text(summary@)),
        decreases items.len() - i,
    {
        assert(trees[i as int] == items@[i as int]@);
        match read_finding(&items[i]) {
            Some(finding) => findings.push(finding),
            None => {
                assert(!all_findings(trees));
                return invalid_model_output(INVALID_FINDING, usage, model_used);
            },
        }
        i = i + 1;
    }
    assert(all_findings(trees));
    assert(finding_views(findings@) =~= trees.map_values(
        |item: JsonTree| finding_value(item)->0,
    ));
    ReviewEnvelope { summary: summary.to_owned(), findings, usage, model_used }
}

/// The review that a model's output gives. Output that is no review gives a review with one
/// error that says so.
pub fn parse_envelope(text: &str, usage: TokenUsage, model_used: String) -> (r: ReviewEnvelope)
    ensures
        r@ == review_text(text@, usage, model_used@),
{
    let raw: &str = match fenced_json(text) {
        Some(inside) => inside,
        None => text,
    };
    if let Some(slice) = json_object_slice(raw) {
        if let Some(value) = parse_json(slice) {
            return parse_value(&value, usage, model_used);
        }
    }
    invalid_model_output(NOT_JSON, usage, model_used)
}

/// Output without an object in braces is no review.
pub proof fn law_output_without_object_is_invalid(
    text: Seq<char>,
    usage: TokenUsage,
    model_used: Seq<char>,
)
    requires
        !text.contains('{') || !text.contains('}'),
    ensures
        review_text(text, usage, model_used) == invalid_output(NOT_JSON@, usage, model_used),
{
    lemma_no_braces_no_object(text);
    if let Some(inside) = fenced(text) {
        lemma_fenced_is_inside(text);
        assert(!inside.contains('{') || !inside.contains('}')) by {
            if inside.contains('{') && inside.contains('}') {
                let i = choose|i: int| 0 <= i < inside.len() && inside[i] == '{';
                let j = choose|j: int| 0 <= j < inside.len() && inside[j] == '}';
                assert(text.contains(inside[i]) && text.contains(inside[j]));
            }
        }
        lemma_no_braces_no_object(inside);
    }
}

proof fn lemma_no_braces_no_object(text: Seq<char>)
    requires
        !text.contains('{') || !text.contains('}'),
    ensures
        object_slice(text) is None,
{
    chars::lemma_find_from(text, seq!['{'], 0);
    chars::lemma_rfind_char(text, '}');
    if let Some(i) = chars::find_char(text, '{') {
        assert(text.subrange(i, i + 1)[0] == '{');
        assert(text[i] == '{');
    }
}

/// The inside of a fence holds only characters of the text.
proof fn lemma_fenced_is_inside(text: Seq<char>)
    ensures
        fenced(text) matches Some(inside) ==> forall|i: int|
            0 <= i < inside.len() ==> text.contains(#[trigger] inside[i]),
{
    if let Some(inside) = fenced(text) {
        let open = chars::find(text, "```"@)->0;
        reveal_strlit("```");
        chars::lemma_find_from(text, "```"@, 0);
        let after = text.skip(open + 3);
        let start = match chars::find_char(after, '\n') {
            Some(i) => i + 1,
            None => 0,
        };
        chars::lemma_find_from(after, seq!['\n'], 0);
        let content = after.skip(start);
        chars::lemma_find_from(content, "```"@, 0);
        let close = chars::find(content, "```"@)->0;
        let cut = chars::lemma_trim_parts(content.take(close));
        assert forall|i: int| 0 <= i < inside.len() implies text.contains(#[trigger] inside[i]) by {
            assert(inside[i] == text[open + 3 + start + cut.0 + i]);
        }
    }
}

/// Output is a review or fails closed: either all its findings are there, or there is exactly the
/// one error that says that the output is no review.
pub proof fn law_output_fails_closed(text: Seq<char>, usage: TokenUsage, model_used: Seq<char>)
    ensures
        ({
            let r = review_text(text, usage, model_used);
            &&& r.usage == usage
            &&& r.model_used == model_used
            &&& {
                ||| r == invalid_output(NOT_JSON@, usage, model_used)
                ||| r == invalid_output(NO_SUMMARY@, usage, model_used)
                ||| r == invalid_output(NO_FINDINGS@, usage, model_used)
                ||| r == invalid_output(INVALID_FINDING@, usage, model_used)
                ||| exists|tree: JsonTree|
                    {
                        &&& json_part(text) is Some
                        &&& json::json_document(json_part(text)->0) == Some(tree)
                        &&& json::field(tree, "summary"@) == Some(JsonTree::Text(r.summary))
                        &&& json::field(tree, "findings"@) matches Some(JsonTree::Array(items))
                        &&& r.findings.len() == items.len()
                        &&& forall|i: int|
                            0 <= i < items.len() ==> finding_value(items[i]) == Some(
                                #[trigger] r.findings[i],
                            )
                        &&& #[trigger] review_value(tree, usage, model_used) == r
                    }
            }
        }),
{
    if let Some(part) = json_part(text) {
        if let Some(tree) = json::json_document(part) {
            let r = review_value(tree, usage, model_used);
            assert(review_value(tree, usage, model_used) == r);
        }
    }
}

/// An object that stands in a text without a code fence, with no opening brace before it and no
/// closing one after it, is what is read of the text. In particular an object with prose around
/// it that has neither braces nor fences is read as that object.
pub proof fn law_object_is_found_in_prose(
    before: Seq<char>,
    object: Seq<char>,
    after: Seq<char>,
)
    requires
        object.len() >= 2,
        object[0] == '{',
        object.last() == '}',
        !before.contains('{'),
        !after.contains('}'),
        chars::find(before, "```"@) is None,
        chars::find(object, "```"@) is None,
        chars::find(after, "```"@) is None,
    ensures
        json_part(before + object + after) == Some(object),
{
    let text = before + object + after;
    lemma_no_fence_across_braces(before, object, after);
    lemma_first_brace(before, object + after);
    assert(before + (object + after) =~= text);
    lemma_last_brace(before + object, after);
    assert(text.subrange(before.len() as int, (before + object).len() as int) =~= object);
}

/// The first opening brace of a text is the one that comes behind a part without any.
proof fn lemma_first_brace(before: Seq<char>, rest: Seq<char>)
    requires
        rest.len() > 0,
        rest[0] == '{',
        !before.contains('{'),
    ensures
        chars::find_char(before + rest, '{') == Some(before.len() as int),
{
    let text = before + rest;
    let start = before.len() as int;
    chars::lemma_find_from(text, seq!['{'], 0);
    assert(text.subrange(start, start + 1) =~= seq!['{']);
    assert(chars::occurs_at(text, seq!['{'], start));
    let i = chars::find_char(text, '{')->0;
    if i < start {
        assert(text.subrange(i, i + 1)[0] == '{');
        assert(before[i] == '{');
    }
}

/// The last closing brace of a text is the one that comes before a part without any.
proof fn lemma_last_brace(first: Seq<char>, after: Seq<char>)
    requires
        first.len() > 0,
        first.last() == '}',
        !after.contains('}'),
    ensures
        chars::rfind_char(first + after, '}') == Some(first.len() - 1),
{
    let text = first + after;
    let end = first.len() - 1;
    chars::lemma_rfind_char(text, '}');
    assert(text[end] == '}');
    let i = chars::rfind_char(text, '}')->0;
    if i > end {
        assert(after[i - first.len()] == '}');
    }
}

/// An object between braces keeps the fences of what stands around it apart.
proof fn lemma_no_fence_across_braces(before: Seq<char>, object: Seq<char>, after: Seq<char>)
    requires
        object.len() >= 2,
        object[0] == '{',
        object.last() == '}',
        chars::find(before, "```"@) is None,
        chars::find(object, "```"@) is None,
        chars::find(after, "```"@) is None,
    ensures
        chars::find(before + object + after, "```"@) is None,
{
    let text = before + object + after;
    let fence = "```"@;
    reveal_strlit("```");
    chars::lemma_find_from(before, fence, 0);
    chars::lemma_find_from(object, fence, 0);
    chars::lemma_find_from(after, fence, 0);
    chars::lemma_find_from(text, fence, 0);
    if let Some(j) = chars::find(text, fence) {
        let start = before.len() as int;
        let end = start + object.len();
        assert forall|k: int| j <= k < j + 3 implies text[k] == '`' by {
            assert(text.subrange(j, j + 3)[k - j] == fence[k - j]);
        }
        assert(text[start] == '{' && text[end - 1] == '}');
        if j + 3 <= start {
            assert(before.subrange(j, j + 3) =~= fence);
            assert(chars::occurs_at(before, fence, j));
        } else if j >= end {
            assert(after.subrange(j - end, j - end + 3) =~= fence);
            assert(chars::occurs_at(after, fence, j - end));
        } else {
            assert(start < j && j + 3 < end);
            assert(object.subrange(j - start, j - start + 3) =~= fence);
            assert(chars::occurs_at(object, fence, j - start));
        }
    }
}

// ---------------------------------------------------------------------------
// Writing a review
// ---------------------------------------------------------------------------

/// A finding as a JSON value. Where it has no kind, there is no such field.
pub open spec fn finding_tree(f: FindingView) -> JsonTree {
    JsonTree::Object(
        seq![
            ("path"@, JsonTree::Text(f.path)),
            ("line"@, JsonTree::Number(Some(f.line))),
            ("severity"@, JsonTree::Text(config::severity_name(f.severity))),
        ] + (match f.kind {
            Some(kind) => seq![("kind"@, JsonTree::Text(kind_name(kind)))],
            None => Seq::empty(),
        }) + seq![("body"@, JsonTree::Text(f.body))],
    )
}

/// The tokens that a completion took, as a JSON value.
pub open spec fn usage_tree(usage: TokenUsage) -> JsonTree {
    JsonTree::Object(
        seq![
            ("promptTokens"@, JsonTree::Number(Some(usage.prompt_tokens))),
            ("completionTokens"@, JsonTree::Number(Some(usage.completion_tokens))),
            ("totalTokens"@, JsonTree::Number(Some(usage.total_tokens))),
        ],
    )
}

/// A review as a JSON value.
pub open spec fn review_tree(envelope: ReviewEnvelopeView) -> JsonTree {
    JsonTree::Object(
        seq![
            ("summary"@, JsonTree::Text(envelope.summary)),
            (
                "findings"@,
                JsonTree::Array(envelope.findings.map_values(|f: FindingView| finding_tree(f))),
            ),
            ("usage"@, usage_tree(envelope.usage)),
            ("modelUsed"@, JsonTree::Text(envelope.model_used)),
        ],
    )
}

/// The names of a finding's fields, and of a review's, tell them apart.
proof fn lemma_field_names()
    ensures
        "path"@ != "line"@,
        "path"@ != "severity"@,
        "path"@ != "kind"@,
        "path"@ != "body"@,
        "line"@ != "severity"@,
        "line"@ != "kind"@,
        "line"@ != "body"@,
        "severity"@ != "kind"@,
        "severity"@ != "body"@,
        "kind"@ != "body"@,
        "summary"@ != "findings"@,
        "summary"@ != "usage"@,
        "summary"@ != "modelUsed"@,
        "findings"@ != "usage"@,
        "findings"@ != "modelUsed"@,
        "usage"@ != "modelUsed"@,
        "promptTokens"@ != "completionTokens"@,
        "promptTokens"@ != "totalTokens"@,
        "completionTokens"@ != "totalTokens"@,
{
    reveal_strlit("path");
    reveal_strlit("line");
    reveal_strlit("severity");
    reveal_strlit("kind");
    reveal_strlit("body");
    reveal_strlit("summary");
    reveal_strlit("findings");
    reveal_strlit("usage");
    reveal_strlit("modelUsed");
    reveal_strlit("promptTokens");
    reveal_strlit("completionTokens");
    reveal_strlit("totalTokens");
    assert("path"@[0] == 'p' && "line"@[0] == 'l' && "severity"@[0] == 's' && "kind"@[0] == 'k'
        && "body"@[0] == 'b');
    assert("summary"@[0] == 's' && "findings"@[0] == 'f' && "usage"@[0] == 'u' && "modelUsed"@[0]
        == 'm');
    assert("promptTokens"@[0] == 'p' && "completionTokens"@[0] == 'c' && "totalTokens"@[0] == 't');
}

/// A finding that is written is read back.
pub proof fn law_written_finding_is_read_back(f: FindingView)
    ensures
        finding_value(finding_tree(f)) == Some(f),
{
    lemma_field_names();
    config::law_severity_names_round_trip(f.severity);
    if let Some(kind) = f.kind {
        law_kind_names_round_trip(kind);
    }
    let fields = finding_tree(f)->Object_0;
    reveal_with_fuel(json::field_from, 6);
    assert(fields[0].0 == "path"@ && fields[1].0 == "line"@ && fields[2].0 == "severity"@);
    assert(fields.last().0 == "body"@);
}

/// A review that is written is read back, also with prose around it that has neither braces nor
/// code fences. `object` is any text without a code fence that denotes the written review.
pub proof fn law_written_review_is_read_back(
    before: Seq<char>,
    object: Seq<char>,
    after: Seq<char>,
    envelope: ReviewEnvelopeView,
)
    requires
        object.len() >= 2,
        object[0] == '{',
        object.last() == '}',
        !before.contains('{'),
        !after.contains('}'),
        chars::find(before, "```"@) is None,
        chars::find(object, "```"@) is None,
        chars::find(after, "```"@) is None,
    ensures
        json::json_document(object) == Some(review_tree(envelope)) ==> review_text(
            before + object + after,
            envelope.usage,
            envelope.model_used,
        ) == envelope,
{
    law_object_is_found_in_prose(before, object, after);
    let tree = review_tree(envelope);
    let fields = tree->Object_0;
    lemma_field_names();
    reveal_with_fuel(json::field_from, 5);
    assert(fields[0].0 == "summary"@ && fields[1].0 == "findings"@);
    let items = envelope.findings.map_values(|f: FindingView| finding_tree(f));
    assert(json::field(tree, "summary"@) == Some(JsonTree::Text(envelope.summary)));
    assert(json::field(tree, "findings"@) == Some(JsonTree::Array(items)));
    assert forall|i: int| 0 <= i < items.len() implies finding_value(#[trigger] items[i]) == Some(
        envelope.findings[i],
    ) by {
        law_written_finding_is_read_back(envelope.findings[i]);
    }
    assert(items.map_values(|item: JsonTree| finding_value(item)->0) =~= envelope.findings);
    assert(review_value(tree, envelope.usage, envelope.model_used) =~= envelope);
}

/// A review can be written: it is three levels deep.
proof fn lemma_review_is_writable(envelope: ReviewEnvelopeView, levels: nat)
    requires
        levels >= 3,
    ensures
        json::writable(review_tree(envelope), levels),
{
    lemma_field_names();
    let inner = (levels - 1) as nat;
    let innermost = (levels - 2) as nat;
    let items = envelope.findings.map_values(|f: FindingView| finding_tree(f));
    assert forall|i: int| 0 <= i < items.len() implies json::writable(
        #[trigger] items[i],
        innermost,
    ) by {
        let fields = items[i]->Object_0;
        assert(items[i] == finding_tree(envelope.findings[i]));
        assert(json::distinct_names(fields));
        assert(forall|k: int| 0 <= k < fields.len() ==> json::writable((#[trigger] fields[k]).1, (
        innermost - 1) as nat));
    }
    assert(json::writable(JsonTree::Array(items), inner));
    let counts = usage_tree(envelope.usage)->Object_0;
    assert(json::distinct_names(counts));
    assert(forall|k: int| 0 <= k < counts.len() ==> json::writable((#[trigger] counts[k]).1, (inner
        - 1) as nat));
    assert(json::writable(usage_tree(envelope.usage), inner));
    let fields = review_tree(envelope)->Object_0;
    assert(json::distinct_names(fields));
    assert forall|k: int| 0 <= k < fields.len() implies json::writable(
        (#[trigger] fields[k]).1,
        inner,
    ) by {}
}

fn finding_json(f: &Finding) -> (r: Json)
    ensures
        r@ == finding_tree(f@),
{
    let mut fields: Vec<(String, Json)> = vec![
        ("path".to_owned(), Json::Text(f.path.clone())),
        ("line".to_owned(), Json::Number(Some(f.line))),
        ("severity".to_owned(), Json::Text(f.severity.as_str().to_owned())),
    ];
    if let Some(kind) = f.kind {
        fields.push(("kind".to_owned(), Json::Text(kind.name().to_owned())));
    }
    fields.push(("body".to_owned(), Json::Text(f.body.clone())));
    let r = Json::Object(fields);
    proof {
        reveal_with_fuel(json::tree_of, 2);
    }
    assert(r@->Object_0 =~= finding_tree(f@)->Object_0);
    r
}

fn usage_json(usage: TokenUsage) -> (r: Json)
    ensures
        r@ == usage_tree(usage),
{
    let r = Json::Object(
        vec![
            ("promptTokens".to_owned(), Json::Number(Some(usage.prompt_tokens))),
            ("completionTokens".to_owned(), Json::Number(Some(usage.completion_tokens))),
            ("totalTokens".to_owned(), Json::Number(Some(usage.total_tokens))),
        ],
    );
    proof {
        reveal_with_fuel(json::tree_of, 2);
    }
    assert(r@->Object_0 =~= usage_tree(usage)->Object_0);
    r
}

/// A review as a plain JSON value.
pub fn envelope_json(envelope: &ReviewEnvelope) -> (r: Json)
    ensures
        r@ == review_tree(envelope@),
{
    let ghost trees = envelope@.findings.map_values(|f: FindingView| finding_tree(f));
    let mut items: Vec<Json> = Vec::new();
    let mut i: usize = 0;
    while i < envelope.findings.len()
        invariant
            i <= envelope.findings.len(),
            trees == envelope@.findings.map_values(|f: FindingView| finding_tree(f)),
            items@.len() == i,
            forall|j: int| 0 <= j < i ==> (#[trigger] items@[j])@ == trees[j],
        decreases envelope.findings.len() - i,
    {
        assert(envelope@.findings[i as int] == envelope.findings@[i as int]@);
        items.push(finding_json(&envelope.findings[i]));
        i = i + 1;
    }
    let findings = Json::Array(items);
    assert(findings@->Array_0 =~= trees);
    let r = Json::Object(
        vec![
            ("summary".to_owned(), Json::Text(envelope.summary.clone())),
            ("findings".to_owned(), findings),
            ("usage".to_owned(), usage_json(envelope.usage)),
            ("modelUsed".to_owned(), Json::Text(envelope.model_used.clone())),
        ],
    );
    proof {
        reveal_with_fuel(json::tree_of, 2);
    }
    assert(r@->Object_0 =~= review_tree(envelope@)->Object_0);
    r
}

/// Writes a review as JSON. Unless it holds a code fence, what is written is read back as the
/// review, also with prose around it that has neither braces nor code fences.
pub fn review_json(envelope: &ReviewEnvelope) -> (r: String)
    ensures
        r@ == json::pretty_json(review_tree(envelope@)),
        json::json_document(r@) == Some(review_tree(envelope@)),
        chars::find(r@, "```"@) is None ==> forall|before: Seq<char>, after: Seq<char>|
            !before.contains('{') && !after.contains('}') && chars::find(before, "```"@) is None
                && chars::find(after, "```"@) is None ==> #[trigger] review_text(
                before + r@ + after,
                envelope@.usage,
                envelope@.model_used,
            ) == envelope@,
{
    let json: Json = envelope_json(envelope);
    proof {
        lemma_review_is_writable(envelope@, json::LEVELS as nat);
    }
    let r: String = write_json(json);
    proof {
        if chars::find(r@, "```"@) is None {
            assert forall|before: Seq<char>, after: Seq<char>|
                !before.contains('{') && !after.contains('}') && chars::find(before, "```"@) is None
                    && chars::find(after, "```"@) is None implies #[trigger] review_text(
                before + r@ + after,
                envelope@.usage,
                envelope@.model_used,
            ) == envelope@ by {
                law_written_review_is_read_back(before, r@, after, envelope@);
            }
        }
    }
    r
}

// ---------------------------------------------------------------------------
// Applying a repository's configuration
// ---------------------------------------------------------------------------

/// A finding that stays: it weighs enough, and its path is not ignored unless it is about the
/// model's output.
pub open spec fn stays(f: FindingView, ignored: bool, threshold: Severity) -> bool {
    &&& config::severity_rank(f.severity) >= config::severity_rank(threshold)
    &&& about_model_output(f) || !ignored
}

/// The findings that stay, in order. The marks tell of each whether its path is ignored.
pub open spec fn staying(
    findings: Seq<FindingView>,
    ignored: Seq<bool>,
    threshold: Severity,
) -> Seq<FindingView>
    decreases findings.len(),
{
    if findings.len() == 0 {
        Seq::empty()
    } else {
        let before = staying(findings.drop_last(), ignored, threshold);
        if stays(findings.last(), ignored[findings.len() - 1], threshold) {
            before.push(findings.last())
        } else {
            before
        }
    }
}

/// At most `max` findings, unless one of them is about the model's output.
pub open spec fn capped(findings: Seq<FindingView>, max: int) -> Seq<FindingView> {
    if model_output_error(findings) || findings.len() <= max {
        findings
    } else {
        findings.take(max)
    }
}

/// A review with the findings that stay, and no more of them than asked for.
pub open spec fn ruled(
    envelope: ReviewEnvelopeView,
    ignored: Seq<bool>,
    threshold: Severity,
    max: int,
) -> ReviewEnvelopeView {
    ReviewEnvelopeView {
        findings: capped(staying(envelope.findings, ignored, threshold), max),
        ..envelope
    }
}

/// Of each finding, whether one of the patterns matches its path.
pub open spec fn ignore_marks(findings: Seq<FindingView>, patterns: Seq<Seq<char>>) -> Seq<bool> {
    findings.map_values(|f: FindingView| ignore::any_matches(patterns, f.path))
}

/// A review after a repository's threshold, ignored paths and cap.
pub open spec fn configured(
    envelope: ReviewEnvelopeView,
    cfg: RepoReviewConfigView,
) -> ReviewEnvelopeView {
    ruled(
        envelope,
        ignore_marks(envelope.findings, cfg.ignore),
        cfg.severity_threshold,
        cfg.max_findings as int,
    )
}

/// Keeps the findings that weigh enough and are not ignored, and no more than `max` of them. A
/// finding about the model's output is never ignored and never cut off. The marks tell of each
/// finding whether its path is ignored.
pub fn apply_rules(
    envelope: ReviewEnvelope,
    ignored: &Vec<bool>,
    threshold: Severity,
    max: usize,
) -> (r: ReviewEnvelope)
    requires
        ignored@.len() == envelope.findings@.len(),
    ensures
        r@ == ruled(envelope@, ignored@, threshold, max as int),
{
    let ReviewEnvelope { summary, findings, usage, model_used } = envelope;
    let ghost all = finding_views(findings@);
    let ghost marks = ignored@;
    let mut kept: Vec<Finding> = Vec::new();
    let mut i: usize = 0;
    assert(all.take(0) =~= Seq::empty());
    assert(finding_views(kept@) =~= Seq::empty());
    for finding in it: findings
        invariant
            it.seq() == findings@,
            i == it.index(),
            all == finding_views(findings@),
            marks == ignored@,
            ignored@.len() == findings@.len(),
            finding_views(kept@) == staying(all.take(i as int), marks, threshold),
    {
        let ghost before = finding_views(kept@);
        assert(i < ignored.len());
        assert(all[i as int] == finding@);
        assert(all.take(i + 1).drop_last() =~= all.take(i as int));
        assert(all.take(i + 1).last() == finding@);
        if finding.severity.rank() >= threshold.rank() && (same_text(
            finding.path.as_str(),
            MODEL_OUTPUT_PATH,
        ) || !ignored[i]) {
            kept.push(finding);
            assert(finding_views(kept@) =~= before.push(finding@));
        }
        i = i + 1;
    }
    assert(all.take(i as int) =~= all);
    let ghost before = kept@;
    if !has_model_output(&kept) {
        if kept.len() > max {
            kept.truncate(max);
            assert(finding_views(kept@) =~= finding_views(before).take(max as int));
        }
    }
    let r = ReviewEnvelope { summary, findings: kept, usage, model_used };
    assert(r@ =~= ruled(envelope@, marks, threshold, max as int));
    r
}

/// Applies a repository's threshold, ignored paths and cap to a review. Where the ignored paths
/// are no patterns, that is the answer.
pub fn apply_config(envelope: ReviewEnvelope, cfg: &RepoReviewConfig) -> (r: Result<
    ReviewEnvelope,
    IgnoreError,
>)
    ensures
        match r {
            Ok(out) => ignore::usable(cfg@.ignore) && out@ == configured(envelope@, cfg@),
            Err(e) => ignore::ignore_error(cfg@.ignore, e@),
        },
        cfg@.ignore.len() == 0 ==> r is Ok,
{
    assert(cfg@.ignore.len() == cfg.ignore@.len());
    let set: globset::GlobSet = match build_ignore(&cfg.ignore) {
        Ok(set) => set,
        Err(e) => {
            return Err(e);
        },
    };
    let mut ignored: Vec<bool> = Vec::new();
    let ghost marks = ignore_marks(envelope@.findings, cfg@.ignore);
    let mut i: usize = 0;
    while i < envelope.findings.len()
        invariant
            i <= envelope.findings.len(),
            ignored@.len() == i,
            ignore::set_patterns(set) == cfg@.ignore,
            marks == ignore_marks(envelope@.findings, cfg@.ignore),
            forall|j: int| 0 <= j < i ==> ignored@[j] == #[trigger] marks[j],
        decreases envelope.findings.len() - i,
    {
        let hit: bool = is_ignored(&set, envelope.findings[i].path.as_str());
        assert(envelope@.findings[i as int] == envelope.findings@[i as int]@);
        assert(marks[i as int] == hit);
        ignored.push(hit);
        i = i + 1;
    }
    assert(ignored@ =~= marks);
    Ok(apply_rules(envelope, &ignored, cfg.severity_threshold, cfg.max_findings))
}

/// A finding stays under a repository's configuration.
pub open spec fn stays_under(f: FindingView, cfg: RepoReviewConfigView) -> bool {
    stays(f, ignore::any_matches(cfg.ignore, f.path), cfg.severity_threshold)
}

/// The findings that stay are those of the list that do, in its order.
proof fn lemma_staying_is_filter(
    findings: Seq<FindingView>,
    marks: Seq<bool>,
    cfg: RepoReviewConfigView,
)
    requires
        findings.len() <= marks.len(),
        forall|i: int|
            0 <= i < findings.len() ==> marks[i] == ignore::any_matches(
                cfg.ignore,
                (#[trigger] findings[i]).path,
            ),
    ensures
        staying(findings, marks, cfg.severity_threshold) == findings.filter(
            |f: FindingView| stays_under(f, cfg),
        ),
    decreases findings.len(),
{
    reveal(Seq::filter);
    if findings.len() > 0 {
        let init = findings.drop_last();
        assert forall|i: int| 0 <= i < init.len() implies marks[i] == ignore::any_matches(
            cfg.ignore,
            (#[trigger] init[i]).path,
        ) by {
            assert(init[i] == findings[i]);
        }
        lemma_staying_is_filter(init, marks, cfg);
        assert(findings.last() == findings[findings.len() - 1]);
    }
}

/// The findings that stay of a list all of which stay are the list.
proof fn lemma_staying_keeps_all(
    findings: Seq<FindingView>,
    marks: Seq<bool>,
    threshold: Severity,
)
    requires
        findings.len() <= marks.len(),
        forall|i: int|
            0 <= i < findings.len() ==> stays(#[trigger] findings[i], marks[i], threshold),
    ensures
        staying(findings, marks, threshold) == findings,
    decreases findings.len(),
{
    if findings.len() > 0 {
        let init = findings.drop_last();
        assert forall|i: int| 0 <= i < init.len() implies stays(
            #[trigger] init[i],
            marks[i],
            threshold,
        ) by {
            assert(init[i] == findings[i]);
        }
        lemma_staying_keeps_all(init, marks, threshold);
        assert(stays(findings[findings.len() - 1], marks[findings.len() - 1], threshold));
        assert(init.push(findings.last()) =~= findings);
    } else {
        assert(findings =~= Seq::empty());
    }
}

/// A configuration takes findings away and adds none: what it leaves are the findings that stay
/// under it, in their order, or the first of them where there are more than it asks for.
pub proof fn law_configured_findings(envelope: ReviewEnvelopeView, cfg: RepoReviewConfigView)
    ensures
        configured(envelope, cfg).findings.is_prefix_of(
            envelope.findings.filter(|f: FindingView| stays_under(f, cfg)),
        ),
        configured(envelope, cfg).findings.len() <= cfg.max_findings || model_output_error(
            configured(envelope, cfg).findings,
        ),
        configured(envelope, cfg).findings.len() < cfg.max_findings ==> configured(
            envelope,
            cfg,
        ).findings == envelope.findings.filter(|f: FindingView| stays_under(f, cfg)),
        forall|i: int|
            0 <= i < configured(envelope, cfg).findings.len() ==> {
                &&& stays_under(#[trigger] configured(envelope, cfg).findings[i], cfg)
                &&& envelope.findings.contains(configured(envelope, cfg).findings[i])
            },
        configured(envelope, cfg).summary == envelope.summary,
        configured(envelope, cfg).usage == envelope.usage,
        configured(envelope, cfg).model_used == envelope.model_used,
{
    let pred = |f: FindingView| stays_under(f, cfg);
    let marks = ignore_marks(envelope.findings, cfg.ignore);
    lemma_staying_is_filter(envelope.findings, marks, cfg);
    let kept = envelope.findings.filter(pred);
    let out = configured(envelope, cfg).findings;
    assert(out == capped(kept, cfg.max_findings as int));
    assert(out =~= kept.subrange(0, out.len() as int));
    assert forall|i: int| 0 <= i < out.len() implies {
        &&& stays_under(#[trigger] out[i], cfg)
        &&& envelope.findings.contains(out[i])
    } by {
        assert(out[i] == kept[i]);
        envelope.findings.lemma_filter_pred(pred, i);
        assert(pred(kept[i]));
        assert(kept.contains(kept[i]));
        envelope.findings.lemma_filter_contains_rev(pred, kept[i]);
    }
}

/// Applying a configuration twice is applying it once.
pub proof fn law_configured_idempotent(envelope: ReviewEnvelopeView, cfg: RepoReviewConfigView)
    ensures
        configured(configured(envelope, cfg), cfg) == configured(envelope, cfg),
{
    let once = configured(envelope, cfg);
    law_configured_findings(envelope, cfg);
    let marks = ignore_marks(once.findings, cfg.ignore);
    assert forall|i: int| 0 <= i < once.findings.len() implies stays(
        #[trigger] once.findings[i],
        marks[i],
        cfg.severity_threshold,
    ) by {
        assert(stays_under(once.findings[i], cfg));
        assert(marks[i] == ignore::any_matches(cfg.ignore, once.findings[i].path));
    }
    lemma_staying_keeps_all(once.findings, marks, cfg.severity_threshold);
    assert(configured(once, cfg) =~= once);
}

/// Output that is no review stays so: no threshold, no ignored path and no cap takes its error
/// away.
pub proof fn law_invalid_output_survives_any_config(
    body: Seq<char>,
    usage: TokenUsage,
    model_used: Seq<char>,
    cfg: RepoReviewConfigView,
)
    ensures
        configured(invalid_output(body, usage, model_used), cfg) == invalid_output(
            body,
            usage,
            model_used,
        ),
        model_output_error(invalid_output(body, usage, model_used).findings),
{
    let r = invalid_output(body, usage, model_used);
    let marks = ignore_marks(r.findings, cfg.ignore);
    assert(about_model_output(r.findings[0]));
    assert(stays(r.findings[0], marks[0], cfg.severity_threshold));
    lemma_staying_keeps_all(r.findings, marks, cfg.severity_threshold);
    assert(configured(r, cfg) =~= r);
}

/// An error about the model's output is in the review after every configuration.
pub proof fn law_model_output_errors_survive(
    envelope: ReviewEnvelopeView,
    cfg: RepoReviewConfigView,
    i: int,
)
    requires
        0 <= i < envelope.findings.len(),
        about_model_output(envelope.findings[i]),
        envelope.findings[i].severity == Severity::Error,
    ensures
        configured(envelope, cfg).findings.contains(envelope.findings[i]),
        model_output_error(configured(envelope, cfg).findings),
{
    let pred = |f: FindingView| stays_under(f, cfg);
    let marks = ignore_marks(envelope.findings, cfg.ignore);
    lemma_staying_is_filter(envelope.findings, marks, cfg);
    let f = envelope.findings[i];
    assert(pred(f));
    envelope.findings.lemma_filter_contains(pred, i);
    let kept = envelope.findings.filter(pred);
    let k = choose|k: int| 0 <= k < kept.len() && kept[k] == f;
    assert(about_model_output(kept[k]));
}

/// A configuration that ignores nothing, has the lowest threshold and room for all findings
/// changes nothing.
pub proof fn law_permissive_config_changes_nothing(
    envelope: ReviewEnvelopeView,
    cfg: RepoReviewConfigView,
)
    requires
        cfg.ignore.len() == 0,
        cfg.severity_threshold == Severity::Info,
        envelope.findings.len() <= cfg.max_findings,
    ensures
        configured(envelope, cfg) == envelope,
{
    let marks = ignore_marks(envelope.findings, cfg.ignore);
    lemma_staying_keeps_all(envelope.findings, marks, cfg.severity_threshold);
    assert(configured(envelope, cfg) =~= envelope);
}

// ---------------------------------------------------------------------------
// What is said of a review
// ---------------------------------------------------------------------------

/// The number of findings of a severity.
pub open spec fn count_of(findings: Seq<FindingView>, severity: Severity) -> nat
    decreases findings.len(),
{
    if findings.len() == 0 {
        0
    } else {
        count_of(findings.drop_last(), severity) + if findings.last().severity == severity {
            1nat
        } else {
            0nat
        }
    }
}

/// Every finding is counted under one severity.
pub proof fn law_counts_add_up(findings: Seq<FindingView>)
    ensures
        count_of(findings, Severity::Error) + count_of(findings, Severity::Warn) + count_of(
            findings,
            Severity::Info,
        ) == findings.len(),
    decreases findings.len(),
{
    if findings.len() > 0 {
        law_counts_add_up(findings.drop_last());
    }
}

/// A severity counts for something exactly when a finding has it.
pub proof fn lemma_count_is_positive(findings: Seq<FindingView>, severity: Severity)
    ensures
        count_of(findings, severity) > 0 <==> exists|i: int|
            0 <= i < findings.len() && (#[trigger] findings[i]).severity == severity,
    decreases findings.len(),
{
    if findings.len() > 0 {
        let init = findings.drop_last();
        lemma_count_is_positive(init, severity);
        if count_of(init, severity) > 0 {
            let i = choose|i: int|
                0 <= i < init.len() && (#[trigger] init[i]).severity == severity;
            assert(findings[i] == init[i]);
        }
        if findings.last().severity == severity {
            assert(findings[findings.len() - 1].severity == severity);
        }
        if exists|i: int| 0 <= i < findings.len() && (#[trigger] findings[i]).severity == severity {
            let i = choose|i: int|
                0 <= i < findings.len() && (#[trigger] findings[i]).severity == severity;
            if i < init.len() {
                assert(init[i] == findings[i]);
            }
        }
    }
}

/// The number of findings of a severity.
pub fn count_findings(findings: &Vec<Finding>, severity: Severity) -> (n: usize)
    ensures
        n == count_of(finding_views(findings@), severity),
{
    let ghost all = finding_views(findings@);
    let mut n: usize = 0;
    let mut i: usize = 0;
    assert(all.take(0) =~= Seq::empty());
    while i < findings.len()
        invariant
            i <= findings.len(),
            n <= i,
            all == finding_views(findings@),
            n == count_of(all.take(i as int), severity),
        decreases findings.len() - i,
    {
        assert(all.take(i + 1).drop_last() =~= all.take(i as int));
        assert(all.take(i + 1).last() == findings@[i as int]@);
        if findings[i].severity == severity {
            n = n + 1;
        }
        i = i + 1;
    }
    assert(all.take(i as int) =~= all);
    n
}

/// The line that sums a review up.
pub open spec fn status_text(
    findings: Seq<FindingView>,
    inline_comments: nat,
    label: Seq<char>,
) -> Seq<char> {
    "Postil status: "@ + label + " | errors="@ + chars::decimal(
        count_of(findings, Severity::Error),
    ) + " warnings="@ + chars::decimal(count_of(findings, Severity::Warn)) + " info="@
        + chars::decimal(count_of(findings, Severity::Info)) + " inline_comments="@
        + chars::decimal(inline_comments)
}

/// The line that sums a review up.
pub fn status_line(envelope: &ReviewEnvelope, inline_comments: usize, label: &str) -> (r: String)
    ensures
        r@ == status_text(envelope@.findings, inline_comments as nat, label@),
{
    let errors: usize = count_findings(&envelope.findings, Severity::Error);
    let warnings: usize = count_findings(&envelope.findings, Severity::Warn);
    let infos: usize = count_findings(&envelope.findings, Severity::Info);
    let mut r: String = "Postil status: ".to_owned();
    r.append(label);
    r.append(" | errors=");
    r.append(decimal_text(errors as u64).as_str());
    r.append(" warnings=");
    r.append(decimal_text(warnings as u64).as_str());
    r.append(" info=");
    r.append(decimal_text(infos as u64).as_str());
    r.append(" inline_comments=");
    r.append(decimal_text(inline_comments as u64).as_str());
    r
}

/// A text with a status line behind it, or the status line alone where the text is blank.
pub open spec fn with_status(body: Seq<char>, status: Seq<char>) -> Seq<char> {
    if chars::blank(body) {
        status
    } else {
        chars::trim(body) + "\n\n"@ + status
    }
}

/// `body` with `status` behind it.
pub fn append_status(body: &str, status: &str) -> (r: String)
    ensures
        r@ == with_status(body@, status@),
{
    let text: &str = trimmed(body);
    if text.is_empty() {
        status.to_owned()
    } else {
        let mut r: String = text.to_owned();
        r.append("\n\n");
        r.append(status);
        r
    }
}

/// What is posted with a review: its summary, or where it has findings and no summary a sentence
/// that says so, and then the status line.
pub open spec fn body_text(
    envelope: ReviewEnvelopeView,
    inline_comments: nat,
    label: Seq<char>,
) -> Seq<char> {
    with_status(
        if chars::blank(envelope.summary) && envelope.findings.len() > 0 {
            "Postil found merge-relevant review findings."@
        } else {
            chars::trim(envelope.summary)
        },
        status_text(envelope.findings, inline_comments, label),
    )
}

/// What is posted with a review.
pub fn review_body(envelope: &ReviewEnvelope, inline_comments: usize, label: &str) -> (r: String)
    ensures
        r@ == body_text(envelope@, inline_comments as nat, label@),
{
    let status: String = status_line(envelope, inline_comments, label);
    assert(envelope@.findings.len() == envelope.findings@.len());
    if is_blank(envelope.summary.as_str()) && envelope.findings.len() != 0 {
        append_status("Postil found merge-relevant review findings.", status.as_str())
    } else {
        append_status(trimmed(envelope.summary.as_str()), status.as_str())
    }
}

/// What is posted with a clean review that has nothing to say is its status line alone.
pub proof fn law_clean_review_says_its_status_only(
    envelope: ReviewEnvelopeView,
    inline_comments: nat,
    label: Seq<char>,
)
    requires
        chars::blank(envelope.summary),
        envelope.findings.len() == 0,
    ensures
        body_text(envelope, inline_comments, label) == status_text(
            envelope.findings,
            inline_comments,
            label,
        ),
{
    chars::lemma_trim_idempotent(envelope.summary);
}

// ---------------------------------------------------------------------------
// What holds of every answer that is read
// ---------------------------------------------------------------------------

/// The first fence behind a text that holds none begins at its end, or up to two characters
/// before where the text ends in backticks.
proof fn lemma_fence_behind(before: Seq<char>, rest: Seq<char>)
    requires
        chars::find(before, "```"@) is None,
    ensures
        chars::find(before + "```"@ + rest, "```"@) matches Some(open) && before.len() - 3 < open
            <= before.len() && 0 <= open,
        before.len() == 0 || before.last() != '`' ==> chars::find(
            before + "```"@ + rest,
            "```"@,
        ) == Some(before.len() as int),
{
    let fence = "```"@;
    let text = before + fence + rest;
    let n = before.len() as int;
    reveal_strlit("```");
    chars::law_find_gives_the_first(before, fence);
    chars::law_find_gives_the_first(text, fence);
    assert(text.subrange(n, n + 3) =~= fence);
    let open = chars::find(text, fence)->0;
    if open + 3 <= n {
        assert(before.subrange(open, open + 3) =~= text.subrange(open, open + 3));
    }
    if open < n {
        assert(text[n - 1] == text.subrange(open, open + 3)[n - 1 - open]);
        assert(text[n - 1] == before.last());
    }
}

/// What comes before the closing fence is what was put there.
proof fn lemma_fence_closes(inside: Seq<char>, after: Seq<char>)
    requires
        chars::find(inside, "```"@) is None,
        inside.len() == 0 || inside.last() != '`',
    ensures
        chars::find(inside + "```"@ + after, "```"@) == Some(inside.len() as int),
        (inside + "```"@ + after).take(inside.len() as int) == inside,
{
    lemma_fence_behind(inside, after);
    assert((inside + "```"@ + after).take(inside.len() as int) =~= inside);
}

/// The part behind the line of the opening fence is where the inside of the fence starts.
proof fn lemma_fence_opens(before: Seq<char>, tag: Seq<char>, rest: Seq<char>)
    requires
        chars::find(before, "```"@) is None,
        !tag.contains('\n'),
    ensures
        fenced(before + "```"@ + tag + seq!['\n'] + rest) == (match chars::find(rest, "```"@) {
            Some(close) => Some(chars::trim(rest.take(close))),
            None => None,
        }),
{
    let fence = "```"@;
    let text = before + fence + tag + seq!['\n'] + rest;
    reveal_strlit("```");
    lemma_fence_behind(before, tag + seq!['\n'] + rest);
    assert(before + fence + (tag + seq!['\n'] + rest) =~= text);
    let open = chars::find(text, fence)->0;
    let line = before.len() + 3 + tag.len();
    let behind = text.skip(open + 3);
    chars::law_find_char_gives_the_first(behind, '\n');
    let k = line - open - 3;
    assert(behind[k] == '\n');
    let i = chars::find_char(behind, '\n')->0;
    if i < k {
        let at = i + open + 3;
        if at < before.len() + 3 {
            assert(text[at] == fence[at - before.len()]);
        } else {
            assert(text[at] == tag[at - before.len() - 3]);
            assert(tag.contains(tag[at - before.len() - 3]));
        }
    }
    assert(behind.skip(k + 1) =~= rest);
}

/// What stands in the first code fence is read, with all its lines: whatever comes before the
/// fence, whatever is written on the line that opens it, and whatever comes after it.
pub proof fn law_fence_holds_its_inside(
    before: Seq<char>,
    tag: Seq<char>,
    inside: Seq<char>,
    after: Seq<char>,
)
    requires
        chars::find(before, "```"@) is None,
        !tag.contains('\n'),
        chars::find(inside, "```"@) is None,
        inside.len() == 0 || inside.last() != '`',
    ensures
        fenced(before + "```"@ + tag + seq!['\n'] + inside + "```"@ + after) == Some(
            chars::trim(inside),
        ),
{
    let rest = inside + "```"@ + after;
    lemma_fence_opens(before, tag, rest);
    lemma_fence_closes(inside, after);
    assert(before + "```"@ + tag + seq!['\n'] + rest =~= before + "```"@ + tag + seq!['\n'] + inside
        + "```"@ + after);
}

/// A fence that opens and closes on the last line of a text holds what stands between its ends.
pub proof fn law_fence_on_one_line(before: Seq<char>, inside: Seq<char>, after: Seq<char>)
    requires
        chars::find(before, "```"@) is None,
        before.len() == 0 || before.last() != '`',
        chars::find(inside, "```"@) is None,
        inside.len() == 0 || inside.last() != '`',
        !inside.contains('\n'),
        !after.contains('\n'),
    ensures
        fenced(before + "```"@ + inside + "```"@ + after) == Some(chars::trim(inside)),
{
    let fence = "```"@;
    let rest = inside + fence + after;
    let text = before + fence + rest;
    reveal_strlit("```");
    assert(text =~= before + fence + inside + fence + after);
    lemma_fence_behind(before, rest);
    lemma_fence_closes(inside, after);
    let behind = text.skip(before.len() as int + 3);
    assert(behind =~= rest);
    chars::law_find_char_gives_the_first(rest, '\n');
    if let Some(i) = chars::find_char(rest, '\n') {
        if i < inside.len() {
            assert(inside.contains(inside[i]));
        } else if i < inside.len() + 3 {
            assert(rest[i] == fence[i - inside.len()]);
        } else {
            assert(after.contains(after[i - inside.len() - 3]));
        }
    }
    assert(behind.skip(0) =~= rest);
}

/// A text without a fence, or with one that is not closed behind its line, has no inside of one.
pub proof fn law_no_closed_fence_no_inside(before: Seq<char>, tag: Seq<char>, rest: Seq<char>)
    requires
        chars::find(before, "```"@) is None,
        !tag.contains('\n'),
        chars::find(rest, "```"@) is None,
    ensures
        fenced(before) is None,
        fenced(before + "```"@ + tag + seq!['\n'] + rest) is None,
{
    lemma_fence_opens(before, tag, rest);
}

/// An object in a code fence is what is read, with all its lines, whatever stands before and
/// after the fence.
pub proof fn law_object_is_found_in_fence(
    before: Seq<char>,
    tag: Seq<char>,
    lead: Seq<char>,
    object: Seq<char>,
    trail: Seq<char>,
    after: Seq<char>,
)
    requires
        chars::find(before, "```"@) is None,
        !tag.contains('\n'),
        object.len() >= 2,
        object[0] == '{',
        object.last() == '}',
        !lead.contains('{'),
        !trail.contains('}'),
        chars::find(lead, "```"@) is None,
        chars::find(object, "```"@) is None,
        chars::find(trail, "```"@) is None,
        trail.len() == 0 || trail.last() != '`',
    ensures
        json_part(
            before + "```"@ + tag + seq!['\n'] + (lead + object + trail) + "```"@ + after,
        ) == Some(object),
{
    let inside = lead + object + trail;
    lemma_no_fence_across_braces(lead, object, trail);
    assert(inside.last() == if trail.len() == 0 {
        object.last()
    } else {
        trail.last()
    });
    law_fence_holds_its_inside(before, tag, inside, after);
    let cut = chars::lemma_trim_parts(inside);
    let start = lead.len() as int;
    let end = start + object.len();
    assert(inside[start] == '{' && inside[end - 1] == '}');
    assert(cut.0 <= start && end <= cut.1);
    let lead = inside.subrange(cut.0, start);
    let trail = inside.subrange(end, cut.1);
    lemma_first_brace_in(lead, object, trail);
    assert(lead + object + trail =~= chars::trim(inside));
}

proof fn lemma_first_brace_in(lead: Seq<char>, object: Seq<char>, trail: Seq<char>)
    requires
        object.len() >= 2,
        object[0] == '{',
        object.last() == '}',
        !lead.contains('{'),
        !trail.contains('}'),
    ensures
        object_slice(lead + object + trail) == Some(object),
{
    let text = lead + object + trail;
    lemma_first_brace(lead, object + trail);
    assert(lead + (object + trail) =~= text);
    lemma_last_brace(lead + object, trail);
    assert(text.subrange(lead.len() as int, (lead + object).len() as int) =~= object);
}

/// A review that is written in a code fence is read back.
pub proof fn law_written_review_in_fence_is_read_back(
    before: Seq<char>,
    tag: Seq<char>,
    object: Seq<char>,
    after: Seq<char>,
    envelope: ReviewEnvelopeView,
)
    requires
        chars::find(before, "```"@) is None,
        !tag.contains('\n'),
        object.len() >= 2,
        object[0] == '{',
        object.last() == '}',
        chars::find(object, "```"@) is None,
    ensures
        json::json_document(object) == Some(review_tree(envelope)) ==> review_text(
            before + "```"@ + tag + seq!['\n'] + object + seq!['\n'] + "```"@ + after,
            envelope.usage,
            envelope.model_used,
        ) == envelope,
{
    let none = Seq::<char>::empty();
    let newline = seq!['\n'];
    reveal_strlit("```");
    chars::law_find_gives_the_first(none, "```"@);
    chars::law_find_gives_the_first(newline, "```"@);
    law_object_is_found_in_fence(before, tag, none, object, newline, after);
    assert(before + "```"@ + tag + newline + (none + object + newline) + "```"@ + after =~= before
        + "```"@ + tag + newline + object + newline + "```"@ + after);
    law_written_review_is_read_back(none, object, none, envelope);
    law_object_is_found_in_prose(none, object, none);
}

/// Only the names of kinds name one.
pub proof fn law_named_kind_has_that_name(name: Seq<char>)
    ensures
        kind_named(name) matches Some(kind) ==> kind_name(kind) == name,
{
}

/// An object is read as a finding exactly where its fields say the finding: path and body are
/// texts, the line is a whole number, the severity is named, and so is the kind unless it is
/// missing or null. A name is a text, or an object with that one key and null.
pub proof fn law_finding_is_what_its_fields_say(
    fields: Seq<(Seq<char>, JsonTree)>,
    f: FindingView,
)
    ensures
        finding_value(JsonTree::Object(fields)) == Some(f) <==> {
            let tree = JsonTree::Object(fields);
            let severity = config::severity_name(f.severity);
            &&& json::field(tree, "path"@) == Some(JsonTree::Text(f.path))
            &&& json::field(tree, "line"@) == Some(JsonTree::Number(Some(f.line)))
            &&& json::field(tree, "body"@) == Some(JsonTree::Text(f.body))
            &&& json::field(tree, "severity"@) == Some(JsonTree::Text(severity)) || json::field(
                tree,
                "severity"@,
            ) == Some(JsonTree::Object(seq![(severity, JsonTree::Null)]))
            &&& f.kind matches Some(kind) ==> json::field(tree, "kind"@) == Some(
                JsonTree::Text(kind_name(kind)),
            ) || json::field(tree, "kind"@) == Some(
                JsonTree::Object(seq![(kind_name(kind), JsonTree::Null)]),
            )
            &&& f.kind is None ==> json::field(tree, "kind"@) is None || json::field(tree, "kind"@)
                == Some(JsonTree::Null)
        },
{
    let tree = JsonTree::Object(fields);
    config::law_severity_names_round_trip(f.severity);
    if let Some(kind) = f.kind {
        law_kind_names_round_trip(kind);
    }
    if let Some(value) = json::field(tree, "severity"@) {
        if let JsonTree::Object(inner) = value {
            if inner.len() == 1 && inner[0].1 is Null {
                assert(inner =~= seq![(inner[0].0, JsonTree::Null)]);
            }
        }
    }
    if let Some(value) = json::field(tree, "kind"@) {
        if let JsonTree::Object(inner) = value {
            if inner.len() == 1 && inner[0].1 is Null {
                assert(inner =~= seq![(inner[0].0, JsonTree::Null)]);
            }
        }
    }
}

/// A list of five values is read as the finding that an object with them as its fields would be;
/// any other list, and what is neither list nor object, is no finding.
pub proof fn law_finding_may_be_a_list(items: Seq<JsonTree>)
    ensures
        items.len() == 5 ==> finding_value(JsonTree::Array(items)) == finding_value(
            JsonTree::Object(
                seq![
                    ("path"@, items[0]),
                    ("line"@, items[1]),
                    ("severity"@, items[2]),
                    ("kind"@, items[3]),
                    ("body"@, items[4]),
                ],
            ),
        ),
        items.len() != 5 ==> finding_value(JsonTree::Array(items)) is None,
        finding_value(JsonTree::Null) is None,
        forall|b: bool| #[trigger] finding_value(JsonTree::Bool(b)) is None,
        forall|n: Option<u64>| #[trigger] finding_value(JsonTree::Number(n)) is None,
        forall|s: Seq<char>| #[trigger] finding_value(JsonTree::Text(s)) is None,
{
    lemma_field_names();
    reveal_with_fuel(json::field_from, 6);
}

/// A value with a summary text and an array of findings is the review that they say, and a value
/// without them is none: one error on the model's output, with the given usage and model.
pub proof fn law_review_is_what_its_fields_say(
    tree: JsonTree,
    items: Seq<JsonTree>,
    usage: TokenUsage,
    model_used: Seq<char>,
)
    requires
        json::field(tree, "findings"@) == Some(JsonTree::Array(items)),
    ensures
        ({
            let r = review_value(tree, usage, model_used);
            let said = json::field(tree, "summary"@);
            &&& r.usage == usage
            &&& r.model_used == model_used
            &&& (said matches Some(JsonTree::Text(summary)) ==> (forall|i: int|
                0 <= i < items.len() ==> finding_value(#[trigger] items[i]) is Some) ==> r.summary
                == summary && r.findings.len() == items.len() && forall|i: int|
                0 <= i < items.len() ==> Some(#[trigger] r.findings[i]) == finding_value(items[i]))
            &&& (exists|i: int| 0 <= i < items.len() && finding_value(#[trigger] items[i]) is None)
                ==> is_one_error_on_output(r.findings)
            &&& !(said matches Some(JsonTree::Text(_))) ==> is_one_error_on_output(r.findings)
        }),
{
}

/// A value whose findings are no array is no review.
pub proof fn law_no_array_of_findings_no_review(
    tree: JsonTree,
    usage: TokenUsage,
    model_used: Seq<char>,
)
    requires
        !(json::field(tree, "findings"@) matches Some(JsonTree::Array(_))),
    ensures
        is_one_error_on_output(review_value(tree, usage, model_used).findings),
{
}

/// There is one finding, and it is an error about the model's output.
pub open spec fn is_one_error_on_output(findings: Seq<FindingView>) -> bool {
    &&& findings.len() == 1
    &&& findings[0].path == ".postil/model-output"@
    &&& findings[0].line == 1
    &&& findings[0].severity == Severity::Error
    &&& findings[0].kind == Some(FindingKind::Risk)
}

/// A review tells of invalid output exactly where a finding has the path that stands for it.
pub proof fn law_output_errors_have_their_path(findings: Seq<FindingView>)
    ensures
        model_output_error(findings) <==> exists|i: int|
            0 <= i < findings.len() && (#[trigger] findings[i]).path == ".postil/model-output"@,
{
    if exists|i: int|
        0 <= i < findings.len() && (#[trigger] findings[i]).path == ".postil/model-output"@ {
        let i = choose|i: int|
            0 <= i < findings.len() && (#[trigger] findings[i]).path == ".postil/model-output"@;
        assert(about_model_output(findings[i]));
    }
}

/// A written review says its summary, its model, its tokens and each finding in order.
pub proof fn law_written_review_says_everything(envelope: ReviewEnvelopeView)
    ensures
        ({
            let tree = review_tree(envelope);
            let usage = json::field(tree, "usage"@);
            &&& json::field(tree, "summary"@) == Some(JsonTree::Text(envelope.summary))
            &&& json::field(tree, "modelUsed"@) == Some(JsonTree::Text(envelope.model_used))
            &&& usage is Some
            &&& json::field(usage->0, "promptTokens"@) == Some(
                JsonTree::Number(Some(envelope.usage.prompt_tokens)),
            )
            &&& json::field(usage->0, "completionTokens"@) == Some(
                JsonTree::Number(Some(envelope.usage.completion_tokens)),
            )
            &&& json::field(usage->0, "totalTokens"@) == Some(
                JsonTree::Number(Some(envelope.usage.total_tokens)),
            )
            &&& json::field(tree, "findings"@) matches Some(JsonTree::Array(items))
            &&& items.len() == envelope.findings.len()
            &&& forall|i: int|
                0 <= i < items.len() ==> finding_value(#[trigger] items[i]) == Some(
                    envelope.findings[i],
                )
        }),
{
    lemma_field_names();
    reveal_with_fuel(json::field_from, 5);
    let items = envelope.findings.map_values(|f: FindingView| finding_tree(f));
    assert forall|i: int| 0 <= i < items.len() implies finding_value(#[trigger] items[i]) == Some(
        envelope.findings[i],
    ) by {
        law_written_finding_is_read_back(envelope.findings[i]);
    }
}

// ---------------------------------------------------------------------------
// What holds of every configured review
// ---------------------------------------------------------------------------

/// Every finding that a configuration leaves ranks at least as high as its threshold: under
/// `error` only errors are left, under `warn` no information. None of them has an ignored path,
/// but for one about the model's output.
pub proof fn law_left_findings_weigh_enough(
    envelope: ReviewEnvelopeView,
    cfg: RepoReviewConfigView,
    i: int,
)
    requires
        0 <= i < configured(envelope, cfg).findings.len(),
    ensures
        ({
            let f = configured(envelope, cfg).findings[i];
            &&& config::severity_rank(f.severity) >= config::severity_rank(cfg.severity_threshold)
            &&& cfg.severity_threshold == Severity::Error ==> f.severity == Severity::Error
            &&& cfg.severity_threshold == Severity::Warn ==> f.severity != Severity::Info
            &&& f.path == ".postil/model-output"@ || forall|k: int|
                0 <= k < cfg.ignore.len() ==> !ignore::glob_matches(#[trigger] cfg.ignore[k], f.path)
        }),
{
    law_configured_findings(envelope, cfg);
    let f = configured(envelope, cfg).findings[i];
    assert(stays_under(f, cfg));
}

/// A finding that ranks as high as the threshold and whose path is not ignored stays, where there
/// is room for all.
pub proof fn law_findings_that_weigh_enough_stay(
    envelope: ReviewEnvelopeView,
    cfg: RepoReviewConfigView,
    i: int,
)
    requires
        0 <= i < envelope.findings.len(),
        config::severity_rank(envelope.findings[i].severity) >= config::severity_rank(
            cfg.severity_threshold,
        ),
        envelope.findings[i].path == ".postil/model-output"@ || forall|k: int|
            0 <= k < cfg.ignore.len() ==> !ignore::glob_matches(
                #[trigger] cfg.ignore[k],
                envelope.findings[i].path,
            ),
        envelope.findings.len() <= cfg.max_findings,
    ensures
        configured(envelope, cfg).findings.contains(envelope.findings[i]),
{
    let pred = |f: FindingView| stays_under(f, cfg);
    let marks = ignore_marks(envelope.findings, cfg.ignore);
    lemma_staying_is_filter(envelope.findings, marks, cfg);
    envelope.findings.lemma_filter_len(pred);
    assert(pred(envelope.findings[i]));
    envelope.findings.lemma_filter_contains(pred, i);
}

/// Where there is room for all, what is left of two lists of findings is what is left of the one
/// and then what is left of the other.
pub proof fn law_left_findings_add_up(
    envelope: ReviewEnvelopeView,
    more: Seq<FindingView>,
    cfg: RepoReviewConfigView,
)
    requires
        envelope.findings.len() + more.len() <= cfg.max_findings,
    ensures
        configured(
            ReviewEnvelopeView { findings: envelope.findings + more, ..envelope },
            cfg,
        ).findings == configured(envelope, cfg).findings + configured(
            ReviewEnvelopeView { findings: more, ..envelope },
            cfg,
        ).findings,
{
    let pred = |f: FindingView| stays_under(f, cfg);
    let all = envelope.findings + more;
    lemma_staying_is_filter(all, ignore_marks(all, cfg.ignore), cfg);
    lemma_staying_is_filter(envelope.findings, ignore_marks(envelope.findings, cfg.ignore), cfg);
    lemma_staying_is_filter(more, ignore_marks(more, cfg.ignore), cfg);
    all.lemma_filter_len(pred);
    envelope.findings.lemma_filter_len(pred);
    more.lemma_filter_len(pred);
    Seq::filter_distributes_over_add(envelope.findings, more, pred);
}

/// A cap takes the first of the findings that would be left with room for all, as many as it
/// allows. Where one of them is about the model's output, it takes all.
pub proof fn law_cap_takes_the_first(
    envelope: ReviewEnvelopeView,
    cfg: RepoReviewConfigView,
    max: usize,
)
    requires
        envelope.findings.len() <= cfg.max_findings,
    ensures
        ({
            let room = configured(envelope, cfg).findings;
            let cut = configured(
                envelope,
                RepoReviewConfigView { max_findings: max, ..cfg },
            ).findings;
            &&& (exists|i: int|
                0 <= i < room.len() && (#[trigger] room[i]).path == ".postil/model-output"@)
                ==> cut == room
            &&& room.len() <= max ==> cut == room
            &&& (forall|i: int|
                0 <= i < room.len() ==> (#[trigger] room[i]).path != ".postil/model-output"@)
                && room.len() > max ==> cut.len() == max && cut.is_prefix_of(room)
        }),
{
    let pred = |f: FindingView| stays_under(f, cfg);
    let marks = ignore_marks(envelope.findings, cfg.ignore);
    lemma_staying_is_filter(envelope.findings, marks, cfg);
    envelope.findings.lemma_filter_len(pred);
    let room = configured(envelope, cfg).findings;
    law_output_errors_have_their_path(room);
    if room.len() > max {
        assert(room.take(max as int) =~= room.subrange(0, max as int));
    }
}

/// One more finding counts under its severity and under no other.
pub proof fn law_count_grows_with_findings(
    findings: Seq<FindingView>,
    f: FindingView,
    severity: Severity,
)
    ensures
        count_of(Seq::empty(), severity) == 0,
        f.severity == severity ==> count_of(findings.push(f), severity) == count_of(
            findings,
            severity,
        ) + 1,
        f.severity != severity ==> count_of(findings.push(f), severity) == count_of(
            findings,
            severity,
        ),
{
    assert(findings.push(f).drop_last() =~= findings);
}

// ---------------------------------------------------------------------------
// What holds of every text about a review
// ---------------------------------------------------------------------------

/// The status line begins with its label and ends with the number of findings of each severity
/// and of comments, and holds nothing else.
pub proof fn law_status_line_tells_all_counts(
    findings: Seq<FindingView>,
    inline_comments: nat,
    label: Seq<char>,
)
    ensures
        ({
            let line = status_text(findings, inline_comments, label);
            let head = "Postil status: "@ + label;
            let tail = " | errors="@ + chars::decimal(count_of(findings, Severity::Error))
                + " warnings="@ + chars::decimal(count_of(findings, Severity::Warn)) + " info="@
                + chars::decimal(count_of(findings, Severity::Info)) + " inline_comments="@
                + chars::decimal(inline_comments);
            &&& head.is_prefix_of(line)
            &&& tail.is_suffix_of(line)
            &&& line.len() == head.len() + tail.len()
        }),
{
    let line = status_text(findings, inline_comments, label);
    let head = "Postil status: "@ + label;
    let tail = " | errors="@ + chars::decimal(count_of(findings, Severity::Error)) + " warnings="@
        + chars::decimal(count_of(findings, Severity::Warn)) + " info="@ + chars::decimal(
        count_of(findings, Severity::Info),
    ) + " inline_comments="@ + chars::decimal(inline_comments);
    assert(line =~= head + tail);
    assert(head =~= line.subrange(0, head.len() as int));
    assert(tail =~= line.subrange(line.len() - tail.len(), line.len() as int));
}

/// What is posted ends with the status line. A summary that is not blank stands before it, without
/// the white space around it; where there are findings and no summary, a sentence of its own.
pub proof fn law_posted_text_ends_with_the_status(
    envelope: ReviewEnvelopeView,
    inline_comments: nat,
    label: Seq<char>,
)
    ensures
        ({
            let body = body_text(envelope, inline_comments, label);
            let status = status_text(envelope.findings, inline_comments, label);
            let summary = chars::trim(envelope.summary);
            &&& status.is_suffix_of(body)
            &&& summary.len() > 0 ==> (summary + "\n\n"@).is_prefix_of(body) && body.len()
                == summary.len() + 2 + status.len()
            &&& summary.len() == 0 && envelope.findings.len() > 0 ==> (
            "Postil found merge-relevant review findings.\n\n"@).is_prefix_of(body)
            &&& summary.len() == 0 && envelope.findings.len() == 0 ==> body == status
        }),
{
    let body = body_text(envelope, inline_comments, label);
    let status = status_text(envelope.findings, inline_comments, label);
    let summary = chars::trim(envelope.summary);
    chars::lemma_trim_idempotent(envelope.summary);
    reveal_strlit("\n\n");
    reveal_strlit("Postil found merge-relevant review findings.");
    reveal_strlit("Postil found merge-relevant review findings.\n\n");
    let sentence = "Postil found merge-relevant review findings."@;
    assert(!chars::white_space(sentence[0]) && !chars::white_space(sentence.last()));
    assert(chars::trim(sentence) == sentence) by {
        let none = Seq::<char>::empty();
        chars::law_trim_takes_white_space_only(none, sentence, none);
        assert(none + sentence + none =~= sentence);
    }
    assert(status =~= body.subrange(body.len() - status.len(), body.len() as int));
    if summary.len() > 0 {
        assert(summary + "\n\n"@ =~= body.subrange(0, summary.len() as int + 2));
    } else if envelope.findings.len() > 0 {
        assert(sentence + "\n\n"@ =~= "Postil found merge-relevant review findings.\n\n"@);
        assert(sentence + "\n\n"@ =~= body.subrange(0, sentence.len() as int + 2));
    }
}

/// A configuration that speaks in no particular tone of the given focus.
pub open spec fn focused(cfg: RepoReviewConfigView, focus: Seq<Seq<char>>) -> RepoReviewConfigView {
    RepoReviewConfigView {
        reviewer: config::ReviewerConfigView { tone: "neutral"@, focus },
        ..cfg
    }
}

/// Every item of the focus that is not blank adds a line of its own behind the others, without
/// the white space around it; the first one adds a heading before it. A blank item adds nothing.
pub proof fn law_each_focus_item_adds_its_line(
    cfg: RepoReviewConfigView,
    focus: Seq<Seq<char>>,
    item: Seq<char>,
)
    ensures
        ({
            let before = prompt_text(focused(cfg, focus));
            let after = prompt_text(focused(cfg, focus.push(item)));
            let line = "- "@ + chars::trim(item) + "\n"@;
            &&& chars::blank(item) ==> after == before
            &&& !chars::blank(item) && before == BASE_SYSTEM_PROMPT@ ==> after == before
                + "\n\nRepository review focus:\n"@ + line
            &&& !chars::blank(item) && before != BASE_SYSTEM_PROMPT@ ==> after == before + line
        }),
{
    let cut = |item: Seq<char>| chars::trim(item);
    let keep = |item: Seq<char>| item.len() > 0;
    let before = prompt_text(focused(cfg, focus));
    let after = prompt_text(focused(cfg, focus.push(item)));
    let items = focus_items(focus);
    assert(focus.push(item).map_values(cut) =~= focus.map_values(cut).push(chars::trim(item)));
    focus.map_values(cut).lemma_filter_push(chars::trim(item), keep);
    reveal_strlit("neutral");
    let none = Seq::<char>::empty();
    chars::law_trim_takes_white_space_only(none, "neutral"@, none);
    assert(none + "neutral"@ + none =~= "neutral"@);
    reveal_strlit("\n\nRepository review focus:\n");
    if items.len() == 0 {
        assert(before =~= BASE_SYSTEM_PROMPT@);
    } else {
        assert(before.len() > BASE_SYSTEM_PROMPT@.len());
    }
    if chars::blank(item) {
        assert(focus_items(focus.push(item)) =~= items);
    } else {
        let more = focus_items(focus.push(item));
        assert(more =~= items.push(chars::trim(item)));
        assert(more.drop_last() =~= items);
        assert(more.last() == chars::trim(item));
        if items.len() == 0 {
            assert(bullet_lines(items) =~= Seq::empty());
            assert(after =~= before + "\n\nRepository review focus:\n"@ + ("- "@ + chars::trim(item)
                + "\n"@));
        } else {
            assert(after =~= before + ("- "@ + chars::trim(item) + "\n"@));
        }
    }
}

/// A tone adds a sentence at the end of the prompt, unless it is blank or neutral. Nothing but
/// focus and tone changes the prompt.
pub proof fn law_tone_adds_a_sentence(cfg: RepoReviewConfigView)
    ensures
        ({
            let plain = prompt_text(focused(cfg, cfg.reviewer.focus));
            let tone = chars::trim(cfg.reviewer.tone);
            &&& tone.len() == 0 || tone == "neutral"@ ==> prompt_text(cfg) == plain
            &&& tone.len() > 0 && tone != "neutral"@ ==> prompt_text(cfg) == plain
                + "\nReviewer tone preference: "@ + tone
                + ". Keep the result direct and merge-relevant."@
        }),
        forall|other: RepoReviewConfigView|
            other.reviewer == cfg.reviewer ==> #[trigger] prompt_text(other) == prompt_text(cfg),
{
    reveal_strlit("neutral");
    let none = Seq::<char>::empty();
    chars::law_trim_takes_white_space_only(none, "neutral"@, none);
    assert(none + "neutral"@ + none =~= "neutral"@);
    let plain = prompt_text(focused(cfg, cfg.reviewer.focus));
    let tone = chars::trim(cfg.reviewer.tone);
    assert(plain =~= BASE_SYSTEM_PROMPT@ + focus_section(cfg.reviewer.focus));
    if tone.len() > 0 && tone != "neutral"@ {
        assert(prompt_text(cfg) =~= plain + "\nReviewer tone preference: "@ + tone
            + ". Keep the result direct and merge-relevant."@);
    } else {
        assert(prompt_text(cfg) =~= plain);
    }
}

/// What is read of a text as JSON is the review; where nothing is, or it is no JSON, there is one
/// error on the model's output.
pub proof fn law_what_is_found_is_read(text: Seq<char>, usage: TokenUsage, model_used: Seq<char>)
    ensures
        json_part(text) is None ==> is_one_error_on_output(
            review_text(text, usage, model_used).findings,
        ),
        json_part(text) is Some && json::json_document(json_part(text)->0) is None
            ==> is_one_error_on_output(review_text(text, usage, model_used).findings),
        json_part(text) is Some && json::json_document(json_part(text)->0) is Some ==> review_text(
            text,
            usage,
            model_used,
        ) == review_value(json::json_document(json_part(text)->0)->0, usage, model_used),
        fenced(text) matches Some(inside) ==> json_part(text) == object_slice(inside),
        fenced(text) is None ==> json_part(text) == object_slice(text),
{
}

/// What is taken for an object begins with the first opening brace of a text and ends with the
/// last closing one; there is none exactly where no closing brace comes after an opening one.
pub proof fn law_object_goes_from_first_to_last_brace(text: Seq<char>)
    ensures
        object_slice(text) matches Some(object) ==> exists|i: int, j: int|
            0 <= i < j < text.len() && #[trigger] text[i] == '{' && #[trigger] text[j] == '}'
                && object == text.subrange(i, j + 1) && !text.take(i).contains('{') && !text.skip(
                j + 1,
            ).contains('}'),
        object_slice(text) is None <==> forall|i: int, j: int|
            0 <= i < j < text.len() && #[trigger] text[i] == '{' ==> #[trigger] text[j] != '}',
{
    chars::law_find_char_gives_the_first(text, '{');
    chars::lemma_rfind_char(text, '}');
    match (chars::find_char(text, '{'), chars::rfind_char(text, '}')) {
        (Some(i), Some(j)) => {
            if i < j {
                assert(text[i] == '{' && text[j] == '}');
                let tail = text.skip(j + 1);
                assert forall|k: int| 0 <= k < tail.len() implies #[trigger] tail[k] != '}' by {
                    assert(text[j + 1 + k] != '}');
                }
                let head = text.take(i);
                assert forall|k: int| 0 <= k < head.len() implies #[trigger] head[k] != '{' by {
                    assert(text[k] != '{');
                }
            }
        },
        (Some(i), None) => {},
        _ => {
            assert forall|i: int| 0 <= i < text.len() implies #[trigger] text[i] != '{' by {
                assert(text.contains(text[i]));
            }
        },
    }
}

/// Output that is no review says so in its summary, and its one finding says what is missing: the
/// summary first, then the findings, then what is wrong among them.
pub proof fn law_faults_of_the_output_are_named(
    tree: JsonTree,
    text: Seq<char>,
    usage: TokenUsage,
    model_used: Seq<char>,
)
    ensures
        ({
            let r = review_value(tree, usage, model_used);
            let said = json::field(tree, "summary"@) is Some && json::field(tree, "summary"@)->0 is Text;
            let listed = json::field(tree, "findings"@) is Some && json::field(tree, "findings"@)->0
                is Array;
            let items = json::field(tree, "findings"@)->0->Array_0;
            &&& !said ==> r.findings[0].body
                == "Model output omitted the required summary string; review must be retried before merge."@
            &&& said && !listed ==> r.findings[0].body
                == "Model output omitted the required findings array; review must be retried before merge."@
            &&& said && listed && (exists|i: int|
                0 <= i < items.len() && finding_value(#[trigger] items[i]) is None)
                ==> r.findings[0].body
                == "Model output contained an invalid finding; review must be retried before merge."@
            &&& !said || !listed || (exists|i: int|
                0 <= i < items.len() && finding_value(#[trigger] items[i]) is None) ==> r.summary
                == "Postil could not validate the model output."@
        }),
        ({
            let r = review_text(text, usage, model_used);
            json_part(text) is None || json::json_document(json_part(text)->0) is None ==> r.summary
                == "Postil could not validate the model output."@ && r.findings[0].body
                == "Model output was not valid Postil JSON; review must be retried before merge."@
        }),
{
}

} // verus!

//! What is asked of GitHub and what is made of its answers.
use vstd::prelude::*;
use vstd::string::*;

use crate::chars;
use crate::chars::{decimal_text, is_blank, joined, without_end_slashes};
use crate::config;
use crate::config::{
    RepoReviewConfig, RepoReviewConfigView, ReviewTarget, ReviewTargetView, RuntimeConfig,
    Severity,
};
use crate::review;
use crate::review::{count_findings, Finding, FindingView, ReviewEnvelope, ReviewEnvelopeView};
use crate::text;
use crate::text::limit_text;

verus! {

// ---------------------------------------------------------------------------
// Addresses
// ---------------------------------------------------------------------------

/// Where GitHub's interface is.
#[derive(Debug, Clone)]
pub struct GithubApi {
    pub base_url: String,
}

/// The address of a repository.
pub open spec fn repo_address(base: Seq<char>, target: ReviewTargetView) -> Seq<char> {
    base + "/repos/"@ + target.owner + "/"@ + target.repo
}

/// The address of a pull request.
pub open spec fn pull_address(base: Seq<char>, target: ReviewTargetView) -> Seq<char> {
    repo_address(base, target) + "/pulls/"@ + chars::decimal(target.pull_number as nat)
}

/// The address of a file as it stands at a commit.
pub open spec fn contents_address(
    base: Seq<char>,
    target: ReviewTargetView,
    sha: Seq<char>,
    path: Seq<char>,
) -> Seq<char> {
    repo_address(base, target) + "/contents/"@ + path + "?ref="@ + sha
}

/// The address that reviews of a pull request are posted to.
pub open spec fn reviews_address(base: Seq<char>, target: ReviewTargetView) -> Seq<char> {
    pull_address(base, target) + "/reviews"@
}

/// The address that comments on a pull request are posted to.
pub open spec fn comments_address(base: Seq<char>, target: ReviewTargetView) -> Seq<char> {
    repo_address(base, target) + "/issues/"@ + chars::decimal(target.pull_number as nat)
        + "/comments"@
}

/// The address that check runs are posted to.
pub open spec fn check_runs_address(base: Seq<char>, target: ReviewTargetView) -> Seq<char> {
    repo_address(base, target) + "/check-runs"@
}

/// The address of a check run that is there already.
pub open spec fn check_run_address(base: Seq<char>, target: ReviewTargetView, id: nat) -> Seq<
    char,
> {
    repo_address(base, target) + "/check-runs/"@ + chars::decimal(id)
}

impl GithubApi {
    /// The interface at `base_url`; slashes at its end do not count.
    pub fn new(base_url: String) -> (r: Self)
        ensures
            r.base_url@ == chars::trim_end_slashes(base_url@),
    {
        GithubApi { base_url: without_end_slashes(base_url.as_str()).to_owned() }
    }

    fn repo_url(&self, target: &ReviewTarget) -> (r: String)
        ensures
            r@ == repo_address(self.base_url@, target@),
    {
        let mut r: String = self.base_url.clone();
        r.append("/repos/");
        r.append(target.owner.as_str());
        r.append("/");
        r.append(target.repo.as_str());
        r
    }

    /// The address of a pull request.
    pub fn pull_url(&self, target: &ReviewTarget) -> (r: String)
        ensures
            r@ == pull_address(self.base_url@, target@),
    {
        let mut r: String = self.repo_url(target);
        r.append("/pulls/");
        r.append(decimal_text(target.pull_number).as_str());
        r
    }

    /// The address of a file as it stands at a commit.
    pub fn contents_url(&self, target: &ReviewTarget, sha: &str, path: &str) -> (r: String)
        ensures
            r@ == repo_address(self.base_url@, target@) + "/contents/"@ + path@ + "?ref="@ + sha@,
            r@ == contents_address(self.base_url@, target@, sha@, path@),
    {
        let mut r: String = self.repo_url(target);
        r.append("/contents/");
        r.append(path);
        r.append("?ref=");
        r.append(sha);
        r
    }

    /// The address that reviews of a pull request are posted to.
    pub fn reviews_url(&self, target: &ReviewTarget) -> (r: String)
        ensures
            r@ == pull_address(self.base_url@, target@) + "/reviews"@,
            r@ == reviews_address(self.base_url@, target@),
    {
        let mut r: String = self.pull_url(target);
        r.append("/reviews");
        r
    }

    /// The address that comments on a pull request are posted to.
    pub fn issue_comments_url(&self, target: &ReviewTarget) -> (r: String)
        ensures
            r@ == repo_address(self.base_url@, target@) + "/issues/"@ + chars::decimal(
                target@.pull_number as nat,
            ) + "/comments"@,
            r@ == comments_address(self.base_url@, target@),
    {
        let mut r: String = self.repo_url(target);
        r.append("/issues/");
        r.append(decimal_text(target.pull_number).as_str());
        r.append("/comments");
        r
    }

    /// The address that check runs are posted to.
    pub fn check_runs_url(&self, target: &ReviewTarget) -> (r: String)
        ensures
            r@ == repo_address(self.base_url@, target@) + "/check-runs"@,
            r@ == check_runs_address(self.base_url@, target@),
    {
        let mut r: String = self.repo_url(target);
        r.append("/check-runs");
        r
    }

    /// The address of a check run that is there already.
    pub fn check_run_url(&self, target: &ReviewTarget, id: u64) -> (r: String)
        ensures
            r@ == repo_address(self.base_url@, target@) + "/check-runs/"@ + chars::decimal(
                id as nat,
            ),
            r@ == check_run_address(self.base_url@, target@, id as nat),
    {
        let mut r: String = self.repo_url(target);
        r.append("/check-runs/");
        r.append(decimal_text(id).as_str());
        r
    }
}

// ---------------------------------------------------------------------------
// Answers
// ---------------------------------------------------------------------------

/// A status that tells of success.
pub open spec fn success(status: u16) -> bool {
    200 <= status < 300
}

/// Whether a status tells of success.
pub fn is_success(status: u16) -> (r: bool)
    ensures
        r == success(status),
{
    200 <= status && status < 300
}

/// What is said when GitHub answers with an error.
pub open spec fn refusal(what: Seq<char>, status: u16, body: Seq<char>) -> Seq<char> {
    "github "@ + what + " "@ + chars::decimal(status as nat) + ": "@ + body
}

/// What is said when GitHub answers with an error.
fn refusal_text(what: &str, status: u16, body: &str) -> (r: String)
    ensures
        r@ == refusal(what@, status, body@),
{
    let mut r: String = "github ".to_owned();
    r.append(what);
    r.append(" ");
    r.append(decimal_text(status as u64).as_str());
    r.append(": ");
    r.append(body);
    r
}

/// The diff in an answer, or what is said of a refusal.
pub open spec fn diff_answer(status: u16, body: Seq<char>, limit: int) -> Result<
    Seq<char>,
    Seq<char>,
> {
    if success(status) {
        Ok(text::limited(body, limit))
    } else {
        Err(refusal("diff"@, status, body))
    }
}

/// The file in an answer, that there is none, or what is said of a refusal.
pub open spec fn file_answer(path: Seq<char>, status: u16, body: Seq<char>) -> Result<
    Option<Seq<char>>,
    Seq<char>,
> {
    if status == 404 {
        Ok(None)
    } else if success(status) {
        Ok(Some(body))
    } else {
        Err(refusal("config "@ + path, status, body))
    }
}

/// That something was taken, or what is said of a refusal.
pub open spec fn posted_answer(what: Seq<char>, status: u16, body: Seq<char>) -> Result<
    (),
    Seq<char>,
> {
    if success(status) {
        Ok(())
    } else {
        Err(refusal(what, status, body))
    }
}

/// The diff in GitHub's answer, cut to `limit` bytes.
pub fn read_diff(status: u16, body: String, limit: usize) -> (r: Result<String, String>)
    ensures
        match r {
            Ok(diff) => success(status) && diff@ == text::limited(body@, limit as int),
            Err(message) => !success(status) && message@ == refusal("diff"@, status, body@),
        },
        match diff_answer(status, body@, limit as int) {
            Ok(diff) => r is Ok && r->Ok_0@ == diff,
            Err(message) => r is Err && r->Err_0@ == message,
        },
{
    if is_success(status) {
        Ok(limit_text(body, limit))
    } else {
        Err(refusal_text("diff", status, body.as_str()))
    }
}

/// The file in GitHub's answer, or that there is no such file.
pub fn read_file(path: &str, status: u16, body: String) -> (r: Result<Option<String>, String>)
    ensures
        match r {
            Ok(Some(text)) => success(status) && text@ == body@,
            Ok(None) => status == 404,
            Err(message) => !success(status) && status != 404 && message@ == refusal(
                "config "@ + path@,
                status,
                body@,
            ),
        },
        match file_answer(path@, status, body@) {
            Ok(Some(text)) => r matches Ok(Some(t)) && t@ == text,
            Ok(None) => r matches Ok(None),
            Err(message) => r is Err && r->Err_0@ == message,
        },
{
    if status == 404 {
        return Ok(None);
    }
    if is_success(status) {
        Ok(Some(body))
    } else {
        let mut what: String = "config ".to_owned();
        what.append(path);
        Err(refusal_text(what.as_str(), status, body.as_str()))
    }
}

/// Whether GitHub took what was posted. `what` tells what that was.
pub fn read_posted(what: &str, status: u16, body: &str) -> (r: Result<(), String>)
    ensures
        match r {
            Ok(()) => success(status),
            Err(message) => !success(status) && message@ == refusal(what@, status, body@),
        },
        match posted_answer(what@, status, body@) {
            Ok(()) => r is Ok,
            Err(message) => r is Err && r->Err_0@ == message,
        },
{
    if is_success(status) {
        Ok(())
    } else {
        Err(refusal_text(what, status, body))
    }
}

// ---------------------------------------------------------------------------
// The review that is posted
// ---------------------------------------------------------------------------

/// A comment on a line.
#[derive(Debug, Clone)]
pub struct ReviewComment {
    pub path: String,
    pub line: u64,
    pub side: &'static str,
    pub body: String,
}

/// The contents of a [`ReviewComment`].
pub struct ReviewCommentView {
    pub path: Seq<char>,
    pub line: u64,
    pub side: Seq<char>,
    pub body: Seq<char>,
}

impl View for ReviewComment {
    type V = ReviewCommentView;

    open spec fn view(&self) -> ReviewCommentView {
        ReviewCommentView {
            path: self.path@,
            line: self.line,
            side: self.side@,
            body: self.body@,
        }
    }
}

/// A review with comments.
#[derive(Debug, Clone)]
pub struct PullReviewRequest {
    pub commit_id: Option<String>,
    pub event: &'static str,
    pub body: String,
    pub comments: Option<Vec<ReviewComment>>,
}

/// The contents of a [`PullReviewRequest`].
#[verifier::ext_equal]
pub struct PullReviewRequestView {
    pub commit_id: Option<Seq<char>>,
    pub event: Seq<char>,
    pub body: Seq<char>,
    pub comments: Option<Seq<ReviewCommentView>>,
}

impl View for PullReviewRequest {
    type V = PullReviewRequestView;

    open spec fn view(&self) -> PullReviewRequestView {
        PullReviewRequestView {
            commit_id: chars::opt_text(self.commit_id),
            event: self.event@,
            body: self.body@,
            comments: match self.comments {
                Some(c) => Some(c@.map_values(|c: ReviewComment| c@)),
                None => None,
            },
        }
    }
}

/// The comment that a finding becomes: on its line, with its severity in capitals before it.
pub open spec fn comment_of(f: FindingView) -> ReviewCommentView {
    ReviewCommentView {
        path: f.path,
        line: f.line,
        side: "RIGHT"@,
        body: "**"@ + chars::capitals(config::severity_name(f.severity)) + "** · "@ + f.body,
    }
}

/// The request that posts a review: an approval where there are no findings, and otherwise a
/// comment on each of them.
pub open spec fn review_request(
    target: ReviewTargetView,
    findings: Seq<FindingView>,
    body: Seq<char>,
) -> PullReviewRequestView {
    PullReviewRequestView {
        commit_id: target.head_sha,
        event: if findings.len() == 0 {
            "APPROVE"@
        } else {
            "COMMENT"@
        },
        body,
        comments: if findings.len() == 0 {
            None
        } else {
            Some(findings.map_values(|f: FindingView| comment_of(f)))
        },
    }
}

/// The request that posts a review.
pub fn inline_review_request(target: &ReviewTarget, envelope: &ReviewEnvelope, body: &str) -> (r:
    PullReviewRequest)
    ensures
        r@ == review_request(target@, envelope@.findings, body@),
{
    let mut comments: Vec<ReviewComment> = Vec::new();
    let ghost all = envelope@.findings;
    let mut i: usize = 0;
    while i < envelope.findings.len()
        invariant
            i <= envelope.findings.len(),
            all == envelope@.findings,
            comments@.len() == i,
            forall|j: int| 0 <= j < i ==> (#[trigger] comments@[j])@ == comment_of(all[j]),
        decreases envelope.findings.len() - i,
    {
        let f: &Finding = &envelope.findings[i];
        assert(all[i as int] == f@);
        let mut comment: String = "**".to_owned();
        comment.append(f.severity.as_capitals());
        comment.append("** · ");
        comment.append(f.body.as_str());
        comments.push(
            ReviewComment { path: f.path.clone(), line: f.line, side: "RIGHT", body: comment },
        );
        i = i + 1;
    }
    let commit_id: Option<String> = match &target.head_sha {
        Some(sha) => Some(sha.clone()),
        None => None,
    };
    assert(comments@.map_values(|c: ReviewComment| c@) =~= all.map_values(
        |f: FindingView| comment_of(f),
    ));
    if comments.len() == 0 {
        PullReviewRequest { commit_id, event: "APPROVE", body: body.to_owned(), comments: None }
    } else {
        PullReviewRequest {
            commit_id,
            event: "COMMENT",
            body: body.to_owned(),
            comments: Some(comments),
        }
    }
}

/// A review approves exactly when it has no findings, and otherwise comments on every one of
/// them in order.
pub proof fn law_request_approves_only_clean_reviews(
    target: ReviewTargetView,
    findings: Seq<FindingView>,
    body: Seq<char>,
)
    ensures
        review_request(target, findings, body).event == "APPROVE"@ <==> findings.len() == 0,
        review_request(target, findings, body).comments matches Some(c) ==> c.len()
            == findings.len() && c.len() > 0,
        review_request(target, findings, body).comments is None <==> findings.len() == 0,
{
    reveal_strlit("APPROVE");
    reveal_strlit("COMMENT");
    assert("APPROVE"@[0] == 'A' && "COMMENT"@[0] == 'C');
}

// ---------------------------------------------------------------------------
// The check run
// ---------------------------------------------------------------------------

/// What a check run shows.
#[derive(Debug, Clone)]
pub struct CheckOutput {
    pub title: String,
    pub summary: String,
    pub text: Option<String>,
}

/// The contents of a [`CheckOutput`].
pub struct CheckOutputView {
    pub title: Seq<char>,
    pub summary: Seq<char>,
    pub text: Option<Seq<char>>,
}

impl View for CheckOutput {
    type V = CheckOutputView;

    open spec fn view(&self) -> CheckOutputView {
        CheckOutputView {
            title: self.title@,
            summary: self.summary@,
            text: chars::opt_text(self.text),
        }
    }
}

/// What the check run of an empty diff shows.
pub open spec fn empty_output() -> CheckOutputView {
    CheckOutputView { title: "Empty diff"@, summary: "Nothing to review."@, text: None }
}

/// A finding as a check run shows it.
pub open spec fn rendered(f: FindingView) -> Seq<char> {
    "**"@ + chars::capitals(config::severity_name(f.severity)) + "** `"@ + f.path + "`:"@
        + chars::decimal(f.line as nat) + "\n\n"@ + f.body
}

/// The findings as a check run shows them, with a rule between each two.
pub open spec fn rendered_all(findings: Seq<FindingView>) -> Seq<char> {
    chars::join(findings.map_values(|f: FindingView| rendered(f)), "\n\n---\n\n"@)
}

/// A number of things, with the plural where it is not one.
pub open spec fn counted(n: nat, thing: Seq<char>) -> Seq<char> {
    chars::decimal(n) + thing + if n == 1 {
        ""@
    } else {
        "s"@
    }
}

/// The title of a review's check run: its errors, or where there are none its warnings.
pub open spec fn check_title(findings: Seq<FindingView>) -> Seq<char> {
    let errors = review::count_of(findings, Severity::Error);
    let warnings = review::count_of(findings, Severity::Warn);
    if errors > 0 {
        counted(errors, " error"@)
    } else if warnings > 0 {
        counted(warnings, " warning"@)
    } else {
        "No issues"@
    }
}

/// What a review's check run shows.
pub open spec fn output_of(envelope: ReviewEnvelopeView) -> CheckOutputView {
    CheckOutputView {
        title: check_title(envelope.findings),
        summary: if !chars::blank(envelope.summary) {
            envelope.summary
        } else if envelope.findings.len() == 0 {
            "No issues found."@
        } else {
            "See inline review comments."@
        },
        text: Some(
            if envelope.findings.len() == 0 {
                "No issues found."@
            } else {
                rendered_all(envelope.findings)
            },
        ),
    }
}

fn count_text(n: usize, thing: &str) -> (r: String)
    ensures
        r@ == counted(n as nat, thing@),
{
    let mut r: String = decimal_text(n as u64);
    r.append(thing);
    r.append(
        if n == 1 {
            ""
        } else {
            "s"
        },
    );
    r
}

/// The findings as a check run shows them.
pub fn render_findings(findings: &Vec<Finding>) -> (r: String)
    ensures
        r@ == rendered_all(review::finding_views(findings@)),
{
    let ghost all = review::finding_views(findings@);
    let mut parts: Vec<String> = Vec::new();
    let mut i: usize = 0;
    while i < findings.len()
        invariant
            i <= findings.len(),
            all == review::finding_views(findings@),
            parts@.len() == i,
            forall|j: int| 0 <= j < i ==> (#[trigger] parts@[j])@ == rendered(all[j]),
        decreases findings.len() - i,
    {
        let f: &Finding = &findings[i];
        assert(all[i as int] == f@);
        let mut part: String = "**".to_owned();
        part.append(f.severity.as_capitals());
        part.append("** `");
        part.append(f.path.as_str());
        part.append("`:");
        part.append(decimal_text(f.line).as_str());
        part.append("\n\n");
        part.append(f.body.as_str());
        parts.push(part);
        i = i + 1;
    }
    assert(chars::texts(parts@) =~= all.map_values(|f: FindingView| rendered(f)));
    joined(&parts, "\n\n---\n\n")
}

impl CheckOutput {
    /// What the check run of an empty diff shows.
    pub fn empty() -> (r: Self)
        ensures
            r@ == empty_output(),
    {
        CheckOutput {
            title: "Empty diff".to_owned(),
            summary: "Nothing to review.".to_owned(),
            text: None,
        }
    }

    /// What a review's check run shows.
    pub fn from_envelope(envelope: &ReviewEnvelope) -> (r: Self)
        ensures
            r@ == output_of(envelope@),
    {
        let errors: usize = count_findings(&envelope.findings, Severity::Error);
        let warnings: usize = count_findings(&envelope.findings, Severity::Warn);
        let title: String = if errors > 0 {
            count_text(errors, " error")
        } else if warnings > 0 {
            count_text(warnings, " warning")
        } else {
            "No issues".to_owned()
        };
        assert(envelope@.findings.len() == envelope.findings@.len());
        let clean: bool = envelope.findings.len() == 0;
        let text: Option<String> = if clean {
            Some("No issues found.".to_owned())
        } else {
            Some(render_findings(&envelope.findings))
        };
        let summary: String = if !is_blank(envelope.summary.as_str()) {
            envelope.summary.clone()
        } else if clean {
            "No issues found.".to_owned()
        } else {
            "See inline review comments.".to_owned()
        };
        CheckOutput { title, summary, text }
    }
}

/// A finding of a severity is there.
pub open spec fn has_severity(findings: Seq<FindingView>, severity: Severity) -> bool {
    exists|i: int| 0 <= i < findings.len() && (#[trigger] findings[i]).severity == severity
}

/// How a review's check run ends: in failure where there is an error, neutral where there is a
/// warning, and otherwise in success.
pub open spec fn conclusion(findings: Seq<FindingView>) -> Seq<char> {
    if has_severity(findings, Severity::Error) {
        "failure"@
    } else if has_severity(findings, Severity::Warn) {
        "neutral"@
    } else {
        "success"@
    }
}

/// How a review's check run ends.
pub fn check_conclusion(envelope: &ReviewEnvelope) -> (r: &'static str)
    ensures
        r@ == conclusion(envelope@.findings),
{
    proof {
        review::lemma_count_is_positive(envelope@.findings, Severity::Error);
        review::lemma_count_is_positive(envelope@.findings, Severity::Warn);
    }
    if count_findings(&envelope.findings, Severity::Error) > 0 {
        "failure"
    } else if count_findings(&envelope.findings, Severity::Warn) > 0 {
        "neutral"
    } else {
        "success"
    }
}

/// Output that is no review fails its check run.
pub proof fn law_invalid_output_fails_the_check(
    body: Seq<char>,
    usage: review::TokenUsage,
    model_used: Seq<char>,
)
    ensures
        conclusion(review::invalid_output(body, usage, model_used).findings) == "failure"@,
{
    assert(review::invalid_output(body, usage, model_used).findings[0].severity
        == Severity::Error);
}

/// Title and conclusion of a check run agree: a title that counts errors goes with failure, one
/// that counts warnings is neutral, and `No issues` goes with success.
pub proof fn law_title_agrees_with_conclusion(findings: Seq<FindingView>)
    ensures
        conclusion(findings) == "failure"@ <==> review::count_of(findings, Severity::Error) > 0,
        conclusion(findings) == "neutral"@ <==> review::count_of(findings, Severity::Error) == 0
            && review::count_of(findings, Severity::Warn) > 0,
        conclusion(findings) == "success"@ <==> review::count_of(findings, Severity::Error) == 0
            && review::count_of(findings, Severity::Warn) == 0,
        conclusion(findings) == "failure"@ ==> check_title(findings) == counted(
            review::count_of(findings, Severity::Error),
            " error"@,
        ),
        conclusion(findings) == "neutral"@ ==> check_title(findings) == counted(
            review::count_of(findings, Severity::Warn),
            " warning"@,
        ),
        conclusion(findings) == "success"@ ==> check_title(findings) == "No issues"@,
{
    review::lemma_count_is_positive(findings, Severity::Error);
    review::lemma_count_is_positive(findings, Severity::Warn);
    reveal_strlit("failure");
    reveal_strlit("neutral");
    reveal_strlit("success");
    assert("failure"@[0] == 'f' && "neutral"@[0] == 'n' && "success"@[0] == 's');
}

/// The request that completes a check run.
#[derive(Debug, Clone)]
pub struct CheckRunRequest {
    pub name: String,
    pub head_sha: Option<String>,
    pub status: &'static str,
    pub conclusion: String,
    pub started_at: String,
    pub completed_at: String,
    pub output: CheckOutput,
}

/// The contents of a [`CheckRunRequest`].
pub struct CheckRunRequestView {
    pub name: Seq<char>,
    pub head_sha: Option<Seq<char>>,
    pub status: Seq<char>,
    pub conclusion: Seq<char>,
    pub started_at: Seq<char>,
    pub completed_at: Seq<char>,
    pub output: CheckOutputView,
}

impl View for CheckRunRequest {
    type V = CheckRunRequestView;

    open spec fn view(&self) -> CheckRunRequestView {
        CheckRunRequestView {
            name: self.name@,
            head_sha: chars::opt_text(self.head_sha),
            status: self.status@,
            conclusion: self.conclusion@,
            started_at: self.started_at@,
            completed_at: self.completed_at@,
            output: self.output@,
        }
    }
}

/// A request that completes a check run of a commit, or of one that has its commit already.
pub open spec fn completed_run(
    head_sha: Option<Seq<char>>,
    check_name: Seq<char>,
    conclusion: Seq<char>,
    output: CheckOutputView,
    started_at: Seq<char>,
    completed_at: Seq<char>,
) -> CheckRunRequestView {
    CheckRunRequestView {
        name: check_name,
        head_sha,
        status: "completed"@,
        conclusion,
        started_at,
        completed_at,
        output,
    }
}

/// The request that makes a completed check run on a commit. Where no commit is known, there is
/// none to make.
pub fn check_run_request(
    target: &ReviewTarget,
    check_name: &str,
    conclusion: &str,
    output: CheckOutput,
    started_at: &str,
    completed_at: &str,
) -> (r: Option<CheckRunRequest>)
    ensures
        match target@.head_sha {
            Some(sha) => r is Some && r->0@ == (CheckRunRequestView {
                name: check_name@,
                head_sha: Some(sha),
                status: "completed"@,
                conclusion: conclusion@,
                started_at: started_at@,
                completed_at: completed_at@,
                output: output@,
            }),
            None => r is None,
        },
{
    match &target.head_sha {
        Some(sha) => Some(
            CheckRunRequest {
                name: check_name.to_owned(),
                head_sha: Some(sha.clone()),
                status: "completed",
                conclusion: conclusion.to_owned(),
                started_at: started_at.to_owned(),
                completed_at: completed_at.to_owned(),
                output,
            },
        ),
        None => None,
    }
}

/// The request that completes a check run that is there already, and so has its commit.
pub fn check_run_update(
    check_name: &str,
    conclusion: &str,
    output: CheckOutput,
    started_at: &str,
    completed_at: &str,
) -> (r: CheckRunRequest)
    ensures
        r@ == (CheckRunRequestView {
            name: check_name@,
            head_sha: None,
            status: "completed"@,
            conclusion: conclusion@,
            started_at: started_at@,
            completed_at: completed_at@,
            output: output@,
        }),
{
    CheckRunRequest {
        name: check_name.to_owned(),
        head_sha: None,
        status: "completed",
        conclusion: conclusion.to_owned(),
        started_at: started_at.to_owned(),
        completed_at: completed_at.to_owned(),
        output,
    }
}

/// How a check run is completed.
#[derive(Debug)]
pub enum CheckRunCall {
    /// A completed check run is made.
    Create(CheckRunRequest),
    /// The check run with this number is completed.
    Update(u64, CheckRunRequest),
}

/// The contents of a [`CheckRunCall`].
pub enum CheckRunCallView {
    Create(CheckRunRequestView),
    Update(u64, CheckRunRequestView),
}

impl View for CheckRunCall {
    type V = CheckRunCallView;

    open spec fn view(&self) -> CheckRunCallView {
        match self {
            CheckRunCall::Create(request) => CheckRunCallView::Create(request@),
            CheckRunCall::Update(id, request) => CheckRunCallView::Update(*id, request@),
        }
    }
}

/// How a check run is completed, if it is.
pub open spec fn call_of(
    target: ReviewTargetView,
    check_run_id: Option<u64>,
    check_name: Seq<char>,
    conclusion: Seq<char>,
    output: CheckOutputView,
    started_at: Seq<char>,
    completed_at: Seq<char>,
) -> Option<CheckRunCallView> {
    match check_run_id {
        Some(id) => Some(
            CheckRunCallView::Update(
                id,
                completed_run(None, check_name, conclusion, output, started_at, completed_at),
            ),
        ),
        None => match target.head_sha {
            Some(sha) => Some(
                CheckRunCallView::Create(
                    completed_run(
                        Some(sha),
                        check_name,
                        conclusion,
                        output,
                        started_at,
                        completed_at,
                    ),
                ),
            ),
            None => None,
        },
    }
}

/// Decides how a check run is completed: the one with the given number, or where there is none
/// yet a new one on the commit. Where no commit is known either, there is nothing to do.
pub fn check_run_call(
    target: &ReviewTarget,
    check_run_id: Option<u64>,
    check_name: &str,
    conclusion: &str,
    output: CheckOutput,
    started_at: &str,
    completed_at: &str,
) -> (r: Option<CheckRunCall>)
    ensures
        r is None <==> check_run_id is None && target@.head_sha is None,
        r matches Some(CheckRunCall::Create(request)) ==> check_run_id is None && request@ == (
        CheckRunRequestView {
            name: check_name@,
            head_sha: target@.head_sha,
            status: "completed"@,
            conclusion: conclusion@,
            started_at: started_at@,
            completed_at: completed_at@,
            output: output@,
        }),
        r matches Some(CheckRunCall::Update(id, request)) ==> check_run_id == Some(id) && request@
            == (CheckRunRequestView {
            name: check_name@,
            head_sha: None,
            status: "completed"@,
            conclusion: conclusion@,
            started_at: started_at@,
            completed_at: completed_at@,
            output: output@,
        }),
        call_of(
            target@,
            check_run_id,
            check_name@,
            conclusion@,
            output@,
            started_at@,
            completed_at@,
        ) == (match r {
            Some(call) => Some(call@),
            None => None,
        }),
{
    match check_run_id {
        Some(id) => Some(
            CheckRunCall::Update(
                id,
                check_run_update(check_name, conclusion, output, started_at, completed_at),
            ),
        ),
        None => match check_run_request(
            target,
            check_name,
            conclusion,
            output,
            started_at,
            completed_at,
        ) {
            Some(request) => Some(CheckRunCall::Create(request)),
            None => None,
        },
    }
}

// ---------------------------------------------------------------------------
// The repository's configuration
// ---------------------------------------------------------------------------

/// Whose configuration a file is.
#[derive(Debug, Clone, Copy, PartialEq, Eq, Structural)]
pub enum ConfigSource {
    Postil,
    Coderabbit,
    Kodo,
}

/// The number of files that may hold a repository's configuration.
pub const CANDIDATES: usize = 7;

/// The files that may hold a repository's configuration, in the order in which they count.
pub open spec fn candidate_path(index: int) -> Seq<char> {
    if index == 0 {
        ".postil.yaml"@
    } else if index == 1 {
        ".postil.yml"@
    } else if index == 2 {
        ".postil.json"@
    } else if index == 3 {
        ".coderabbit.yaml"@
    } else if index == 4 {
        ".coderabbit.yml"@
    } else if index == 5 {
        ".kodo.yaml"@
    } else {
        ".kodo.yml"@
    }
}

/// Whose configuration those files are.
pub open spec fn candidate_source(index: int) -> ConfigSource {
    if index < 3 {
        ConfigSource::Postil
    } else if index < 5 {
        ConfigSource::Coderabbit
    } else {
        ConfigSource::Kodo
    }
}

/// The file with the given place in the order, and whose configuration it is. Beyond the last
/// place stands the last file.
pub fn config_candidate(index: usize) -> (r: (&'static str, ConfigSource))
    ensures
        r.0@ == candidate_path(index as int),
        r.1 == candidate_source(index as int),
{
    match index {
        0 => (".postil.yaml", ConfigSource::Postil),
        1 => (".postil.yml", ConfigSource::Postil),
        2 => (".postil.json", ConfigSource::Postil),
        3 => (".coderabbit.yaml", ConfigSource::Coderabbit),
        4 => (".coderabbit.yml", ConfigSource::Coderabbit),
        5 => (".kodo.yaml", ConfigSource::Kodo),
        _ => (".kodo.yml", ConfigSource::Kodo),
    }
}

/// What came of looking at one of the files.
#[derive(Debug)]
pub enum CandidateOutcome {
    /// There is no such file.
    Missing,
    /// The file does not hold what its name says.
    Unreadable,
    /// The file holds a configuration.
    Loaded(RepoReviewConfig),
    /// The file could not be fetched.
    Failed(String),
}

/// What to do next to find a repository's configuration.
#[derive(Debug)]
pub enum SearchStep {
    /// Look at the file with this place in the order.
    Fetch(usize),
    /// This is the configuration.
    Done(RepoReviewConfig),
    /// The search has failed.
    Stop(String),
}

/// The contents of a [`SearchStep`].
pub enum SearchStepView {
    Fetch(int),
    Done(RepoReviewConfigView),
    Stop(Seq<char>),
}

impl View for SearchStep {
    type V = SearchStepView;

    open spec fn view(&self) -> SearchStepView {
        match self {
            SearchStep::Fetch(i) => SearchStepView::Fetch(*i as int),
            SearchStep::Done(c) => SearchStepView::Done(c@),
            SearchStep::Stop(e) => SearchStepView::Stop(e@),
        }
    }
}

/// What to do after looking at the file with the given place in the order.
pub open spec fn after_candidate(index: int, outcome: CandidateOutcome) -> SearchStepView {
    match outcome {
        CandidateOutcome::Loaded(c) => SearchStepView::Done(c@),
        CandidateOutcome::Failed(e) => SearchStepView::Stop(e@),
        _ => if index + 1 < CANDIDATES {
            SearchStepView::Fetch(index + 1)
        } else {
            SearchStepView::Done(config::default_config())
        },
    }
}

/// How the search starts: a configuration in the run's own file ends it, and so does a pull
/// request whose commit is not known, for which the built-in defaults hold.
pub open spec fn first_search_step(
    told: Option<RepoReviewConfigView>,
    commit_known: bool,
) -> SearchStepView {
    match told {
        Some(c) => SearchStepView::Done(c),
        None => if commit_known {
            SearchStepView::Fetch(0)
        } else {
            SearchStepView::Done(config::default_config())
        },
    }
}

/// Starts the search for the configuration of a pull request's repository.
pub fn start_config_search(runtime: &RuntimeConfig, target: &ReviewTarget) -> (r: SearchStep)
    ensures
        r@ == first_search_step(runtime@.file_review_config, target@.head_sha is Some),
{
    match &runtime.file_review_config {
        Some(c) => SearchStep::Done(c.clone()),
        None => match &target.head_sha {
            Some(_) => SearchStep::Fetch(0),
            None => SearchStep::Done(RepoReviewConfig::default()),
        },
    }
}

/// Goes on with the search after looking at the file with place `index` in the order.
pub fn next_config_step(index: usize, outcome: CandidateOutcome) -> (r: SearchStep)
    ensures
        r@ == after_candidate(index as int, outcome),
{
    match outcome {
        CandidateOutcome::Loaded(c) => SearchStep::Done(c),
        CandidateOutcome::Failed(e) => SearchStep::Stop(e),
        _ => if index < CANDIDATES - 1 {
            SearchStep::Fetch(index + 1)
        } else {
            SearchStep::Done(RepoReviewConfig::default())
        },
    }
}

/// Where the search ends that goes on at `index`, when the files are as `outcomes` tells.
pub open spec fn search_end(outcomes: Seq<CandidateOutcome>, index: int) -> SearchStepView
    decreases CANDIDATES - index,
{
    match after_candidate(index, outcomes[index]) {
        SearchStepView::Fetch(next) => if 0 <= index < next {
            search_end(outcomes, next)
        } else {
            SearchStepView::Fetch(next)
        },
        end => end,
    }
}

/// The configuration of a pull request's repository, when the files are as `outcomes` tells.
pub open spec fn search_result(
    told: Option<RepoReviewConfigView>,
    commit_known: bool,
    outcomes: Seq<CandidateOutcome>,
) -> SearchStepView {
    match first_search_step(told, commit_known) {
        SearchStepView::Fetch(index) => search_end(outcomes, index),
        end => end,
    }
}

/// A configuration in the run's own file counts before every file of the repository: the search
/// starts only where the run's file is silent, and otherwise ends with what that file says.
pub proof fn law_run_file_comes_before_repository(
    told: Option<RepoReviewConfigView>,
    commit_known: bool,
    outcomes: Seq<CandidateOutcome>,
)
    ensures
        first_search_step(told, commit_known) is Fetch <==> told is None && commit_known,
        told matches Some(c) ==> search_result(told, commit_known, outcomes)
            == SearchStepView::Done(c),
{
}

/// A file that ends the search.
pub open spec fn decisive(outcome: CandidateOutcome) -> bool {
    outcome is Loaded || outcome is Failed
}

/// The search ends at the first file, in order, that holds a configuration or cannot be fetched:
/// with that configuration, or with that failure. Where there is none, the built-in defaults
/// hold.
pub proof fn law_search_takes_the_first(outcomes: Seq<CandidateOutcome>, index: int)
    requires
        outcomes.len() == CANDIDATES,
        0 <= index < CANDIDATES,
    ensures
        ({
            ||| (forall|i: int| index <= i < CANDIDATES ==> !decisive(#[trigger] outcomes[i]))
                && search_end(outcomes, index) == SearchStepView::Done(config::default_config())
            ||| exists|k: int|
                index <= k < CANDIDATES && decisive(#[trigger] outcomes[k]) && (forall|i: int|
                    index <= i < k ==> !decisive(#[trigger] outcomes[i])) && search_end(
                    outcomes,
                    index,
                ) == after_candidate(k, outcomes[k])
        }),
    decreases CANDIDATES - index,
{
    if !decisive(outcomes[index]) && index + 1 < CANDIDATES {
        law_search_takes_the_first(outcomes, index + 1);
        if exists|i: int| index + 1 <= i < CANDIDATES && decisive(#[trigger] outcomes[i]) {
            let k = choose|k: int|
                index + 1 <= k < CANDIDATES && decisive(#[trigger] outcomes[k]) && (forall|i: int|
                    index + 1 <= i < k ==> !decisive(#[trigger] outcomes[i])) && search_end(
                    outcomes,
                    index + 1,
                ) == after_candidate(k, outcomes[k]);
            assert(decisive(outcomes[k]));
        }
    }
}

// ---------------------------------------------------------------------------
// What holds of every request and answer
// ---------------------------------------------------------------------------

/// A status tells of success exactly when it is one of the two hundreds.
pub proof fn law_two_hundreds_are_success(status: u16)
    ensures
        success(status) <==> status / 100 == 2,
{
}

/// An address begins with the base and ends with what it names: owner and repository, and behind
/// them the number of the pull request.
pub proof fn law_addresses_name_their_target(base: Seq<char>, target: ReviewTargetView)
    ensures
        base.is_prefix_of(repo_address(base, target)),
        repo_address(base, target).skip(base.len() as int) == "/repos/"@ + target.owner + "/"@
            + target.repo,
        repo_address(base, target).is_prefix_of(pull_address(base, target)),
        pull_address(base, target).skip(repo_address(base, target).len() as int) == "/pulls/"@
            + chars::decimal(target.pull_number as nat),
{
    let repo = repo_address(base, target);
    let pull = pull_address(base, target);
    assert(base =~= repo.subrange(0, base.len() as int));
    assert(repo.skip(base.len() as int) =~= "/repos/"@ + target.owner + "/"@ + target.repo);
    assert(repo =~= pull.subrange(0, repo.len() as int));
    assert(pull.skip(repo.len() as int) =~= "/pulls/"@ + chars::decimal(target.pull_number as nat));
}

/// What is said of an error begins with what was asked and the status, and ends with the whole
/// answer.
pub proof fn law_refusals_tell_the_answer(what: Seq<char>, status: u16, body: Seq<char>)
    ensures
        ("github "@ + what + " "@ + chars::decimal(status as nat) + ": "@).is_prefix_of(
            refusal(what, status, body),
        ),
        body.is_suffix_of(refusal(what, status, body)),
        refusal(what, status, body).len() == ("github "@ + what + " "@ + chars::decimal(
            status as nat,
        ) + ": "@).len() + body.len(),
{
    let head = "github "@ + what + " "@ + chars::decimal(status as nat) + ": "@;
    let all = refusal(what, status, body);
    assert(head =~= all.subrange(0, head.len() as int));
    assert(body =~= all.subrange(all.len() - body.len(), all.len() as int));
}

/// The comment on each finding stands on the finding's own file and line, on the new side, and
/// says its severity in capitals and then its whole text. The review is of the target's commit and
/// says what it was given to say.
pub proof fn law_each_finding_gets_its_comment(
    target: ReviewTargetView,
    findings: Seq<FindingView>,
    body: Seq<char>,
    i: int,
)
    ensures
        review_request(target, findings, body).commit_id == target.head_sha,
        review_request(target, findings, body).body == body,
        findings.len() > 0 ==> review_request(target, findings, body).event == "COMMENT"@,
        findings.len() == 0 ==> review_request(target, findings, body).event == "APPROVE"@,
        0 <= i < findings.len() ==> {
            let request = review_request(target, findings, body);
            let comment = request.comments->0[i];
            let f = findings[i];
            let head = "**"@ + chars::capitals(config::severity_name(f.severity)) + "** · "@;
            &&& request.comments is Some
            &&& request.comments->0.len() == findings.len()
            &&& comment.path == f.path
            &&& comment.line == f.line
            &&& comment.side == "RIGHT"@
            &&& head.is_prefix_of(comment.body)
            &&& f.body.is_suffix_of(comment.body)
            &&& comment.body.len() == head.len() + f.body.len()
        },
{
    if 0 <= i < findings.len() {
        let comment = review_request(target, findings, body).comments->0[i];
        let f = findings[i];
        let head = "**"@ + chars::capitals(config::severity_name(f.severity)) + "** · "@;
        assert(comment == comment_of(f));
        assert(head =~= comment.body.subrange(0, head.len() as int));
        assert(f.body =~= comment.body.subrange(
            comment.body.len() - f.body.len(),
            comment.body.len() as int,
        ));
    }
}

/// The text of a check run says that there are no issues only where there are no findings. One
/// more finding adds itself in full behind the others, whatever the summary says.
pub proof fn law_check_text_grows_with_findings(envelope: ReviewEnvelopeView, f: FindingView)
    ensures
        ({
            let before = output_of(envelope).text;
            let after = output_of(
                ReviewEnvelopeView { findings: envelope.findings.push(f), ..envelope },
            ).text;
            let shown = "**"@ + chars::capitals(config::severity_name(f.severity)) + "** `"@ + f.path
                + "`:"@ + chars::decimal(f.line as nat) + "\n\n"@ + f.body;
            &&& envelope.findings.len() == 0 ==> before == Some("No issues found."@)
            &&& envelope.findings.len() == 0 ==> after == Some(shown)
            &&& envelope.findings.len() > 0 ==> before is Some && after == Some(
                before->0 + "\n\n---\n\n"@ + shown,
            )
        }),
{
    let show = |f: FindingView| rendered(f);
    let all = envelope.findings;
    assert(all.push(f).map_values(show) =~= all.map_values(show).push(rendered(f)));
    chars::law_join_grows(all.map_values(show), rendered(f), "\n\n---\n\n"@);
}

/// Every finding of a review stands in full in the text of its check run, whatever the summary
/// says, and that text is not the one of a review without findings.
pub proof fn law_check_shows_every_finding(envelope: ReviewEnvelopeView, i: int)
    requires
        0 <= i < envelope.findings.len(),
    ensures
        output_of(envelope).text is Some,
        ({
            let f = envelope.findings[i];
            chars::within(
                output_of(envelope).text->0,
                "**"@ + chars::capitals(config::severity_name(f.severity)) + "** `"@ + f.path
                    + "`:"@ + chars::decimal(f.line as nat) + "\n\n"@ + f.body,
            )
        }),
        output_of(envelope).text != Some("No issues found."@),
{
    lemma_check_text(envelope, i);
    reveal_strlit("No issues found.");
}

proof fn lemma_check_text(envelope: ReviewEnvelopeView, i: int)
    requires
        0 <= i < envelope.findings.len(),
    ensures
        output_of(envelope).text is Some,
        output_of(envelope).text->0.len() > 0,
        output_of(envelope).text->0[0] == '*',
        chars::within(output_of(envelope).text->0, rendered(envelope.findings[i])),
    decreases envelope.findings.len(),
{
    let init = envelope.findings.drop_last();
    let shorter = ReviewEnvelopeView { findings: init, ..envelope };
    let last = envelope.findings.last();
    let none = Seq::<char>::empty();
    assert(init.push(last) =~= envelope.findings);
    assert(ReviewEnvelopeView { findings: init.push(last), ..shorter } == envelope);
    law_check_text_grows_with_findings(shorter, last);
    reveal_strlit("**");
    let text = output_of(envelope).text->0;
    if init.len() == 0 {
        chars::lemma_within(none, rendered(last), none);
        assert(none + rendered(last) + none =~= text);
    } else {
        let head = output_of(shorter).text->0;
        let rule = "\n\n---\n\n"@;
        lemma_check_text(shorter, 0);
        if i < init.len() {
            lemma_check_text(shorter, i);
            chars::lemma_within_wider(none, head, rule + rendered(last), rendered(init[i]));
            assert(none + head + (rule + rendered(last)) =~= text);
        } else {
            chars::lemma_within(head + rule, rendered(last), none);
            assert(head + rule + rendered(last) + none =~= text);
        }
    }
}

/// The summary of a check run is the review's own, letter for letter, unless that is blank.
pub proof fn law_check_keeps_the_summary(envelope: ReviewEnvelopeView)
    ensures
        chars::trim(envelope.summary).len() > 0 ==> output_of(envelope).summary == envelope.summary,
        chars::trim(envelope.summary).len() == 0 && envelope.findings.len() == 0 ==> output_of(
            envelope,
        ).summary == "No issues found."@,
        chars::trim(envelope.summary).len() == 0 && envelope.findings.len() > 0 ==> output_of(
            envelope,
        ).summary == "See inline review comments."@,
        output_of(envelope).title == check_title(envelope.findings),
{
}

/// The title counts the errors, or where there are none the warnings, in the singular for one and
/// in the plural for more.
pub proof fn law_title_counts_in_words(findings: Seq<FindingView>)
    ensures
        ({
            let errors = review::count_of(findings, Severity::Error);
            let warnings = review::count_of(findings, Severity::Warn);
            let title = check_title(findings);
            &&& errors == 1 ==> title == "1 error"@
            &&& errors > 1 ==> title == chars::decimal(errors) + " errors"@
            &&& errors == 0 && warnings == 1 ==> title == "1 warning"@
            &&& errors == 0 && warnings > 1 ==> title == chars::decimal(warnings) + " warnings"@
            &&& errors == 0 && warnings == 0 ==> title == "No issues"@
        }),
{
    reveal_strlit("");
    reveal_strlit("s");
    reveal_strlit(" error");
    reveal_strlit(" errors");
    reveal_strlit("1 error");
    reveal_strlit(" warning");
    reveal_strlit(" warnings");
    reveal_strlit("1 warning");
    let errors = review::count_of(findings, Severity::Error);
    let warnings = review::count_of(findings, Severity::Warn);
    let title = check_title(findings);
    if errors == 1 {
        assert(title =~= "1 error"@);
    } else if errors > 1 {
        assert(title =~= chars::decimal(errors) + " errors"@);
    } else if warnings == 1 {
        assert(title =~= "1 warning"@);
    } else if warnings > 1 {
        assert(title =~= chars::decimal(warnings) + " warnings"@);
    }
}

/// A check run fails exactly where a finding is an error, is neutral where one is a warning and
/// none an error, and succeeds where none is either.
pub proof fn law_gravest_finding_concludes(findings: Seq<FindingView>)
    ensures
        (exists|i: int|
            0 <= i < findings.len() && (#[trigger] findings[i]).severity == Severity::Error)
            ==> conclusion(findings) == "failure"@,
        (forall|i: int|
            0 <= i < findings.len() ==> (#[trigger] findings[i]).severity != Severity::Error) && (
        exists|i: int|
            0 <= i < findings.len() && (#[trigger] findings[i]).severity == Severity::Warn)
            ==> conclusion(findings) == "neutral"@,
        (forall|i: int|
            0 <= i < findings.len() ==> (#[trigger] findings[i]).severity == Severity::Info)
            ==> conclusion(findings) == "success"@,
{
}

/// A file that is missing or cannot be read sends the search to the next one, and from the last
/// one to the built-in defaults. One that holds a configuration ends the search with it, one that
/// cannot be fetched ends it with the failure.
pub proof fn law_search_goes_on_or_ends(
    index: int,
    loaded: RepoReviewConfig,
    failure: String,
    outcome: CandidateOutcome,
)
    requires
        0 <= index < 7,
    ensures
        after_candidate(index, CandidateOutcome::Loaded(loaded)) == SearchStepView::Done(loaded@),
        after_candidate(index, CandidateOutcome::Failed(failure)) == SearchStepView::Stop(failure@),
        (outcome is Missing || outcome is Unreadable) && index < 6 ==> after_candidate(
            index,
            outcome,
        ) == SearchStepView::Fetch(index + 1),
        (outcome is Missing || outcome is Unreadable) && index == 6 ==> after_candidate(
            index,
            outcome,
        ) == SearchStepView::Done(config::default_config()),
{
}

/// The search ends with the first file, in order, that holds a configuration, unless one before it
/// cannot be fetched; then it ends with that failure. Where no file does either, it ends with the
/// built-in defaults.
pub proof fn law_first_configuration_is_found(outcomes: Seq<CandidateOutcome>, k: int)
    requires
        outcomes.len() == 7,
    ensures
        0 <= k < 7 && (forall|i: int|
            0 <= i < k ==> (#[trigger] outcomes[i] is Missing || outcomes[i] is Unreadable)) ==> {
            &&& outcomes[k] matches CandidateOutcome::Loaded(c) ==> search_end(outcomes, 0)
                == SearchStepView::Done(c@)
            &&& outcomes[k] matches CandidateOutcome::Failed(e) ==> search_end(outcomes, 0)
                == SearchStepView::Stop(e@)
        },
        (forall|i: int|
            0 <= i < 7 ==> (#[trigger] outcomes[i] is Missing || outcomes[i] is Unreadable))
            ==> search_end(outcomes, 0) == SearchStepView::Done(config::default_config()),
{
    law_search_takes_the_first(outcomes, 0);
    if 0 <= k < 7 && (forall|i: int|
        0 <= i < k ==> (#[trigger] outcomes[i] is Missing || outcomes[i] is Unreadable)) {
        if decisive(outcomes[k]) {
            let first = choose|first: int|
                0 <= first < CANDIDATES && decisive(#[trigger] outcomes[first]) && (forall|i: int|
                    0 <= i < first ==> !decisive(#[trigger] outcomes[i])) && search_end(outcomes, 0)
                    == after_candidate(first, outcomes[first]);
            assert(first == k);
        }
    }
}

/// A diff within the limit is read as it stands, and every other answer but a success is refused
/// with its status and text.
pub proof fn law_diff_is_read_or_refused(status: u16, body: Seq<char>, limit: int)
    requires
        0 <= limit,
    ensures
        status / 100 == 2 && text::byte_len(body) <= limit ==> diff_answer(status, body, limit)
            == Ok::<Seq<char>, Seq<char>>(body),
        status / 100 == 2 ==> diff_answer(status, body, limit) is Ok && diff_answer(
            status,
            body,
            limit,
        )->Ok_0 == text::limited(body, limit),
        status / 100 != 2 ==> diff_answer(status, body, limit) is Err && diff_answer(
            status,
            body,
            limit,
        )->Err_0 == refusal("diff"@, status, body),
{
}

/// A file is read as it stands, is missing exactly where the answer says that it was not found,
/// and every other answer is a failure that names the file.
pub proof fn law_file_is_read_missing_or_refused(path: Seq<char>, status: u16, body: Seq<char>)
    ensures
        status / 100 == 2 <==> file_answer(path, status, body) == Ok::<Option<Seq<char>>, Seq<char>>(
            Some(body),
        ),
        status == 404 <==> file_answer(path, status, body) == Ok::<Option<Seq<char>>, Seq<char>>(
            None,
        ),
        status / 100 != 2 && status != 404 ==> file_answer(path, status, body) is Err && file_answer(
            path,
            status,
            body,
        )->Err_0 == refusal("config "@ + path, status, body),
{
}

/// What is posted is taken exactly where the answer is a success.
pub proof fn law_posts_are_taken_or_refused(what: Seq<char>, status: u16, body: Seq<char>)
    ensures
        status / 100 == 2 <==> posted_answer(what, status, body) is Ok,
        status / 100 != 2 ==> posted_answer(what, status, body)->Err_0 == refusal(
            what,
            status,
            body,
        ),
{
}

/// Every address is below that of its repository and names what it is of.
pub proof fn law_addresses_are_below_the_repository(
    base: Seq<char>,
    target: ReviewTargetView,
    sha: Seq<char>,
    path: Seq<char>,
    id: nat,
)
    ensures
        ({
            let n = repo_address(base, target).len() as int;
            let number = chars::decimal(target.pull_number as nat);
            &&& contents_address(base, target, sha, path).take(n) == repo_address(base, target)
            &&& contents_address(base, target, sha, path).skip(n) == "/contents/"@ + path
                + "?ref="@ + sha
            &&& reviews_address(base, target).take(n) == repo_address(base, target)
            &&& reviews_address(base, target).skip(n) == "/pulls/"@ + number + "/reviews"@
            &&& comments_address(base, target).take(n) == repo_address(base, target)
            &&& comments_address(base, target).skip(n) == "/issues/"@ + number + "/comments"@
            &&& check_runs_address(base, target).take(n) == repo_address(base, target)
            &&& check_runs_address(base, target).skip(n) == "/check-runs"@
            &&& check_run_address(base, target, id).take(n) == repo_address(base, target)
            &&& check_run_address(base, target, id).skip(n) == "/check-runs/"@ + chars::decimal(id)
        }),
{
    let repo = repo_address(base, target);
    let number = chars::decimal(target.pull_number as nat);
    lemma_address_below(
        repo,
        "/contents/"@ + path + "?ref="@ + sha,
        contents_address(base, target, sha, path),
    );
    lemma_address_below(repo, "/pulls/"@ + number + "/reviews"@, reviews_address(base, target));
    lemma_address_below(repo, "/issues/"@ + number + "/comments"@, comments_address(base, target));
    lemma_address_below(repo, "/check-runs"@, check_runs_address(base, target));
    lemma_address_below(
        repo,
        "/check-runs/"@ + chars::decimal(id),
        check_run_address(base, target, id),
    );
}

proof fn lemma_address_below(repo: Seq<char>, rest: Seq<char>, address: Seq<char>)
    requires
        address =~= repo + rest,
    ensures
        address.take(repo.len() as int) == repo,
        address.skip(repo.len() as int) == rest,
{
    assert(address.take(repo.len() as int) =~= repo);
    assert(address.skip(repo.len() as int) =~= rest);
}

/// A check run is completed with exactly what was handed over. The one that is given by its number
/// is completed, whatever commit is known; without a number one is made on the commit, and without
/// either nothing is done.
pub proof fn law_check_run_is_completed_once(
    target: ReviewTargetView,
    id: u64,
    check_name: Seq<char>,
    conclusion: Seq<char>,
    output: CheckOutputView,
    started_at: Seq<char>,
    completed_at: Seq<char>,
)
    ensures
        ({
            let given = call_of(
                target,
                Some(id),
                check_name,
                conclusion,
                output,
                started_at,
                completed_at,
            );
            let made = call_of(
                target,
                None,
                check_name,
                conclusion,
                output,
                started_at,
                completed_at,
            );
            &&& given is Some && given->0 is Update && given->0->Update_0 == id
            &&& (target.head_sha is None <==> made is None)
            &&& made is Some ==> made->0 is Create && made->0->Create_0.head_sha == target.head_sha
            &&& forall|request: CheckRunRequestView|
                (given->0->Update_1 == request || made is Some && made->0->Create_0 == request) ==> {
                    &&& #[trigger] request.name == check_name
                    &&& request.status == "completed"@
                    &&& request.conclusion == conclusion
                    &&& request.started_at == started_at
                    &&& request.completed_at == completed_at
                    &&& request.output == output
                }
        }),
{
}

} // verus!

//! Reviewing a diff at hand instead of a pull request.
use vstd::prelude::*;
use vstd::string::*;

use crate::chars;
use crate::chars::{decimal_text, head_of, joined, trimmed};
use crate::config;
use crate::config::{RepoReviewConfig, RepoReviewConfigView, RuntimeConfig};
use crate::github;
use crate::github::{SearchStep, SearchStepView};
use crate::review::{Finding, FindingView, ReviewEnvelope};

verus! {

/// Where a diff at hand comes from.
#[derive(Debug, Clone)]
pub enum LocalDiffSource {
    /// The staged changes of the working copy.
    Staged,
    /// The changes since the working copy left another branch.
    Base(String),
    /// A file, known by its name.
    DiffFile(String),
}

/// The contents of a [`LocalDiffSource`].
pub enum LocalDiffSourceView {
    Staged,
    Base(Seq<char>),
    DiffFile(Seq<char>),
}

impl View for LocalDiffSource {
    type V = LocalDiffSourceView;

    open spec fn view(&self) -> LocalDiffSourceView {
        match self {
            LocalDiffSource::Staged => LocalDiffSourceView::Staged,
            LocalDiffSource::Base(base) => LocalDiffSourceView::Base(base@),
            LocalDiffSource::DiffFile(path) => LocalDiffSourceView::DiffFile(path@),
        }
    }
}

/// What is said when more than one source is asked for.
pub const ONE_SOURCE_ONLY: &'static str = "choose only one local diff source: --staged, --base, or --diff-file";

/// How many sources are asked for.
pub open spec fn requested(staged: bool, base: bool, diff_file: bool) -> int {
    (if staged {
        1int
    } else {
        0
    }) + (if base {
        1int
    } else {
        0
    }) + (if diff_file {
        1int
    } else {
        0
    })
}

/// How a source is called.
pub open spec fn source_label(source: LocalDiffSourceView) -> Seq<char> {
    match source {
        LocalDiffSourceView::Staged => "staged changes"@,
        LocalDiffSourceView::Base(base) => base + "...HEAD"@,
        LocalDiffSourceView::DiffFile(path) => "diff file "@ + path,
    }
}

/// What `git` is told to get the diff of a source that is no file.
pub open spec fn git_arguments(source: LocalDiffSourceView) -> Option<Seq<Seq<char>>> {
    match source {
        LocalDiffSourceView::Staged => Some(
            seq!["diff"@, "--cached"@, "--no-ext-diff"@, "--unified=80"@],
        ),
        LocalDiffSourceView::Base(base) => Some(
            seq!["diff"@, "--no-ext-diff"@, "--unified=80"@, base + "...HEAD"@],
        ),
        LocalDiffSourceView::DiffFile(_) => None,
    }
}

/// The source that is asked for, if one is. More than one may not be.
pub open spec fn chosen_source(
    staged: bool,
    base: Option<Seq<char>>,
    diff_file: Option<Seq<char>>,
) -> Result<Option<LocalDiffSourceView>, Seq<char>> {
    match (staged, base, diff_file) {
        (false, None, None) => Ok(None),
        (true, None, None) => Ok(Some(LocalDiffSourceView::Staged)),
        (false, Some(base), None) => Ok(Some(LocalDiffSourceView::Base(base))),
        (false, None, Some(path)) => Ok(Some(LocalDiffSourceView::DiffFile(path))),
        _ => Err(ONE_SOURCE_ONLY@),
    }
}

impl LocalDiffSource {
    /// The source that the command line asks for, if it asks for one. It may ask for one only.
    pub fn from_args(staged: bool, base: Option<String>, diff_file: Option<String>) -> (r: Result<
        Option<LocalDiffSource>,
        &'static str,
    >)
        ensures
            r is Err <==> requested(staged, base is Some, diff_file is Some) > 1,
            r matches Err(message) ==> message@ == ONE_SOURCE_ONLY@,
            r matches Ok(source) ==> (match source {
                None => !staged && base is None && diff_file is None,
                Some(LocalDiffSource::Staged) => staged,
                Some(LocalDiffSource::Base(b)) => base is Some && b@ == base->0@,
                Some(LocalDiffSource::DiffFile(path)) => diff_file is Some && path@
                    == diff_file->0@,
            }),
            match chosen_source(staged, chars::opt_text(base), chars::opt_text(diff_file)) {
                Ok(None) => r matches Ok(None),
                Ok(Some(source)) => r matches Ok(Some(s)) && s@ == source,
                Err(message) => r is Err && r->Err_0@ == message,
            },
    {
        match (staged, base, diff_file) {
            (false, None, None) => Ok(None),
            (true, None, None) => Ok(Some(LocalDiffSource::Staged)),
            (false, Some(base), None) => Ok(Some(LocalDiffSource::Base(base))),
            (false, None, Some(path)) => Ok(Some(LocalDiffSource::DiffFile(path))),
            _ => Err(ONE_SOURCE_ONLY),
        }
    }

    /// How this source is called.
    pub fn label(&self) -> (r: String)
        ensures
            r@ == source_label(self@),
    {
        match self {
            LocalDiffSource::Staged => "staged changes".to_owned(),
            LocalDiffSource::Base(base) => {
                let mut r: String = base.clone();
                r.append("...HEAD");
                r
            },
            LocalDiffSource::DiffFile(path) => {
                let mut r: String = "diff file ".to_owned();
                r.append(path.as_str());
                r
            },
        }
    }

    /// What `git` is told to get this diff, unless it is in a file.
    pub fn git_args(&self) -> (r: Option<Vec<String>>)
        ensures
            match r {
                Some(args) => git_arguments(self@) == Some(chars::texts(args@)),
                None => git_arguments(self@) is None,
            },
    {
        match self {
            LocalDiffSource::Staged => {
                let args: Vec<String> = vec![
                    "diff".to_owned(),
                    "--cached".to_owned(),
                    "--no-ext-diff".to_owned(),
                    "--unified=80".to_owned(),
                ];
                assert(chars::texts(args@) =~= git_arguments(self@)->0);
                Some(args)
            },
            LocalDiffSource::Base(_) => {
                let args: Vec<String> = vec![
                    "diff".to_owned(),
                    "--no-ext-diff".to_owned(),
                    "--unified=80".to_owned(),
                    self.label(),
                ];
                assert(chars::texts(args@) =~= git_arguments(self@)->0);
                Some(args)
            },
            LocalDiffSource::DiffFile(_) => None,
        }
    }
}

/// What is said when `git` fails.
pub open spec fn git_failure_text(args: Seq<Seq<char>>, stderr: Seq<char>) -> Seq<char> {
    "git "@ + chars::join(args, " "@) + " failed: "@ + chars::first_chars(chars::trim(stderr), 400)
}

/// What is said when `git` fails: the command, and no more than the first 400 characters of what
/// `git` said.
pub fn git_failure(args: &Vec<String>, stderr: &str) -> (r: String)
    ensures
        r@ == "git "@ + chars::join(chars::texts(args@), " "@) + " failed: "@ + chars::first_chars(
            chars::trim(stderr@),
            400,
        ),
        r@ == git_failure_text(chars::texts(args@), stderr@),
{
    let mut r: String = "git ".to_owned();
    r.append(joined(args, " ").as_str());
    r.append(" failed: ");
    r.append(head_of(trimmed(stderr), 400));
    r
}

/// The number of files that may hold the configuration of a working copy.
pub const LOCAL_CANDIDATES: usize = 3;

/// Beside a working copy only Postil's own files count; they are the first of all.
pub proof fn law_local_files_are_the_first(index: int)
    requires
        0 <= index < github::CANDIDATES,
    ensures
        index < LOCAL_CANDIDATES <==> github::candidate_source(index)
            == github::ConfigSource::Postil,
{
}

/// How the search for a working copy's configuration starts: a configuration in the run's own
/// file ends it.
pub open spec fn first_local_step(told: Option<RepoReviewConfigView>) -> SearchStepView {
    match told {
        Some(c) => SearchStepView::Done(c),
        None => SearchStepView::Fetch(0),
    }
}

/// Starts the search for a working copy's configuration.
pub fn start_local_search(runtime: &RuntimeConfig) -> (r: SearchStep)
    ensures
        r@ == first_local_step(runtime@.file_review_config),
{
    match &runtime.file_review_config {
        Some(c) => SearchStep::Done(c.clone()),
        None => SearchStep::Fetch(0),
    }
}

/// What to do after looking at the file with the given place in the order: the first file that is
/// there decides, also where it cannot be read.
pub open spec fn after_local_file(
    index: int,
    outcome: Result<Option<RepoReviewConfig>, String>,
) -> SearchStepView {
    match outcome {
        Ok(Some(c)) => SearchStepView::Done(c@),
        Ok(None) => if index + 1 < LOCAL_CANDIDATES {
            SearchStepView::Fetch(index + 1)
        } else {
            SearchStepView::Done(config::default_config())
        },
        Err(e) => SearchStepView::Stop(e@),
    }
}

/// Goes on with the search for a working copy's configuration after looking at the file with
/// place `index` in the order. `outcome` is nothing where there is no such file.
pub fn next_local_step(index: usize, outcome: Result<Option<RepoReviewConfig>, String>) -> (r:
    SearchStep)
    ensures
        r@ == after_local_file(index as int, outcome),
{
    match outcome {
        Ok(Some(c)) => SearchStep::Done(c),
        Ok(None) => if index < LOCAL_CANDIDATES - 1 {
            SearchStep::Fetch(index + 1)
        } else {
            SearchStep::Done(RepoReviewConfig::default())
        },
        Err(e) => SearchStep::Stop(e),
    }
}

/// Where the search ends that goes on at `index`, when the files are as `outcomes` tells.
pub open spec fn local_search_end(
    outcomes: Seq<Result<Option<RepoReviewConfig>, String>>,
    index: int,
) -> SearchStepView
    decreases LOCAL_CANDIDATES - index,
{
    match after_local_file(index, outcomes[index]) {
        SearchStepView::Fetch(next) => if 0 <= index < next {
            local_search_end(outcomes, next)
        } else {
            SearchStepView::Fetch(next)
        },
        end => end,
    }
}

/// The configuration of a working copy, when the files are as `outcomes` tells.
pub open spec fn local_search_result(
    told: Option<RepoReviewConfigView>,
    outcomes: Seq<Result<Option<RepoReviewConfig>, String>>,
) -> SearchStepView {
    match first_local_step(told) {
        SearchStepView::Fetch(index) => local_search_end(outcomes, index),
        end => end,
    }
}

/// A configuration in the run's own file counts before every file of the working copy: the search
/// starts only where the run's file is silent, and otherwise ends with what that file says.
pub proof fn law_run_file_comes_before_working_copy(
    told: Option<RepoReviewConfigView>,
    outcomes: Seq<Result<Option<RepoReviewConfig>, String>>,
)
    ensures
        first_local_step(told) is Fetch <==> told is None,
        told matches Some(c) ==> local_search_result(told, outcomes) == SearchStepView::Done(c),
{
}

/// A file that is not there.
pub open spec fn absent(outcome: Result<Option<RepoReviewConfig>, String>) -> bool {
    outcome matches Ok(None)
}

/// The configuration of a working copy is that of the first file, in order, that is there. Where
/// none is, the built-in defaults hold.
pub proof fn law_local_search_takes_the_first(
    outcomes: Seq<Result<Option<RepoReviewConfig>, String>>,
    index: int,
)
    requires
        outcomes.len() == LOCAL_CANDIDATES,
        0 <= index < LOCAL_CANDIDATES,
    ensures
        ({
            ||| (forall|i: int| index <= i < LOCAL_CANDIDATES ==> absent(#[trigger] outcomes[i]))
                && local_search_end(outcomes, index) == SearchStepView::Done(
                config::default_config(),
            )
            ||| exists|k: int|
                index <= k < LOCAL_CANDIDATES && !absent(#[trigger] outcomes[k]) && (forall|i: int|
                    index <= i < k ==> absent(#[trigger] outcomes[i])) && local_search_end(
                    outcomes,
                    index,
                ) == after_local_file(k, outcomes[k])
        }),
    decreases LOCAL_CANDIDATES - index,
{
    if absent(outcomes[index]) && index + 1 < LOCAL_CANDIDATES {
        law_local_search_takes_the_first(outcomes, index + 1);
        if exists|i: int| index + 1 <= i < LOCAL_CANDIDATES && !absent(#[trigger] outcomes[i]) {
            let k = choose|k: int|
                index + 1 <= k < LOCAL_CANDIDATES && !absent(#[trigger] outcomes[k]) && (forall|
                    i: int,
                |
                    index + 1 <= i < k ==> absent(#[trigger] outcomes[i])) && local_search_end(
                    outcomes,
                    index + 1,
                ) == after_local_file(k, outcomes[k]);
            assert(!absent(outcomes[k]));
        }
    }
}

/// A finding as it is shown on the terminal.
pub open spec fn local_line(f: FindingView) -> Seq<char> {
    chars::capitals(config::severity_name(f.severity)) + " "@ + f.path + ":"@ + chars::decimal(
        f.line as nat,
    ) + " "@ + f.body
}

/// The findings as they are shown on the terminal.
pub open spec fn local_lines(findings: Seq<FindingView>) -> Seq<char> {
    chars::join(findings.map_values(|f: FindingView| local_line(f)), "\n"@)
}

/// The findings as they are shown on the terminal.
pub fn render_local_findings(envelope: &ReviewEnvelope) -> (r: String)
    ensures
        r@ == local_lines(envelope@.findings),
{
    let ghost all = envelope@.findings;
    let mut parts: Vec<String> = Vec::new();
    let mut i: usize = 0;
    while i < envelope.findings.len()
        invariant
            i <= envelope.findings.len(),
            all == envelope@.findings,
            parts@.len() == i,
            forall|j: int| 0 <= j < i ==> (#[trigger] parts@[j])@ == local_line(all[j]),
        decreases envelope.findings.len() - i,
    {
        let f: &Finding = &envelope.findings[i];
        assert(all[i as int] == f@);
        let mut part: String = f.severity.as_capitals().to_owned();
        part.append(" ");
        part.append(f.path.as_str());
        part.append(":");
        part.append(decimal_text(f.line).as_str());
        part.append(" ");
        part.append(f.body.as_str());
        parts.push(part);
        i = i + 1;
    }
    assert(chars::texts(parts@) =~= all.map_values(|f: FindingView| local_line(f)));
    joined(&parts, "\n")
}

/// Changes since another branch are asked for by that branch, and a file is called by its name.
pub proof fn law_sources_are_called_by_name(name: Seq<char>)
    ensures
        source_label(LocalDiffSourceView::Base(name)) == name + "...HEAD"@,
        source_label(LocalDiffSourceView::DiffFile(name)) == "diff file "@ + name,
        source_label(LocalDiffSourceView::Staged) == "staged changes"@,
        git_arguments(LocalDiffSourceView::Base(name)) matches Some(args) && args.contains(
            name + "...HEAD"@,
        ) && !args.contains("--cached"@) && args[0] == "diff"@,
        git_arguments(LocalDiffSourceView::Staged) matches Some(args) && args.contains(
            "--cached"@,
        ) && args[0] == "diff"@,
        git_arguments(LocalDiffSourceView::DiffFile(name)) is None,
{
    reveal_strlit("diff");
    reveal_strlit("--cached");
    reveal_strlit("--no-ext-diff");
    reveal_strlit("--unified=80");
    reveal_strlit("...HEAD");
    let args = git_arguments(LocalDiffSourceView::Base(name))->0;
    assert(args[3] == name + "...HEAD"@);
    assert("--cached"@[2] == 'c' && "--no-ext-diff"@[2] == 'n' && "--unified=80"@[2] == 'u');
    assert((name + "...HEAD"@).last() == 'D' && "--cached"@.last() == 'd');
    assert("diff"@[0] == 'd' && "--cached"@[0] == '-');
    let staged = git_arguments(LocalDiffSourceView::Staged)->0;
    assert(staged[1] == "--cached"@);
}

/// One more finding adds a line behind the others: its severity in capitals, its path and line,
/// and its body.
pub proof fn law_terminal_shows_every_finding(findings: Seq<FindingView>, f: FindingView)
    ensures
        ({
            let line = chars::capitals(config::severity_name(f.severity)) + " "@ + f.path + ":"@
                + chars::decimal(f.line as nat) + " "@ + f.body;
            &&& local_lines(Seq::empty()).len() == 0
            &&& findings.len() == 0 ==> local_lines(findings.push(f)) == line
            &&& findings.len() > 0 ==> local_lines(findings.push(f)) == local_lines(findings)
                + "\n"@ + line
        }),
{
    let show = |f: FindingView| local_line(f);
    assert(Seq::<FindingView>::empty().map_values(show) =~= Seq::empty());
    assert(findings.push(f).map_values(show) =~= findings.map_values(show).push(local_line(f)));
    chars::law_join_grows(findings.map_values(show), local_line(f), "\n"@);
}

/// Beside a working copy a file that is missing sends the search to the next one, and from the
/// last one to the built-in defaults; a file that is there ends it, with its configuration or with
/// what is wrong with it.
pub proof fn law_local_search_goes_on_or_ends(index: int, loaded: RepoReviewConfig, failure: String)
    requires
        0 <= index < 3,
    ensures
        after_local_file(index, Ok(Some(loaded))) == SearchStepView::Done(loaded@),
        after_local_file(index, Err(failure)) == SearchStepView::Stop(failure@),
        index < 2 ==> after_local_file(index, Ok(None)) == SearchStepView::Fetch(index + 1),
        index == 2 ==> after_local_file(index, Ok(None)) == SearchStepView::Done(
            config::default_config(),
        ),
{
}

/// Of the first file that is there the configuration counts, or what is wrong with it.
pub proof fn law_first_local_file_counts(
    outcomes: Seq<Result<Option<RepoReviewConfig>, String>>,
    k: int,
)
    requires
        outcomes.len() == 3,
        0 <= k < 3,
        forall|i: int| 0 <= i < k ==> ((#[trigger] outcomes[i]) matches Ok(None)),
    ensures
        outcomes[k] matches Ok(Some(c)) ==> local_search_end(outcomes, 0) == SearchStepView::Done(
            c@,
        ),
        outcomes[k] matches Err(e) ==> local_search_end(outcomes, 0) == SearchStepView::Stop(e@),
        outcomes[2] matches Ok(None) ==> k == 2 ==> local_search_end(outcomes, 0)
            == SearchStepView::Done(config::default_config()),
{
    reveal_with_fuel(local_search_end, 4);
}

/// A source that is asked for alone is the source, and none is where none is asked for. Each two
/// of them exclude one another.
pub proof fn law_sources_exclude_one_another(
    name: Seq<char>,
    staged: bool,
    base: Option<Seq<char>>,
    diff_file: Option<Seq<char>>,
)
    ensures
        chosen_source(false, None, None) == Ok::<Option<LocalDiffSourceView>, Seq<char>>(None),
        chosen_source(true, None, None) == Ok::<Option<LocalDiffSourceView>, Seq<char>>(
            Some(LocalDiffSourceView::Staged),
        ),
        chosen_source(false, Some(name), None) == Ok::<Option<LocalDiffSourceView>, Seq<char>>(
            Some(LocalDiffSourceView::Base(name)),
        ),
        chosen_source(false, None, Some(name)) == Ok::<Option<LocalDiffSourceView>, Seq<char>>(
            Some(LocalDiffSourceView::DiffFile(name)),
        ),
        (staged && base is Some) || (staged && diff_file is Some) || (base is Some && diff_file
            is Some) <==> chosen_source(staged, base, diff_file) is Err,
        chosen_source(staged, base, diff_file) is Err ==> chosen_source(
            staged,
            base,
            diff_file,
        )->Err_0 == "choose only one local diff source: --staged, --base, or --diff-file"@,
{
}

/// What is said of a failure of `git` names the command and ends with what `git` said, without the
/// white space around it, or with its first characters where that is long.
pub proof fn law_git_failures_tell_what_git_said(args: Seq<Seq<char>>, stderr: Seq<char>)
    ensures
        ({
            let said = chars::trim(stderr);
            let head = "git "@ + chars::join(args, " "@) + " failed: "@;
            &&& said.len() <= 400 ==> git_failure_text(args, stderr) == head + said
            &&& said.len() > 400 ==> git_failure_text(args, stderr) == head + said.take(400)
        }),
{
}

} // verus!

//! The glob patterns of paths that a review leaves alone.
use vstd::prelude::*;
use vstd::string::*;

use crate::chars;

verus! {

// ---------------------------------------------------------------------------
// Globs
// ---------------------------------------------------------------------------

/// One pattern.
#[verifier::external_type_specification]
#[verifier::external_body]
pub struct ExGlob(globset::Glob);

/// Patterns that are being collected.
#[verifier::external_type_specification]
#[verifier::external_body]
pub struct ExGlobSetBuilder(globset::GlobSetBuilder);

/// Patterns that are ready to be matched.
#[verifier::external_type_specification]
#[verifier::external_body]
pub struct ExGlobSet(globset::GlobSet);

/// Why a pattern or a set of patterns is refused.
#[verifier::external_type_specification]
#[verifier::external_body]
pub struct ExGlobError(globset::Error);

/// What `globset::Glob::new` has against a pattern, as text, or nothing where it accepts the
/// pattern. This is settled by the pattern and by the system that the library is compiled for:
/// where paths are separated by backslashes, a backslash does not escape.
pub uninterp spec fn glob_refusal(pattern: Seq<char>) -> Option<Seq<char>>;

/// The text that a `globset::Error` shows.
pub uninterp spec fn glob_error_text(error: globset::Error) -> Seq<char>;

/// The text that a `globset::Glob` was made from.
pub uninterp spec fn glob_pattern(glob: globset::Glob) -> Seq<char>;

/// The patterns that a `globset::GlobSetBuilder` holds, in the order in which they were added.
pub uninterp spec fn builder_patterns(builder: globset::GlobSetBuilder) -> Seq<Seq<char>>;

/// The patterns that a `globset::GlobSet` was built from.
pub uninterp spec fn set_patterns(set: globset::GlobSet) -> Seq<Seq<char>>;

/// Whether `globset::GlobSetBuilder::build` makes a set of these patterns. This is settled by
/// the patterns and by the system that the library is compiled for, on which it depends how much
/// room their automaton takes.
pub uninterp spec fn glob_set_builds(patterns: Seq<Seq<char>>) -> bool;

/// Whether `globset::GlobSetBuilder::build` may give this text as its reason for making no set of
/// these patterns. Where it has something against more than one of them, it is open which one it
/// names: it goes through patterns that end in an extension in the order of a hash map.
pub uninterp spec fn glob_set_refusal(patterns: Seq<Seq<char>>, reason: Seq<char>) -> bool;

/// Whether a pattern, in a `globset::GlobSet`, matches a path. This is settled by the two and by
/// the system that the library is compiled for: where paths are separated by backslashes, one
/// counts as a slash.
pub uninterp spec fn glob_matches(pattern: Seq<char>, path: Seq<char>) -> bool;

/// `globset::Glob::new`: acceptance, and the text of the error where there is one, depend on the
/// pattern alone, and the glob keeps the pattern that it was made from. The call goes one level
/// deeper for each level of nested alternates, so that the stack bounds their nesting; the
/// contract does not speak of the stack.
pub assume_specification[ globset::Glob::new ](glob: &str) -> (r: Result<
    globset::Glob,
    globset::Error,
>)
    ensures
        r is Ok <==> glob_refusal(glob@) is None,
        r matches Ok(g) ==> glob_pattern(g) == glob@,
        r matches Err(e) ==> glob_refusal(glob@) == Some(glob_error_text(e)),
;

/// `ToString` of `globset::Error`, which has it by `Display`: the text that the error shows.
#[verifier::external_body]
fn error_text(error: &globset::Error) -> (r: String)
    ensures
        r@ == glob_error_text(*error),
{
    error.to_string()
}

/// `globset::GlobSetBuilder::new`: a new builder holds no pattern.
pub assume_specification[ globset::GlobSetBuilder::new ]() -> (builder: globset::GlobSetBuilder)
    ensures
        builder_patterns(builder) == Seq::<Seq<char>>::empty(),
;

/// `globset::GlobSetBuilder::add`: the pattern comes behind those that are there.
#[verifier::external_body]
fn add_glob(builder: &mut globset::GlobSetBuilder, glob: globset::Glob)
    ensures
        builder_patterns(*final(builder)) == builder_patterns(*old(builder)).push(
            glob_pattern(glob),
        ),
{
    builder.add(glob);
}

/// `globset::GlobSetBuilder::build`: whether a set comes out depends on the patterns alone; the
/// set holds those patterns, and a set of none always comes out. An error is one of those that
/// these patterns may give.
pub assume_specification[ globset::GlobSetBuilder::build ](
    builder: &globset::GlobSetBuilder,
) -> (r: Result<globset::GlobSet, globset::Error>)
    ensures
        r is Ok <==> glob_set_builds(builder_patterns(*builder)),
        r matches Ok(set) ==> set_patterns(set) == builder_patterns(*builder),
        r matches Err(e) ==> glob_set_refusal(builder_patterns(*builder), glob_error_text(e)),
        builder_patterns(*builder).len() == 0 ==> r is Ok,
;

/// `globset::GlobSet::is_match`: a set matches a path when one of its patterns does.
#[verifier::external_body]
pub(crate) fn is_ignored(set: &globset::GlobSet, path: &str) -> (r: bool)
    ensures
        r == (exists|i: int|
            0 <= i < set_patterns(*set).len() && glob_matches(
                #[trigger] set_patterns(*set)[i],
                path@,
            )),
{
    set.is_match(path)
}

/// Whether one of the patterns matches a path.
pub open spec fn any_matches(patterns: Seq<Seq<char>>, path: Seq<char>) -> bool {
    exists|i: int| 0 <= i < patterns.len() && glob_matches(#[trigger] patterns[i], path)
}

/// No pattern, no match.
pub proof fn law_no_patterns_match_nothing(path: Seq<char>)
    ensures
        !any_matches(Seq::empty(), path),
{
}

/// Two lists of patterns together match what one or the other matches.
pub proof fn law_patterns_add_up(one: Seq<Seq<char>>, other: Seq<Seq<char>>, path: Seq<char>)
    ensures
        any_matches(one + other, path) <==> any_matches(one, path) || any_matches(other, path),
{
    let both = one + other;
    if any_matches(both, path) {
        let i = choose|i: int| 0 <= i < both.len() && glob_matches(#[trigger] both[i], path);
        if i < one.len() {
            assert(one[i] == both[i]);
        } else {
            assert(other[i - one.len()] == both[i]);
        }
    }
    if any_matches(one, path) {
        let i = choose|i: int| 0 <= i < one.len() && glob_matches(#[trigger] one[i], path);
        assert(both[i] == one[i]);
    }
    if any_matches(other, path) {
        let i = choose|i: int| 0 <= i < other.len() && glob_matches(#[trigger] other[i], path);
        assert(both[one.len() + i] == other[i]);
    }
}

// ---------------------------------------------------------------------------
// Ignored paths
// ---------------------------------------------------------------------------

/// Why a list of ignored paths cannot be used.
#[derive(Debug)]
pub enum IgnoreError {
    /// A pattern that is none, and what is wrong with it.
    InvalidGlob { glob: String, cause: String },
    /// Patterns that make no set, and why.
    Build { cause: String },
}

/// The contents of an [`IgnoreError`].
pub enum IgnoreErrorView {
    InvalidGlob { glob: Seq<char>, cause: Seq<char> },
    Build { cause: Seq<char> },
}

impl View for IgnoreError {
    type V = IgnoreErrorView;

    open spec fn view(&self) -> IgnoreErrorView {
        match self {
            IgnoreError::InvalidGlob { glob, cause } => IgnoreErrorView::InvalidGlob {
                glob: glob@,
                cause: cause@,
            },
            IgnoreError::Build { cause } => IgnoreErrorView::Build { cause: cause@ },
        }
    }
}

/// The sentence that tells a user what is wrong with a list of ignored paths.
pub open spec fn ignore_message(e: IgnoreErrorView) -> Seq<char> {
    match e {
        IgnoreErrorView::InvalidGlob { glob, cause } => "invalid ignore glob "@ + glob + ": "@
            + cause,
        IgnoreErrorView::Build { cause } => "build ignore glob set: "@ + cause,
    }
}

impl IgnoreError {
    /// The sentence that tells a user what is wrong with the list of ignored paths.
    pub fn message(&self) -> (r: String)
        ensures
            r@ == ignore_message(self@),
    {
        match self {
            IgnoreError::InvalidGlob { glob, cause } => {
                let mut r: String = "invalid ignore glob ".to_owned();
                r.append(glob.as_str());
                r.append(": ");
                r.append(cause.as_str());
                r
            },
            IgnoreError::Build { cause } => {
                let mut r: String = "build ignore glob set: ".to_owned();
                r.append(cause.as_str());
                r
            },
        }
    }
}

/// The first pattern, from `start` on, that is not accepted.
pub open spec fn first_refused(globs: Seq<Seq<char>>, start: int) -> Option<Seq<char>>
    decreases globs.len() - start,
{
    if start < 0 || start >= globs.len() {
        None
    } else if glob_refusal(globs[start]) is Some {
        Some(globs[start])
    } else {
        first_refused(globs, start + 1)
    }
}

/// A list of patterns that can be used: each is accepted, and together they make a set.
pub open spec fn usable(globs: Seq<Seq<char>>) -> bool {
    first_refused(globs, 0) is None && glob_set_builds(globs)
}

/// Whether an error is the one that a list of patterns gives: the first pattern that is not
/// accepted, with what is wrong with it, or where all are accepted and make no set, a reason for
/// that.
pub open spec fn ignore_error(globs: Seq<Seq<char>>, e: IgnoreErrorView) -> bool {
    match first_refused(globs, 0) {
        Some(refused) => e == (IgnoreErrorView::InvalidGlob {
            glob: refused,
            cause: glob_refusal(refused)->0,
        }),
        None => !glob_set_builds(globs) && (e matches IgnoreErrorView::Build { cause }
            && glob_set_refusal(globs, cause)),
    }
}

/// A list of patterns gives an error only where it cannot be used.
pub proof fn law_usable_patterns_give_no_error(globs: Seq<Seq<char>>, e: IgnoreErrorView)
    ensures
        usable(globs) ==> !ignore_error(globs, e),
{
}

/// The set of the patterns in `globs`.
pub(crate) fn build_ignore(globs: &Vec<String>) -> (r: Result<globset::GlobSet, IgnoreError>)
    ensures
        match r {
            Ok(set) => usable(chars::texts(globs@)) && set_patterns(set) == chars::texts(globs@),
            Err(e) => ignore_error(chars::texts(globs@), e@),
        },
        globs@.len() == 0 ==> r is Ok,
{
    let ghost all = chars::texts(globs@);
    let mut builder: globset::GlobSetBuilder = globset::GlobSetBuilder::new();
    let mut i: usize = 0;
    assert(all.take(0) =~= Seq::empty());
    while i < globs.len()
        invariant
            i <= globs.len(),
            all == chars::texts(globs@),
            first_refused(all, 0) == first_refused(all, i as int),
            builder_patterns(builder) == all.take(i as int),
        decreases globs.len() - i,
    {
        assert(all[i as int] == globs@[i as int]@);
        match globset::Glob::new(globs[i].as_str()) {
            Ok(glob) => {
                add_glob(&mut builder, glob);
            },
            Err(cause) => {
                return Err(
                    IgnoreError::InvalidGlob { glob: globs[i].clone(), cause: error_text(&cause) },
                );
            },
        }
        assert(all.take(i + 1) =~= all.take(i as int).push(all[i as int]));
        i = i + 1;
    }
    assert(all.take(i as int) =~= all);
    match builder.build() {
        Ok(set) => Ok(set),
        Err(cause) => Err(IgnoreError::Build { cause: error_text(&cause) }),
    }
}

/// A list of one pattern matches what the pattern matches.
pub proof fn law_one_pattern_matches_for_itself(pattern: Seq<char>, path: Seq<char>)
    ensures
        any_matches(seq![pattern], path) <==> glob_matches(pattern, path),
{
    let list = seq![pattern];
    assert(list[0] == pattern);
}

/// A list can be used exactly where each pattern is accepted and they make a set. Of patterns that
/// are not accepted, the first is named with what is wrong with it.
pub proof fn law_first_bad_pattern_is_named(globs: Seq<Seq<char>>, e: IgnoreErrorView)
    ensures
        usable(globs) <==> glob_set_builds(globs) && forall|i: int|
            0 <= i < globs.len() ==> glob_refusal(#[trigger] globs[i]) is None,
        ignore_error(globs, e) ==> (match e {
            IgnoreErrorView::InvalidGlob { glob, cause } => glob_refusal(glob) == Some(cause)
                && exists|i: int|
                0 <= i < globs.len() && #[trigger] globs[i] == glob && forall|j: int|
                    0 <= j < i ==> glob_refusal(#[trigger] globs[j]) is None,
            IgnoreErrorView::Build { cause } => glob_set_refusal(globs, cause) && (forall|i: int|
                0 <= i < globs.len() ==> glob_refusal(#[trigger] globs[i]) is None),
        }),
{
    lemma_first_refused(globs, 0);
}

proof fn lemma_first_refused(globs: Seq<Seq<char>>, start: int)
    requires
        0 <= start <= globs.len(),
    ensures
        match first_refused(globs, start) {
            Some(glob) => glob_refusal(glob) is Some && exists|i: int|
                start <= i < globs.len() && #[trigger] globs[i] == glob && forall|j: int|
                    start <= j < i ==> glob_refusal(#[trigger] globs[j]) is None,
            None => forall|i: int|
                start <= i < globs.len() ==> glob_refusal(#[trigger] globs[i]) is None,
        },
    decreases globs.len() - start,
{
    if start < globs.len() {
        if glob_refusal(globs[start]) is None {
            lemma_first_refused(globs, start + 1);
            if let Some(glob) = first_refused(globs, start + 1) {
                let i = choose|i: int|
                    start + 1 <= i < globs.len() && #[trigger] globs[i] == glob && forall|j: int|
                        start + 1 <= j < i ==> glob_refusal(#[trigger] globs[j]) is None;
                assert(globs[i] == glob);
            }
        } else {
            assert(globs[start] == first_refused(globs, start)->0);
        }
    }
}

/// What is said of an error names the pattern and ends with the cause.
pub proof fn law_ignore_messages_tell_the_cause(glob: Seq<char>, cause: Seq<char>)
    ensures
        ignore_message(IgnoreErrorView::InvalidGlob { glob, cause }) == "invalid ignore glob "@ + (
        glob + ": "@ + cause),
        cause.is_suffix_of(ignore_message(IgnoreErrorView::Build { cause })),
        "build ignore glob set: "@.is_prefix_of(ignore_message(IgnoreErrorView::Build { cause })),
{
    assert(ignore_message(IgnoreErrorView::InvalidGlob { glob, cause }) =~= "invalid ignore glob "@
        + (glob + ": "@ + cause));
    let head = "build ignore glob set: "@;
    let all = head + cause;
    assert(head =~= all.subrange(0, head.len() as int));
    assert(cause =~= all.subrange(all.len() - cause.len(), all.len() as int));
}

} // verus!

//! Cutting a text down to a number of bytes.
use vstd::prelude::*;
use vstd::string::*;
use vstd::utf8::*;

verus! {

/// What stands at the end of a text that was cut.
pub const TRUNCATION_MARK: &'static str = "\n\n[diff truncated]";

/// The number of bytes that a text takes in UTF-8.
pub open spec fn byte_len(s: Seq<char>) -> nat {
    encode_utf8(s).len()
}

/// The greatest `k`, from `start` on, such that the first `k` characters of `s` take at most
/// `limit` bytes.
pub open spec fn fitting_from(s: Seq<char>, limit: int, start: int) -> int
    decreases s.len() - start,
{
    if start < s.len() && byte_len(s.take(start + 1)) <= limit {
        fitting_from(s, limit, start + 1)
    } else {
        start
    }
}

/// The longest prefix of `s` that takes at most `limit` bytes.
pub open spec fn fitting_prefix(s: Seq<char>, limit: int) -> Seq<char> {
    s.take(fitting_from(s, limit, 0))
}

/// A text as it is when it takes at most `limit` bytes, and otherwise the longest prefix that
/// does, with the truncation mark behind it.
pub open spec fn limited(s: Seq<char>, limit: int) -> Seq<char> {
    if byte_len(s) <= limit {
        s
    } else {
        fitting_prefix(s, limit) + TRUNCATION_MARK@
    }
}

/// The first bytes of a text are the bytes of its first character.
proof fn lemma_encode_first(s: Seq<char>)
    requires
        s.len() > 0,
    ensures
        encode_utf8(s) == encode_scalar(s[0] as u32) + encode_utf8(s.skip(1)),
        pop_first_scalar(encode_utf8(s)) == encode_utf8(s.skip(1)),
        length_of_first_scalar(encode_utf8(s)) == encode_scalar(s[0] as u32).len(),
        encode_scalar(s[0] as u32).len() > 0,
        valid_utf8(encode_utf8(s)),
{
    encode_utf8_first_scalar(s);
    encode_utf8_valid_utf8(s);
    assert(s.drop_first() == s.skip(1));
    assert(pop_first_scalar(encode_utf8(s)) =~= encode_utf8(s.skip(1)));
}

/// A prefix of whole characters ends at a character boundary.
proof fn lemma_prefix_ends_at_boundary(s: Seq<char>, k: int)
    requires
        0 <= k <= s.len(),
    ensures
        is_char_boundary(encode_utf8(s), byte_len(s.take(k)) as int),
        byte_len(s.take(k)) <= byte_len(s),
    decreases s.len(),
{
    encode_utf8_valid_utf8(s);
    if k == 0 {
        assert(s.take(0) =~= Seq::empty());
    } else {
        let tail = s.skip(1);
        lemma_encode_first(s);
        lemma_prefix_ends_at_boundary(tail, k - 1);
        lemma_encode_first(s.take(k));
        assert(s.take(k).skip(1) =~= tail.take(k - 1));
    }
}

/// One more character takes more bytes.
proof fn lemma_byte_len_grows(s: Seq<char>, k: int)
    requires
        0 <= k < s.len(),
    ensures
        byte_len(s.take(k)) < byte_len(s.take(k + 1)),
    decreases k,
{
    lemma_encode_first(s.take(k + 1));
    if k == 0 {
        assert(s.take(0) =~= Seq::empty());
    } else {
        let tail = s.skip(1);
        lemma_encode_first(s.take(k));
        assert(s.take(k).skip(1) =~= tail.take(k - 1));
        assert(s.take(k + 1).skip(1) =~= tail.take(k));
        lemma_byte_len_grows(tail, k - 1);
    }
}

/// A shorter prefix takes no more bytes.
proof fn lemma_byte_len_monotone(s: Seq<char>, j: int, k: int)
    requires
        0 <= j <= k <= s.len(),
    ensures
        byte_len(s.take(j)) <= byte_len(s.take(k)),
    decreases k - j,
{
    if j < k {
        lemma_byte_len_grows(s, k - 1);
        lemma_byte_len_monotone(s, j, k - 1);
    }
}

/// A prefix that fits, and that no longer one does, is the one that `fitting_from` finds.
proof fn lemma_fitting_is(s: Seq<char>, limit: int, start: int, k: int)
    requires
        0 <= start <= k <= s.len(),
        byte_len(s.take(k)) <= limit,
        k < s.len() ==> byte_len(s.take(k + 1)) > limit,
    ensures
        fitting_from(s, limit, start) == k,
    decreases k - start,
{
    if start < k {
        lemma_byte_len_monotone(s, start + 1, k);
        lemma_fitting_is(s, limit, start + 1, k);
    }
}

/// The prefix that is kept fits the limit, and one more character would not.
pub proof fn law_kept_prefix_is_longest(s: Seq<char>, limit: int)
    requires
        0 <= limit,
    ensures
        fitting_prefix(s, limit).is_prefix_of(s),
        byte_len(fitting_prefix(s, limit)) <= limit,
        forall|k: int|
            fitting_prefix(s, limit).len() < k <= s.len() ==> byte_len(#[trigger] s.take(k))
                > limit,
{
    assert(s.take(0) =~= Seq::empty());
    lemma_fitting_from_fits(s, limit, 0);
    let n = fitting_from(s, limit, 0);
    assert forall|k: int| n < k <= s.len() implies byte_len(#[trigger] s.take(k)) > limit by {
        lemma_byte_len_monotone(s, n + 1, k);
    }
}

proof fn lemma_fitting_from_fits(s: Seq<char>, limit: int, start: int)
    requires
        0 <= start <= s.len(),
        byte_len(s.take(start)) <= limit,
    ensures
        start <= fitting_from(s, limit, start) <= s.len(),
        byte_len(s.take(fitting_from(s, limit, start))) <= limit,
        fitting_from(s, limit, start) < s.len() ==> byte_len(
            s.take(fitting_from(s, limit, start) + 1),
        ) > limit,
    decreases s.len() - start,
{
    if start < s.len() && byte_len(s.take(start + 1)) <= limit {
        lemma_fitting_from_fits(s, limit, start + 1);
    }
}

/// A cut text is at most the limit and the truncation mark long, and starts as the text did.
pub proof fn law_limited_is_bounded(s: Seq<char>, limit: int)
    requires
        0 <= limit,
    ensures
        byte_len(limited(s, limit)) <= limit + byte_len(TRUNCATION_MARK@),
        byte_len(s) <= limit ==> limited(s, limit) == s,
        byte_len(s) > limit ==> TRUNCATION_MARK@.is_suffix_of(limited(s, limit)),
{
    if byte_len(s) > limit {
        law_kept_prefix_is_longest(s, limit);
        lemma_byte_len_concat(fitting_prefix(s, limit), TRUNCATION_MARK@);
        let whole = limited(s, limit);
        let mark = TRUNCATION_MARK@;
        assert(mark =~= whole.subrange(whole.len() - mark.len(), whole.len() as int));
    }
}

/// The bytes of two texts in a row are those of the one and of the other.
pub proof fn lemma_byte_len_concat(a: Seq<char>, b: Seq<char>)
    ensures
        byte_len(a + b) == byte_len(a) + byte_len(b),
    decreases a.len(),
{
    if a.len() == 0 {
        assert(a + b =~= b);
    } else {
        lemma_encode_first(a);
        lemma_encode_first(a + b);
        assert((a + b).skip(1) =~= a.skip(1) + b);
        lemma_byte_len_concat(a.skip(1), b);
    }
}

/// The part of a text before a character boundary is a prefix of its characters.
proof fn lemma_split_is_prefix(s: Seq<char>, first: Seq<char>, second: Seq<char>, at: int)
    requires
        is_char_boundary(encode_utf8(s), at),
        0 <= at <= encode_utf8(s).len(),
        encode_utf8(first) == encode_utf8(s).subrange(0, at),
        encode_utf8(second) == encode_utf8(s).subrange(at, encode_utf8(s).len() as int),
    ensures
        first.len() <= s.len(),
        first == s.take(first.len() as int),
{
    encode_utf8_valid_utf8(s);
    decode_utf8_split(encode_utf8(s), at);
    encode_utf8_decode_utf8(s);
    encode_utf8_decode_utf8(first);
    encode_utf8_decode_utf8(second);
    assert(s == first + second);
    assert(first =~= s.take(first.len() as int));
}

/// Cuts `text` to at most `limit` bytes, at the end of a whole character, and marks the cut. A
/// text that fits stays as it is.
pub fn limit_text(text: String, limit: usize) -> (r: String)
    ensures
        r@ == limited(text@, limit as int),
{
    let whole: &str = text.as_str();
    if whole.as_bytes().len() <= limit {
        return text;
    }
    let ghost s = text@;
    proof {
        encode_utf8_valid_utf8(s);
    }
    let mut end: usize = limit;
    while !whole.is_char_boundary(end)
        invariant
            s == whole@,
            valid_utf8(encode_utf8(s)),
            end <= limit < encode_utf8(s).len(),
            forall|i: int| end < i <= limit ==> !#[trigger] is_char_boundary(encode_utf8(s), i),
        decreases end,
    {
        end = end - 1;
    }
    let parts: (&str, &str) = whole.split_at(end);
    proof {
        let first = parts.0@;
        let k = first.len() as int;
        lemma_split_is_prefix(s, first, parts.1@, end as int);
        if k < s.len() {
            lemma_byte_len_grows(s, k);
            lemma_prefix_ends_at_boundary(s, k + 1);
        }
        lemma_fitting_is(s, limit as int, 0, k);
    }
    let mut out: String = parts.0.to_owned();
    out.append(TRUNCATION_MARK);
    out
}

/// A text that is too long becomes a prefix of it with the truncation mark behind it: the prefix
/// takes at most the limit, and every longer one takes more. A text that is short enough stays as
/// it is.
pub proof fn law_cut_text(s: Seq<char>, limit: int)
    requires
        0 <= limit,
    ensures
        encode_utf8(s).len() <= limit ==> limited(s, limit) == s,
        encode_utf8(s).len() > limit ==> {
            let mark = "\n\n[diff truncated]"@;
            let kept = limited(s, limit).len() - mark.len();
            &&& 0 <= kept <= s.len()
            &&& limited(s, limit) == s.take(kept) + mark
            &&& encode_utf8(s.take(kept)).len() <= limit
            &&& forall|k: int| kept < k <= s.len() ==> encode_utf8(#[trigger] s.take(k)).len() > limit
        },
{
    if byte_len(s) > limit {
        law_kept_prefix_is_longest(s, limit);
        assert(s.take(0) =~= Seq::empty());
        lemma_fitting_from_fits(s, limit, 0);
        let kept = fitting_from(s, limit, 0);
        assert forall|k: int| kept < k <= s.len() implies encode_utf8(#[trigger] s.take(k)).len()
            > limit by {
            assert(byte_len(s.take(k)) > limit);
        }
    }
}

} // verus!

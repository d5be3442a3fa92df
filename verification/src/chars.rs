//! Texts as sequences of characters: comparing, searching, trimming, splitting and joining.
use vstd::prelude::*;
use vstd::string::*;

verus! {

// ---------------------------------------------------------------------------
// Reading a text
// ---------------------------------------------------------------------------

/// The texts that a list of strings holds.
pub open spec fn texts(list: Seq<String>) -> Seq<Seq<char>> {
    list.map_values(|s: String| s@)
}

/// The text of an optional string.
pub open spec fn opt_text(value: Option<String>) -> Option<Seq<char>> {
    match value {
        Some(s) => Some(s@),
        None => None,
    }
}

/// The characters of `text`, in order.
pub fn chars_of(text: &str) -> (out: Vec<char>)
    ensures
        out@ == text@,
{
    let mut out: Vec<char> = Vec::new();
    for c in it: text.chars()
        invariant
            it.seq() == text@,
            out@ == it.seq().take(it.index()),
    {
        out.push(c);
    }
    out
}

/// Whether two texts are the same, character for character.
pub fn same_text(a: &str, b: &str) -> (r: bool)
    ensures
        r == (a@ == b@),
{
    let left: String = a.to_owned();
    let right: String = b.to_owned();
    left == right
}

/// A copy of a list of strings.
pub fn copy_texts(list: &Vec<String>) -> (out: Vec<String>)
    ensures
        out@ == list@,
{
    let mut out: Vec<String> = Vec::new();
    let mut i: usize = 0;
    while i < list.len()
        invariant
            i <= list.len(),
            out@ == list@.take(i as int),
        decreases list.len() - i,
    {
        out.push(list[i].clone());
        i = i + 1;
    }
    out
}

/// The first `limit` characters of a text, or all of it when it is shorter.
pub open spec fn first_chars(s: Seq<char>, limit: int) -> Seq<char> {
    if s.len() <= limit {
        s
    } else {
        s.take(limit)
    }
}

/// The first `limit` characters of `text`.
pub fn head_of(text: &str, limit: usize) -> (r: &str)
    ensures
        r@ == first_chars(text@, limit as int),
{
    let len: usize = text.unicode_len();
    if len <= limit {
        text
    } else {
        text.substring_char(0, limit)
    }
}

// ---------------------------------------------------------------------------
// White space
// ---------------------------------------------------------------------------

/// The characters with the Unicode property `White_Space`.
pub open spec fn white_space(c: char) -> bool {
    ||| '\u{9}' <= c <= '\u{d}'
    ||| c == '\u{20}'
    ||| c == '\u{85}'
    ||| c == '\u{a0}'
    ||| c == '\u{1680}'
    ||| '\u{2000}' <= c <= '\u{200a}'
    ||| c == '\u{2028}'
    ||| c == '\u{2029}'
    ||| c == '\u{202f}'
    ||| c == '\u{205f}'
    ||| c == '\u{3000}'
}

/// Whether `c` is white space.
pub fn is_white_space(c: char) -> (r: bool)
    ensures
        r == white_space(c),
{
    ('\u{9}' <= c && c <= '\u{d}') || c == '\u{20}' || c == '\u{85}' || c == '\u{a0}' || c
        == '\u{1680}' || ('\u{2000}' <= c && c <= '\u{200a}') || c == '\u{2028}' || c == '\u{2029}'
        || c == '\u{202f}' || c == '\u{205f}' || c == '\u{3000}'
}

/// A text without its leading white space.
pub open spec fn trim_start(s: Seq<char>) -> Seq<char>
    decreases s.len(),
{
    if s.len() > 0 && white_space(s[0]) {
        trim_start(s.skip(1))
    } else {
        s
    }
}

/// A text without its trailing white space.
pub open spec fn trim_end(s: Seq<char>) -> Seq<char>
    decreases s.len(),
{
    if s.len() > 0 && white_space(s.last()) {
        trim_end(s.drop_last())
    } else {
        s
    }
}

/// A text without its leading and trailing white space.
pub open spec fn trim(s: Seq<char>) -> Seq<char> {
    trim_end(trim_start(s))
}

/// A text that holds nothing but white space.
pub open spec fn blank(s: Seq<char>) -> bool {
    trim(s).len() == 0
}

/// `text` without its leading and trailing white space.
pub fn trimmed(text: &str) -> (r: &str)
    ensures
        r@ == trim(text@),
{
    let v: Vec<char> = chars_of(text);
    let mut from: usize = 0;
    assert(v@.skip(0) == v@);
    while from < v.len() && is_white_space(v[from])
        invariant
            from <= v.len(),
            trim_start(v@) == trim_start(v@.skip(from as int)),
        decreases v.len() - from,
    {
        assert(v@.skip(from as int).skip(1) == v@.skip(from + 1));
        from = from + 1;
    }
    let mut to: usize = v.len();
    assert(v@.skip(from as int) == v@.subrange(from as int, to as int));
    assert(trim_start(v@) == v@.skip(from as int));
    while to > from && is_white_space(v[to - 1])
        invariant
            from <= to <= v.len(),
            trim(v@) == trim_end(v@.subrange(from as int, to as int)),
        decreases to,
    {
        assert(v@.subrange(from as int, to as int).drop_last() == v@.subrange(
            from as int,
            to - 1,
        ));
        to = to - 1;
    }
    assert(trim(v@) == v@.subrange(from as int, to as int));
    text.substring_char(from, to)
}

/// Whether `text` holds nothing but white space.
pub fn is_blank(text: &str) -> (r: bool)
    ensures
        r == blank(text@),
{
    trimmed(text).is_empty()
}

/// Trimming cuts a stretch out of the text: what it keeps is a subrange, and what it drops on
/// both sides is white space.
pub proof fn lemma_trim_parts(s: Seq<char>) -> (cut: (int, int))
    ensures
        0 <= cut.0 <= cut.1 <= s.len(),
        trim(s) == s.subrange(cut.0, cut.1),
        forall|i: int| 0 <= i < cut.0 ==> white_space(#[trigger] s[i]),
        forall|i: int| cut.1 <= i < s.len() ==> white_space(#[trigger] s[i]),
        cut.0 < cut.1 ==> !white_space(s[cut.0]) && !white_space(s[cut.1 - 1]),
        cut.0 == cut.1 ==> cut.0 == s.len(),
{
    let from = lemma_trim_start_parts(s);
    let rest = s.skip(from);
    let to = lemma_trim_end_parts(rest);
    assert(rest.take(to) == s.subrange(from, from + to));
    assert forall|i: int| from + to <= i < s.len() implies white_space(#[trigger] s[i]) by {
        assert(rest[i - from] == s[i]);
    }
    if to > 0 {
        assert(rest[to - 1] == s[from + to - 1]);
        if from < s.len() {
            assert(rest[0] == s[from]);
        }
    } else if from < s.len() {
        assert(rest[0] == s[from]);
    }
    (from, from + to)
}

proof fn lemma_trim_start_parts(s: Seq<char>) -> (from: int)
    ensures
        0 <= from <= s.len(),
        trim_start(s) == s.skip(from),
        forall|i: int| 0 <= i < from ==> white_space(#[trigger] s[i]),
        from < s.len() ==> !white_space(s[from]),
    decreases s.len(),
{
    if s.len() > 0 && white_space(s[0]) {
        let tail = s.skip(1);
        let from = lemma_trim_start_parts(tail);
        assert(tail.skip(from) == s.skip(from + 1));
        assert forall|i: int| 0 <= i < from + 1 implies white_space(#[trigger] s[i]) by {
            if i > 0 {
                assert(tail[i - 1] == s[i]);
            }
        }
        if from < tail.len() {
            assert(tail[from] == s[from + 1]);
        }
        from + 1
    } else {
        assert(s.skip(0) == s);
        0
    }
}

proof fn lemma_trim_end_parts(s: Seq<char>) -> (to: int)
    ensures
        0 <= to <= s.len(),
        trim_end(s) == s.take(to),
        forall|i: int| to <= i < s.len() ==> white_space(#[trigger] s[i]),
        to > 0 ==> !white_space(s[to - 1]),
    decreases s.len(),
{
    if s.len() > 0 && white_space(s.last()) {
        let init = s.drop_last();
        let to = lemma_trim_end_parts(init);
        assert(init.take(to) == s.take(to));
        assert forall|i: int| to <= i < s.len() implies white_space(#[trigger] s[i]) by {
            if i < s.len() - 1 {
                assert(init[i] == s[i]);
            }
        }
        if to > 0 {
            assert(init[to - 1] == s[to - 1]);
        }
        to
    } else {
        assert(s.take(s.len() as int) == s);
        s.len() as int
    }
}

/// A text is blank exactly when every character of it is white space.
pub proof fn law_blank_means_all_white_space(s: Seq<char>)
    ensures
        blank(s) <==> forall|i: int| 0 <= i < s.len() ==> white_space(#[trigger] s[i]),
{
    let cut = lemma_trim_parts(s);
    if !blank(s) {
        assert(!white_space(s[cut.0]));
    }
}

/// Trimming a trimmed text changes nothing.
pub proof fn lemma_trim_idempotent(s: Seq<char>)
    ensures
        trim(trim(s)) == trim(s),
{
    let cut = lemma_trim_parts(s);
    let t = trim(s);
    if cut.0 < cut.1 {
        assert(t[0] == s[cut.0]);
        assert(t.last() == s[cut.1 - 1]);
    }
}

// ---------------------------------------------------------------------------
// Searching
// ---------------------------------------------------------------------------

/// `p` stands in `s` at index `i`.
pub open spec fn occurs_at(s: Seq<char>, p: Seq<char>, i: int) -> bool {
    0 <= i && i + p.len() <= s.len() && s.subrange(i, i + p.len()) == p
}

/// The least index at or after `from` at which `p` stands in `s`.
pub open spec fn find_from(s: Seq<char>, p: Seq<char>, from: int) -> Option<int>
    decreases s.len() + 1 - from,
{
    if from < 0 || from + p.len() > s.len() {
        None
    } else if occurs_at(s, p, from) {
        Some(from)
    } else {
        find_from(s, p, from + 1)
    }
}

/// The least index at which `p` stands in `s`.
pub open spec fn find(s: Seq<char>, p: Seq<char>) -> Option<int> {
    find_from(s, p, 0)
}

/// The least index at which the character `c` stands in `s`.
pub open spec fn find_char(s: Seq<char>, c: char) -> Option<int> {
    find(s, seq![c])
}

/// The greatest index at which the character `c` stands in `s`.
pub open spec fn rfind_char(s: Seq<char>, c: char) -> Option<int>
    decreases s.len(),
{
    if s.len() == 0 {
        None
    } else if s.last() == c {
        Some(s.len() - 1)
    } else {
        rfind_char(s.drop_last(), c)
    }
}

/// What `find_from` returns is an occurrence, and the first one; it returns nothing only when
/// there is none.
pub proof fn lemma_find_from(s: Seq<char>, p: Seq<char>, from: int)
    requires
        0 <= from,
    ensures
        match find_from(s, p, from) {
            Some(i) => from <= i && occurs_at(s, p, i) && forall|j: int|
                from <= j < i ==> !#[trigger] occurs_at(s, p, j),
            None => forall|j: int| from <= j ==> !#[trigger] occurs_at(s, p, j),
        },
    decreases s.len() + 1 - from,
{
    if from + p.len() > s.len() {
    } else if occurs_at(s, p, from) {
    } else {
        lemma_find_from(s, p, from + 1);
    }
}

/// Searching a text from `k` on is searching what is left after its first `k` characters.
pub proof fn lemma_find_skip(s: Seq<char>, p: Seq<char>, k: int, from: int)
    requires
        0 <= k <= s.len(),
        0 <= from,
    ensures
        find_from(s.skip(k), p, from) == (match find_from(s, p, k + from) {
            Some(i) => Some(i - k),
            None => None,
        }),
    decreases s.len() + 1 - k - from,
{
    let t = s.skip(k);
    if from + p.len() > t.len() {
    } else {
        assert(t.subrange(from, from + p.len()) == s.subrange(k + from, k + from + p.len()));
        if !occurs_at(t, p, from) {
            lemma_find_skip(s, p, k, from + 1);
        }
    }
}

/// The last occurrence of a character: nothing after it is that character.
pub proof fn lemma_rfind_char(s: Seq<char>, c: char)
    ensures
        match rfind_char(s, c) {
            Some(i) => 0 <= i < s.len() && s[i] == c && forall|j: int|
                i < j < s.len() ==> #[trigger] s[j] != c,
            None => forall|j: int| 0 <= j < s.len() ==> #[trigger] s[j] != c,
        },
    decreases s.len(),
{
    if s.len() == 0 || s.last() == c {
    } else {
        let init = s.drop_last();
        lemma_rfind_char(init, c);
        assert forall|j: int| 0 <= j < s.len() - 1 implies init[j] == #[trigger] s[j] by {}
    }
}

/// Whether `p` stands in `s` at index `i`.
fn stands_at(s: &Vec<char>, p: &Vec<char>, i: usize) -> (r: bool)
    requires
        i + p.len() <= s.len(),
    ensures
        r == occurs_at(s@, p@, i as int),
{
    let mut k: usize = 0;
    while k < p.len()
        invariant
            k <= p.len(),
            i + p.len() <= s.len(),
            forall|j: int| 0 <= j < k ==> s@[i + j] == #[trigger] p@[j],
        decreases p.len() - k,
    {
        if s[i + k] != p[k] {
            assert(s@.subrange(i as int, i + p.len())[k as int] != p@[k as int]);
            return false;
        }
        k = k + 1;
    }
    assert(s@.subrange(i as int, i + p.len()) =~= p@);
    true
}

/// The least index at or after `from` at which `p` stands in `s`.
pub fn search_from(s: &Vec<char>, p: &Vec<char>, from: usize) -> (r: Option<usize>)
    ensures
        find_from(s@, p@, from as int) == (match r {
            Some(i) => Some(i as int),
            None => None,
        }),
        r matches Some(i) ==> from <= i && i + p.len() <= s.len(),
{
    let mut i: usize = from;
    while i <= s.len() && p.len() <= s.len() - i
        invariant
            from <= i,
            find_from(s@, p@, from as int) == find_from(s@, p@, i as int),
        decreases s.len() + 1 - i,
    {
        if stands_at(s, p, i) {
            return Some(i);
        }
        assert(i < s.len()) by {
            if i == s.len() {
                assert(s@.subrange(i as int, i as int) =~= p@);
            }
        }
        i = i + 1;
    }
    None
}

/// The least index at or after `from` at which the character `c` stands in `s`.
pub fn search_char_from(s: &Vec<char>, c: char, from: usize) -> (r: Option<usize>)
    ensures
        find_from(s@, seq![c], from as int) == (match r {
            Some(i) => Some(i as int),
            None => None,
        }),
        r matches Some(i) ==> from <= i < s.len() && s@[i as int] == c,
{
    let p: Vec<char> = vec![c];
    assert(p@ == seq![c]);
    let r = search_from(s, &p, from);
    proof {
        lemma_find_from(s@, p@, from as int);
        if let Some(i) = r {
            assert(s@.subrange(i as int, i + 1)[0] == c);
        }
    }
    r
}

/// The greatest index at which the character `c` stands in `s`.
pub fn rsearch_char(s: &Vec<char>, c: char) -> (r: Option<usize>)
    ensures
        rfind_char(s@, c) == (match r {
            Some(i) => Some(i as int),
            None => None,
        }),
        r matches Some(i) ==> i < s.len() && s@[i as int] == c,
{
    let mut end: usize = s.len();
    assert(s@.take(end as int) == s@);
    while end > 0
        invariant
            end <= s.len(),
            rfind_char(s@, c) == rfind_char(s@.take(end as int), c),
        decreases end,
    {
        if s[end - 1] == c {
            return Some(end - 1);
        }
        assert(s@.take(end as int).drop_last() == s@.take(end - 1));
        end = end - 1;
    }
    None
}

/// Whether `text` begins with `prefix`.
pub fn begins_with(text: &str, prefix: &str) -> (r: bool)
    ensures
        r == prefix@.is_prefix_of(text@),
{
    let s: Vec<char> = chars_of(text);
    let p: Vec<char> = chars_of(prefix);
    if p.len() > s.len() {
        return false;
    }
    assert(s@.subrange(0, p@.len() as int) == p@ <==> p@.is_prefix_of(s@));
    stands_at(&s, &p, 0)
}

/// Whether `text` ends with `suffix`.
pub fn finishes_with(text: &str, suffix: &str) -> (r: bool)
    ensures
        r == suffix@.is_suffix_of(text@),
{
    let s: Vec<char> = chars_of(text);
    let p: Vec<char> = chars_of(suffix);
    if p.len() > s.len() {
        return false;
    }
    let at: usize = s.len() - p.len();
    assert(s@.subrange(at as int, at + p.len()) == p@ <==> p@.is_suffix_of(s@));
    stands_at(&s, &p, at)
}

/// A text without the slashes at its end.
pub open spec fn trim_end_slashes(s: Seq<char>) -> Seq<char>
    decreases s.len(),
{
    if s.len() > 0 && s.last() == '/' {
        trim_end_slashes(s.drop_last())
    } else {
        s
    }
}

/// `text` without the slashes at its end.
pub fn without_end_slashes(text: &str) -> (r: &str)
    ensures
        r@ == trim_end_slashes(text@),
{
    let v: Vec<char> = chars_of(text);
    let mut to: usize = v.len();
    assert(v@.take(to as int) == v@);
    while to > 0 && v[to - 1] == '/'
        invariant
            to <= v.len(),
            trim_end_slashes(v@) == trim_end_slashes(v@.take(to as int)),
        decreases to,
    {
        assert(v@.take(to as int).drop_last() == v@.take(to - 1));
        to = to - 1;
    }
    assert(v@.subrange(0, to as int) == v@.take(to as int));
    text.substring_char(0, to)
}

// ---------------------------------------------------------------------------
// Splitting and joining
// ---------------------------------------------------------------------------

/// The pieces of `s` between the occurrences of `c`: one more than there are occurrences.
pub open spec fn split_on(s: Seq<char>, c: char) -> Seq<Seq<char>>
    decreases s.len(),
{
    match find_char(s, c) {
        Some(i) => if 0 <= i < s.len() {
            seq![s.take(i)] + split_on(s.skip(i + 1), c)
        } else {
            seq![s]
        },
        None => seq![s],
    }
}

/// The pieces of `text` between the occurrences of `c`.
pub fn pieces(text: &str, c: char) -> (out: Vec<String>)
    ensures
        texts(out@) == split_on(text@, c),
{
    let v: Vec<char> = chars_of(text);
    let mut out: Vec<String> = Vec::new();
    let mut from: usize = 0;
    assert(v@.skip(0) == v@);
    assert(texts(out@) + split_on(v@, c) == split_on(v@, c));
    loop
        invariant_except_break
            texts(out@) + split_on(v@.skip(from as int), c) == split_on(v@, c),
        invariant
            v@ == text@,
            from <= v.len(),
        ensures
            texts(out@) == split_on(v@, c),
        decreases v.len() - from,
    {
        let ghost before = texts(out@);
        let ghost rest = v@.skip(from as int);
        let next = search_char_from(&v, c, from);
        proof {
            lemma_find_skip(v@, seq![c], from as int, 0);
        }
        match next {
            Some(i) => {
                let piece: String = text.substring_char(from, i).to_owned();
                out.push(piece);
                assert(texts(out@) =~= before.push(piece@));
                assert(rest.take(i - from) == v@.subrange(from as int, i as int));
                assert(rest.skip(i - from + 1) == v@.skip(i + 1));
                assert(split_on(rest, c) == seq![piece@] + split_on(v@.skip(i + 1), c));
                assert(before.push(piece@) + split_on(v@.skip(i + 1), c) =~= before + split_on(
                    rest,
                    c,
                ));
                from = i + 1;
            },
            None => {
                let piece: String = text.substring_char(from, v.len()).to_owned();
                out.push(piece);
                assert(texts(out@) =~= before.push(piece@));
                assert(rest == v@.subrange(from as int, v@.len() as int));
                assert(split_on(rest, c) == seq![rest]);
                assert(before.push(piece@) =~= before + seq![rest]);
                break;
            },
        }
    }
    out
}

/// The parts, one after the other, with `sep` between each two of them.
pub open spec fn join(parts: Seq<Seq<char>>, sep: Seq<char>) -> Seq<char>
    decreases parts.len(),
{
    if parts.len() == 0 {
        Seq::empty()
    } else if parts.len() == 1 {
        parts[0]
    } else {
        join(parts.drop_last(), sep) + sep + parts.last()
    }
}

/// The parts, one after the other, with `sep` between each two of them.
pub fn joined(parts: &Vec<String>, sep: &str) -> (out: String)
    ensures
        out@ == join(texts(parts@), sep@),
{
    let mut out: String = String::new();
    let mut i: usize = 0;
    assert(texts(parts@).take(0) =~= Seq::empty());
    while i < parts.len()
        invariant
            i <= parts.len(),
            out@ == join(texts(parts@).take(i as int), sep@),
        decreases parts.len() - i,
    {
        if i > 0 {
            out.append(sep);
        }
        out.append(parts[i].as_str());
        let ghost upto = texts(parts@).take(i + 1);
        assert(upto.drop_last() =~= texts(parts@).take(i as int));
        assert(upto.last() == parts@[i as int]@);
        assert(out@ =~= join(upto, sep@));
        i = i + 1;
    }
    assert(texts(parts@).take(i as int) =~= texts(parts@));
    out
}

// ---------------------------------------------------------------------------
// Numerals and letters
// ---------------------------------------------------------------------------

/// The character for a decimal digit.
pub open spec fn digit(d: nat) -> char {
    ('0' as nat + d) as char
}

/// The decimal numeral of `n`, without leading zeros.
pub open spec fn decimal(n: nat) -> Seq<char>
    decreases n,
{
    if n < 10 {
        seq![digit(n)]
    } else {
        decimal(n / 10).push(digit(n % 10))
    }
}

fn digit_text(d: u64) -> (r: &'static str)
    requires
        d < 10,
    ensures
        r@ == seq![digit(d as nat)],
{
    proof {
        reveal_strlit("0");
        reveal_strlit("1");
        reveal_strlit("2");
        reveal_strlit("3");
        reveal_strlit("4");
        reveal_strlit("5");
        reveal_strlit("6");
        reveal_strlit("7");
        reveal_strlit("8");
        reveal_strlit("9");
    }
    let r: &'static str = match d {
        0 => "0",
        1 => "1",
        2 => "2",
        3 => "3",
        4 => "4",
        5 => "5",
        6 => "6",
        7 => "7",
        8 => "8",
        _ => "9",
    };
    assert(r@ =~= seq![digit(d as nat)]);
    r
}

/// The decimal numeral of `n`.
pub fn decimal_text(n: u64) -> (out: String)
    ensures
        out@ == decimal(n as nat),
    decreases n,
{
    if n < 10 {
        digit_text(n).to_owned()
    } else {
        let mut out: String = decimal_text(n / 10);
        out.append(digit_text(n % 10));
        assert(out@ =~= decimal(n as nat));
        out
    }
}

/// The capital form of an ASCII letter; any other character as it is.
pub open spec fn capital(c: char) -> char {
    if 'a' <= c <= 'z' {
        (c as nat - 'a' as nat + 'A' as nat) as char
    } else {
        c
    }
}

/// A text with its ASCII letters made capital.
pub open spec fn capitals(s: Seq<char>) -> Seq<char> {
    s.map_values(|c: char| capital(c))
}

// ---------------------------------------------------------------------------
// What holds of every text
// ---------------------------------------------------------------------------

/// `part` stands somewhere in `whole`.
pub open spec fn within(whole: Seq<char>, part: Seq<char>) -> bool {
    exists|i: int|
        0 <= i && i + part.len() <= whole.len() && #[trigger] whole.subrange(i, i + part.len())
            == part
}

/// What stands between two texts stands in the whole.
pub proof fn lemma_within(before: Seq<char>, part: Seq<char>, after: Seq<char>)
    ensures
        within(before + part + after, part),
{
    let whole = before + part + after;
    let i = before.len() as int;
    assert(whole.subrange(i, i + part.len()) =~= part);
}

/// What stands in a text stands in every text around it.
pub proof fn lemma_within_wider(
    before: Seq<char>,
    whole: Seq<char>,
    after: Seq<char>,
    part: Seq<char>,
)
    requires
        within(whole, part),
    ensures
        within(before + whole + after, part),
{
    let i = choose|i: int|
        0 <= i && i + part.len() <= whole.len() && #[trigger] whole.subrange(i, i + part.len())
            == part;
    let all = before + whole + after;
    let k = before.len() + i;
    assert(all.subrange(k, k + part.len()) =~= whole.subrange(i, i + part.len()));
}

/// Searching gives the first place at which the text looked for stands, and nothing only where it
/// stands nowhere.
pub proof fn law_find_gives_the_first(s: Seq<char>, p: Seq<char>)
    ensures
        match find(s, p) {
            Some(i) => {
                &&& 0 <= i && i + p.len() <= s.len()
                &&& s.subrange(i, i + p.len()) == p
                &&& forall|j: int| 0 <= j < i ==> #[trigger] s.subrange(j, j + p.len()) != p
            },
            None => forall|j: int|
                0 <= j && j + p.len() <= s.len() ==> #[trigger] s.subrange(j, j + p.len()) != p,
        },
{
    lemma_find_from(s, p, 0);
    match find(s, p) {
        Some(i) => {
            assert forall|j: int| 0 <= j < i implies #[trigger] s.subrange(j, j + p.len()) != p by {
                assert(!occurs_at(s, p, j));
            }
        },
        None => {
            assert forall|j: int|
                0 <= j && j + p.len() <= s.len() implies #[trigger] s.subrange(j, j + p.len())
                != p by {
                assert(!occurs_at(s, p, j));
            }
        },
    }
}

/// Searching for a character gives the first place at which it stands.
pub proof fn law_find_char_gives_the_first(s: Seq<char>, c: char)
    ensures
        match find_char(s, c) {
            Some(i) => 0 <= i < s.len() && s[i] == c && forall|j: int|
                0 <= j < i ==> #[trigger] s[j] != c,
            None => !s.contains(c),
        },
{
    lemma_find_from(s, seq![c], 0);
    if let Some(i) = find_char(s, c) {
        assert(s.subrange(i, i + 1)[0] == c);
        assert forall|j: int| 0 <= j < i implies #[trigger] s[j] != c by {
            if s[j] == c {
                assert(s.subrange(j, j + 1) =~= seq![c]);
                assert(occurs_at(s, seq![c], j));
            }
        }
    } else if s.contains(c) {
        let j = choose|j: int| 0 <= j < s.len() && s[j] == c;
        assert(s.subrange(j, j + 1) =~= seq![c]);
        assert(occurs_at(s, seq![c], j));
    }
}

/// Trimming takes white space from both ends and nothing else: what is left is the text from its
/// first character that is none to its last.
pub proof fn law_trim_takes_white_space_only(before: Seq<char>, s: Seq<char>, after: Seq<char>)
    requires
        forall|i: int| 0 <= i < before.len() ==> white_space(#[trigger] before[i]),
        forall|i: int| 0 <= i < after.len() ==> white_space(#[trigger] after[i]),
        s.len() > 0 ==> !white_space(s[0]) && !white_space(s.last()),
    ensures
        trim(before + s + after) == s,
{
    let whole = before + s + after;
    let cut = lemma_trim_parts(whole);
    let from = before.len() as int;
    let to = from + s.len();
    if s.len() > 0 {
        assert(whole[from] == s[0] && whole[to - 1] == s.last());
        if cut.0 < from {
            assert(whole[cut.0] == before[cut.0]);
        }
        if cut.1 > to {
            assert(whole[cut.1 - 1] == after[cut.1 - 1 - to]);
        }
        assert(cut.0 == from && cut.1 == to);
    } else if cut.0 < cut.1 {
        if cut.0 < from {
            assert(whole[cut.0] == before[cut.0]);
        } else {
            assert(whole[cut.0] == after[cut.0 - from]);
        }
    }
    assert(whole.subrange(cut.0, cut.1) =~= s);
}

/// Without the slashes at its end a text is what stood before them.
pub proof fn law_end_slashes_are_taken(s: Seq<char>, slashes: Seq<char>)
    requires
        s.len() > 0 ==> s.last() != '/',
        forall|i: int| 0 <= i < slashes.len() ==> #[trigger] slashes[i] == '/',
    ensures
        trim_end_slashes(s + slashes) == s,
    decreases slashes.len(),
{
    let whole = s + slashes;
    if slashes.len() == 0 {
        assert(whole =~= s);
    } else {
        assert(whole.last() == slashes.last());
        assert(whole.drop_last() =~= s + slashes.drop_last());
        law_end_slashes_are_taken(s, slashes.drop_last());
    }
}

/// The first characters of a text: a prefix of it, as long as asked for or the whole text.
pub proof fn law_first_chars(s: Seq<char>, limit: int)
    requires
        0 <= limit,
    ensures
        first_chars(s, limit).is_prefix_of(s),
        first_chars(s, limit).len() == if s.len() <= limit {
            s.len() as int
        } else {
            limit
        },
{
    assert(first_chars(s, limit) =~= s.subrange(0, first_chars(s, limit).len() as int));
}

/// One more part comes behind the others, with the separator before it.
pub proof fn law_join_grows(parts: Seq<Seq<char>>, part: Seq<char>, sep: Seq<char>)
    ensures
        join(Seq::empty(), sep) == Seq::<char>::empty(),
        parts.len() == 0 ==> join(parts.push(part), sep) == part,
        parts.len() > 0 ==> join(parts.push(part), sep) == join(parts, sep) + sep + part,
{
    assert(parts.push(part).drop_last() =~= parts);
}

proof fn lemma_join_cons(part: Seq<char>, parts: Seq<Seq<char>>, sep: Seq<char>)
    requires
        parts.len() > 0,
    ensures
        join(seq![part] + parts, sep) == part + sep + join(parts, sep),
    decreases parts.len(),
{
    let all = seq![part] + parts;
    assert(all.drop_last() =~= seq![part] + parts.drop_last());
    if parts.len() == 1 {
        assert(all.drop_last() =~= seq![part]);
        assert(join(all.drop_last(), sep) == part);
        assert(all.last() == parts[0]);
    } else {
        lemma_join_cons(part, parts.drop_last(), sep);
        assert(all.last() == parts.last());
        assert(join(all, sep) =~= part + sep + join(parts, sep));
    }
}

/// The pieces between the occurrences of a character do not hold it, and with it between them
/// they are the text again.
pub proof fn law_pieces_join_again(s: Seq<char>, c: char)
    ensures
        split_on(s, c).len() > 0,
        forall|i: int| 0 <= i < split_on(s, c).len() ==> !(#[trigger] split_on(s, c)[i]).contains(c),
        join(split_on(s, c), seq![c]) == s,
    decreases s.len(),
{
    law_find_char_gives_the_first(s, c);
    if let Some(i) = find_char(s, c) {
        let rest = s.skip(i + 1);
        law_pieces_join_again(rest, c);
        lemma_join_cons(s.take(i), split_on(rest, c), seq![c]);
        assert(s.take(i) + seq![c] + rest =~= s);
        assert forall|k: int| 0 <= k < split_on(s, c).len() implies !(#[trigger] split_on(
            s,
            c,
        )[k]).contains(c) by {
            if k > 0 {
                assert(split_on(s, c)[k] == split_on(rest, c)[k - 1]);
            }
        }
    }
}

/// The pieces of two texts with the character between them are those of the one and then those of
/// the other.
pub proof fn law_pieces_of_both(one: Seq<char>, other: Seq<char>, c: char)
    ensures
        split_on(one + seq![c] + other, c) == split_on(one, c) + split_on(other, c),
    decreases one.len(),
{
    let both = one + seq![c] + other;
    law_find_char_gives_the_first(one, c);
    law_find_char_gives_the_first(both, c);
    match find_char(one, c) {
        Some(i) => {
            let k = find_char(both, c)->0;
            assert(both[i] == c);
            if k < i {
                assert(both[k] == one[k]);
            }
            assert(k == i);
            law_pieces_of_both(one.skip(i + 1), other, c);
            assert(both.skip(i + 1) =~= one.skip(i + 1) + seq![c] + other);
            assert(both.take(i) =~= one.take(i));
            assert(split_on(both, c) =~= split_on(one, c) + split_on(other, c));
        },
        None => {
            let i = one.len() as int;
            let k = find_char(both, c)->0;
            assert(both[i] == c);
            if k < i {
                assert(both[k] == one[k]);
                assert(one.contains(one[k]));
            }
            assert(k == i);
            assert(both.take(i) =~= one);
            assert(both.skip(i + 1) =~= other);
        },
    }
}

/// The number that a row of decimal digits stands for.
pub open spec fn numeral_value(digits: Seq<char>) -> nat
    decreases digits.len(),
{
    if digits.len() == 0 {
        0
    } else {
        numeral_value(digits.drop_last()) * 10 + (digits.last() as nat - '0' as nat) as nat
    }
}

/// A numeral is a row of decimal digits that stands for its number, with no zero before them.
pub proof fn law_numeral_stands_for_its_number(n: nat)
    ensures
        decimal(n).len() > 0,
        forall|i: int| 0 <= i < decimal(n).len() ==> '0' <= #[trigger] decimal(n)[i] <= '9',
        numeral_value(decimal(n)) == n,
        n > 0 ==> decimal(n)[0] != '0',
    decreases n,
{
    reveal_with_fuel(numeral_value, 2);
    if n < 10 {
        assert(decimal(n).drop_last() =~= Seq::empty());
    } else {
        law_numeral_stands_for_its_number(n / 10);
        assert(decimal(n).drop_last() =~= decimal(n / 10));
    }
}

} // verus!

//! What both backends share about configuration files: the scan that
//! decides whether a file's text already declares a domain, and the
//! shape of the per-domain file name.
//!
//! The scan goes line by line, trims whitespace, drops every line that
//! carries a comment marker, and reports a declaration only when a
//! remaining line ends exactly with the backend's rendered server-name
//! directive.  It is a textual fact-check, not a grammar parser.

use vstd::prelude::*;

use crate::chars::{is_space, is_space_exec, split_on, split_str};

verus! {

/// The line with its leading whitespace removed.
pub open spec fn trim_start(s: Seq<char>) -> Seq<char>
    decreases s.len(),
{
    if s.len() > 0 && is_space(s[0]) {
        trim_start(s.drop_first())
    } else {
        s
    }
}

/// The line with its trailing whitespace removed.
pub open spec fn trim_end(s: Seq<char>) -> Seq<char>
    decreases s.len(),
{
    if s.len() > 0 && is_space(s[s.len() - 1]) {
        trim_end(s.drop_last())
    } else {
        s
    }
}

/// The line with whitespace removed on both sides.
pub open spec fn trimmed(s: Seq<char>) -> Seq<char> {
    trim_end(trim_start(s))
}

/// Whether the line carries a comment marker anywhere.
pub open spec fn has_hash(s: Seq<char>) -> bool {
    exists|i: int| 0 <= i < s.len() && s[i] == '#'
}

/// Whether `s` ends with `suffix`.
pub open spec fn ends_with(s: Seq<char>, suffix: Seq<char>) -> bool {
    &&& suffix.len() <= s.len()
    &&& s.subrange(s.len() - suffix.len(), s.len() as int) == suffix
}

/// Whether one line, trimmed, is a non-comment line ending with the
/// rendered server-name directive.
pub open spec fn line_declares(line: Seq<char>, needle: Seq<char>) -> bool {
    &&& !has_hash(trimmed(line))
    &&& ends_with(trimmed(line), needle)
}

/// Whether some line of the text declares the directive.
pub open spec fn declares(text: Seq<char>, needle: Seq<char>) -> bool {
    exists|i: int|
        0 <= i < split_on(text, '\n').len() && line_declares(
            #[trigger] split_on(text, '\n')[i],
            needle,
        )
}

/// Removing a run of leading whitespace is all that `trim_start` does.
pub proof fn lemma_trim_start_drop(s: Seq<char>, a: int)
    requires
        0 <= a <= s.len(),
        forall|j: int| 0 <= j < a ==> is_space(#[trigger] s[j]),
        a == s.len() || !is_space(s[a]),
    ensures
        trim_start(s) == s.skip(a),
    decreases a,
{
    if a == 0 {
        assert(s.skip(0) =~= s);
    } else {
        assert(is_space(s[0]));
        let t = s.drop_first();
        assert forall|j: int| 0 <= j < a - 1 implies is_space(#[trigger] t[j]) by {
            assert(t[j] == s[j + 1]);
        }
        assert(a - 1 == t.len() || !is_space(t[a - 1]));
        lemma_trim_start_drop(t, a - 1);
        assert(t.skip(a - 1) =~= s.skip(a));
    }
}

/// Removing a run of trailing whitespace is all that `trim_end` does.
pub proof fn lemma_trim_end_take(s: Seq<char>, b: int)
    requires
        0 <= b <= s.len(),
        forall|j: int| b <= j < s.len() ==> is_space(#[trigger] s[j]),
        b == 0 || !is_space(s[b - 1]),
    ensures
        trim_end(s) == s.take(b),
    decreases s.len(),
{
    if b == s.len() {
        if s.len() > 0 && is_space(s[s.len() - 1]) {
            assert(false);
        }
        assert(s.take(b) =~= s);
    } else {
        assert(is_space(s[s.len() - 1]));
        let t = s.drop_last();
        assert forall|j: int| b <= j < t.len() implies is_space(#[trigger] t[j]) by {
            assert(t[j] == s[j]);
        }
        lemma_trim_end_take(t, b);
        assert(t.take(b) =~= s.take(b));
    }
}

/// The trimmed line is the subrange between the first and last
/// non-whitespace characters.
pub proof fn lemma_trimmed_subrange(s: Seq<char>, a: int, b: int)
    requires
        0 <= a <= b <= s.len(),
        forall|j: int| 0 <= j < a ==> is_space(#[trigger] s[j]),
        forall|j: int| b <= j < s.len() ==> is_space(#[trigger] s[j]),
        a < b ==> !is_space(s[a]) && !is_space(s[b - 1]),
        a == b ==> a == s.len(),
    ensures
        trimmed(s) == s.subrange(a, b),
{
    lemma_trim_start_drop(s, a);
    let t = s.skip(a);
    assert forall|j: int| b - a <= j < t.len() implies is_space(#[trigger] t[j]) by {
        assert(t[j] == s[j + a]);
    }
    if a < b {
        assert(t[b - a - 1] == s[b - 1]);
    }
    lemma_trim_end_take(t, b - a);
    assert(t.take(b - a) =~= s.subrange(a, b));
}

proof fn lemma_has_hash_drop_first(s: Seq<char>)
    requires
        s.len() > 0,
        s[0] != '#',
    ensures
        has_hash(s) <==> has_hash(s.drop_first()),
{
    if has_hash(s) {
        let i = choose|i: int| 0 <= i < s.len() && s[i] == '#';
        assert(i != 0);
        assert(s.drop_first()[i - 1] == '#');
    }
    if has_hash(s.drop_first()) {
        let i = choose|i: int| 0 <= i < s.drop_first().len() && s.drop_first()[i] == '#';
        assert(s[i + 1] == '#');
    }
}

proof fn lemma_has_hash_trim_start(s: Seq<char>)
    ensures
        has_hash(trim_start(s)) <==> has_hash(s),
    decreases s.len(),
{
    if s.len() > 0 && is_space(s[0]) {
        lemma_has_hash_drop_first(s);
        lemma_has_hash_trim_start(s.drop_first());
    }
}

proof fn lemma_has_hash_trim_end(s: Seq<char>)
    ensures
        has_hash(trim_end(s)) <==> has_hash(s),
    decreases s.len(),
{
    if s.len() > 0 && is_space(s[s.len() - 1]) {
        let t = s.drop_last();
        if has_hash(s) {
            let i = choose|i: int| 0 <= i < s.len() && s[i] == '#';
            assert(i != s.len() - 1);
            assert(t[i] == '#');
        }
        if has_hash(t) {
            let i = choose|i: int| 0 <= i < t.len() && t[i] == '#';
            assert(s[i] == '#');
        }
        lemma_has_hash_trim_end(t);
    }
}

/// Trimming moves no comment marker: a marker is not whitespace.
pub proof fn lemma_has_hash_trimmed(line: Seq<char>)
    ensures
        has_hash(trimmed(line)) <==> has_hash(line),
{
    lemma_has_hash_trim_start(line);
    lemma_has_hash_trim_end(trim_start(line));
}

/// Law: a line carrying a comment marker never counts as a
/// declaration, wherever in the line the marker stands.
pub proof fn lemma_comment_line_never_declares(line: Seq<char>, needle: Seq<char>)
    requires
        has_hash(line),
    ensures
        !line_declares(line, needle),
{
    lemma_has_hash_trimmed(line);
}

/// A text that carries a declaring line between two line breaks
/// declares the directive, whatever stands around it.
pub proof fn lemma_text_declares(a: Seq<char>, line: Seq<char>, b: Seq<char>, needle: Seq<char>)
    requires
        forall|i: int| 0 <= i < line.len() ==> #[trigger] line[i] != '\n',
        line_declares(line, needle),
    ensures
        declares(a + seq!['\n'] + line + seq!['\n'] + b, needle),
{
    let text = a + seq!['\n'] + line + seq!['\n'] + b;
    let rest = line + seq!['\n'] + b;
    assert(text =~= a + seq!['\n'] + rest);
    crate::chars::lemma_split_on_append(a, rest, '\n');
    crate::chars::lemma_split_on_append(line, b, '\n');
    crate::chars::lemma_split_on_whole(line, '\n');
    let pieces_a = split_on(a, '\n');
    let k = pieces_a.len();
    assert(split_on(text, '\n') == pieces_a + (seq![line] + split_on(b, '\n')));
    assert(split_on(text, '\n')[k as int] == line);
    assert(line_declares(split_on(text, '\n')[k as int], needle));
}

/// Whether one line, trimmed, declares the directive.
pub fn line_matches(line: &str, needle: &str) -> (r: bool)
    ensures
        r == line_declares(line@, needle@),
{
    let len: usize = line.unicode_len();
    let nlen: usize = needle.unicode_len();
    let mut start: usize = 0;
    while start < len && is_space_exec(line.get_char(start))
        invariant
            len == line@.len(),
            start <= len,
            forall|j: int| 0 <= j < start ==> is_space(#[trigger] line@[j]),
        decreases len - start,
    {
        start = start + 1;
    }
    let mut end: usize = len;
    while end > start && is_space_exec(line.get_char(end - 1))
        invariant
            len == line@.len(),
            start <= end <= len,
            forall|j: int| end <= j < len ==> is_space(#[trigger] line@[j]),
        decreases end,
    {
        end = end - 1;
    }
    proof {
        if end == start {
            assert forall|j: int| 0 <= j < line@.len() implies is_space(#[trigger] line@[j]) by {}
            if start < len {
                assert(!is_space(line@[start as int]));
                assert(false);
            }
        }
        lemma_trimmed_subrange(line@, start as int, end as int);
    }
    let ghost t = trimmed(line@);
    // comment marker anywhere in the trimmed line
    let mut i: usize = start;
    while i < end
        invariant
            len == line@.len(),
            start <= i <= end <= len,
            t == trimmed(line@),
            t == line@.subrange(start as int, end as int),
            forall|j: int| start <= j < i ==> #[trigger] line@[j] != '#',
        decreases end - i,
    {
        if line.get_char(i) == '#' {
            proof {
                assert(t[i - start as int] == '#');
            }
            return false;
        }
        i = i + 1;
    }
    proof {
        assert forall|k: int| 0 <= k < t.len() implies #[trigger] t[k] != '#' by {
            assert(t[k] == line@[k + start]);
        }
        assert(!has_hash(t));
    }
    // the trimmed line must end with the needle
    if end - start < nlen {
        return false;
    }
    let base: usize = end - nlen;
    let mut k: usize = 0;
    while k < nlen
        invariant
            len == line@.len(),
            nlen == needle@.len(),
            start <= base,
            base + nlen == end <= len,
            t == trimmed(line@),
            t == line@.subrange(start as int, end as int),
            t.len() == end - start,
            forall|j: int| 0 <= j < k ==> #[trigger] line@[base + j] == needle@[j],
        decreases nlen - k,
    {
        if line.get_char(base + k) != needle.get_char(k) {
            proof {
                assert(t.subrange(t.len() - nlen, t.len() as int)[k as int] == line@[base + k]);
                assert(t.subrange(t.len() - nlen, t.len() as int) != needle@);
            }
            return false;
        }
        k = k + 1;
    }
    proof {
        assert forall|j: int|
            0 <= j < nlen implies #[trigger] t.subrange(t.len() - nlen, t.len() as int)[j]
            == needle@[j] by {
            assert(t.subrange(t.len() - nlen, t.len() as int)[j] == line@[base + j]);
        }
        assert(t.subrange(t.len() - nlen, t.len() as int) =~= needle@);
        assert(ends_with(t, needle@));
    }
    true
}

/// Whether any line of the text declares the directive: the scan the
/// append path uses to decide between a no-op and a full run.
pub fn contains_declaration(haystack: &str, needle: &str) -> (r: bool)
    ensures
        r == declares(haystack@, needle@),
{
    let lines = split_str(haystack, '\n');
    let n: usize = lines.len();
    let mut i: usize = 0;
    while i < n
        invariant
            lines.deep_view() == split_on(haystack@, '\n'),
            n == lines.len(),
            i <= n,
            forall|j: int|
                0 <= j < i ==> !line_declares(#[trigger] lines.deep_view()[j], needle@),
        decreases n - i,
    {
        proof {
            assert(lines.deep_view()[i as int] == lines@[i as int]@);
        }
        if line_matches(lines[i].as_str(), needle) {
            proof {
                assert(line_declares(split_on(haystack@, '\n')[i as int], needle@));
            }
            return true;
        }
        i = i + 1;
    }
    proof {
        assert(forall|j: int|
            0 <= j < split_on(haystack@, '\n').len() ==> !line_declares(
                #[trigger] split_on(haystack@, '\n')[j],
                needle@,
            ));
    }
    false
}

} // verus!

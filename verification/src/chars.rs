//! Character classes and string helpers shared by the domain model and
//! the configuration-text scanner.

use vstd::prelude::*;

verus! {

/// A lowercase ASCII letter.
pub open spec fn is_lower(c: char) -> bool {
    97 <= c as u32 && c as u32 <= 122
}

/// An uppercase ASCII letter.
pub open spec fn is_upper(c: char) -> bool {
    65 <= c as u32 && c as u32 <= 90
}

/// An ASCII digit.
pub open spec fn is_digit(c: char) -> bool {
    48 <= c as u32 && c as u32 <= 57
}

/// ASCII whitespace, as removed when a line is trimmed.
pub open spec fn is_space(c: char) -> bool {
    c == ' ' || c == '\t' || c == '\r' || c == '\n'
}

/// Exec form of `is_space`.
pub fn is_space_exec(c: char) -> (r: bool)
    ensures
        r == is_space(c),
{
    c == ' ' || c == '\t' || c == '\r' || c == '\n'
}

/// The lowercase form of an ASCII letter; any other character is unchanged.
pub open spec fn lower_char(c: char) -> char {
    if is_upper(c) {
        ((c as u8) + 32) as char
    } else {
        c
    }
}

/// The lowercase form of a whole character sequence.
pub open spec fn to_lower(s: Seq<char>) -> Seq<char> {
    s.map_values(|c: char| lower_char(c))
}

pub proof fn lemma_lower_char_idempotent(c: char)
    ensures
        lower_char(lower_char(c)) == lower_char(c),
{
    if is_upper(c) {
        assert(c as u8 as u32 == c as u32);
        assert((((c as u8) + 32) as char) as u32 == c as u32 + 32);
    }
}

pub proof fn lemma_to_lower_idempotent(s: Seq<char>)
    ensures
        to_lower(to_lower(s)) == to_lower(s),
{
    assert forall|i: int| 0 <= i < s.len() implies lower_char(lower_char(s[i])) == lower_char(
        s[i],
    ) by {
        lemma_lower_char_idempotent(s[i]);
    }
    assert(to_lower(to_lower(s)) =~= to_lower(s));
}

/// Exec form of `lower_char`.
pub fn lower_char_exec(c: char) -> (r: char)
    ensures
        r == lower_char(c),
{
    let u: u32 = c as u32;
    if 65 <= u && u <= 90 {
        ((c as u8) + 32) as char
    } else {
        c
    }
}

/// The pieces of `s` between occurrences of the separator `sep`.
/// Splitting at every separator yields one more piece than there are
/// separators; the empty sequence yields one empty piece.
pub open spec fn split_on(s: Seq<char>, sep: char) -> Seq<Seq<char>>
    decreases s.len(),
{
    if s.len() == 0 {
        seq![Seq::<char>::empty()]
    } else if s[0] == sep {
        seq![Seq::<char>::empty()] + split_on(s.drop_first(), sep)
    } else {
        let rest = split_on(s.drop_first(), sep);
        seq![seq![s[0]] + rest[0]] + rest.drop_first()
    }
}

pub proof fn lemma_split_on_positive(s: Seq<char>, sep: char)
    ensures
        split_on(s, sep).len() >= 1,
    decreases s.len(),
{
    if s.len() != 0 {
        lemma_split_on_positive(s.drop_first(), sep);
    }
}

/// Splitting a text with a separator spliced into the middle splits
/// each side on its own.
pub proof fn lemma_split_on_append(a: Seq<char>, b: Seq<char>, sep: char)
    ensures
        split_on(a + seq![sep] + b, sep) == split_on(a, sep) + split_on(b, sep),
    decreases a.len(),
{
    let s = a + seq![sep] + b;
    if a.len() == 0 {
        assert(s =~= seq![sep] + b);
        assert(s[0] == sep);
        assert(s.drop_first() =~= b);
        assert(split_on(a, sep) =~= seq![Seq::<char>::empty()]);
        assert(split_on(s, sep) =~~= split_on(a, sep) + split_on(b, sep));
    } else {
        assert(s[0] == a[0]);
        assert(s.drop_first() =~= a.drop_first() + seq![sep] + b);
        lemma_split_on_append(a.drop_first(), b, sep);
        lemma_split_on_positive(a.drop_first(), sep);
        let ra = split_on(a.drop_first(), sep);
        let rb = split_on(b, sep);
        if a[0] == sep {
            assert(split_on(s, sep) =~~= split_on(a, sep) + split_on(b, sep));
        } else {
            assert((ra + rb)[0] == ra[0]);
            assert((ra + rb).drop_first() =~= ra.drop_first() + rb);
            assert(split_on(s, sep) =~~= split_on(a, sep) + split_on(b, sep));
        }
    }
}

/// A text without the separator is a single piece.
pub proof fn lemma_split_on_whole(s: Seq<char>, sep: char)
    requires
        forall|i: int| 0 <= i < s.len() ==> #[trigger] s[i] != sep,
    ensures
        split_on(s, sep) == seq![s],
    decreases s.len(),
{
    if s.len() == 0 {
        assert(split_on(s, sep) =~~= seq![s]);
    } else {
        assert(s[0] != sep);
        assert forall|i: int| 0 <= i < s.drop_first().len() implies #[trigger] s.drop_first()[i]
            != sep by {
            assert(s.drop_first()[i] == s[i + 1]);
        }
        lemma_split_on_whole(s.drop_first(), sep);
        let rest = split_on(s.drop_first(), sep);
        assert(rest == seq![s.drop_first()]);
        assert(rest[0] == s.drop_first());
        assert(seq![s[0]] + rest[0] =~= s);
        assert(rest.drop_first() =~= Seq::<Seq<char>>::empty());
        assert(split_on(s, sep) =~~= seq![s]);
    }
}

/// The remaining pieces once a prefix of the first piece is already
/// known: the prefix grows the first piece of the rest.
pub open spec fn prepend_first(p: Seq<char>, rest: Seq<Seq<char>>) -> Seq<Seq<char>> {
    seq![p + rest[0]] + rest.drop_first()
}

/// Splits a string at every occurrence of the separator.
pub fn split_str(s: &str, sep: char) -> (r: Vec<String>)
    ensures
        r.deep_view() == split_on(s@, sep),
{
    let len: usize = s.unicode_len();
    let mut done: Vec<String> = Vec::new();
    let mut cur = String::new();
    let mut i: usize = 0;
    proof {
        assert(s@.skip(0) =~= s@);
    }
    while i < len
        invariant
            len == s@.len(),
            i <= len,
            split_on(s@, sep) == done.deep_view() + prepend_first(
                cur@,
                split_on(s@.skip(i as int), sep),
            ),
        decreases len - i,
    {
        let c = s.get_char(i);
        proof {
            let tail = s@.skip(i as int);
            assert(tail.len() == len - i);
            assert(tail[0] == s@[i as int]);
            assert(tail.drop_first() =~= s@.skip(i + 1));
            lemma_split_on_positive(s@.skip(i + 1), sep);
        }
        if c == sep {
            proof {
                let rest = split_on(s@.skip(i + 1), sep);
                assert(prepend_first(cur@, split_on(s@.skip(i as int), sep)) =~= seq![cur@]
                    + prepend_first(Seq::<char>::empty(), rest));
                assert(prepend_first(Seq::<char>::empty(), rest) =~= rest);
                assert(seq![cur@] + rest =~= seq![cur@] + prepend_first(
                    Seq::<char>::empty(),
                    rest,
                ));
            }
            let ghost old_done = done.deep_view();
            let ghost finished = cur@;
            done.push(cur);
            cur = String::new();
            proof {
                assert(done.deep_view() =~= old_done.push(finished));
                assert(done.deep_view() + prepend_first(cur@, split_on(s@.skip(i + 1), sep))
                    =~= old_done + (seq![finished] + prepend_first(
                    Seq::<char>::empty(),
                    split_on(s@.skip(i + 1), sep),
                )));
            }
        } else {
            proof {
                let rest = split_on(s@.skip(i + 1), sep);
                assert(cur@ + (seq![c] + rest[0]) =~= cur@.push(c) + rest[0]);
                assert((seq![seq![c] + rest[0]] + rest.drop_first()).drop_first()
                    =~= rest.drop_first());
                assert(prepend_first(cur@, split_on(s@.skip(i as int), sep)) =~= prepend_first(
                    cur@.push(c),
                    rest,
                ));
            }
            push_char(&mut cur, c);
        }
        i = i + 1;
    }
    proof {
        assert(s@.skip(len as int) =~= Seq::<char>::empty());
        assert(prepend_first(cur@, split_on(s@.skip(len as int), sep)) =~= seq![cur@]);
    }
    let ghost old_done = done.deep_view();
    let ghost finished = cur@;
    done.push(cur);
    proof {
        assert(done.deep_view() =~= old_done.push(finished));
        assert(done.deep_view() =~= split_on(s@, sep));
    }
    done
}

/// Relies on `String::push`: appends one character at the end.
#[verifier::external_body]
pub fn push_char(s: &mut String, c: char)
    ensures
        final(s)@ == old(s)@.push(c),
{
    s.push(c);
}

/// The lowercase form of a string, mapping only ASCII letters.
pub fn to_lowercase(s: &str) -> (r: String)
    ensures
        r@ == to_lower(s@),
{
    let len: usize = s.unicode_len();
    let mut r = String::new();
    let mut i: usize = 0;
    while i < len
        invariant
            len == s@.len(),
            i <= len,
            r@ == to_lower(s@.take(i as int)),
        decreases len - i,
    {
        let c = s.get_char(i);
        let l = lower_char_exec(c);
        push_char(&mut r, l);
        proof {
            assert(s@.take(i + 1) =~= s@.take(i as int).push(s@[i as int]));
            assert(to_lower(s@.take(i + 1)) =~= to_lower(s@.take(i as int)).push(lower_char(
                s@[i as int],
            )));
        }
        i = i + 1;
    }
    proof {
        assert(s@.take(len as int) =~= s@);
    }
    r
}

} // verus!

//! Post-OCR text cleanup pipeline.
//!
//! The default pipeline trims leading and trailing whitespace and collapses
//! every internal run of whitespace into a single space.

use vstd::prelude::*;

verus! {

/// Whether `c` has the Unicode `White_Space` property, which is what
/// `char::is_whitespace` tests.
pub open spec fn is_space(c: char) -> bool {
    let n = c as u32;
    ||| 0x9 <= n <= 0xd
    ||| n == 0x20
    ||| n == 0x85
    ||| n == 0xa0
    ||| n == 0x1680
    ||| 0x2000 <= n <= 0x200a
    ||| n == 0x2028
    ||| n == 0x2029
    ||| n == 0x202f
    ||| n == 0x205f
    ||| n == 0x3000
}

/// Reading `s` from left to right: the text emitted so far, and whether a
/// whitespace run has been seen since the last emitted character (a
/// separator that is still owed if another word follows).
pub open spec fn cleaned_prefix(s: Seq<char>) -> (Seq<char>, bool)
    decreases s.len(),
{
    if s.len() == 0 {
        (Seq::<char>::empty(), false)
    } else {
        let (out, owed) = cleaned_prefix(s.drop_last());
        let c = s.last();
        if is_space(c) {
            (out, out.len() > 0)
        } else if owed {
            (out.push(' ').push(c), false)
        } else {
            (out.push(c), false)
        }
    }
}

/// The cleaned form of `s`: its words (maximal runs of non-whitespace
/// characters) in order, separated by single spaces.
pub open spec fn cleaned(s: Seq<char>) -> Seq<char> {
    cleaned_prefix(s).0
}

/// The words of `s`: its maximal runs of non-whitespace characters, in
/// order.
pub open spec fn words(s: Seq<char>) -> Seq<Seq<char>>
    decreases s.len(),
{
    if s.len() == 0 {
        Seq::<Seq<char>>::empty()
    } else {
        let ws = words(s.drop_last());
        let c = s.last();
        if is_space(c) {
            ws
        } else if s.len() >= 2 && !is_space(s[s.len() - 2]) {
            ws.drop_last().push(ws.last().push(c))
        } else {
            ws.push(seq![c])
        }
    }
}

/// `ws` joined with a single space between neighbours.
pub open spec fn join_words(ws: Seq<Seq<char>>) -> Seq<char>
    decreases ws.len(),
{
    if ws.len() == 0 {
        Seq::<char>::empty()
    } else if ws.len() == 1 {
        ws[0]
    } else {
        join_words(ws.drop_last()) + seq![' '] + ws.last()
    }
}

/// Every word is a non-empty run of non-whitespace characters.
pub open spec fn are_words(ws: Seq<Seq<char>>) -> bool {
    forall|i: int|
        0 <= i < ws.len() ==> #[trigger] ws[i].len() > 0 && forall|j: int|
            0 <= j < ws[i].len() ==> !is_space(#[trigger] ws[i][j])
}

/// The non-whitespace characters of `s`, in order.
pub open spec fn visible(s: Seq<char>) -> Seq<char>
    decreases s.len(),
{
    if s.len() == 0 {
        Seq::<char>::empty()
    } else if is_space(s.last()) {
        visible(s.drop_last())
    } else {
        visible(s.drop_last()).push(s.last())
    }
}

/// `s` has no leading whitespace, uses no whitespace but `' '`, and never
/// has two whitespace characters in a row (a single trailing space is
/// allowed).
pub open spec fn separated_prefix(s: Seq<char>) -> bool {
    &&& s.len() > 0 ==> !is_space(s[0])
    &&& forall|i: int| 0 <= i < s.len() && is_space(#[trigger] s[i]) ==> s[i] == ' '
    &&& forall|i: int| 0 <= i < s.len() - 1 && is_space(#[trigger] s[i]) ==> !is_space(s[i + 1])
}

/// `s` is in cleaned form: a separated prefix that does not end in
/// whitespace.
pub open spec fn is_clean(s: Seq<char>) -> bool {
    &&& separated_prefix(s)
    &&& s.len() > 0 ==> !is_space(s.last())
}

/// Whether `c` has the Unicode `White_Space` property (what
/// `char::is_whitespace` tests).
pub(crate) fn char_is_whitespace(c: char) -> (b: bool)
    ensures
        b == is_space(c),
{
    let n = c as u32;
    (0x9 <= n && n <= 0xd) || n == 0x20 || n == 0x85 || n == 0xa0 || n == 0x1680 || (0x2000 <= n
        && n <= 0x200a) || n == 0x2028 || n == 0x2029 || n == 0x202f || n == 0x205f || n == 0x3000
}

/// `String::push`: appends one character.
#[verifier::external_body]
fn push_char(s: &mut String, c: char)
    ensures
        final(s)@ == old(s)@.push(c),
{
    s.push(c)
}

proof fn lemma_cleaned_prefix_shape(s: Seq<char>)
    ensures
        is_clean(cleaned_prefix(s).0),
        cleaned_prefix(s).1 ==> cleaned_prefix(s).0.len() > 0,
        visible(cleaned_prefix(s).0) == visible(s),
    decreases s.len(),
{
    if s.len() > 0 {
        let t = s.drop_last();
        lemma_cleaned_prefix_shape(t);
        let (out, owed) = cleaned_prefix(t);
        let c = s.last();
        if !is_space(c) {
            if owed {
                let o1 = out.push(' ');
                let o2 = o1.push(c);
                assert(o2.drop_last() =~= o1);
                assert(o1.drop_last() =~= out);
                assert(visible(o1) == visible(out));
                assert forall|i: int| 0 <= i < o2.len() && is_space(#[trigger] o2[i]) implies o2[i]
                    == ' ' by {
                    if i < out.len() {
                        assert(o2[i] == out[i]);
                    }
                }
                assert forall|i: int|
                    0 <= i < o2.len() - 1 && is_space(#[trigger] o2[i]) implies !is_space(
                    o2[i + 1],
                ) by {
                    if i < out.len() - 1 {
                        assert(o2[i] == out[i] && o2[i + 1] == out[i + 1]);
                    } else if i == out.len() - 1 {
                        assert(o2[i] == out.last());
                    }
                }
            } else {
                let o1 = out.push(c);
                assert(o1.drop_last() =~= out);
                assert forall|i: int| 0 <= i < o1.len() && is_space(#[trigger] o1[i]) implies o1[i]
                    == ' ' by {
                    if i < out.len() {
                        assert(o1[i] == out[i]);
                    }
                }
                assert forall|i: int|
                    0 <= i < o1.len() - 1 && is_space(#[trigger] o1[i]) implies !is_space(
                    o1[i + 1],
                ) by {
                    assert(o1[i] == out[i]);
                    if i < out.len() - 1 {
                        assert(o1[i + 1] == out[i + 1]);
                    }
                }
            }
        }
    }
}

/// A separated prefix reads back as itself, with a separator owed exactly
/// when it ends in a space.
proof fn lemma_cleaned_prefix_of_separated(s: Seq<char>)
    requires
        separated_prefix(s),
    ensures
        s.len() > 0 && is_space(s.last()) ==> cleaned_prefix(s) == (s.drop_last(), true),
        !(s.len() > 0 && is_space(s.last())) ==> cleaned_prefix(s) == (s, false),
    decreases s.len(),
{
    if s.len() > 0 {
        let t = s.drop_last();
        assert(separated_prefix(t)) by {
            assert forall|i: int| 0 <= i < t.len() && is_space(#[trigger] t[i]) implies t[i]
                == ' ' by {
                assert(t[i] == s[i]);
            }
            assert forall|i: int|
                0 <= i < t.len() - 1 && is_space(#[trigger] t[i]) implies !is_space(t[i + 1]) by {
                assert(t[i] == s[i] && t[i + 1] == s[i + 1]);
            }
        }
        lemma_cleaned_prefix_of_separated(t);
        if is_space(s.last()) {
            assert(s[s.len() - 1] == s.last());
            if t.len() > 0 {
                assert(t.last() == s[s.len() - 2]);
                assert(!is_space(t.last()));
            }
        } else if t.len() > 0 && is_space(t.last()) {
            assert(t.last() == s[s.len() - 2]);
            assert(t.last() == ' ');
            assert(t.drop_last().push(' ').push(s.last()) =~= s);
        } else {
            assert(t.push(s.last()) =~= s);
        }
    }
}

proof fn lemma_visible_nonempty(s: Seq<char>, i: int)
    requires
        0 <= i < s.len(),
        !is_space(s[i]),
    ensures
        visible(s).len() > 0,
    decreases s.len(),
{
    if i < s.len() - 1 {
        let t = s.drop_last();
        assert(t[i] == s[i]);
        lemma_visible_nonempty(t, i);
    }
}

/// The cleaned text has no leading or trailing whitespace, no whitespace
/// but single spaces between words, and the same non-whitespace characters
/// as the input, in the same order; it is empty exactly when the input is
/// all whitespace.
pub proof fn lemma_clean_shape(s: Seq<char>)
    ensures
        is_clean(cleaned(s)),
        visible(cleaned(s)) == visible(s),
        cleaned(s).len() == 0 <==> visible(s).len() == 0,
{
    lemma_cleaned_prefix_shape(s);
    if cleaned(s).len() > 0 {
        lemma_visible_nonempty(cleaned(s), 0);
    }
}

/// Cleaning is idempotent: text that has been cleaned is left unchanged by
/// cleaning it again.
pub proof fn lemma_clean_idempotent(s: Seq<char>)
    ensures
        cleaned(cleaned(s)) == cleaned(s),
{
    lemma_cleaned_prefix_shape(s);
    lemma_cleaned_prefix_of_separated(cleaned(s));
}

/// Text that is already in cleaned form is a fixed point of cleaning.
pub proof fn lemma_clean_fixes_clean_text(s: Seq<char>)
    requires
        is_clean(s),
    ensures
        cleaned(s) == s,
{
    lemma_cleaned_prefix_of_separated(s);
}

proof fn lemma_join_empty(ws: Seq<Seq<char>>)
    requires
        are_words(ws),
    ensures
        join_words(ws).len() == 0 <==> ws.len() == 0,
    decreases ws.len(),
{
    if ws.len() == 1 {
        assert(ws[0].len() > 0);
    }
}

/// Reading `s` from the left keeps the emitted text equal to the words seen
/// so far joined by single spaces, owing a separator exactly after
/// whitespace that follows a word.
proof fn lemma_cleaned_prefix_words(s: Seq<char>)
    ensures
        are_words(words(s)),
        cleaned_prefix(s).0 == join_words(words(s)),
        cleaned_prefix(s).1 == (s.len() > 0 && is_space(s.last()) && words(s).len() > 0),
        s.len() > 0 && !is_space(s.last()) ==> words(s).len() > 0,
    decreases s.len(),
{
    if s.len() > 0 {
        let t = s.drop_last();
        let c = s.last();
        lemma_cleaned_prefix_words(t);
        let ws = words(t);
        lemma_join_empty(ws);
        if !is_space(c) {
            if t.len() > 0 && !is_space(t.last()) {
                assert(s[s.len() - 2] == t.last());
                let w = ws.last().push(c);
                let ws2 = ws.drop_last().push(w);
                assert(ws.last() == ws[ws.len() - 1]);
                assert forall|i: int| 0 <= i < ws2.len() implies #[trigger] ws2[i].len() > 0
                    && forall|j: int| 0 <= j < ws2[i].len() ==> !is_space(#[trigger] ws2[i][j]) by {
                    if i < ws.len() - 1 {
                        assert(ws2[i] == ws[i]);
                    } else {
                        assert forall|j: int| 0 <= j < w.len() implies !is_space(#[trigger] w[j]) by {
                            if j < w.len() - 1 {
                                assert(w[j] == ws[ws.len() - 1][j]);
                            }
                        }
                    }
                }
                if ws.len() == 1 {
                    assert(join_words(ws2) == w);
                } else {
                    assert(ws2.drop_last() =~= ws.drop_last());
                    assert(join_words(ws2) =~= join_words(ws).push(c));
                }
            } else {
                if t.len() > 0 {
                    assert(s[s.len() - 2] == t.last());
                }
                let ws2 = ws.push(seq![c]);
                assert forall|i: int| 0 <= i < ws2.len() implies #[trigger] ws2[i].len() > 0
                    && forall|j: int| 0 <= j < ws2[i].len() ==> !is_space(#[trigger] ws2[i][j]) by {
                    if i < ws.len() {
                        assert(ws2[i] == ws[i]);
                    }
                }
                if ws.len() == 0 {
                    assert(join_words(ws2) == seq![c]);
                    assert(seq![c] =~= Seq::<char>::empty().push(c));
                } else {
                    assert(ws2.drop_last() =~= ws);
                    assert(join_words(ws2) =~= join_words(ws).push(' ').push(c));
                }
            }
        }
    }
}

/// Cleaning keeps exactly the words of the input, in order, joined by
/// single spaces.
pub proof fn lemma_clean_joins_words(s: Seq<char>)
    ensures
        cleaned(s) == join_words(words(s)),
        are_words(words(s)),
{
    lemma_cleaned_prefix_words(s);
}

/// Whether `line` holds nothing but whitespace (true for the empty line).
pub fn is_blank(line: &str) -> (b: bool)
    ensures
        b == (forall|i: int| 0 <= i < line@.len() ==> is_space(#[trigger] line@[i])),
{
    broadcast use vstd::string::group_string_axioms;

    for ch in it: line.chars()
        invariant
            it.seq() == line@,
            forall|i: int| 0 <= i < it.index() ==> is_space(#[trigger] line@[i]),
    {
        if !char_is_whitespace(ch) {
            return false;
        }
    }
    true
}

/// Apply the default cleanup pipeline to OCR output: trim leading and
/// trailing whitespace and collapse runs of internal whitespace to single
/// spaces.
pub fn clean(input: &str) -> (out: String)
    ensures
        out@ == cleaned(input@),
        out@ == join_words(words(input@)),
{
    broadcast use vstd::string::group_string_axioms;

    let mut out = String::new();
    let mut owed = false;
    let mut started = false;
    for ch in it: input.chars()
        invariant
            it.seq() == input@,
            (out@, owed) == cleaned_prefix(input@.take(it.index() as int)),
            started == (out@.len() > 0),
    {
        let ghost before = input@.take(it.index() as int);
        assert(input@.take(it.index() + 1).drop_last() =~= before);
        if char_is_whitespace(ch) {
            if started {
                owed = true;
            }
        } else {
            if owed {
                push_char(&mut out, ' ');
            }
            push_char(&mut out, ch);
            owed = false;
            started = true;
        }
    }
    assert(input@.take(input@.len() as int) =~= input@);
    proof {
        lemma_clean_joins_words(input@);
    }
    out
}

} // verus!

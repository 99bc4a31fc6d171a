//! Small operations on text, for paths and for lines of input, each with its
//! meaning as a function on sequences of characters.

use vstd::prelude::*;
use vstd::string::*;

verus! {

/// The characters of an optional text.
pub open spec fn text_of(text: Option<String>) -> Option<Seq<char>> {
    match text {
        Some(t) => Some(t@),
        None => None,
    }
}

/// `s` without the `'/'` characters at its end.
pub open spec fn without_trailing_slashes(s: Seq<char>) -> Seq<char>
    decreases s.len(),
{
    if s.len() > 0 && s.last() == '/' {
        without_trailing_slashes(s.drop_last())
    } else {
        s
    }
}

/// Trimming leaves a prefix of the text that does not end in `'/'`, and what
/// was cut off holds nothing but `'/'`.
pub proof fn lemma_without_trailing_slashes(s: Seq<char>)
    ensures
        without_trailing_slashes(s).len() <= s.len(),
        without_trailing_slashes(s) == s.take(without_trailing_slashes(s).len() as int),
        without_trailing_slashes(s).len() > 0 ==> without_trailing_slashes(s).last() != '/',
        forall|i: int| without_trailing_slashes(s).len() <= i < s.len() ==> s[i] == '/',
    decreases s.len(),
{
    if s.len() > 0 && s.last() == '/' {
        let shorter = s.drop_last();
        lemma_without_trailing_slashes(shorter);
        let kept = without_trailing_slashes(shorter);
        assert forall|i: int| kept.len() <= i < s.len() implies s[i] == '/' by {
            if i < shorter.len() {
                assert(shorter[i] == s[i]);
            }
        }
    }
}

/// Copies `dir` without the slashes at its end.
pub fn trim_trailing_slashes(dir: &str) -> (out: String)
    ensures
        out@ == without_trailing_slashes(dir@),
{
    let mut end: usize = dir.unicode_len();
    assert(dir@.take(end as int) == dir@);
    while end > 0 && dir.get_char(end - 1) == '/'
        invariant
            end <= dir@.len(),
            without_trailing_slashes(dir@) == without_trailing_slashes(dir@.take(end as int)),
        decreases end,
    {
        assert(dir@.take(end as int).drop_last() == dir@.take(end - 1));
        end = end - 1;
    }
    String::from_str(dir.substring_char(0, end))
}

/// White space: the characters that Unicode gives the property White_Space.
pub open spec fn is_space(c: char) -> bool {
    ||| '\u{9}' <= c && c <= '\u{D}'
    ||| c == ' '
    ||| c == '\u{85}'
    ||| c == '\u{A0}'
    ||| c == '\u{1680}'
    ||| '\u{2000}' <= c && c <= '\u{200A}'
    ||| c == '\u{2028}'
    ||| c == '\u{2029}'
    ||| c == '\u{202F}'
    ||| c == '\u{205F}'
    ||| c == '\u{3000}'
}

/// `s` without the white space at its end.
pub open spec fn without_trailing_space(s: Seq<char>) -> Seq<char>
    decreases s.len(),
{
    if s.len() > 0 && is_space(s.last()) {
        without_trailing_space(s.drop_last())
    } else {
        s
    }
}

/// `s` without the white space at its start.
pub open spec fn without_leading_space(s: Seq<char>) -> Seq<char>
    decreases s.len(),
{
    if s.len() > 0 && is_space(s[0]) {
        without_leading_space(s.drop_first())
    } else {
        s
    }
}

/// `s` without the white space at either end.
pub open spec fn trimmed(s: Seq<char>) -> Seq<char> {
    without_leading_space(without_trailing_space(s))
}

/// The words of `s`: its maximal runs of characters that are not white
/// space, in order. Read character by character, a space adds nothing, a
/// character after a space or at the start begins a word, and any other
/// character lengthens the last word.
pub open spec fn words(s: Seq<char>) -> Seq<Seq<char>>
    decreases s.len(),
{
    if s.len() == 0 {
        Seq::empty()
    } else {
        let before = words(s.drop_last());
        if is_space(s.last()) {
            before
        } else if s.len() >= 2 && !is_space(s[s.len() - 2]) {
            before.drop_last().push(before.last().push(s.last()))
        } else {
            before.push(seq![s.last()])
        }
    }
}

/// The characters of each text of a list.
pub open spec fn texts(list: Seq<String>) -> Seq<Seq<char>> {
    list.map_values(|t: String| t@)
}

/// Whether `c` is white space.
pub fn is_whitespace(c: char) -> (yes: bool)
    ensures
        yes == is_space(c),
{
    ('\u{9}' <= c && c <= '\u{D}') || c == ' ' || c == '\u{85}' || c == '\u{A0}' || c
        == '\u{1680}' || ('\u{2000}' <= c && c <= '\u{200A}') || c == '\u{2028}' || c
        == '\u{2029}' || c == '\u{202F}' || c == '\u{205F}' || c == '\u{3000}'
}

/// Copies `text` without the white space at either end.
pub fn trim(text: &str) -> (out: String)
    ensures
        out@ == trimmed(text@),
{
    let mut end: usize = text.unicode_len();
    assert(text@.take(end as int) == text@);
    while end > 0 && is_whitespace(text.get_char(end - 1))
        invariant
            end <= text@.len(),
            without_trailing_space(text@) == without_trailing_space(text@.take(end as int)),
        decreases end,
    {
        assert(text@.take(end as int).drop_last() == text@.take(end - 1));
        end = end - 1;
    }
    let ghost kept = text@.take(end as int);
    let mut start: usize = 0;
    assert(kept.subrange(0, end as int) == kept);
    while start < end && is_whitespace(text.get_char(start))
        invariant
            start <= end <= text@.len(),
            kept == text@.take(end as int),
            without_leading_space(kept) == without_leading_space(
                kept.subrange(start as int, end as int),
            ),
        decreases end - start,
    {
        assert(kept.subrange(start as int, end as int).drop_first() == kept.subrange(
            start + 1,
            end as int,
        ));
        start = start + 1;
    }
    String::from_str(text.substring_char(start, end))
}

/// Splits `line` into its words.
pub fn split_words(line: &str) -> (out: Vec<String>)
    ensures
        texts(out@) == words(line@),
{
    let n: usize = line.unicode_len();
    let mut out: Vec<String> = Vec::new();
    let mut start: usize = 0;
    let mut in_word = false;
    let mut i: usize = 0;
    while i < n
        invariant
            i <= n,
            n == line@.len(),
            in_word == (i > 0 && !is_space(line@[i - 1])),
            in_word ==> start < i,
            words(line@.take(i as int)) == if in_word {
                texts(out@).push(line@.subrange(start as int, i as int))
            } else {
                texts(out@)
            },
        decreases n - i,
    {
        let c = line.get_char(i);
        let ghost head = line@.take(i + 1);
        let ghost before = words(line@.take(i as int));
        assert(head.drop_last() == line@.take(i as int));
        if is_whitespace(c) {
            if in_word {
                out.push(String::from_str(line.substring_char(start, i)));
                in_word = false;
            }
        } else if in_word {
            assert(before.last().push(c) =~= line@.subrange(start as int, i + 1));
        } else {
            assert(seq![c] =~= line@.subrange(i as int, i + 1));
            start = i;
            in_word = true;
        }
        i = i + 1;
    }
    assert(line@.take(n as int) == line@);
    if in_word {
        out.push(String::from_str(line.substring_char(start, n)));
    }
    out
}

} // verus!

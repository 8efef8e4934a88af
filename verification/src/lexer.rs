//! Cutting a line into tokens at white space.

use vstd::prelude::*;

verus! {

/// Whether `c` separates tokens: the characters that Unicode gives the
/// property `White_Space`.
pub open spec fn white_space(c: char) -> bool {
    ||| '\u{9}' <= c <= '\u{d}'
    ||| c == ' '
    ||| c == '\u{85}'
    ||| c == '\u{a0}'
    ||| c == '\u{1680}'
    ||| '\u{2000}' <= c <= '\u{200a}'
    ||| c == '\u{2028}'
    ||| c == '\u{2029}'
    ||| c == '\u{202f}'
    ||| c == '\u{205f}'
    ||| c == '\u{3000}'
}

/// The number of characters at the front of `s` before its first white
/// space, or the length of `s` where it holds none.
pub open spec fn word_len(s: Seq<char>) -> nat
    decreases s.len(),
{
    if s.len() == 0 || white_space(s[0]) {
        0
    } else {
        1 + word_len(s.skip(1))
    }
}

/// The tokens of a line, from left to right: its longest runs of
/// characters that are not white space.
pub open spec fn tokens(line: Seq<char>) -> Seq<Seq<char>>
    decreases line.len(),
{
    if line.len() == 0 {
        Seq::empty()
    } else if white_space(line[0]) {
        tokens(line.skip(1))
    } else {
        proof {
            lemma_word_len_bounds(line);
        }
        let n = word_len(line) as int;
        seq![line.take(n)] + tokens(line.skip(n))
    }
}

/// A word ends within its sequence, and a sequence that starts with a
/// character other than white space starts with a word that is not empty.
pub proof fn lemma_word_len_bounds(s: Seq<char>)
    ensures
        word_len(s) <= s.len(),
        s.len() > 0 && !white_space(s[0]) ==> word_len(s) >= 1,
    decreases s.len(),
{
    if s.len() > 0 && !white_space(s[0]) {
        lemma_word_len_bounds(s.skip(1));
    }
}

/// A sequence without white space is one word from end to end.
pub proof fn lemma_word_fills(s: Seq<char>)
    requires
        forall|i: int| 0 <= i < s.len() ==> !white_space(#[trigger] s[i]),
    ensures
        word_len(s) == s.len(),
    decreases s.len(),
{
    if s.len() > 0 {
        lemma_word_fills(s.skip(1));
    }
}

/// The characters of a word are not white space.
pub proof fn lemma_word_holds_no_space(s: Seq<char>, i: int)
    requires
        0 <= i < word_len(s),
    ensures
        i < s.len(),
        !white_space(s[i]),
    decreases s.len(),
{
    lemma_word_len_bounds(s);
    if i > 0 {
        lemma_word_holds_no_space(s.skip(1), i - 1);
    }
}

/// A line of white space alone, the empty line among them, has no token.
pub proof fn lemma_blank_line(line: Seq<char>)
    requires
        forall|i: int| 0 <= i < line.len() ==> white_space(#[trigger] line[i]),
    ensures
        tokens(line) == Seq::<Seq<char>>::empty(),
    decreases line.len(),
{
    if line.len() > 0 {
        lemma_blank_line(line.skip(1));
    }
}

/// A line that is not empty and holds no white space is its own single
/// token.
pub proof fn lemma_single_token(line: Seq<char>)
    requires
        line.len() > 0,
        forall|i: int| 0 <= i < line.len() ==> !white_space(#[trigger] line[i]),
    ensures
        tokens(line) == seq![line],
{
    lemma_word_fills(line);
    assert(line.take(line.len() as int) =~= line);
    assert(tokens(line.skip(line.len() as int)) =~= Seq::<Seq<char>>::empty());
}

/// Tells whether `c` separates tokens.
pub fn is_white_space(c: char) -> (b: bool)
    ensures
        b == white_space(c),
{
    ('\u{9}' <= c && c <= '\u{d}') || c == ' ' || c == '\u{85}' || c == '\u{a0}' || c == '\u{1680}'
        || ('\u{2000}' <= c && c <= '\u{200a}') || c == '\u{2028}' || c == '\u{2029}' || c
        == '\u{202f}' || c == '\u{205f}' || c == '\u{3000}'
}

/// The characters of `line`, in order.
pub fn characters(line: &str) -> (chars: Vec<char>)
    ensures
        chars@ == line@,
{
    let mut chars: Vec<char> = Vec::new();
    for c in it: line.chars()
        invariant
            it.seq() == line@,
            chars@ == line@.take(it.index()),
    {
        chars.push(c);
    }
    chars
}

/// Cuts `line` into its tokens.
pub fn tokenize(line: &str) -> (words: Vec<Vec<char>>)
    ensures
        words.deep_view() == tokens(line@),
{
    let chars = characters(line);
    let n = chars.len();
    let mut words: Vec<Vec<char>> = Vec::new();
    let mut i: usize = 0;
    assert(chars@.skip(0) =~= chars@);
    while i < n
        invariant
            n == chars.len(),
            i <= n,
            words.deep_view() + tokens(chars@.skip(i as int)) == tokens(chars@),
        decreases n - i,
    {
        let ghost rest = chars@.skip(i as int);
        if is_white_space(chars[i]) {
            assert(rest.skip(1) =~= chars@.skip(i + 1));
            i += 1;
        } else {
            let start = i;
            let mut word: Vec<char> = Vec::new();
            while i < n && !is_white_space(chars[i])
                invariant
                    n == chars.len(),
                    start <= i <= n,
                    word@ == chars@.subrange(start as int, i as int),
                    word_len(chars@.skip(start as int)) == (i - start) + word_len(
                        chars@.skip(i as int),
                    ),
                decreases n - i,
            {
                assert(chars@.skip(i as int).skip(1) =~= chars@.skip(i + 1));
                word.push(chars[i]);
                i += 1;
            }
            proof {
                let len = (i - start) as int;
                assert(rest.take(len) =~= word@);
                assert(rest.skip(len) =~= chars@.skip(i as int));
                assert(word.deep_view() =~= word@);
                assert(words.deep_view().push(word.deep_view()) + tokens(chars@.skip(i as int))
                    =~= words.deep_view() + tokens(rest));
            }
            words.push(word);
        }
    }
    words
}

} // verus!

//! Splitting the free text that follows a command into tokens.

use crate::text::{chars_of, char_is_space, is_space, slice_of, texts};
use vstd::prelude::*;

verus! {

/// The maximal runs of characters that are not white space, in order.
///
/// Stated by the last character: white space ends a word, any other
/// character lengthens the word that it follows or starts a new one.
pub open spec fn words(s: Seq<char>) -> Seq<Seq<char>>
    decreases s.len(),
{
    if s.len() == 0 {
        Seq::empty()
    } else {
        let before = words(s.drop_last());
        if is_space(s.last()) {
            before
        } else if s.len() >= 2 && !is_space(s[s.len() - 2]) {
            before.drop_last().push(before.last().push(s.last()))
        } else {
            before.push(seq![s.last()])
        }
    }
}

/// The tokens of a command's argument text: its words, or one empty token
/// where the text holds no word. The first token is the subcommand.
pub open spec fn tokens(s: Seq<char>) -> Seq<Seq<char>> {
    if words(s).len() == 0 {
        seq![Seq::<char>::empty()]
    } else {
        words(s)
    }
}

/// Whether every character of `s` is white space.
pub open spec fn all_spaces(s: Seq<char>) -> bool {
    forall|i: int| 0 <= i < s.len() ==> is_space(#[trigger] s[i])
}

/// `s` without its leading white space.
pub open spec fn trim_start(s: Seq<char>) -> Seq<char>
    decreases s.len(),
{
    if s.len() > 0 && is_space(s[0]) {
        trim_start(s.drop_first())
    } else {
        s
    }
}

/// `s` without its trailing white space.
pub open spec fn trim_end(s: Seq<char>) -> Seq<char>
    decreases s.len(),
{
    if s.len() > 0 && is_space(s.last()) {
        trim_end(s.drop_last())
    } else {
        s
    }
}

/// `s` without leading and trailing white space.
pub open spec fn trim(s: Seq<char>) -> Seq<char> {
    trim_end(trim_start(s))
}

/// `s` with every run of white space replaced by one space character.
pub open spec fn collapse(s: Seq<char>) -> Seq<char>
    decreases s.len(),
{
    if s.len() == 0 {
        s
    } else if !is_space(s.last()) {
        collapse(s.drop_last()).push(s.last())
    } else if s.len() >= 2 && is_space(s[s.len() - 2]) {
        collapse(s.drop_last())
    } else {
        collapse(s.drop_last()).push(' ')
    }
}

/// The parts written one after another with a single space between
/// neighbours.
pub open spec fn join(parts: Seq<Seq<char>>) -> Seq<char>
    decreases parts.len(),
{
    if parts.len() == 0 {
        Seq::empty()
    } else if parts.len() == 1 {
        parts[0]
    } else {
        join(parts.drop_last()).push(' ') + parts.last()
    }
}

proof fn lemma_trim_start_shape(s: Seq<char>)
    ensures
        all_spaces(s) ==> trim_start(s).len() == 0,
        !all_spaces(s) ==> trim_start(s).len() > 0 && !is_space(trim_start(s)[0]) && trim_start(
            s,
        ).last() == s.last(),
    decreases s.len(),
{
    if s.len() > 0 && is_space(s[0]) {
        let rest = s.drop_first();
        lemma_trim_start_shape(rest);
        if all_spaces(s) {
            assert forall|i: int| 0 <= i < rest.len() implies is_space(#[trigger] rest[i]) by {
                assert(rest[i] == s[i + 1]);
            }
        } else {
            let k = choose|k: int| 0 <= k < s.len() && !is_space(#[trigger] s[k]);
            assert(rest[k - 1] == s[k]);
        }
    }
}

proof fn lemma_trim_start_push(s: Seq<char>, c: char)
    ensures
        !all_spaces(s) ==> trim_start(s.push(c)) == trim_start(s).push(c),
        all_spaces(s) && is_space(c) ==> trim_start(s.push(c)).len() == 0,
        all_spaces(s) && !is_space(c) ==> trim_start(s.push(c)) == seq![c],
    decreases s.len(),
{
    let t = s.push(c);
    if s.len() == 0 {
        assert(t.drop_first() =~= Seq::<char>::empty());
        assert(t =~= seq![c]);
        assert(trim_start(t.drop_first()).len() == 0);
    } else if is_space(s[0]) {
        let rest = s.drop_first();
        assert(t.drop_first() =~= rest.push(c));
        assert(t[0] == s[0]);
        lemma_trim_start_push(rest, c);
        if all_spaces(s) {
            assert forall|i: int| 0 <= i < rest.len() implies is_space(#[trigger] rest[i]) by {
                assert(rest[i] == s[i + 1]);
            }
        } else {
            let k = choose|k: int| 0 <= k < s.len() && !is_space(#[trigger] s[k]);
            assert(rest[k - 1] == s[k]);
        }
    } else {
        assert(t[0] == s[0]);
    }
}

proof fn lemma_collapse_trailing_space(x: Seq<char>)
    requires
        x.len() > 0,
        is_space(x.last()),
        !all_spaces(x),
    ensures
        collapse(x) == collapse(trim_end(x)).push(' '),
    decreases x.len(),
{
    let y = x.drop_last();
    let k = choose|k: int| 0 <= k < x.len() && !is_space(#[trigger] x[k]);
    assert(y[k] == x[k]);
    assert(y.last() == x[x.len() - 2]);
    assert(trim_end(x) == trim_end(y));
    if is_space(y.last()) {
        lemma_collapse_trailing_space(y);
    } else {
        assert(trim_end(y) == y);
    }
}

proof fn lemma_join_lengthen(w: Seq<Seq<char>>, c: char)
    requires
        w.len() > 0,
    ensures
        join(w.drop_last().push(w.last().push(c))) == join(w).push(c),
        join(w.push(seq![c])) == join(w).push(' ').push(c),
{
    let longer = w.drop_last().push(w.last().push(c));
    assert(longer.drop_last() =~= w.drop_last());
    if w.len() >= 2 {
        assert(join(longer) =~= join(w).push(c));
    }
    assert(w.push(seq![c]).drop_last() =~= w);
    assert(join(w.push(seq![c])) =~= join(w).push(' ').push(c));
}

proof fn lemma_words_rejoin(s: Seq<char>)
    ensures
        join(words(s)) == collapse(trim(s)),
        words(s).len() == 0 <==> all_spaces(s),
    decreases s.len(),
{
    if s.len() > 0 {
        let init = s.drop_last();
        let c = s.last();
        let head = trim_start(init);
        assert(init.push(c) =~= s);
        lemma_words_rejoin(init);
        lemma_trim_start_shape(init);
        lemma_trim_start_push(init, c);
        if all_spaces(init) {
            if is_space(c) {
                assert(all_spaces(s));
            } else {
                assert(s.len() >= 2 ==> s[s.len() - 2] == init.last());
                assert(words(s) =~= seq![seq![c]]);
                assert(seq![c].drop_last() =~= Seq::<char>::empty());
                assert(collapse(seq![c]) =~= seq![c]);
            }
        } else {
            let k = choose|k: int| 0 <= k < init.len() && !is_space(#[trigger] init[k]);
            assert(s[k] == init[k]);
            assert(s[s.len() - 2] == init.last());
            assert(head.push(c).drop_last() =~= head);
            if !is_space(c) {
                lemma_join_lengthen(words(init), c);
                if is_space(init.last()) {
                    lemma_collapse_trailing_space(head);
                }
            }
        }
    }
}

/// Every word holds at least one character and no white space.
pub proof fn lemma_words_are_runs(s: Seq<char>)
    ensures
        forall|k: int|
            0 <= k < words(s).len() ==> (#[trigger] words(s)[k]).len() > 0 && !exists|j: int|
                0 <= j < words(s)[k].len() && is_space(#[trigger] words(s)[k][j]),
    decreases s.len(),
{
    if s.len() > 0 {
        lemma_words_are_runs(s.drop_last());
        lemma_words_rejoin(s.drop_last());
        if !is_space(s.last()) && s.len() >= 2 && !is_space(s[s.len() - 2]) {
            assert(!all_spaces(s.drop_last()));
        }
    }
}

/// Tokenizing a text and joining the tokens with single spaces gives the
/// text trimmed and with each run of white space collapsed to one space.
/// The empty text has exactly one token, the empty one.
pub proof fn lemma_tokens_rejoin(s: Seq<char>)
    ensures
        join(tokens(s)) == collapse(trim(s)),
        tokens(Seq::<char>::empty()) == seq![Seq::<char>::empty()],
{
    lemma_words_rejoin(s);
}

/// The subcommand among the tokens of a command: the first token, or the
/// empty one where there is none.
pub open spec fn subcommand(t: Seq<Seq<char>>) -> Seq<char> {
    if t.len() == 0 {
        Seq::empty()
    } else {
        t[0]
    }
}

/// The words found so far, with the word that is still being read.
spec fn with_open_word(done: Seq<Seq<char>>, open: bool, word: Seq<char>) -> Seq<Seq<char>> {
    if open {
        done.push(word)
    } else {
        done
    }
}

/// Splits `s` on runs of white space. Leading and trailing white space is
/// ignored; a text without any word gives the single empty token.
pub fn tokenize(s: &str) -> (out: Vec<String>)
    ensures
        texts(out@) == tokens(s@),
        out.len() >= 1,
{
    let chars = chars_of(s);
    let n = chars.len();
    let mut out: Vec<String> = Vec::new();
    let mut start: usize = 0;
    let mut open = false;
    let mut i: usize = 0;
    assert(s@.take(0) =~= Seq::<char>::empty());
    assert(texts(out@) =~= Seq::<Seq<char>>::empty());
    while i < n
        invariant
            chars@ == s@,
            n == chars.len(),
            i <= n,
            start <= i,
            open ==> start < i,
            open <==> (i > 0 && !is_space(s@[i - 1])),
            words(s@.take(i as int)) == with_open_word(
                texts(out@),
                open,
                s@.subrange(start as int, i as int),
            ),
        decreases n - i,
    {
        let c = chars[i];
        let ghost prefix = s@.take(i as int);
        let ghost next = s@.take(i + 1);
        let ghost done = texts(out@);
        let ghost word = s@.subrange(start as int, i as int);
        proof {
            assert(next.drop_last() =~= prefix);
            assert(next.last() == c);
            if i > 0 {
                assert(next[next.len() - 2] == s@[i - 1]);
            }
        }
        if char_is_space(c) {
            if open {
                let w = slice_of(s, start, i);
                out.push(w);
                open = false;
                proof {
                    assert(texts(out@) =~= done.push(word));
                }
            }
        } else {
            if !open {
                start = i;
                open = true;
                proof {
                    assert(s@.subrange(i as int, i + 1) =~= seq![c]);
                }
            } else {
                proof {
                    assert(done.push(word).drop_last() =~= done);
                    assert(s@.subrange(start as int, i + 1) =~= word.push(c));
                }
            }
        }
        i = i + 1;
    }
    assert(s@.take(n as int) =~= s@);
    if open {
        let ghost done = texts(out@);
        let w = slice_of(s, start, n);
        out.push(w);
        assert(texts(out@) =~= done.push(s@.subrange(start as int, n as int)));
    }
    if out.len() == 0 {
        out.push(String::new());
        assert(texts(out@) =~= seq![Seq::<char>::empty()]);
    }
    out
}

} // verus!

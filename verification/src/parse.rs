//! Splitting a word-list text into its words.
//!
//! The text is newline-delimited: its words are the maximal runs of
//! characters that contain no line break, with empty runs discarded.

use vstd::prelude::*;
use vstd::string::*;

verus! {

/// The views of a sequence of strings, element by element.
pub open spec fn word_views(ws: Seq<String>) -> Seq<Seq<char>> {
    Seq::new(ws.len(), |i: int| ws[i]@)
}

/// The characters of `s` that follow its last line break: the still-open run.
pub open spec fn open_word(s: Seq<char>) -> Seq<char>
    decreases s.len(),
{
    if s.len() == 0 {
        Seq::empty()
    } else if s.last() == '\n' {
        Seq::empty()
    } else {
        open_word(s.drop_last()).push(s.last())
    }
}

/// The non-empty runs of `s` that a line break has closed, in order.
pub open spec fn closed_words(s: Seq<char>) -> Seq<Seq<char>>
    decreases s.len(),
{
    if s.len() == 0 {
        Seq::empty()
    } else if s.last() == '\n' {
        if open_word(s.drop_last()).len() > 0 {
            closed_words(s.drop_last()).push(open_word(s.drop_last()))
        } else {
            closed_words(s.drop_last())
        }
    } else {
        closed_words(s.drop_last())
    }
}

/// The words of `s`: every maximal non-empty line-break-free run, in order.
pub open spec fn words_of(s: Seq<char>) -> Seq<Seq<char>> {
    if open_word(s).len() > 0 {
        closed_words(s).push(open_word(s))
    } else {
        closed_words(s)
    }
}

/// How one more character extends the open run and the closed words.
proof fn lemma_extend(t: Seq<char>, c: char)
    ensures
        open_word(t.push(c)) == (if c == '\n' {
            Seq::<char>::empty()
        } else {
            open_word(t).push(c)
        }),
        closed_words(t.push(c)) == (if c == '\n' && open_word(t).len() > 0 {
            closed_words(t).push(open_word(t))
        } else {
            closed_words(t)
        }),
{
    let u = t.push(c);
    assert(u.last() == c);
    assert(u.drop_last() =~= t);
}

proof fn lemma_closed_words_nonempty(s: Seq<char>)
    ensures
        forall|i: int| 0 <= i < closed_words(s).len() ==> closed_words(s)[i].len() > 0,
    decreases s.len(),
{
    if s.len() == 0 {
    } else {
        let t = s.drop_last();
        lemma_closed_words_nonempty(t);
        if s.last() == '\n' && open_word(t).len() > 0 {
            let grown = closed_words(t).push(open_word(t));
            assert(closed_words(s) == grown);
            assert forall|i: int| 0 <= i < grown.len() implies grown[i].len() > 0 by {
                if i < closed_words(t).len() {
                    assert(grown[i] == closed_words(t)[i]);
                } else {
                    assert(grown[i] == open_word(t));
                }
            }
        }
    }
}

/// Every word of a text is non-empty: empty lines yield no entries.
pub proof fn lemma_words_nonempty(s: Seq<char>)
    ensures
        forall|i: int| 0 <= i < words_of(s).len() ==> words_of(s)[i].len() > 0,
{
    lemma_closed_words_nonempty(s);
}

fn parse_ascii(text: &str) -> (words: Vec<String>)
    requires
        text.is_ascii(),
    ensures
        word_views(words@) == words_of(text@),
{
    let n: usize = text.unicode_len();
    let mut words: Vec<String> = Vec::new();
    let mut start: usize = 0;
    let mut i: usize = 0;
    while i < n
        invariant
            text.is_ascii(),
            n == text@.len(),
            start <= i <= n,
            open_word(text@.take(i as int)) == text@.subrange(start as int, i as int),
            word_views(words@) == closed_words(text@.take(i as int)),
        decreases n - i,
    {
        let ghost t = text@.take(i as int);
        let ghost c = text@[i as int];
        proof {
            assert(text@.take(i as int + 1) =~= t.push(c));
            lemma_extend(t, c);
        }
        let b = text.get_ascii(i);
        proof {
            assert('\0' <= c <= '\u{7f}');
            assert((b == 10) == (c == '\n'));
        }
        if b == 10 {
            if start < i {
                let piece = text.substring_ascii(start, i);
                let entry = piece.to_owned();
                proof {
                    assert(entry@ == open_word(t));
                    assert(word_views(words@.push(entry)) =~= word_views(words@).push(entry@));
                }
                words.push(entry);
            }
            start = i + 1;
            proof {
                assert(open_word(text@.take(i as int + 1)) =~= text@.subrange(
                    start as int,
                    i as int + 1,
                ));
            }
        } else {
            proof {
                assert(open_word(t).push(c) =~= text@.subrange(start as int, i as int + 1));
            }
        }
        i = i + 1;
    }
    proof {
        assert(text@.take(n as int) =~= text@);
    }
    if start < n {
        let piece = text.substring_ascii(start, n);
        let entry = piece.to_owned();
        proof {
            assert(entry@ == open_word(text@));
            assert(word_views(words@.push(entry)) =~= word_views(words@).push(entry@));
        }
        words.push(entry);
    }
    words
}

fn parse_general(text: &str) -> (words: Vec<String>)
    ensures
        word_views(words@) == words_of(text@),
{
    let n: usize = text.unicode_len();
    let mut words: Vec<String> = Vec::new();
    let mut start: usize = 0;
    let mut i: usize = 0;
    while i < n
        invariant
            n == text@.len(),
            start <= i <= n,
            open_word(text@.take(i as int)) == text@.subrange(start as int, i as int),
            word_views(words@) == closed_words(text@.take(i as int)),
        decreases n - i,
    {
        let ghost t = text@.take(i as int);
        let ghost c = text@[i as int];
        proof {
            assert(text@.take(i as int + 1) =~= t.push(c));
            lemma_extend(t, c);
        }
        let ch = text.get_char(i);
        if ch == '\n' {
            if start < i {
                let piece = text.substring_char(start, i);
                let entry = piece.to_owned();
                proof {
                    assert(entry@ == open_word(t));
                    assert(word_views(words@.push(entry)) =~= word_views(words@).push(entry@));
                }
                words.push(entry);
            }
            start = i + 1;
            proof {
                assert(open_word(text@.take(i as int + 1)) =~= text@.subrange(
                    start as int,
                    i as int + 1,
                ));
            }
        } else {
            proof {
                assert(open_word(t).push(c) =~= text@.subrange(start as int, i as int + 1));
            }
        }
        i = i + 1;
    }
    proof {
        assert(text@.take(n as int) =~= text@);
    }
    if start < n {
        let piece = text.substring_char(start, n);
        let entry = piece.to_owned();
        proof {
            assert(entry@ == open_word(text@));
            assert(word_views(words@.push(entry)) =~= word_views(words@).push(entry@));
        }
        words.push(entry);
    }
    words
}

/// Split a word-list text into its words: one per line, blank lines ignored,
/// entries kept verbatim and in order.
pub fn parse_words(text: &str) -> (words: Vec<String>)
    ensures
        word_views(words@) == words_of(text@),
{
    if text.is_ascii() {
        parse_ascii(text)
    } else {
        parse_general(text)
    }
}

} // verus!

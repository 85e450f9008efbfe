//! Membership queries against an embedded English word list.
//!
//! The library owns an immutable word list (one lower-case word per line),
//! builds a lookup index from it, and answers one question: is a given token,
//! after case folding, a word of that list? Queries are total: any string,
//! including the empty one, gets an answer and nothing fails.

use vstd::prelude::*;

pub mod dict;
pub mod fold;
pub mod parse;
pub mod word_list;

use crate::dict::EnglishDict;
use crate::fold::lower_of;
use crate::parse::{lemma_words_nonempty, words_of};
use crate::word_list::{word_list, word_list_string};

verus! {

/// Whether the case-folded form of `w` is an entry of the embedded word list.
pub open spec fn is_english(w: Seq<char>) -> bool {
    words_of(word_list()).contains(lower_of(w))
}

/// Build the dictionary index from the embedded word list: its non-empty
/// lines, verbatim and in order.
pub fn get_dict() -> (dict: EnglishDict)
    ensures
        dict@ == words_of(word_list()),
{
    let text = word_list_string();
    EnglishDict::from_text(text.as_str())
}

/// Whether `word`, case-folded, is an entry of the embedded word list.
///
/// The query is total: every string gets an answer, and the empty string is
/// never a word.
pub fn is_english_word(word: &str) -> (present: bool)
    ensures
        present == is_english(word@),
        word@.len() == 0 ==> present == false,
{
    let dict = get_dict();
    let present = dict.query(word);
    proof {
        if word@.len() == 0 {
            lemma_words_nonempty(word_list());
            let empty = Seq::<char>::empty();
            assert(!words_of(word_list()).contains(empty)) by {
                if words_of(word_list()).contains(empty) {
                    let i = choose|i: int|
                        0 <= i < words_of(word_list()).len() && words_of(word_list())[i] == empty;
                    assert(words_of(word_list())[i].len() > 0);
                }
            }
        }
    }
    present
}

/// A token whose case-folded form stands in the word list is English, and
/// this does not depend on the case pattern the token arrived in: any two
/// tokens with one folded form are classified alike.
pub proof fn lemma_folded_alike_classified_alike(w1: Seq<char>, w2: Seq<char>)
    requires
        lower_of(w1) == lower_of(w2),
    ensures
        is_english(w1) == is_english(w2),
{
}

/// A token whose case-folded form stands nowhere in the word list is not
/// English.
pub proof fn lemma_unlisted_is_not_english(w: Seq<char>)
    requires
        !words_of(word_list()).contains(lower_of(w)),
    ensures
        !is_english(w),
{
}

/// A token whose case-folded form stands in the word list is English.
pub proof fn lemma_listed_is_english(w: Seq<char>)
    requires
        words_of(word_list()).contains(lower_of(w)),
    ensures
        is_english(w),
{
}

/// The classification is a function of the token alone: any two results that
/// the query's contract admits for one token are equal, so repeated queries
/// agree.
pub proof fn lemma_query_deterministic(w: Seq<char>, r1: bool, r2: bool)
    requires
        r1 == is_english(w),
        r2 == is_english(w),
    ensures
        r1 == r2,
{
}

} // verus!

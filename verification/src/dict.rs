//! The dictionary index: an immutable list of words with membership queries.

use crate::fold::{lower_of, to_lower};
use crate::parse::{parse_words, word_views, words_of};
use vstd::prelude::*;

verus! {

/// The dictionary index: the words of a word-list text, held for exact
/// membership queries. Once built it is never mutated.
pub struct EnglishDict {
    words: Vec<String>,
}

impl View for EnglishDict {
    type V = Seq<Seq<char>>;

    closed spec fn view(&self) -> Seq<Seq<char>> {
        word_views(self.words@)
    }
}

impl EnglishDict {
    /// Build the index from a word-list text: one word per line, blank lines
    /// ignored, entries kept verbatim and in order.
    pub fn from_text(text: &str) -> (dict: EnglishDict)
        ensures
            dict@ == words_of(text@),
    {
        EnglishDict { words: parse_words(text) }
    }

    /// The number of entries held.
    pub fn len(&self) -> (n: usize)
        ensures
            n == self@.len(),
    {
        self.words.len()
    }

    /// Whether `word` matches an entry exactly; no case folding happens here.
    pub fn contains(&self, word: &String) -> (present: bool)
        ensures
            present == self@.contains(word@),
    {
        let n: usize = self.words.len();
        let mut j: usize = 0;
        while j < n
            invariant
                n == self.words.len(),
                j <= n,
                self@ == word_views(self.words@),
                forall|k: int| 0 <= k < j ==> self@[k] != word@,
            decreases n - j,
        {
            let entry: &String = &self.words[j];
            if entry.eq(word) {
                proof {
                    assert(self@[j as int] == word@);
                }
                return true;
            }
            j = j + 1;
        }
        false
    }

    /// Whether `word`, case-folded, matches an entry of this index.
    pub fn query(&self, word: &str) -> (present: bool)
        ensures
            present == self@.contains(lower_of(word@)),
            word@.len() == 0 ==> present == self@.contains(Seq::<char>::empty()),
    {
        let lower = to_lower(word);
        proof {
            if word@.len() == 0 {
                assert(lower@ =~= Seq::<char>::empty());
            }
        }
        self.contains(&lower)
    }
}

} // verus!

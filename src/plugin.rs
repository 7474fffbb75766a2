//! Plain data that plugins describe themselves with.
use vstd::prelude::*;

verus! {

/// The size of a plugin's window.
#[derive(Clone, Copy, Debug, PartialEq, Eq, Structural)]
pub struct WindowInfo {
    pub width: u32,
    pub height: u32,
}

/// The keywords a plugin is found by.
#[derive(Clone, Debug)]
pub struct KeyWords {
    words: Vec<String>,
}

pub open spec fn texts(v: Seq<String>) -> Seq<Seq<char>> {
    v.map_values(|s: String| s@)
}

impl View for KeyWords {
    type V = Seq<Seq<char>>;

    closed spec fn view(&self) -> Seq<Seq<char>> {
        texts(self.words@)
    }
}

impl KeyWords {
    /// A single keyword.
    pub fn new_word(word: &str) -> (r: Self)
        ensures
            r@ == seq![word@],
    {
        let words = vec![word.to_owned()];
        assert(texts(words@) =~= seq![word@]);
        KeyWords { words }
    }

    /// Two keywords, in order.
    pub fn new_words(word1: &str, word2: &str) -> (r: Self)
        ensures
            r@ == seq![word1@, word2@],
    {
        let words = vec![word1.to_owned(), word2.to_owned()];
        assert(texts(words@) =~= seq![word1@, word2@]);
        KeyWords { words }
    }

    /// The keywords, in order.
    pub fn words(&self) -> (r: &Vec<String>)
        ensures
            texts(r@) == self@,
    {
        &self.words
    }
}

} // verus!

//! The segmentation engine: trusted declarations around `jieba_rs`.
//!
//! An engine's observable state is abstracted as its vocabulary contents,
//! `vocab_of`: a map from each word to its frequency and part-of-speech
//! tag. The segmentation results are named functions of those contents and
//! the input alone: `jieba_rs` consults nothing else that this crate ever
//! changes (it never installs a custom hidden-Markov model, so the built-in
//! one is a constant).
//!
//! The engine has two capacity edges its own source does not guard with an
//! error return: it sums all frequencies into a machine-word total, and
//! its prefix trie aborts once 2^24 nodes are allocated (at most one per
//! character of an inserted word). The callers below therefore carry
//! `requires` keeping the frequency total under `FREQ_CAP` (a quarter of
//! the machine range, so every intermediate sum fits) and the cumulative
//! character measure under `TRIE_CAP`; the registry maintains verified
//! budgets that establish them.

use vstd::prelude::*;
use crate::text::{concat_seqs, digit_run_sum, views_of};

verus! {

/// The engine's frequency total stays at or below this, so no sum the
/// engine forms can overflow a machine word.
pub const FREQ_CAP: u64 = 0x4000_0000_0000_0000;

/// The cumulative character count of inserted words stays below this,
/// which is under the engine's 2^24 prefix-trie node limit.
pub const TRIE_CAP: u64 = 0xE0_0000;

/// The embedded default dictionary's frequencies sum to 60,101,964 and
/// its words hold under 3,100,000 characters; these bounds cover both
/// with room.
pub const EMBEDDED_FREQ_BOUND: u64 = 0x1000_0000;

pub const EMBEDDED_CHARS_BOUND: u64 = 0x40_0000;

#[verifier::external_type_specification]
#[verifier::external_body]
pub struct ExJieba(jieba_rs::Jieba);

#[verifier::external_type_specification]
#[verifier::external_body]
pub struct ExJiebaError(jieba_rs::Error);

/// The vocabulary contents of an engine: each word's frequency and tag.
pub uninterp spec fn vocab_of(j: jieba_rs::Jieba) -> Map<Seq<char>, (int, Seq<char>)>;

/// The sum of the frequencies in the contents: the engine's running total.
pub uninterp spec fn total_freq_of(vocab: Map<Seq<char>, (int, Seq<char>)>) -> int;

/// The number of distinct non-empty prefixes of the words in the
/// contents: what the engine's prefix trie stores, at most one node per
/// character of each word ever inserted.
pub uninterp spec fn trie_size_of(vocab: Map<Seq<char>, (int, Seq<char>)>) -> int;

/// What loading the dictionary source `source` on top of the contents
/// `vocab` yields: `None` when `jieba_rs` rejects the source (a line
/// whose second field does not parse as a non-negative integer).
pub uninterp spec fn merged_vocab(
    vocab: Map<Seq<char>, (int, Seq<char>)>,
    source: Seq<char>,
) -> Option<Map<Seq<char>, (int, Seq<char>)>>;

/// What loading the embedded default dictionary on top of the contents
/// `vocab` yields.
pub uninterp spec fn default_loaded_vocab(
    vocab: Map<Seq<char>, (int, Seq<char>)>,
) -> Map<Seq<char>, (int, Seq<char>)>;

/// What adding one word to the contents `vocab` yields; an absent
/// frequency is chosen by the engine from `vocab`. A new word gets the
/// given tag, or an empty one; a word already present keeps its stored
/// tag.
pub uninterp spec fn added_vocab(
    vocab: Map<Seq<char>, (int, Seq<char>)>,
    word: Seq<char>,
    freq: Option<int>,
    tag: Option<Seq<char>>,
) -> Map<Seq<char>, (int, Seq<char>)>;

/// The words that cutting `text` over the contents `vocab` yields.
pub uninterp spec fn cut_of(
    vocab: Map<Seq<char>, (int, Seq<char>)>,
    text: Seq<char>,
    hmm: bool,
) -> Seq<Seq<char>>;

/// The words of the search-granular cut: the cut words, each preceded by
/// its recognized sub-words.
pub uninterp spec fn cut_for_search_of(
    vocab: Map<Seq<char>, (int, Seq<char>)>,
    text: Seq<char>,
    hmm: bool,
) -> Seq<Seq<char>>;

/// Every recognized substring of `text` over the contents `vocab`.
pub uninterp spec fn cut_all_of(
    vocab: Map<Seq<char>, (int, Seq<char>)>,
    text: Seq<char>,
) -> Seq<Seq<char>>;

/// The tagged words of `text` over the contents `vocab`: each cut word
/// with its part-of-speech tag.
pub uninterp spec fn tag_of(
    vocab: Map<Seq<char>, (int, Seq<char>)>,
    text: Seq<char>,
    hmm: bool,
) -> Seq<(Seq<char>, Seq<char>)>;

/// The character sequences behind a sequence of string pairs.
pub open spec fn pair_views_of(pairs: Seq<(String, String)>) -> Seq<(Seq<char>, Seq<char>)> {
    pairs.map_values(|p: (String, String)| (p.0@, p.1@))
}

/// Relies on `jieba_rs::Jieba::new`: an empty engine with the embedded
/// default dictionary loaded onto it. The bounds on its measures are
/// those of that dictionary's data.
#[verifier::external_body]
pub(crate) fn jieba_new() -> (r: jieba_rs::Jieba)
    ensures
        vocab_of(r) == default_loaded_vocab(Map::empty()),
        total_freq_of(vocab_of(r)) <= EMBEDDED_FREQ_BOUND,
        trie_size_of(vocab_of(r)) <= EMBEDDED_CHARS_BOUND,
{
    jieba_rs::Jieba::new()
}

/// Relies on `jieba_rs::Jieba::with_dict`: builds an engine from a
/// dictionary source by loading it onto an empty engine, succeeding
/// exactly when the source is accepted. The source's digit runs bound
/// every frequency it can carry, and its characters bound the trie growth,
/// so the `requires` keep the engine inside its capacity.
#[verifier::external_body]
pub(crate) fn jieba_with_dict(dict: &str) -> (r: Result<jieba_rs::Jieba, jieba_rs::Error>)
    requires
        digit_run_sum(dict@) <= FREQ_CAP,
        dict@.len() <= TRIE_CAP,
    ensures
        r is Ok <==> merged_vocab(Map::empty(), dict@) is Some,
        r matches Ok(j) ==> vocab_of(j) == merged_vocab(Map::empty(), dict@).unwrap(),
        r matches Ok(j) ==> total_freq_of(vocab_of(j)) <= digit_run_sum(dict@),
        r matches Ok(j) ==> trie_size_of(vocab_of(j)) <= dict@.len(),
{
    let mut reader = dict.as_bytes();
    jieba_rs::Jieba::with_dict(&mut reader)
}

/// Relies on `jieba_rs::Jieba::load_dict`: merges a dictionary source
/// into an engine, succeeding exactly when the source is accepted. On
/// failure the engine may be left partially loaded, so nothing is said of
/// it; the registry merges into a clone and discards it then.
#[verifier::external_body]
pub(crate) fn jieba_load_dict(j: &mut jieba_rs::Jieba, dict: &str) -> (r: Result<
    (),
    jieba_rs::Error,
>)
    requires
        total_freq_of(vocab_of(*old(j))) + digit_run_sum(dict@) <= FREQ_CAP,
        trie_size_of(vocab_of(*old(j))) + dict@.len() <= TRIE_CAP,
    ensures
        r is Ok <==> merged_vocab(vocab_of(*old(j)), dict@) is Some,
        r is Ok ==> vocab_of(*final(j)) == merged_vocab(vocab_of(*old(j)), dict@).unwrap(),
        r is Ok ==> total_freq_of(vocab_of(*final(j))) <= total_freq_of(vocab_of(*old(j)))
            + digit_run_sum(dict@),
        r is Ok ==> trie_size_of(vocab_of(*final(j))) <= trie_size_of(vocab_of(*old(j)))
            + dict@.len(),
{
    let mut reader = dict.as_bytes();
    j.load_dict(&mut reader)
}

/// Relies on the derived `Clone` of `jieba_rs::Jieba`, which copies every
/// part of the engine's state.
#[verifier::external_body]
pub(crate) fn jieba_clone(j: &jieba_rs::Jieba) -> (r: jieba_rs::Jieba)
    ensures
        vocab_of(r) == vocab_of(*j),
{
    j.clone()
}

/// Relies on `jieba_rs::Jieba::add_word`: inserts a new word or updates
/// an existing word's frequency (the stored tag is kept then); an empty
/// word is left alone. An explicit frequency joins the total directly; an
/// engine-chosen one is a float estimate never above twice the total, so
/// the tripling bound covers it. The word's characters bound the trie
/// growth.
#[verifier::external_body]
pub(crate) fn jieba_add_word(
    j: &mut jieba_rs::Jieba,
    word: &str,
    freq: Option<usize>,
    tag: Option<&str>,
) -> (r: usize)
    requires
        word@.len() > 0 ==> (freq matches Some(f) ==> total_freq_of(vocab_of(*old(j))) + f
            <= FREQ_CAP),
        word@.len() > 0 && freq is None ==> 3 * total_freq_of(vocab_of(*old(j))) + 1 <= FREQ_CAP,
        word@.len() > 0 ==> trie_size_of(vocab_of(*old(j))) + word@.len() <= TRIE_CAP,
    ensures
        vocab_of(*final(j)) == added_vocab(
            vocab_of(*old(j)),
            word@,
            match freq {
                Some(f) => Some(f as int),
                None => None,
            },
            match tag {
                Some(t) => Some(t@),
                None => None,
            },
        ),
        word@.len() == 0 ==> *final(j) == *old(j) && r == 0,
        word@.len() > 0 ==> (freq matches Some(f) ==> vocab_of(*final(j)).dom().contains(word@)
            && vocab_of(*final(j))[word@].0 == f),
        word@.len() > 0 ==> (freq matches Some(f) ==> r == f),
        word@.len() > 0 && freq is None ==> r <= 2 * total_freq_of(vocab_of(*old(j))) + 1,
        word@.len() > 0 ==> total_freq_of(vocab_of(*final(j))) <= total_freq_of(
            vocab_of(*old(j)),
        ) + r,
        trie_size_of(vocab_of(*final(j))) <= trie_size_of(vocab_of(*old(j))) + word@.len(),
{
    j.add_word(word, freq, tag)
}

/// Relies on `jieba_rs::Jieba::cut`: the tokens cover the input with no
/// gap or overlap, so their words concatenate back to it.
#[verifier::external_body]
pub(crate) fn jieba_cut(j: &jieba_rs::Jieba, text: &str, hmm: bool) -> (r: Vec<String>)
    ensures
        views_of(r@) == cut_of(vocab_of(*j), text@, hmm),
        concat_seqs(views_of(r@)) == text@,
{
    j.cut(text, hmm).into_iter().map(|t| t.word.to_string()).collect()
}

/// Relies on `jieba_rs::Jieba::cut_for_search`.
#[verifier::external_body]
pub(crate) fn jieba_cut_for_search(j: &jieba_rs::Jieba, text: &str, hmm: bool) -> (r: Vec<
    String,
>)
    ensures
        views_of(r@) == cut_for_search_of(vocab_of(*j), text@, hmm),
{
    j.cut_for_search(text, hmm).into_iter().map(|t| t.word.to_string()).collect()
}

/// Relies on `jieba_rs::Jieba::cut_all`.
#[verifier::external_body]
pub(crate) fn jieba_cut_all(j: &jieba_rs::Jieba, text: &str) -> (r: Vec<String>)
    ensures
        views_of(r@) == cut_all_of(vocab_of(*j), text@),
{
    j.cut_all(text).into_iter().map(|t| t.word.to_string()).collect()
}

/// Relies on `jieba_rs::Jieba::tag`: one tagged word per cut token, in
/// order, so the words are exactly those of `cut`.
#[verifier::external_body]
pub(crate) fn jieba_tag(j: &jieba_rs::Jieba, text: &str, hmm: bool) -> (r: Vec<(String, String)>)
    ensures
        pair_views_of(r@) == tag_of(vocab_of(*j), text@, hmm),
{
    j.tag(text, hmm).into_iter().map(|t| (t.word.to_string(), t.tag.to_string())).collect()
}

/// Relies on the `Display` impl of `jieba_rs::Error` for a human-readable
/// description; nothing is claimed of its text.
#[verifier::external_body]
pub(crate) fn jieba_error_text(e: &jieba_rs::Error) -> String {
    e.to_string()
}

} // verus!

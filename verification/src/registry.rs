//! The dictionary registry: an ordered, never-empty collection of named
//! segmentation engines with one selected entry.
//!
//! Each entry carries two verified budgets beside its engine: an upper
//! bound on the engine's frequency total and one on the characters its
//! trie has absorbed. Every mutation checks the budgets first, so the
//! engine is never driven past its capacity (see `crate::engine`).

use vstd::prelude::*;
use crate::engine::{
    added_vocab, cut_all_of, cut_for_search_of, cut_of, default_loaded_vocab, jieba_add_word,
    jieba_clone, jieba_cut, jieba_cut_all, jieba_cut_for_search, jieba_error_text,
    jieba_load_dict, jieba_new, jieba_tag, jieba_with_dict, merged_vocab, pair_views_of, tag_of,
    total_freq_of, trie_size_of, vocab_of, EMBEDDED_CHARS_BOUND, EMBEDDED_FREQ_BOUND, FREQ_CAP,
    TRIE_CAP,
};
use crate::text::{
    concat_seqs, digit_run_measure, digit_run_sum, digits_of, digits_value, parse_usize,
    parses_as_usize, views_of,
};
use vstd::string::StrSliceExecFns;

verus! {

/// The built-in dictionaries the registry starts with.
pub enum Embedded {
    Normal,
    Small,
    Big,
}

/// How a dictionary is named: a fixed identifier for a built-in one, an
/// arbitrary string for a user-loaded one.
pub enum DictName {
    Embedded(Embedded),
    File(String),
}

/// One dictionary: a name, the engine built from it, and the two budgets
/// bounding the engine's frequency total and trie growth.
pub struct Dict {
    pub name: DictName,
    pub jieba: jieba_rs::Jieba,
    pub freq_weight: u64,
    pub trie_chars: u64,
}

impl Dict {
    /// The budgets bound the engine's measures and stay under its caps.
    pub open spec fn wf(self) -> bool {
        &&& total_freq_of(vocab_of(self.jieba)) <= self.freq_weight
        &&& self.freq_weight <= FREQ_CAP
        &&& trie_size_of(vocab_of(self.jieba)) <= self.trie_chars
        &&& self.trie_chars <= TRIE_CAP
    }
}

/// Loading vocabulary data failed: the source was rejected or is too
/// large for the engine.
pub struct LoadError {
    pub message: String,
}

/// An ad-hoc word could not be added.
pub enum ParseError {
    /// The frequency field is not a non-negative integer.
    InvalidFrequency,
    /// The word or its frequency would push the engine past its capacity.
    CapacityExceeded,
}

impl ParseError {
    /// A human-readable description of the error.
    pub fn message(&self) -> (r: String)
        ensures
            *self == ParseError::InvalidFrequency ==> r@
                == "frequency is not a non-negative integer"@,
            *self == ParseError::CapacityExceeded ==> r@ == "dictionary capacity exceeded"@,
    {
        match self {
            ParseError::InvalidFrequency => "frequency is not a non-negative integer".to_owned(),
            ParseError::CapacityExceeded => "dictionary capacity exceeded".to_owned(),
        }
    }
}

/// The registry: the dictionaries in insertion order and the index of the
/// selected one. It is never empty and the selection is always in range.
pub struct Dicts {
    pub idx: usize,
    pub dicts: Vec<Dict>,
}

/// One removal step over the registry contents: the entry at `idx` leaves,
/// and the selection moves down only when it pointed at the last entry.
pub open spec fn remove_step(entries: Seq<Dict>, idx: int) -> (Seq<Dict>, int) {
    (entries.remove(idx), if idx == entries.len() - 1 { idx - 1 } else { idx })
}

/// `remove_step` applied `k` times.
pub open spec fn remove_steps(entries: Seq<Dict>, idx: int, k: nat) -> (Seq<Dict>, int)
    decreases k,
{
    if k == 0 {
        (entries, idx)
    } else {
        let s = remove_step(entries, idx);
        remove_steps(s.0, s.1, (k - 1) as nat)
    }
}

/// The registry invariants over plain contents: a non-empty entry
/// sequence and an in-range selection.
pub open spec fn wf_model(entries: Seq<Dict>, idx: int) -> bool {
    entries.len() > 0 && 0 <= idx < entries.len()
}

proof fn lemma_remove_step_wf(entries: Seq<Dict>, idx: int)
    requires
        wf_model(entries, idx),
        entries.len() > 1,
    ensures
        wf_model(remove_step(entries, idx).0, remove_step(entries, idx).1),
        remove_step(entries, idx).0.len() == entries.len() - 1,
{
}

/// Law: from any well-formed registry, removal can be repeated until a
/// single entry remains; after every step the invariants hold and the
/// entry count has gone down by one, and once one entry is left the
/// removal guard `entries.len() > 1` is false.
pub proof fn lemma_remove_until_one(entries: Seq<Dict>, idx: int)
    requires
        wf_model(entries, idx),
    ensures
        forall|k: nat|
            k <= entries.len() - 1 ==> {
                let s = #[trigger] remove_steps(entries, idx, k);
                wf_model(s.0, s.1) && s.0.len() == entries.len() - k
            },
        remove_steps(entries, idx, (entries.len() - 1) as nat).0.len() == 1,
    decreases entries.len(),
{
    if entries.len() > 1 {
        lemma_remove_step_wf(entries, idx);
        let s = remove_step(entries, idx);
        lemma_remove_until_one(s.0, s.1);
        assert forall|k: nat| k <= entries.len() - 1 implies {
            let t = #[trigger] remove_steps(entries, idx, k);
            wf_model(t.0, t.1) && t.0.len() == entries.len() - k
        } by {
            if k > 0 {
                assert(remove_steps(entries, idx, k) == remove_steps(s.0, s.1, (k - 1) as nat));
            }
        }
    }
}

/// Whether a dictionary source fits a fresh engine: its digit runs bound
/// the frequencies it can carry, its characters the trie growth.
pub open spec fn source_fits(source: Seq<char>) -> bool {
    digit_run_sum(source) <= FREQ_CAP && source.len() <= TRIE_CAP
}

/// Whether a dictionary source fits on top of the entry `d`'s budgets.
pub open spec fn merge_fits(d: Dict, source: Seq<char>) -> bool {
    &&& d.freq_weight + digit_run_sum(source) <= FREQ_CAP
    &&& d.trie_chars + source.len() <= TRIE_CAP
}

/// Whether adding `word` with the frequency field `freq` fits the entry
/// `d`'s budgets. An empty word is an engine no-op and always fits; an
/// empty frequency lets the engine choose one, which never exceeds twice
/// its total.
pub open spec fn add_fits(d: Dict, word: Seq<char>, freq: Seq<char>) -> bool {
    word.len() == 0 || {
        &&& d.trie_chars + word.len() <= TRIE_CAP
        &&& if freq.len() == 0 {
            3 * d.freq_weight + 1 <= FREQ_CAP
        } else {
            d.freq_weight + digits_value(digits_of(freq)) <= FREQ_CAP
        }
    }
}

impl Dicts {
    /// The registry invariants: see `wf_model`, plus every entry's
    /// budgets.
    pub open spec fn wf(self) -> bool {
        &&& wf_model(self.dicts@, self.idx as int)
        &&& forall|i: int| 0 <= i < self.dicts@.len() ==> (#[trigger] self.dicts@[i]).wf()
    }

    /// The selected entry.
    pub open spec fn sel(self) -> Dict {
        self.dicts@[self.idx as int]
    }

    /// The vocabulary contents of the selected engine.
    pub open spec fn sel_vocab(self) -> Map<Seq<char>, (int, Seq<char>)> {
        vocab_of(self.sel().jieba)
    }

    /// The names of the entries, in order.
    pub open spec fn names(self) -> Seq<DictName> {
        self.dicts@.map_values(|d: Dict| d.name)
    }

    /// Append a new dictionary built from the source `dict` under `name`.
    /// On failure — a rejected or oversized source — the registry is
    /// unchanged; on success the selection is unchanged.
    pub fn new_dict(&mut self, name: String, dict: &str) -> (r: Result<(), LoadError>)
        requires
            old(self).wf(),
        ensures
            final(self).wf(),
            r is Ok <==> merged_vocab(Map::empty(), dict@) is Some && source_fits(dict@),
            r is Ok ==> final(self).dicts@.len() == old(self).dicts@.len() + 1,
            r is Ok ==> final(self).dicts@.drop_last() == old(self).dicts@,
            r is Ok ==> final(self).dicts@.last().name == DictName::File(name),
            r is Ok ==> vocab_of(final(self).dicts@.last().jieba) == merged_vocab(
                Map::empty(),
                dict@,
            ).unwrap(),
            final(self).idx == old(self).idx,
            r is Err ==> *final(self) == *old(self),
    {
        let chars = dict.unicode_len();
        let sum = match digit_run_measure(dict) {
            Some(sum) => sum,
            None => {
                return Err(oversized_source_error());
            },
        };
        if sum > FREQ_CAP || chars as u64 > TRIE_CAP {
            return Err(oversized_source_error());
        }
        match jieba_with_dict(dict) {
            Ok(jieba) => {
                self.dicts.push(
                    Dict {
                        name: DictName::File(name),
                        jieba,
                        freq_weight: sum,
                        trie_chars: chars as u64,
                    },
                );
                Ok(())
            },
            Err(e) => Err(LoadError { message: jieba_error_text(&e) }),
        }
    }

    /// Merge the vocabulary source `dict` into the selected engine, as one
    /// step: on failure — a rejected source, or one beyond the entry's
    /// remaining capacity — the registry, the selected engine included, is
    /// unchanged.
    pub fn load_dict(&mut self, dict: &str) -> (r: Result<(), LoadError>)
        requires
            old(self).wf(),
        ensures
            final(self).wf(),
            r is Ok <==> merged_vocab(old(self).sel_vocab(), dict@) is Some && merge_fits(
                old(self).sel(),
                dict@,
            ),
            final(self).idx == old(self).idx,
            final(self).dicts@.len() == old(self).dicts@.len(),
            forall|i: int|
                0 <= i < old(self).dicts@.len() && i != old(self).idx as int
                    ==> final(self).dicts@[i] == old(self).dicts@[i],
            final(self).sel().name == old(self).sel().name,
            r is Ok ==> final(self).sel_vocab() == merged_vocab(
                old(self).sel_vocab(),
                dict@,
            ).unwrap(),
            r is Err ==> final(self).dicts@ == old(self).dicts@,
    {
        let chars = dict.unicode_len();
        let sum = match digit_run_measure(dict) {
            Some(sum) => sum,
            None => {
                return Err(oversized_source_error());
            },
        };
        let idx = self.idx;
        let entry_ref: &Dict = &self.dicts[idx];
        if (entry_ref.freq_weight as u128) + (sum as u128) > FREQ_CAP as u128 || (entry_ref
            .trie_chars as u128) + (chars as u128) > TRIE_CAP as u128 {
            return Err(oversized_source_error());
        }
        let mut entry = self.dicts.remove(idx);
        let mut merged = jieba_clone(&entry.jieba);
        let result = jieba_load_dict(&mut merged, dict);
        match result {
            Ok(()) => {
                entry.jieba = merged;
                entry.freq_weight = entry.freq_weight + sum;
                entry.trie_chars = entry.trie_chars + chars as u64;
                self.dicts.insert(idx, entry);
                proof {
                    assert(forall|i: int|
                        0 <= i < old(self).dicts@.len() && i != idx as int
                            ==> self.dicts@[i] == old(self).dicts@[i]);
                }
                Ok(())
            },
            Err(e) => {
                self.dicts.insert(idx, entry);
                proof {
                    assert(self.dicts@ =~= old(self).dicts@);
                }
                Err(LoadError { message: jieba_error_text(&e) })
            },
        }
    }

    /// Insert `word` into the selected engine's vocabulary, or update its
    /// frequency if it is already there. An empty frequency means the
    /// engine chooses one; a non-empty one must denote a non-negative
    /// integer, else `InvalidFrequency` comes back and nothing happens. A
    /// word or frequency beyond the entry's remaining capacity is refused
    /// as `CapacityExceeded`. An empty tag means no explicit tag; a
    /// non-empty one is passed through verbatim.
    pub fn add_word(&mut self, word: &str, freq: &str, tag: &str) -> (r: Result<(), ParseError>)
        requires
            old(self).wf(),
        ensures
            final(self).wf(),
            r is Ok <==> (freq@.len() == 0 || parses_as_usize(freq@)) && add_fits(
                old(self).sel(),
                word@,
                freq@,
            ),
            r == Result::<(), ParseError>::Err(ParseError::InvalidFrequency) <==> !(freq@.len()
                == 0 || parses_as_usize(freq@)),
            r is Err ==> *final(self) == *old(self),
            final(self).idx == old(self).idx,
            final(self).dicts@.len() == old(self).dicts@.len(),
            forall|i: int|
                0 <= i < old(self).dicts@.len() && i != old(self).idx as int
                    ==> final(self).dicts@[i] == old(self).dicts@[i],
            final(self).sel().name == old(self).sel().name,
            r is Ok ==> final(self).sel_vocab() == added_vocab(
                old(self).sel_vocab(),
                word@,
                freq_arg(freq@),
                tag_arg(tag@),
            ),
    {
        let freq_opt: Option<usize> = if freq.is_empty() {
            None
        } else {
            match parse_usize(freq) {
                Some(v) => Some(v),
                None => {
                    return Err(ParseError::InvalidFrequency);
                },
            }
        };
        let word_chars = word.unicode_len();
        let idx = self.idx;
        let entry_ref: &Dict = &self.dicts[idx];
        let weight = entry_ref.freq_weight;
        let absorbed = entry_ref.trie_chars;
        if word_chars > 0 {
            if (absorbed as u128) + (word_chars as u128) > TRIE_CAP as u128 {
                return Err(ParseError::CapacityExceeded);
            }
            match freq_opt {
                Some(f) => {
                    if (weight as u128) + (f as u128) > FREQ_CAP as u128 {
                        return Err(ParseError::CapacityExceeded);
                    }
                },
                None => {
                    if 3 * (weight as u128) + 1 > FREQ_CAP as u128 {
                        return Err(ParseError::CapacityExceeded);
                    }
                },
            }
        }
        let tag_opt: Option<&str> = if tag.is_empty() {
            None
        } else {
            Some(tag)
        };
        let mut entry = self.dicts.remove(idx);
        let used = jieba_add_word(&mut entry.jieba, word, freq_opt, tag_opt);
        if word_chars > 0 {
            entry.freq_weight = entry.freq_weight + used as u64;
            entry.trie_chars = entry.trie_chars + word_chars as u64;
        }
        self.dicts.insert(idx, entry);
        proof {
            assert(forall|i: int|
                0 <= i < old(self).dicts@.len() && i != idx as int
                    ==> self.dicts@[i] == old(self).dicts@[i]);
        }
        Ok(())
    }

    /// Whether the selected entry may be removed: true exactly when more
    /// than one entry remains.
    pub fn can_remove_dict(&self) -> (r: bool)
        requires
            self.wf(),
        ensures
            r <==> self.dicts@.len() > 1,
    {
        self.dicts.len() != 1
    }

    /// Remove the selected entry. The caller must have checked
    /// `can_remove_dict`; the invariants hold afterwards, and the
    /// selection designates the entry `remove_step` says.
    pub fn remove_dict(&mut self)
        requires
            old(self).wf(),
            old(self).dicts@.len() > 1,
        ensures
            final(self).wf(),
            (final(self).dicts@, final(self).idx as int) == remove_step(
                old(self).dicts@,
                old(self).idx as int,
            ),
    {
        let _ = self.dicts.remove(self.idx);
        if self.idx == self.dicts.len() {
            self.idx = self.idx - 1;
        }
    }

    /// Select the entry at `index`; the caller supplies a valid index.
    pub fn select(&mut self, index: usize)
        requires
            old(self).wf(),
            index < old(self).dicts@.len(),
        ensures
            final(self).wf(),
            final(self).dicts@ == old(self).dicts@,
            final(self).idx == index,
    {
        self.idx = index;
    }

    /// The selected engine.
    pub fn selected(&self) -> (r: &jieba_rs::Jieba)
        requires
            self.wf(),
        ensures
            *r == self.sel().jieba,
    {
        let entry: &Dict = &self.dicts[self.idx];
        &entry.jieba
    }

    /// Cut `text` with the selected engine. The word spans cover the
    /// input with no gap or overlap: concatenated in order they give the
    /// input back.
    pub fn cut_selected(&self, text: &str, hmm: bool) -> (r: Vec<String>)
        requires
            self.wf(),
        ensures
            views_of(r@) == cut_of(self.sel_vocab(), text@, hmm),
            concat_seqs(views_of(r@)) == text@,
    {
        jieba_cut(self.selected(), text, hmm)
    }

    /// Cut `text` for search with the selected engine: finer-grained, for
    /// recall-oriented indexing.
    pub fn cut_for_search_selected(&self, text: &str, hmm: bool) -> (r: Vec<String>)
        requires
            self.wf(),
        ensures
            views_of(r@) == cut_for_search_of(self.sel_vocab(), text@, hmm),
    {
        jieba_cut_for_search(self.selected(), text, hmm)
    }

    /// Every recognized substring of `text` under the selected engine.
    pub fn cut_all_selected(&self, text: &str) -> (r: Vec<String>)
        requires
            self.wf(),
        ensures
            views_of(r@) == cut_all_of(self.sel_vocab(), text@),
    {
        jieba_cut_all(self.selected(), text)
    }

    /// Tag `text` with the selected engine: the cut words, each with its
    /// part-of-speech tag.
    pub fn tag_selected(&self, text: &str, hmm: bool) -> (r: Vec<(String, String)>)
        requires
            self.wf(),
        ensures
            pair_views_of(r@) == tag_of(self.sel_vocab(), text@, hmm),
    {
        jieba_tag(self.selected(), text, hmm)
    }
}

/// The error for a source beyond the engine's capacity.
fn oversized_source_error() -> (r: LoadError)
    ensures
        r.message@ == "dictionary source is too large for the engine"@,
{
    LoadError { message: "dictionary source is too large for the engine".to_owned() }
}

/// The frequency argument a frequency field denotes: absent when empty.
pub open spec fn freq_arg(freq: Seq<char>) -> Option<int> {
    if freq.len() == 0 {
        None
    } else {
        Some(digits_value(digits_of(freq)))
    }
}

/// The tag argument a tag field denotes: absent when empty.
pub open spec fn tag_arg(tag: Seq<char>) -> Option<Seq<char>> {
    if tag.len() == 0 {
        None
    } else {
        Some(tag)
    }
}

impl Default for Dicts {
    /// The initial registry: the three built-in dictionary slots, the
    /// first one selected. The engine ships a single embedded vocabulary,
    /// so every slot starts from it; loading further vocabulary
    /// specializes a slot without touching the others.
    fn default() -> (r: Self)
        ensures
            r.wf(),
            r.idx == 0,
            r.dicts@.len() == 3,
            r.names() =~= seq![
                DictName::Embedded(Embedded::Normal),
                DictName::Embedded(Embedded::Small),
                DictName::Embedded(Embedded::Big)
            ],
            forall|i: int|
                0 <= i < 3 ==> vocab_of(#[trigger] r.dicts@[i].jieba) == default_loaded_vocab(
                    Map::empty(),
                ),
    {
        let mut dicts: Vec<Dict> = Vec::new();
        dicts.push(embedded_dict(Embedded::Normal));
        dicts.push(embedded_dict(Embedded::Small));
        dicts.push(embedded_dict(Embedded::Big));
        Dicts { idx: 0, dicts }
    }
}

/// One built-in slot: the embedded vocabulary under the given name, with
/// budgets covering that vocabulary's measures.
fn embedded_dict(kind: Embedded) -> (r: Dict)
    ensures
        r.wf(),
        r.name == DictName::Embedded(kind),
        vocab_of(r.jieba) == default_loaded_vocab(Map::empty()),
{
    Dict {
        name: DictName::Embedded(kind),
        jieba: jieba_new(),
        freq_weight: EMBEDDED_FREQ_BOUND,
        trie_chars: EMBEDDED_CHARS_BOUND,
    }
}

} // verus!

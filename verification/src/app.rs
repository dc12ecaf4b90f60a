//! The application core: the registry, the text buffers and settings, and
//! the operations the buttons trigger. Everything the window shows is a
//! plain value here; rendering stays outside.

use vstd::prelude::*;
use vstd::string::StringExecFns;
use crate::batch::BatchOp;
use crate::engine::{added_vocab, cut_all_of, cut_for_search_of, cut_of, tag_of};
use crate::locale::Locale;
use crate::notify::ErrorWindows;
use crate::registry::{add_fits, freq_arg, tag_arg, Dicts};
use crate::text::{concat_seqs, join_seqs, parses_as_usize, views_of};

verus! {

/// The joining separator a configured separator denotes: the empty string
/// means a newline, anything else is used verbatim.
pub open spec fn effective_sep(sep: Seq<char>) -> Seq<char> {
    if sep.len() == 0 {
        "\n"@
    } else {
        sep
    }
}

/// The lines of a tagged-word listing: `"word tag"` for each pair.
pub open spec fn tag_lines(pairs: Seq<(Seq<char>, Seq<char>)>) -> Seq<Seq<char>> {
    pairs.map_values(|p: (Seq<char>, Seq<char>)| p.0 + " "@ + p.1)
}

/// The application state.
pub struct App {
    pub locale: Locale,
    pub dicts: Dicts,
    pub word: String,
    pub freq: String,
    pub tag: String,
    pub input: String,
    pub output: String,
    pub separator: String,
    pub use_hmm: bool,
    pub batch_mode: bool,
    pub error_windows: ErrorWindows,
}

impl App {
    pub open spec fn wf(self) -> bool {
        self.dicts.wf() && self.error_windows.wf()
    }

    /// What applying `op` to `input` under the current settings yields:
    /// the operation's words over the selected engine, joined with the
    /// effective separator.
    pub open spec fn op_result(self, op: BatchOp, input: Seq<char>) -> Seq<char> {
        let sep = effective_sep(self.separator@);
        match op {
            BatchOp::Segment => join_seqs(
                cut_of(self.dicts.sel_vocab(), input, self.use_hmm),
                sep,
            ),
            BatchOp::SegmentGranular => join_seqs(
                cut_for_search_of(self.dicts.sel_vocab(), input, self.use_hmm),
                sep,
            ),
            BatchOp::Search => join_seqs(cut_all_of(self.dicts.sel_vocab(), input), sep),
            BatchOp::Tag => join_seqs(
                tag_lines(tag_of(self.dicts.sel_vocab(), input, self.use_hmm)),
                sep,
            ),
        }
    }

    /// The separator used for joining: the configured one, or a newline
    /// when none is configured.
    pub fn get_separator(&self) -> (r: &str)
        ensures
            r@ == effective_sep(self.separator@),
    {
        let sep = self.separator.as_str();
        if sep.is_empty() {
            "\n"
        } else {
            sep
        }
    }

    /// Whether the word input can be committed: it is non-empty.
    pub fn can_add_word(&self) -> (r: bool)
        ensures
            r <==> self.word@.len() > 0,
    {
        !self.word.as_str().is_empty()
    }

    /// Commit the word input to the selected engine. A frequency that is
    /// neither empty nor a non-negative integer changes no dictionary and
    /// leaves a fresh error record instead; so does a word or frequency
    /// beyond the selected entry's remaining capacity.
    pub fn add_word(&mut self)
        requires
            old(self).wf(),
            old(self).word@.len() > 0,
            old(self).error_windows.count < u32::MAX,
        ensures
            final(self).wf(),
            *final(self) == (App {
                dicts: final(self).dicts,
                error_windows: final(self).error_windows,
                ..*old(self)
            }),
            final(self).dicts.idx == old(self).dicts.idx,
            final(self).dicts.dicts@.len() == old(self).dicts.dicts@.len(),
            forall|i: int|
                0 <= i < old(self).dicts.dicts@.len() && i != old(self).dicts.idx as int
                    ==> final(self).dicts.dicts@[i] == old(self).dicts.dicts@[i],
            final(self).dicts.sel().name == old(self).dicts.sel().name,
            (old(self).freq@.len() == 0 || parses_as_usize(old(self).freq@)) && add_fits(
                old(self).dicts.sel(),
                old(self).word@,
                old(self).freq@,
            ) ==> {
                &&& final(self).error_windows == old(self).error_windows
                &&& final(self).dicts.sel_vocab() == added_vocab(
                    old(self).dicts.sel_vocab(),
                    old(self).word@,
                    freq_arg(old(self).freq@),
                    tag_arg(old(self).tag@),
                )
            },
            !((old(self).freq@.len() == 0 || parses_as_usize(old(self).freq@)) && add_fits(
                old(self).dicts.sel(),
                old(self).word@,
                old(self).freq@,
            )) ==> {
                &&& final(self).dicts == old(self).dicts
                &&& final(self).error_windows.count == old(self).error_windows.count + 1
                &&& final(self).error_windows.windows@.drop_last()
                    == old(self).error_windows.windows@
                &&& final(self).error_windows.windows@.last().what@ == "add-word.what"@
                &&& final(self).error_windows.windows@.last().open
            },
    {
        let result = self.dicts.add_word(
            self.word.as_str(),
            self.freq.as_str(),
            self.tag.as_str(),
        );
        match result {
            Ok(()) => {},
            Err(e) => {
                let message = e.message();
                self.error_windows.add("add-word.what", message.as_str());
            },
        }
    }

    /// Segment `input`: cut with the selected engine and join.
    pub fn segment_one(&self, input: &str) -> (r: String)
        requires
            self.wf(),
        ensures
            r@ == self.op_result(BatchOp::Segment, input@),
            concat_seqs(cut_of(self.dicts.sel_vocab(), input@, self.use_hmm)) == input@,
    {
        let parts = self.dicts.cut_selected(input, self.use_hmm);
        crate::text::join_strings(&parts, self.get_separator())
    }

    /// Segment `input` at search granularity and join.
    pub fn segment_granular_one(&self, input: &str) -> (r: String)
        requires
            self.wf(),
        ensures
            r@ == self.op_result(BatchOp::SegmentGranular, input@),
    {
        let parts = self.dicts.cut_for_search_selected(input, self.use_hmm);
        crate::text::join_strings(&parts, self.get_separator())
    }

    /// List every recognized substring of `input` and join.
    pub fn search_one(&self, input: &str) -> (r: String)
        requires
            self.wf(),
        ensures
            r@ == self.op_result(BatchOp::Search, input@),
    {
        let parts = self.dicts.cut_all_selected(input);
        crate::text::join_strings(&parts, self.get_separator())
    }

    /// Tag `input`: one `"word tag"` item per cut word, joined.
    pub fn tag_one(&self, input: &str) -> (r: String)
        requires
            self.wf(),
        ensures
            r@ == self.op_result(BatchOp::Tag, input@),
    {
        let pairs = self.dicts.tag_selected(input, self.use_hmm);
        let ghost pv = crate::engine::pair_views_of(pairs@);
        let mut lines: Vec<String> = Vec::new();
        let mut i: usize = 0;
        while i < pairs.len()
            invariant
                i <= pairs@.len(),
                pv == crate::engine::pair_views_of(pairs@),
                views_of(lines@) == tag_lines(pv).take(i as int),
            decreases pairs@.len() - i,
        {
            let pair = &pairs[i];
            let mut line = pair.0.clone();
            line.append(" ");
            line.append(pair.1.as_str());
            proof {
                crate::text::lemma_views_of_push(lines@, line);
                assert(pv.len() == pairs@.len());
                assert(pv[i as int] == (pairs@[i as int].0@, pairs@[i as int].1@));
                assert(tag_lines(pv)[i as int] == line@);
                assert(tag_lines(pv).take(i + 1) =~= tag_lines(pv).take(i as int).push(
                    tag_lines(pv)[i as int],
                ));
            }
            lines.push(line);
            i = i + 1;
        }
        proof {
            assert(tag_lines(pv).take(pairs@.len() as int) =~= tag_lines(pv));
        }
        crate::text::join_strings(&lines, self.get_separator())
    }

    /// Apply the chosen operation to `input`.
    pub fn apply_op(&self, op: BatchOp, input: &str) -> (r: String)
        requires
            self.wf(),
        ensures
            r@ == self.op_result(op, input@),
    {
        match op {
            BatchOp::Segment => self.segment_one(input),
            BatchOp::SegmentGranular => self.segment_granular_one(input),
            BatchOp::Search => self.search_one(input),
            BatchOp::Tag => self.tag_one(input),
        }
    }

    /// Segment the input buffer into the output buffer.
    pub fn segment(&mut self)
        requires
            old(self).wf(),
        ensures
            final(self).wf(),
            final(self).output@ == old(self).op_result(BatchOp::Segment, old(self).input@),
            *final(self) == (App { output: final(self).output, ..*old(self) }),
    {
        self.output = self.segment_one(self.input.as_str());
    }

    /// Segment the input buffer at search granularity into the output
    /// buffer.
    pub fn segment_granular(&mut self)
        requires
            old(self).wf(),
        ensures
            final(self).wf(),
            final(self).output@ == old(self).op_result(
                BatchOp::SegmentGranular,
                old(self).input@,
            ),
            *final(self) == (App { output: final(self).output, ..*old(self) }),
    {
        self.output = self.segment_granular_one(self.input.as_str());
    }

    /// List every recognized substring of the input buffer into the
    /// output buffer.
    pub fn search(&mut self)
        requires
            old(self).wf(),
        ensures
            final(self).wf(),
            final(self).output@ == old(self).op_result(BatchOp::Search, old(self).input@),
            *final(self) == (App { output: final(self).output, ..*old(self) }),
    {
        self.output = self.search_one(self.input.as_str());
    }

    /// Tag the input buffer into the output buffer.
    pub fn tag(&mut self)
        requires
            old(self).wf(),
        ensures
            final(self).wf(),
            final(self).output@ == old(self).op_result(BatchOp::Tag, old(self).input@),
            *final(self) == (App { output: final(self).output, ..*old(self) }),
    {
        self.output = self.tag_one(self.input.as_str());
    }
}

impl Default for App {
    /// A fresh application: the built-in registry, empty buffers, no
    /// separator configured, both toggles off, no error records.
    fn default() -> (r: Self)
        ensures
            r.wf(),
            r.locale == Locale::En,
            r.dicts.idx == 0,
            r.dicts.dicts@.len() == 3,
            r.word@.len() == 0,
            r.freq@.len() == 0,
            r.tag@.len() == 0,
            r.input@.len() == 0,
            r.output@.len() == 0,
            r.separator@.len() == 0,
            !r.use_hmm,
            !r.batch_mode,
            r.error_windows.count == 0,
            r.error_windows.windows@.len() == 0,
    {
        App {
            locale: Locale::default(),
            dicts: Dicts::default(),
            word: String::new(),
            freq: String::new(),
            tag: String::new(),
            input: String::new(),
            output: String::new(),
            separator: String::new(),
            use_hmm: false,
            batch_mode: false,
            error_windows: ErrorWindows::default(),
        }
    }
}

} // verus!

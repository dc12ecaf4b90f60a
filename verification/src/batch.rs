//! The batch pipeline: one chosen operation over a list of input files,
//! one output per input, aborting on the first failure.
//!
//! The file system stays outside: the caller reads and writes, and tells
//! this state machine what happened. The machine decides what to do next
//! and computes each output's content, so every run obeys the
//! at-most-one-output-per-input and fail-fast rules by construction.

use vstd::prelude::*;
use vstd::string::StringExecFns;
use crate::app::App;
use crate::text::trimmed;

verus! {

/// The four operations batch mode can apply.
#[derive(Clone, Copy)]
pub enum BatchOp {
    Segment,
    SegmentGranular,
    Search,
    Tag,
}

/// One batch run over inputs named by their base filenames, in the order
/// the file-selection source supplied them.
///
/// The caller repeats: ask `next_input`; read that input and report
/// `read_ok` (taking the content to write) or `read_failed`; create the
/// output file named `output_name` — failing if it already exists — write
/// the content, and report `write_ok` or `write_failed`. `next_input`
/// returns nothing once every input is done or a step has failed; a
/// failed run stops, and outputs already written stay.
pub struct BatchRun {
    pub op: BatchOp,
    pub names: Vec<String>,
    pub next: usize,
    pub pending: bool,
    pub failed: bool,
}

impl BatchRun {
    pub open spec fn wf(self) -> bool {
        &&& self.next <= self.names@.len()
        &&& self.pending ==> self.next < self.names@.len()
    }

    /// Every input has its output written and nothing failed.
    pub open spec fn finished(self) -> bool {
        !self.failed && !self.pending && self.next == self.names@.len()
    }

    /// Whether the run finished: every input has its output written and
    /// nothing failed.
    pub fn is_finished(&self) -> (r: bool)
        ensures
            r == self.finished(),
    {
        !self.failed && !self.pending && self.next == self.names.len()
    }

    /// A run about to process its first input.
    pub fn new(op: BatchOp, names: Vec<String>) -> (r: Self)
        ensures
            r.wf(),
            r.op == op,
            r.names == names,
            r.next == 0,
            !r.pending,
            !r.failed,
    {
        BatchRun { op, names, next: 0, pending: false, failed: false }
    }

    /// The index of the input to read next, or nothing when the run is
    /// finished or has failed.
    pub fn next_input(&self) -> (r: Option<usize>)
        requires
            self.wf(),
        ensures
            r matches Some(i) ==> i == self.next && i < self.names@.len(),
            r is Some <==> !self.failed && !self.pending && self.next < self.names@.len(),
    {
        if !self.failed && !self.pending && self.next < self.names.len() {
            Some(self.next)
        } else {
            None
        }
    }

    /// The base filename the pending output must be created under.
    pub fn output_name(&self) -> (r: &String)
        requires
            self.wf(),
            self.pending,
        ensures
            r@ == self.names@[self.next as int]@,
    {
        &self.names[self.next]
    }

    /// The current input was read as `text`: the content of the output it
    /// owes is the operation applied to the trimmed text, with a final
    /// newline.
    pub fn read_ok(&mut self, app: &App, text: &str) -> (content: String)
        requires
            old(self).wf(),
            !old(self).failed,
            !old(self).pending,
            old(self).next < old(self).names@.len(),
            app.wf(),
        ensures
            final(self).wf(),
            *final(self) == (BatchRun { pending: true, ..*old(self) }),
            content@ == app.op_result(old(self).op, trimmed(text@)) + "\n"@,
    {
        let out = app.apply_op(self.op, crate::text::str_trim(text));
        self.pending = true;
        out.concat("\n")
    }

    /// Reading the current input failed: the run aborts.
    pub fn read_failed(&mut self)
        requires
            old(self).wf(),
            !old(self).pending,
        ensures
            final(self).wf(),
            *final(self) == (BatchRun { failed: true, ..*old(self) }),
    {
        self.failed = true;
    }

    /// The pending output was created and written: move to the next
    /// input.
    pub fn write_ok(&mut self)
        requires
            old(self).wf(),
            old(self).pending,
        ensures
            final(self).wf(),
            final(self).next == old(self).next + 1,
            *final(self) == (BatchRun { pending: false, next: final(self).next, ..*old(self) }),
    {
        let n = self.names.len();
        self.pending = false;
        self.next = self.next + 1;
    }

    /// Creating or writing the pending output failed — the file may
    /// already have existed: the run aborts, and nothing more is written
    /// for this or any later input.
    pub fn write_failed(&mut self)
        requires
            old(self).wf(),
            old(self).pending,
        ensures
            final(self).wf(),
            *final(self) == (BatchRun { pending: false, failed: true, ..*old(self) }),
    {
        self.pending = false;
        self.failed = true;
    }
}

} // verus!

//! The notification center: a list of dismissible error records with
//! fresh, strictly increasing identifiers.

use vstd::prelude::*;

verus! {

/// One error record. The presentation layer only ever flips `open`; a
/// record whose `open` is false is removed by the next `cleanup`.
pub struct ErrorWindow {
    pub id: u32,
    pub open: bool,
    pub what: String,
    pub content: String,
}

impl Clone for ErrorWindow {
    fn clone(&self) -> (r: Self)
        ensures
            r == *self,
    {
        ErrorWindow {
            id: self.id,
            open: self.open,
            what: self.what.clone(),
            content: self.content.clone(),
        }
    }
}

/// The error records still alive, and the identifier the next record
/// gets. Identifiers are strictly increasing along the list, so every
/// record ever shown is distinguishable from every other.
pub struct ErrorWindows {
    pub count: u32,
    pub windows: Vec<ErrorWindow>,
}

/// The records of `s` still open, in order.
pub open spec fn open_records(s: Seq<ErrorWindow>) -> Seq<ErrorWindow>
    decreases s.len(),
{
    if s.len() == 0 {
        Seq::empty()
    } else if s.last().open {
        open_records(s.drop_last()).push(s.last())
    } else {
        open_records(s.drop_last())
    }
}

/// Dismissal keeps the identifiers strictly increasing and below any
/// bound they were below.
proof fn lemma_open_records_wf(s: Seq<ErrorWindow>, bound: int)
    requires
        forall|i: int, j: int| 0 <= i < j < s.len() ==> s[i].id < s[j].id,
        forall|i: int| 0 <= i < s.len() ==> s[i].id < bound,
    ensures
        forall|i: int, j: int|
            0 <= i < j < open_records(s).len() ==> open_records(s)[i].id < open_records(s)[j].id,
        forall|i: int| 0 <= i < open_records(s).len() ==> open_records(s)[i].id < bound,
    decreases s.len(),
{
    if s.len() > 0 {
        let t = s.drop_last();
        let last = s.last();
        assert forall|i: int| 0 <= i < t.len() implies t[i].id < last.id by {
            assert(t[i] == s[i]);
        }
        lemma_open_records_wf(t, last.id as int);
        let r = open_records(s);
        let r0 = open_records(t);
        assert(last.id < bound);
        if last.open {
            assert(r == r0.push(last));
            assert forall|i: int, j: int| 0 <= i < j < r.len() implies r[i].id < r[j].id by {
                if j < r0.len() {
                    assert(r[i] == r0[i] && r[j] == r0[j]);
                } else {
                    assert(r[i] == r0[i] && r[j] == last);
                }
            }
            assert forall|i: int| 0 <= i < r.len() implies r[i].id < bound by {
                if i < r0.len() {
                    assert(r[i] == r0[i]);
                } else {
                    assert(r[i] == last);
                }
            }
        } else {
            assert(r == r0);
        }
    }
}

impl ErrorWindows {
    /// The identifiers are strictly increasing along the list and below
    /// the next one to be handed out.
    pub open spec fn wf(self) -> bool {
        &&& forall|i: int, j: int|
            0 <= i < j < self.windows@.len() ==> self.windows@[i].id < self.windows@[j].id
        &&& forall|i: int| 0 <= i < self.windows@.len() ==> self.windows@[i].id < self.count
    }

    /// Append a fresh, open record under the category `what` with the
    /// description `content`.
    pub fn add(&mut self, what: &str, content: &str)
        requires
            old(self).wf(),
            old(self).count < u32::MAX,
        ensures
            final(self).wf(),
            final(self).count == old(self).count + 1,
            final(self).windows@.len() == old(self).windows@.len() + 1,
            final(self).windows@.drop_last() == old(self).windows@,
            final(self).windows@.last().id == old(self).count,
            final(self).windows@.last().open,
            final(self).windows@.last().what@ == what@,
            final(self).windows@.last().content@ == content@,
    {
        let id = self.count;
        self.windows.push(
            ErrorWindow { id, open: true, what: what.to_owned(), content: content.to_owned() },
        );
        self.count = self.count + 1;
        proof {
            assert(self.windows@.drop_last() =~= old(self).windows@);
        }
    }

    /// Drop every record that has been marked dismissed: what remains is
    /// exactly the open records, in order.
    pub fn cleanup(&mut self)
        requires
            old(self).wf(),
        ensures
            final(self).wf(),
            final(self).count == old(self).count,
            final(self).windows@ == open_records(old(self).windows@),
    {
        let mut kept: Vec<ErrorWindow> = Vec::new();
        let mut i: usize = 0;
        while i < self.windows.len()
            invariant
                i <= self.windows@.len(),
                self.windows@ == old(self).windows@,
                self.count == old(self).count,
                kept@ == open_records(self.windows@.take(i as int)),
            decreases self.windows@.len() - i,
        {
            let w = &self.windows[i];
            if w.open {
                kept.push(w.clone());
            }
            proof {
                assert(self.windows@.take(i + 1).drop_last() =~= self.windows@.take(i as int));
                assert(self.windows@.take(i + 1).last() == self.windows@[i as int]);
            }
            i = i + 1;
        }
        proof {
            assert(self.windows@.take(self.windows@.len() as int) =~= self.windows@);
            lemma_open_records_wf(self.windows@, self.count as int);
        }
        self.windows = kept;
    }
}

impl Default for ErrorWindows {
    /// An empty notification center.
    fn default() -> (r: Self)
        ensures
            r.wf(),
            r.count == 0,
            r.windows@ == Seq::<ErrorWindow>::empty(),
    {
        ErrorWindows { count: 0, windows: Vec::new() }
    }
}

} // verus!

//! The directory iterator's state machine.
//!
//! [`ReadDir`] walks a buffer of kernel records one record at a time,
//! skipping the synthetic self and parent entries and the records whose
//! identity number is zero, and yields one owned [`DirEntry`] per remaining
//! record. The batch-read call itself is outside the library: whenever the
//! buffer is exhausted, [`ReadDir::advance`] asks for a refill, the caller
//! performs the call, and reports its outcome through
//! [`ReadDir::on_refill`]. A signal-interrupted call is retried; the end of
//! the directory and every other failure are terminal: from then on the
//! iterator yields nothing.

use std::sync::Arc;
use vstd::prelude::*;

use crate::entry::DirEntry;
use crate::record::{decode_record, rec_ino, rec_len, rec_name, rec_wf, HEADER_LEN};

verus! {

/// The byte value of `'.'`.
pub const DOT: u8 = 46;

/// Errors of the listing, each carrying the raw operating-system error
/// number where one exists.
#[derive(Clone, Copy, Debug, PartialEq, Eq, Structural)]
pub enum DirError {
    /// The directory could not be opened.
    OpenFailure(i32),
    /// The metadata query that sizes the buffer failed.
    StatFailure(i32),
    /// A batch-read call failed for a reason other than signal
    /// interruption.
    RefillFailure(i32),
    /// A record in the buffer violates the format: too short, running past
    /// the valid data, or missing its name terminator.
    MalformedRecord,
}

/// Outcome of one batch-read call, reported by the caller.
pub enum RefillEvent {
    /// The call wrote these bytes into the buffer.
    Filled(Vec<u8>),
    /// The call returned zero bytes: the directory is exhausted.
    End,
    /// The call was interrupted by a signal and must be retried.
    Interrupted,
    /// The call failed with this operating-system error number.
    Failed(i32),
}

/// What [`ReadDir::on_refill`] asks the caller to do next.
#[derive(Clone, Copy, Debug, PartialEq, Eq, Structural)]
pub enum RefillStep {
    /// New data is in place: go back to [`ReadDir::advance`].
    Ready,
    /// The call was interrupted: issue it again.
    Retry,
    /// The directory is exhausted: the iteration is over.
    Finished,
    /// The call failed: yield this error once, then nothing.
    Fail(DirError),
}

/// One step of the iteration.
pub enum Step {
    /// An entry that passed the filter.
    Entry(DirEntry),
    /// The buffer is exhausted: perform a batch-read call and report it
    /// through [`ReadDir::on_refill`].
    NeedRefill,
    /// The iteration ended earlier; nothing more will come.
    Finished,
    /// A record violated the format: yield this error once, then nothing.
    Fail(DirError),
}

/// Mathematical model of the iterator state.
pub ghost struct ReaderModel {
    /// The valid bytes of the current batch.
    pub data: Seq<u8>,
    /// How many of them are consumed.
    pub offset: int,
    /// The root path all entries share.
    pub root: Seq<u8>,
    /// Whether a terminal condition was reached.
    pub done: bool,
}

/// A record is filtered out when its identity number is zero or its name
/// is the self or parent entry.
pub open spec fn rec_skipped(data: Seq<u8>, off: int) -> bool {
    ||| rec_ino(data, off) == 0
    ||| rec_name(data, off) == seq![DOT]
    ||| rec_name(data, off) == seq![DOT, DOT]
}

/// What walking the batch from `off` finds first.
pub ghost enum Scan {
    /// A record to yield starts at `at` and ends at `next`.
    Found { at: int, next: int },
    /// Every remaining record is well formed and filtered out.
    Drained,
    /// The record at `at` violates the format.
    Malformed { at: int },
}

/// Walk the records of `data` from `off`, skipping the filtered ones, and
/// say what is found first: a record to yield, the end of the valid data,
/// or a malformed record.
pub open spec fn scan(data: Seq<u8>, off: int) -> Scan
    decreases data.len() - off,
{
    if off >= data.len() {
        Scan::Drained
    } else if !rec_wf(data, off) {
        Scan::Malformed { at: off }
    } else if rec_skipped(data, off) {
        scan(data, off + rec_len(data, off))
    } else {
        Scan::Found { at: off, next: off + rec_len(data, off) as int }
    }
}

/// The iterator core. It owns the consumed-data cursor and the shared root
/// path; the caller owns the directory handle and performs the batch-read
/// calls.
pub struct ReadDir {
    data: Vec<u8>,
    offset: usize,
    root: Arc<Vec<u8>>,
    done: bool,
}

impl View for ReadDir {
    type V = ReaderModel;

    closed spec fn view(&self) -> ReaderModel {
        ReaderModel { data: self.data@, offset: self.offset as int, root: self.root@, done: self.done }
    }
}

impl ReadDir {
    /// The consumed cursor never passes the valid data.
    pub open spec fn wf(&self) -> bool {
        0 <= self@.offset <= self@.data.len()
    }

    /// A fresh iterator over `root`: no data yet, nothing consumed, not
    /// terminated.
    pub fn new(root: Vec<u8>) -> (r: ReadDir)
        ensures
            r.wf(),
            r@.data.len() == 0,
            r@.offset == 0,
            r@.root == root@,
            !r@.done,
    {
        ReadDir { data: Vec::new(), offset: 0, root: Arc::new(root), done: false }
    }

    /// Produce the next item. Walks the unconsumed records, skipping the
    /// filtered ones; yields the first record that passes, asks for a
    /// refill when the batch is consumed, reports a malformed record once
    /// and terminates, and yields nothing once a terminal condition was
    /// reached.
    pub fn advance(&mut self) -> (r: Step)
        requires
            old(self).wf(),
        ensures
            final(self).wf(),
            final(self)@.root == old(self)@.root,
            final(self)@.data == old(self)@.data,
            old(self)@.done ==> r is Finished && final(self)@ == old(self)@,
            !old(self)@.done ==> match scan(old(self)@.data, old(self)@.offset) {
                Scan::Drained => {
                    &&& r is NeedRefill
                    &&& !final(self)@.done
                    &&& final(self)@.offset == final(self)@.data.len()
                },
                Scan::Malformed { at } => {
                    &&& r == Step::Fail(DirError::MalformedRecord)
                    &&& final(self)@.done
                    &&& final(self)@.offset == at
                },
                Scan::Found { at, next } => {
                    &&& r matches Step::Entry(e)
                    &&& e.wf()
                    &&& e@.root == old(self)@.root
                    &&& e@.record == old(self)@.data.subrange(at, next)
                    &&& e@.name == rec_name(old(self)@.data, at)
                    &&& rec_ino(old(self)@.data, at) != 0
                    &&& e@.name != seq![DOT]
                    &&& e@.name != seq![DOT, DOT]
                    &&& !final(self)@.done
                    &&& final(self)@.offset == next
                },
            },
    {
        if self.done {
            return Step::Finished;
        }
        let ghost pre = self@;
        while self.offset < self.data.len()
            invariant
                pre == old(self)@,
                !pre.done,
                self.wf(),
                !self.done,
                self@.data == pre.data,
                self@.root == pre.root,
                scan(self@.data, self@.offset) == scan(pre.data, pre.offset),
            decreases self@.data.len() - self@.offset,
        {
            match decode_record(&self.data, self.offset) {
                None => {
                    self.done = true;
                    return Step::Fail(DirError::MalformedRecord);
                },
                Some(rec) => {
                    let ghost at = self.offset as int;
                    let start = self.offset;
                    let bytes = copy_range(&self.data, start, rec.reclen);
                    self.offset = self.offset + rec.reclen;
                    let skip = rec.ino == 0 || is_dot_name(&bytes, rec.name_len);
                    proof {
                        assert(rec_name(pre.data, at) =~= bytes@.subrange(
                            HEADER_LEN as int,
                            HEADER_LEN as int + rec.name_len as int,
                        ));
                        assert(skip == rec_skipped(pre.data, at));
                    }
                    if !skip {
                        let e = DirEntry::new(bytes, rec.name_len, Arc::clone(&self.root));
                        return Step::Entry(e);
                    }
                },
            }
        }
        Step::NeedRefill
    }

    /// Install the outcome of one batch-read call. New data resets the
    /// cursor; the end of the directory and every failure are terminal; a
    /// signal interruption changes nothing and asks for the call again.
    /// Once a terminal condition was reached, every outcome is ignored.
    pub fn on_refill(&mut self, ev: RefillEvent) -> (r: RefillStep)
        requires
            old(self).wf(),
        ensures
            final(self).wf(),
            final(self)@.root == old(self)@.root,
            old(self)@.done ==> r == RefillStep::Finished && final(self)@ == old(self)@,
            !old(self)@.done ==> match ev {
                RefillEvent::Filled(d) => {
                    &&& r == RefillStep::Ready
                    &&& final(self)@.data == d@
                    &&& final(self)@.offset == 0
                    &&& !final(self)@.done
                },
                RefillEvent::End => {
                    &&& r == RefillStep::Finished
                    &&& final(self)@.done
                },
                RefillEvent::Interrupted => r == RefillStep::Retry && final(self)@ == old(self)@,
                RefillEvent::Failed(code) => {
                    &&& r == RefillStep::Fail(DirError::RefillFailure(code))
                    &&& final(self)@.done
                },
            },
    {
        if self.done {
            return RefillStep::Finished;
        }
        match ev {
            RefillEvent::Filled(d) => {
                self.data = d;
                self.offset = 0;
                RefillStep::Ready
            },
            RefillEvent::End => {
                self.done = true;
                RefillStep::Finished
            },
            RefillEvent::Interrupted => RefillStep::Retry,
            RefillEvent::Failed(code) => {
                self.done = true;
                RefillStep::Fail(DirError::RefillFailure(code))
            },
        }
    }
}

/// Whether the name cached at the head of a copied record is the self or
/// parent entry.
fn is_dot_name(record: &Vec<u8>, name_len: usize) -> (r: bool)
    requires
        HEADER_LEN + name_len <= record@.len(),
    ensures
        r == {
            let name = record@.subrange(HEADER_LEN as int, HEADER_LEN as int + name_len as int);
            name == seq![DOT] || name == seq![DOT, DOT]
        },
{
    let ghost name = record@.subrange(HEADER_LEN as int, HEADER_LEN as int + name_len as int);
    if name_len == 1 && record[HEADER_LEN] == DOT {
        proof {
            assert(name =~= seq![DOT]);
        }
        true
    } else if name_len == 2 && record[HEADER_LEN] == DOT && record[HEADER_LEN + 1] == DOT {
        proof {
            assert(name =~= seq![DOT, DOT]);
        }
        true
    } else {
        proof {
            if name_len == 1 {
                assert(name[0] == record@[HEADER_LEN as int]);
            }
            if name_len == 2 {
                assert(name[0] == record@[HEADER_LEN as int]);
                assert(name[1] == record@[HEADER_LEN as int + 1]);
            }
            assert(seq![DOT].len() == 1);
            assert(seq![DOT, DOT].len() == 2);
        }
        false
    }
}

/// Copy `len` bytes of `data` starting at `start` into an owned vector.
fn copy_range(data: &Vec<u8>, start: usize, len: usize) -> (r: Vec<u8>)
    requires
        start + len <= data@.len(),
    ensures
        r@ == data@.subrange(start as int, start as int + len as int),
{
    proof {
        assert(data.len() == data@.len());
    }
    let mut out: Vec<u8> = Vec::new();
    let mut i: usize = 0;
    while i < len
        invariant
            i <= len,
            start + len <= data@.len() <= usize::MAX,
            out@ == data@.subrange(start as int, start as int + i as int),
        decreases len - i,
    {
        out.push(data[start + i]);
        i = i + 1;
        proof {
            assert(out@ =~= data@.subrange(start as int, start as int + i as int));
        }
    }
    out
}

} // verus!

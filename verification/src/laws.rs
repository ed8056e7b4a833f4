//! Batch-level statements about the iteration.
//!
//! [`ReadDir::advance`](crate::reader::ReadDir::advance) speaks of one step
//! at a time, through [`scan`]. The proofs here lift that to whole batches:
//! what a full drain of a batch yields, that it yields everything that is
//! not filtered out, that nothing filtered out ever appears, and that the
//! outcome depends on the batch bytes alone.

use vstd::prelude::*;

use crate::reader::{rec_skipped, scan, Scan, DOT};
use crate::record::{rec_ino, rec_len, rec_name, rec_wf};

verus! {

/// Model of one record: its identity number and its name.
pub ghost struct RecModel {
    /// The identity number.
    pub ino: nat,
    /// The name bytes.
    pub name: Seq<u8>,
}

/// The model of the record at `off`.
pub open spec fn rec_model(data: Seq<u8>, off: int) -> RecModel {
    RecModel { ino: rec_ino(data, off), name: rec_name(data, off) }
}

/// A record passes the filter: its identity number is not zero and its
/// name is neither the self nor the parent entry.
pub open spec fn keep_rec(r: RecModel) -> bool {
    r.ino != 0 && r.name != seq![DOT] && r.name != seq![DOT, DOT]
}

/// [`keep_rec`] as a value, so that every statement filters by one and the
/// same predicate.
pub open spec fn keep_pred() -> spec_fn(RecModel) -> bool {
    |r: RecModel| keep_rec(r)
}

/// All records of the batch from `off` on, in order, filtered or not. The
/// sequence ends where the valid data or the well-formed records end.
pub open spec fn all_records(data: Seq<u8>, off: int) -> Seq<RecModel>
    decreases data.len() - off,
{
    if off >= data.len() || !rec_wf(data, off) {
        Seq::empty()
    } else {
        seq![rec_model(data, off)] + all_records(data, off + rec_len(data, off) as int)
    }
}

/// The batch from `off` on is well formed: consecutive well-formed records
/// cover the valid data exactly.
pub open spec fn batch_wf(data: Seq<u8>, off: int) -> bool
    decreases data.len() - off,
{
    if off == data.len() {
        true
    } else if off > data.len() || !rec_wf(data, off) {
        false
    } else {
        batch_wf(data, off + rec_len(data, off) as int)
    }
}

/// The records a full drain of the batch yields from `off` on: every
/// record that passes the filter, in order, up to the end of the valid
/// data or the first malformed record.
pub open spec fn yielded_records(data: Seq<u8>, off: int) -> Seq<RecModel>
    decreases data.len() - off,
{
    if off >= data.len() || !rec_wf(data, off) {
        Seq::empty()
    } else if rec_skipped(data, off) {
        yielded_records(data, off + rec_len(data, off) as int)
    } else {
        seq![rec_model(data, off)] + yielded_records(data, off + rec_len(data, off) as int)
    }
}

/// What one step sees, lifted to the whole drain: when [`scan`] finds a
/// record to yield, the drain yields exactly that record followed by the
/// drain of the rest; when it drains the batch or stops at a malformed
/// record, the drain yields nothing. Repeatedly applied, this says that
/// the step contract of `advance` walks through precisely
/// [`yielded_records`].
pub proof fn lemma_scan_drain(data: Seq<u8>, off: int)
    ensures
        match scan(data, off) {
            Scan::Found { at, next } => {
                &&& off <= at
                &&& rec_wf(data, at)
                &&& !rec_skipped(data, at)
                &&& next == at + rec_len(data, at)
                &&& next <= data.len()
                &&& yielded_records(data, off) == seq![rec_model(data, at)] + yielded_records(
                    data,
                    next,
                )
            },
            Scan::Drained => yielded_records(data, off) == Seq::<RecModel>::empty(),
            Scan::Malformed { at } => yielded_records(data, off) == Seq::<RecModel>::empty(),
        },
    decreases data.len() - off,
{
    if off >= data.len() {
    } else if !rec_wf(data, off) {
    } else if rec_skipped(data, off) {
        lemma_scan_drain(data, off + rec_len(data, off) as int);
    }
}

/// Completeness of the drain: over a well-formed batch, the drain yields
/// exactly the records of the batch that pass the filter — every child the
/// kernel reported, except the self and parent entries and the records
/// with identity number zero, each exactly once and in batch order.
pub proof fn lemma_drain_complete(data: Seq<u8>, off: int)
    requires
        batch_wf(data, off),
    ensures
        yielded_records(data, off) == all_records(data, off).filter(keep_pred()),
    decreases data.len() - off,
{
    reveal(Seq::filter);
    if off == data.len() {
        assert(all_records(data, off).filter(keep_pred()) =~= Seq::<RecModel>::empty());
    } else {
        let next = off + rec_len(data, off) as int;
        lemma_drain_complete(data, next);
        let head = seq![rec_model(data, off)];
        let rest = all_records(data, next);
        Seq::filter_distributes_over_add(head, rest, keep_pred());
        assert(head.drop_last() =~= Seq::<RecModel>::empty());
        assert(Seq::<RecModel>::empty().filter(keep_pred()) =~= Seq::<RecModel>::empty());
        assert(head.last() == rec_model(data, off));
        if keep_rec(rec_model(data, off)) {
            assert(head.filter(keep_pred()) =~= head);
        } else {
            assert(head.filter(keep_pred()) =~= Seq::<RecModel>::empty());
        }
        assert(all_records(data, off) == head + rest);
        if keep_rec(rec_model(data, off)) {
            assert(yielded_records(data, off) =~= head + yielded_records(data, next));
        } else {
            assert(yielded_records(data, off) =~= yielded_records(data, next));
            assert(head.filter(keep_pred()) + rest.filter(keep_pred()) =~= rest.filter(
                keep_pred(),
            ));
        }
    }
}

/// Over a well-formed batch the walk never stops at a malformed record:
/// every step either yields an entry or drains the batch, so the iteration
/// over such a batch never reports the malformed-record error.
pub proof fn lemma_wf_batch_never_malformed(data: Seq<u8>, off: int)
    requires
        batch_wf(data, off),
    ensures
        !(scan(data, off) is Malformed),
    decreases data.len() - off,
{
    if off == data.len() {
    } else if rec_skipped(data, off) {
        lemma_wf_batch_never_malformed(data, off + rec_len(data, off) as int);
    }
}

/// Yielding one entry keeps the batch well formed: when the walk of a
/// well-formed batch finds a record, the batch is still well formed past
/// that record, so the whole drain stays in the well-formed regime.
pub proof fn lemma_batch_wf_step(data: Seq<u8>, off: int)
    requires
        batch_wf(data, off),
        scan(data, off) is Found,
    ensures
        scan(data, off) matches Scan::Found { at, next } ==> batch_wf(data, next),
    decreases data.len() - off,
{
    if off == data.len() {
    } else if rec_skipped(data, off) {
        lemma_batch_wf_step(data, off + rec_len(data, off) as int);
    }
}

/// Soundness of the filter: every record a drain yields passes it. No
/// yielded entry is named after the self or parent entry, and none has
/// identity number zero.
pub proof fn lemma_yield_passes_filter(data: Seq<u8>, off: int, i: int)
    requires
        0 <= i < yielded_records(data, off).len(),
    ensures
        keep_rec(yielded_records(data, off)[i]),
    decreases data.len() - off,
{
    if off >= data.len() || !rec_wf(data, off) {
    } else if rec_skipped(data, off) {
        lemma_yield_passes_filter(data, off + rec_len(data, off) as int, i);
    } else {
        if i > 0 {
            lemma_yield_passes_filter(data, off + rec_len(data, off) as int, i - 1);
        }
    }
}

/// Determinism: what an iteration yields is a function of the batch bytes
/// and the position alone. Two independent iterators over equal batch
/// bytes see the same next step and drain to the same records, in the same
/// order. (That two reads of one unmodified directory hand back equal
/// record sets is the kernel's side, stated nowhere here.)
pub proof fn lemma_iteration_deterministic(d1: Seq<u8>, d2: Seq<u8>, off: int)
    requires
        d1 == d2,
    ensures
        scan(d1, off) == scan(d2, off),
        yielded_records(d1, off) == yielded_records(d2, off),
{
}

} // verus!

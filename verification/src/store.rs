//! The local proof store: an append-only, rollback-capable cache of verified
//! source-chain header records, gap-free and keyed by slot number.

use vstd::prelude::*;

use crate::types::{HeaderRecord, HeaderUpdate};

verus! {

/// Models of the header updates held in a vector.
pub open spec fn records_of(hs: Seq<HeaderUpdate>) -> Seq<HeaderRecord> {
    hs.map_values(|h: HeaderUpdate| h@)
}

/// The records cover consecutive slots, starting at the slot of the first.
pub open spec fn contiguous(rs: Seq<HeaderRecord>) -> bool {
    forall|i: int| 0 <= i < rs.len() ==> (#[trigger] rs[i]).slot == rs[0].slot + i
}

/// Slot of the most recent record, if any.
pub open spec fn tip_of(rs: Seq<HeaderRecord>) -> Option<u64> {
    if rs.len() == 0 {
        None
    } else {
        Some(rs.last().slot)
    }
}

/// Slot of the earliest record, if any.
pub open spec fn base_of(rs: Seq<HeaderRecord>) -> Option<u64> {
    if rs.len() == 0 {
        None
    } else {
        Some(rs[0].slot)
    }
}

/// A batch continues a store: the batch itself is contiguous, and when both
/// are non-empty the batch starts right after the store's tip.
pub open spec fn continues(rs: Seq<HeaderRecord>, batch: Seq<HeaderRecord>) -> bool {
    &&& contiguous(batch)
    &&& batch.len() > 0 ==> match tip_of(rs) {
        None => true,
        Some(t) => batch[0].slot == t + 1,
    }
}

/// How many leading records of a contiguous sequence have a slot at most
/// `upto`.
pub open spec fn keep_count(rs: Seq<HeaderRecord>, upto: u64) -> int {
    if rs.len() == 0 {
        0
    } else if upto < rs[0].slot {
        0
    } else if upto - rs[0].slot + 1 >= rs.len() {
        rs.len() as int
    } else {
        upto - rs[0].slot + 1
    }
}

/// The store contents after rolling back to a checkpoint: a `None`
/// checkpoint empties the store; `Some(s)` keeps exactly the records whose
/// slot is at most `s`.
pub open spec fn rolled_back(rs: Seq<HeaderRecord>, checkpoint: Option<u64>) -> Seq<HeaderRecord> {
    match checkpoint {
        None => Seq::empty(),
        Some(upto) => rs.take(keep_count(rs, upto)),
    }
}

/// Append-only, rollback-capable cache of verified header records.
///
/// The window `[base, tip]` is gap-free: record `i` always holds slot
/// `base + i`. Appends extend the tip; rollback only ever discards a suffix.
pub struct ProofStore {
    headers: Vec<HeaderUpdate>,
}

impl View for ProofStore {
    type V = Seq<HeaderRecord>;

    closed spec fn view(&self) -> Seq<HeaderRecord> {
        records_of(self.headers@)
    }
}

impl ProofStore {
    pub open spec fn wf(&self) -> bool {
        contiguous(self@)
    }

    pub open spec fn spec_tip(&self) -> Option<u64> {
        tip_of(self@)
    }

    pub open spec fn spec_base(&self) -> Option<u64> {
        base_of(self@)
    }

    /// An empty store.
    pub fn new() -> (s: Self)
        ensures
            s@ == Seq::<HeaderRecord>::empty(),
            s.wf(),
    {
        ProofStore { headers: Vec::new() }
    }

    pub fn len(&self) -> (n: usize)
        ensures
            n == self@.len(),
    {
        self.headers.len()
    }

    /// Slot of the earliest cached record.
    pub fn base_slot(&self) -> (r: Option<u64>)
        ensures
            r == self.spec_base(),
    {
        if self.headers.len() == 0 {
            None
        } else {
            Some(self.headers[0].slot)
        }
    }

    /// Slot of the most recent cached record; this is the value captured as
    /// a rollback checkpoint before a verification attempt mutates the store.
    pub fn tip_slot(&self) -> (r: Option<u64>)
        ensures
            r == self.spec_tip(),
    {
        if self.headers.len() == 0 {
            None
        } else {
            Some(self.headers[self.headers.len() - 1].slot)
        }
    }

    /// Appends a batch of verified updates; the batch must continue the
    /// store's tip, so the window stays gap-free.
    pub fn append_batch(&mut self, batch: Vec<HeaderUpdate>)
        requires
            old(self).wf(),
            continues(old(self)@, records_of(batch@)),
        ensures
            final(self)@ == old(self)@ + records_of(batch@),
            final(self).wf(),
    {
        let ghost pre = self.headers@;
        let ghost badd = batch@;
        let mut moved = batch;
        self.headers.append(&mut moved);
        proof {
            assert(self@ =~= records_of(pre) + records_of(badd));
            lemma_contiguous_append(records_of(pre), records_of(badd));
        }
    }

    /// Rolls the store back to a checkpoint, discarding every record after
    /// it. Rolling back to the current tip (or to `None` on an empty store)
    /// leaves the store unchanged.
    pub fn rollback_to(&mut self, checkpoint: Option<u64>)
        requires
            old(self).wf(),
        ensures
            final(self)@ == rolled_back(old(self)@, checkpoint),
            final(self).wf(),
    {
        let ghost pre = self@;
        match checkpoint {
            None => {
                self.headers.clear();
                proof {
                    assert(self@ =~= rolled_back(pre, checkpoint));
                }
            },
            Some(upto) => {
                if self.headers.len() == 0 {
                    proof {
                        assert(self@ =~= rolled_back(pre, checkpoint));
                    }
                } else {
                    let base = self.headers[0].slot;
                    if upto < base {
                        self.headers.clear();
                        proof {
                            assert(self@ =~= rolled_back(pre, checkpoint));
                        }
                    } else {
                        let len64: u64 = self.headers.len() as u64;
                        let diff: u64 = upto - base;
                        if diff < len64 {
                            let keep: usize = (diff + 1) as usize;
                            self.headers.truncate(keep);
                            proof {
                                assert(self@ =~= rolled_back(pre, checkpoint));
                            }
                        } else {
                            proof {
                                assert(self@ =~= rolled_back(pre, checkpoint));
                            }
                        }
                    }
                }
            },
        }
        proof {
            lemma_rolled_back_contiguous(pre, checkpoint);
        }
    }
}

/// A contiguous sequence continued by a fitting batch stays contiguous.
pub proof fn lemma_contiguous_append(rs: Seq<HeaderRecord>, batch: Seq<HeaderRecord>)
    requires
        contiguous(rs),
        continues(rs, batch),
    ensures
        contiguous(rs + batch),
{
    let all = rs + batch;
    assert forall|i: int| 0 <= i < all.len() implies (#[trigger] all[i]).slot == all[0].slot
        + i by {
        if rs.len() == 0 {
            assert(all =~= batch);
        } else {
            if i < rs.len() {
                assert(all[i] == rs[i]);
            } else {
                assert(all[i] == batch[i - rs.len()]);
                assert(batch[i - rs.len()].slot == batch[0].slot + (i - rs.len()));
                assert(rs.last().slot == rs[0].slot + (rs.len() - 1));
            }
        }
    }
}

/// Rolling back always yields a contiguous sequence again.
pub proof fn lemma_rolled_back_contiguous(rs: Seq<HeaderRecord>, checkpoint: Option<u64>)
    requires
        contiguous(rs),
    ensures
        contiguous(rolled_back(rs, checkpoint)),
{
    match checkpoint {
        None => {},
        Some(upto) => {
            let kept = rs.take(keep_count(rs, upto));
            assert forall|i: int| 0 <= i < kept.len() implies (#[trigger] kept[i]).slot
                == kept[0].slot + i by {
                assert(kept[i] == rs[i]);
            }
        },
    }
}

/// Idempotent rollback: rolling back to the current tip (or to `None` on an
/// empty store) leaves the store unchanged.
pub proof fn law_rollback_idempotent(rs: Seq<HeaderRecord>)
    requires
        contiguous(rs),
    ensures
        rolled_back(rs, tip_of(rs)) == rs,
{
    if rs.len() == 0 {
        assert(rolled_back(rs, tip_of(rs)) =~= rs);
    } else {
        let t = rs.last().slot;
        assert(rs.last().slot == rs[0].slot + (rs.len() - 1));
        assert(keep_count(rs, t) == rs.len());
        assert(rolled_back(rs, tip_of(rs)) =~= rs);
    }
}

/// Rollback consistency: after appending any fitting batch, rolling back to
/// the tip held before the append restores the store exactly.
pub proof fn law_rollback_restores(rs: Seq<HeaderRecord>, batch: Seq<HeaderRecord>)
    requires
        contiguous(rs),
        continues(rs, batch),
    ensures
        rolled_back(rs + batch, tip_of(rs)) == rs,
{
    lemma_contiguous_append(rs, batch);
    let all = rs + batch;
    if rs.len() == 0 {
        assert(rolled_back(all, tip_of(rs)) =~= rs);
    } else {
        let t = rs.last().slot;
        assert(all[0] == rs[0]);
        assert(rs.last().slot == rs[0].slot + (rs.len() - 1));
        assert(keep_count(all, t) == rs.len());
        assert(rolled_back(all, tip_of(rs)) =~= rs);
    }
}

} // verus!

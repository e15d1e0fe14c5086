//! The alignment engine: reconciles a batch of freshly fetched native header
//! updates with the on-chain frontier (and the local store's tip) before any
//! verification runs. Updates already covered are dropped; a batch that
//! cannot be made contiguous with the frontier is rejected.

use vstd::prelude::*;
use vstd::string::StringExecFns;

use crate::errors::Error;
use crate::store::{contiguous, keep_count, records_of};
use crate::types::{Client, ClientModel, HeaderRecord, HeaderUpdate};

verus! {

/// The highest slot already accounted for, by the last known on-chain
/// record or by the local store's tip — whichever is further ahead.
pub open spec fn covered_frontier(onchain: Option<ClientModel>, store_tip: Option<u64>) -> Option<
    u64,
> {
    match (onchain, store_tip) {
        (Option::None, Option::None) => None,
        (Option::Some(c), Option::None) => Some(c.maximal_slot),
        (Option::None, Option::Some(t)) => Some(t),
        (Option::Some(c), Option::Some(t)) => if c.maximal_slot >= t {
            Some(c.maximal_slot)
        } else {
            Some(t)
        },
    }
}

/// How many leading updates of a contiguous batch are already covered.
pub open spec fn trim_count(batch: Seq<HeaderRecord>, cov: Option<u64>) -> int {
    match cov {
        None => 0,
        Some(c) => keep_count(batch, c),
    }
}

/// What is left of the batch once the covered prefix is dropped.
pub open spec fn aligned_rest(batch: Seq<HeaderRecord>, cov: Option<u64>) -> Seq<HeaderRecord> {
    batch.skip(trim_count(batch, cov))
}

/// A batch can be aligned with the frontier: it is contiguous, something is
/// left of it after dropping the covered prefix, and what is left starts
/// right after the frontier.
pub open spec fn alignable(batch: Seq<HeaderRecord>, cov: Option<u64>) -> bool {
    &&& contiguous(batch)
    &&& aligned_rest(batch, cov).len() > 0
    &&& cov matches Some(c) ==> aligned_rest(batch, cov)[0].slot == c + 1
}

/// Model of an optional on-chain client reference.
pub open spec fn onchain_model(onchain: Option<&Client>) -> Option<ClientModel> {
    match onchain {
        None => None,
        Some(c) => Some(c@),
    }
}

/// Reconciles the native batch with the on-chain frontier, in place: drops
/// the updates whose slots are already covered, and fails exactly when the
/// batch and the frontier share no contiguous boundary (or nothing new is
/// left). The local proof store is not touched; on failure the batch is left
/// as it was.
pub fn align_updates(
    updates: &mut Vec<HeaderUpdate>,
    onchain: Option<&Client>,
    store_tip: Option<u64>,
) -> (r: Result<(), Error>)
    ensures
        r is Ok <==> alignable(
            records_of(old(updates)@),
            covered_frontier(onchain_model(onchain), store_tip),
        ),
        r is Ok ==> records_of(final(updates)@) == aligned_rest(
            records_of(old(updates)@),
            covered_frontier(onchain_model(onchain), store_tip),
        ),
        r matches Err(e) ==> final(updates)@ == old(updates)@ && e is Alignment,
{
    let ghost batch = records_of(updates@);
    let ghost cov = covered_frontier(onchain_model(onchain), store_tip);
    let len = updates.len();

    // The batch itself must cover consecutive slots.
    let len1: usize = if len > 0 { len - 1 } else { 0 };
    let mut i: usize = 0;
    while i < len1
        invariant
            len1 == (if len > 0 { len - 1 } else { 0 }),
            i <= len1,
            len == updates@.len(),
            batch == records_of(updates@),
            forall|j: int| 0 < j <= i ==> (#[trigger] batch[j]).slot == batch[j - 1].slot + 1,
        decreases len - i,
    {
        let prev = updates[i].slot;
        let here = updates[i + 1].slot;
        if !(here > prev && here - prev == 1) {
            proof {
                assert(batch[i as int + 1].slot != batch[i as int].slot + 1);
                assert(!contiguous(batch)) by {
                    if contiguous(batch) {
                        assert(batch[i as int + 1].slot == batch[0].slot + i + 1);
                        assert(batch[i as int].slot == batch[0].slot + i);
                    }
                }
            }
            return Err(Error::Alignment {
                msg: String::from_str("native update batch is not contiguous"),
            });
        }
        i = i + 1;
    }
    proof {
        assert(contiguous(batch)) by {
            assert forall|k: int| 0 <= k < batch.len() implies (#[trigger] batch[k]).slot
                == batch[0].slot + k by {
                slots_step_to_contiguous(batch, k);
            }
        }
    }

    // The frontier already accounted for.
    let covered: Option<u64> = match (onchain, store_tip) {
        (Option::None, Option::None) => None,
        (Option::Some(c), Option::None) => Some(c.maximal_slot),
        (Option::None, Option::Some(t)) => Some(t),
        (Option::Some(c), Option::Some(t)) => if c.maximal_slot >= t {
            Some(c.maximal_slot)
        } else {
            Some(t)
        },
    };

    // Count the updates whose slots the frontier already covers.
    let mut k: usize = 0;
    match covered {
        None => {},
        Some(c) => {
            while k < len && updates[k].slot <= c
                invariant
                    k <= len,
                    len == updates@.len(),
                    batch == records_of(updates@),
                    contiguous(batch),
                    cov == Some(c),
                    forall|j: int| 0 <= j < k ==> (#[trigger] batch[j]).slot <= c,
                decreases len - k,
            {
                k = k + 1;
            }
            proof {
                if len == 0 {
                    assert(k == trim_count(batch, cov));
                } else if k == len {
                    assert(batch[len - 1].slot == batch[0].slot + (len - 1));
                    assert(k == trim_count(batch, cov));
                } else {
                    assert(batch[k as int].slot == batch[0].slot + k);
                    assert(batch[k as int].slot > c);
                    if k > 0 {
                        assert(batch[k as int - 1].slot <= c);
                        assert(batch[k as int - 1].slot == batch[0].slot + k - 1);
                    }
                    assert(k == trim_count(batch, cov));
                }
            }
        },
    }
    proof {
        assert(k == trim_count(batch, cov));
    }

    if k == len {
        proof {
            assert(aligned_rest(batch, cov).len() == 0);
        }
        return Err(Error::Alignment {
            msg: String::from_str("no native updates beyond the on-chain frontier"),
        });
    }

    // What is left must start right after the frontier.
    if let Some(c) = covered {
        let first_left = updates[k].slot;
        proof {
            assert(batch.skip(k as int)[0] == batch[k as int]);
            assert(batch[k as int].slot == batch[0].slot + k);
            if c < batch[0].slot {
                assert(batch[k as int].slot > c);
            } else {
                assert(k == keep_count(batch, c));
                assert(batch[k as int].slot > c);
            }
        }
        if first_left - c != 1 {
            proof {
                assert(aligned_rest(batch, cov)[0].slot != c + 1);
            }
            return Err(Error::Alignment {
                msg: String::from_str(
                    "native updates leave a gap behind the on-chain frontier",
                ),
            });
        }
    }

    // Drop the covered prefix in place.
    let tail = updates.split_off(k);
    *updates = tail;
    proof {
        assert(records_of(updates@) =~= aligned_rest(batch, cov));
        assert(aligned_rest(batch, cov)[0] == batch[k as int]);
    }
    Ok(())
}

/// Dropping the covered prefix of a contiguous batch leaves a contiguous
/// batch.
pub proof fn lemma_aligned_rest_contiguous(batch: Seq<HeaderRecord>, cov: Option<u64>)
    requires
        contiguous(batch),
    ensures
        contiguous(aligned_rest(batch, cov)),
{
    let k = trim_count(batch, cov);
    let rest = aligned_rest(batch, cov);
    assert(0 <= k <= batch.len());
    assert forall|i: int| 0 <= i < rest.len() implies (#[trigger] rest[i]).slot == rest[0].slot
        + i by {
        assert(rest[i] == batch[k + i]);
        assert(rest[0] == batch[k]);
    }
}

/// Consecutive slot steps make the whole batch contiguous.
proof fn slots_step_to_contiguous(batch: Seq<HeaderRecord>, k: int)
    requires
        forall|j: int| 0 < j < batch.len() ==> (#[trigger] batch[j]).slot == batch[j - 1].slot + 1,
        0 <= k < batch.len(),
    ensures
        batch[k].slot == batch[0].slot + k,
    decreases k,
{
    if k > 0 {
        slots_step_to_contiguous(batch, k - 1);
    }
}

} // verus!

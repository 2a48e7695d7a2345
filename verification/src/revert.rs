use vstd::prelude::*;

use crate::errors::AppError;

verus! {

/// A room's expiration policy: content auto-expires after this many days;
/// 0 disables expiration.
#[derive(Clone, Copy, Debug, PartialEq, Eq, Structural)]
pub struct ExpirationPolicy {
    pub expiration_period_days: u64,
}

/// The policy that reverts expiration: disabled.
pub fn revert_policy() -> (p: ExpirationPolicy)
    ensures
        p.expiration_period_days == 0,
{
    ExpirationPolicy { expiration_period_days: 0 }
}

/// One disable-expiration update request per given room, in the given
/// order. Duplicate identifiers produce duplicate (no-op) requests; nothing
/// is deduplicated.
pub fn plan_revert_requests(room_ids: &Vec<u64>) -> (reqs: Vec<(u64, ExpirationPolicy)>)
    ensures
        reqs@.len() == room_ids@.len(),
        forall|i: int|
            0 <= i < reqs@.len() ==> reqs@[i].0 == room_ids@[i] && reqs@[i].1.expiration_period_days
                == 0,
{
    let mut reqs: Vec<(u64, ExpirationPolicy)> = Vec::new();
    let mut i: usize = 0;
    while i < room_ids.len()
        invariant
            0 <= i <= room_ids@.len(),
            reqs@.len() == i,
            forall|j: int|
                0 <= j < i ==> reqs@[j].0 == room_ids@[j] && reqs@[j].1.expiration_period_days
                    == 0,
        decreases room_ids@.len() - i,
    {
        reqs.push((room_ids[i], revert_policy()));
        assert(reqs@[i as int].0 == room_ids@[i as int] && reqs@[i as int].1.expiration_period_days
            == 0);
        i = i + 1;
    }
    reqs
}

/// Index of the first failed update of a drained run, or the run's length
/// if every update succeeded.
pub open spec fn first_failed_update(results: Seq<(u64, Result<(), AppError>)>) -> int
    decreases results.len(),
{
    if results.len() == 0 {
        0
    } else if results[0].1 is Err {
        0
    } else {
        1 + first_failed_update(results.drop_first())
    }
}

pub proof fn lemma_first_failed_update_is(results: Seq<(u64, Result<(), AppError>)>, k: int)
    requires
        0 <= k <= results.len(),
        forall|j: int| 0 <= j < k ==> results[j].1 is Ok,
        k < results.len() ==> results[k].1 is Err,
    ensures
        first_failed_update(results) == k,
    decreases results.len(),
{
    if results.len() == 0 {
    } else if results[0].1 is Err {
        assert(k == 0);
    } else {
        assert forall|j: int| 0 <= j < k - 1 implies results.drop_first()[j].1 is Ok by {
            assert(results[j + 1].1 is Ok);
        }
        lemma_first_failed_update_is(results.drop_first(), k - 1);
    }
}

/// Folds the per-room update outcomes, drained in completion order, into
/// the run's overall result.
///
/// Every update succeeded: the rooms are reported back, in drain order.
/// Otherwise the first failure encountered while draining is the overall
/// error; outcomes drained after it are not surfaced — updates already
/// dispatched may still have completed either way, with no further effect
/// on the reported outcome.
pub fn summarize_reverts(results: Vec<(u64, Result<(), AppError>)>) -> (r: Result<
    Vec<u64>,
    AppError,
>)
    ensures
        r is Ok <==> (forall|i: int| 0 <= i < results@.len() ==> results@[i].1 is Ok),
        r is Ok ==> r->Ok_0@ == results@.map_values(|p: (u64, Result<(), AppError>)| p.0),
        r is Err ==> {
            let k = first_failed_update(results@);
            &&& 0 <= k < results@.len()
            &&& results@[k].1 is Err
            &&& forall|j: int| 0 <= j < k ==> results@[j].1 is Ok
            &&& r->Err_0 == results@[k].1->Err_0
        },
{
    let ghost results0 = results@;
    let mut remaining = results;
    let mut reverted: Vec<u64> = Vec::new();
    let ghost mut k: int = 0;
    proof {
        assert(remaining@ =~= results0.subrange(0, results0.len() as int));
    }
    while remaining.len() > 0
        invariant
            results0 == results@,
            0 <= k <= results0.len(),
            remaining@ == results0.subrange(k, results0.len() as int),
            forall|j: int| 0 <= j < k ==> results0[j].1 is Ok,
            reverted@ =~= results0.subrange(0, k).map_values(
                |p: (u64, Result<(), AppError>)| p.0,
            ),
        decreases remaining@.len(),
    {
        let (room_id, outcome) = remaining.remove(0);
        proof {
            assert((room_id, outcome) == results0[k]);
            assert(remaining@ =~= results0.subrange(k + 1, results0.len() as int));
        }
        match outcome {
            Ok(_) => {
                reverted.push(room_id);
                proof {
                    assert(results0.subrange(0, k + 1).map_values(
                        |p: (u64, Result<(), AppError>)| p.0,
                    ) =~= results0.subrange(0, k).map_values(
                        |p: (u64, Result<(), AppError>)| p.0,
                    ).push(results0[k].0));
                    k = k + 1;
                }
            },
            Err(e) => {
                proof {
                    lemma_first_failed_update_is(results0, k);
                    assert(0 <= k < results0.len() && !(results0[k].1 is Ok));
                }
                return Err(e);
            },
        }
    }
    proof {
        assert(results0.subrange(0, k) =~= results0);
    }
    Ok(reverted)
}

} // verus!

use vstd::prelude::*;

use crate::errors::AppError;

verus! {

/// A room: a container node of the two-level hierarchy. Only room-type
/// nodes are listed (the remote filter restricts the kind), so the model
/// carries the identifier and the parent link alone.
#[derive(Clone, Copy, Debug, PartialEq, Eq, Structural)]
pub struct Room {
    pub id: u64,
    pub parent_id: Option<u64>,
}

/// What one paginated listing request returns: the rooms of the requested
/// range, the range descriptor, and the total count of matching nodes.
#[derive(Debug)]
pub struct PageResult {
    pub items: Vec<Room>,
    pub offset: u64,
    pub limit: u64,
    pub total: u64,
}

/// Size of one listing page.
pub const PAGE_SIZE: u64 = 500;

/// Cap on simultaneous in-flight page requests.
pub const PAGE_FETCH_CONCURRENCY: usize = 5;

/// Cap on simultaneous child-room fetches and on simultaneous policy
/// updates.
pub const FANOUT_CONCURRENCY: usize = 10;

/// The follow-up page offsets for a listing whose first page reported
/// `total` matching nodes: one request per further page start, `PAGE_SIZE`
/// apart, up to and including `total`.
pub fn plan_page_offsets(total: u64) -> (offsets: Vec<u64>)
    ensures
        offsets@.len() == total / PAGE_SIZE,
        forall|k: int| 0 <= k < offsets@.len() ==> offsets@[k] == PAGE_SIZE * (k + 1),
{
    let count = total / PAGE_SIZE;
    let mut offsets: Vec<u64> = Vec::new();
    let mut k: u64 = 0;
    while k < count
        invariant
            0 <= k <= count,
            count == total / PAGE_SIZE,
            offsets@.len() == k,
            forall|j: int| 0 <= j < k ==> offsets@[j] == PAGE_SIZE * (j + 1),
        decreases count - k,
    {
        proof {
            assert((k + 1) * PAGE_SIZE <= (total / PAGE_SIZE) * PAGE_SIZE <= total) by (
            nonlinear_arith)
                requires
                    k + 1 <= total / PAGE_SIZE,
                    count == total / PAGE_SIZE,
            ;
        }
        offsets.push(PAGE_SIZE * (k + 1));
        k = k + 1;
    }
    offsets
}

/// The rooms of a run of page results, in order, assuming every request
/// succeeded.
pub open spec fn flatten_pages(pages: Seq<Result<Vec<Room>, AppError>>) -> Seq<Room>
    decreases pages.len(),
{
    if pages.len() == 0 {
        Seq::empty()
    } else {
        flatten_pages(pages.drop_last()) + pages.last()->Ok_0@
    }
}

/// Index of the first failed request of a run, or the run's length if all
/// succeeded.
pub open spec fn first_err_index(pages: Seq<Result<Vec<Room>, AppError>>) -> int
    decreases pages.len(),
{
    if pages.len() == 0 {
        0
    } else if pages[0] is Err {
        0
    } else {
        1 + first_err_index(pages.drop_first())
    }
}

pub proof fn lemma_first_err_index_is(pages: Seq<Result<Vec<Room>, AppError>>, k: int)
    requires
        0 <= k <= pages.len(),
        forall|j: int| 0 <= j < k ==> pages[j] is Ok,
        k < pages.len() ==> pages[k] is Err,
    ensures
        first_err_index(pages) == k,
    decreases pages.len(),
{
    if pages.len() == 0 {
    } else if pages[0] is Err {
        assert(k == 0);
    } else {
        assert forall|j: int| 0 <= j < k - 1 implies pages.drop_first()[j] is Ok by {
            assert(pages[j + 1] is Ok);
        }
        lemma_first_err_index_is(pages.drop_first(), k - 1);
    }
}

/// Merges the first (synchronous) page with the follow-up page results,
/// in the order the results were drained.
///
/// If every request succeeded, the merged listing is the first page's rooms
/// followed by every follow-up page's rooms. If any failed, the whole
/// listing is the first such error, and no partial listing is surfaced.
pub fn merge_node_pages(first: PageResult, pages: Vec<Result<Vec<Room>, AppError>>) -> (r: Result<
    Vec<Room>,
    AppError,
>)
    ensures
        r is Ok <==> (forall|i: int| 0 <= i < pages@.len() ==> pages@[i] is Ok),
        r is Ok ==> r->Ok_0@ == first.items@ + flatten_pages(pages@),
        r is Err ==> {
            let k = first_err_index(pages@);
            &&& 0 <= k < pages@.len()
            &&& pages@[k] is Err
            &&& forall|j: int| 0 <= j < k ==> pages@[j] is Ok
            &&& r->Err_0 == pages@[k]->Err_0
        },
{
    let ghost pages0 = pages@;
    let mut remaining = pages;
    let mut acc = first.items;
    let ghost first_items = acc@;
    let ghost mut k: int = 0;
    proof {
        assert(remaining@ =~= pages0.subrange(0, pages0.len() as int));
    }
    while remaining.len() > 0
        invariant
            pages0 == pages@,
            0 <= k <= pages0.len(),
            remaining@ == pages0.subrange(k, pages0.len() as int),
            forall|j: int| 0 <= j < k ==> pages0[j] is Ok,
            acc@ == first_items + flatten_pages(pages0.subrange(0, k)),
        decreases remaining@.len(),
    {
        let page = remaining.remove(0);
        proof {
            assert(page == pages0[k]);
            assert(remaining@ =~= pages0.subrange(k + 1, pages0.len() as int));
        }
        match page {
            Ok(mut items) => {
                acc.append(&mut items);
                proof {
                    assert(pages0.subrange(0, k + 1).drop_last() =~= pages0.subrange(0, k));
                    assert(pages0.subrange(0, k + 1).last() == pages0[k]);
                    k = k + 1;
                }
            },
            Err(e) => {
                proof {
                    lemma_first_err_index_is(pages0, k);
                    assert(0 <= k < pages0.len() && !(pages0[k] is Ok));
                }
                return Err(e);
            },
        }
    }
    proof {
        assert(pages0.subrange(0, k) =~= pages0);
    }
    Ok(acc)
}

/// The identifiers of a run of rooms, in order.
pub open spec fn room_ids(rooms: Seq<Room>) -> Seq<u64> {
    rooms.map_values(|room: Room| room.id)
}

/// Flattens the two-level traversal: the root room's own identifier, the
/// identifiers of its immediate child rooms, then — in drain order — the
/// identifiers of each child's own child rooms.
///
/// The first failed child fetch aborts the whole discovery with that error;
/// results of sibling fetches that had already completed are discarded.
pub fn collect_home_room_and_sub_room_ids(
    root_id: u64,
    home_rooms: &Vec<Room>,
    sub_results: Vec<Result<Vec<Room>, AppError>>,
) -> (r: Result<Vec<u64>, AppError>)
    ensures
        r is Ok <==> (forall|i: int| 0 <= i < sub_results@.len() ==> sub_results@[i] is Ok),
        r is Ok ==> r->Ok_0@ == seq![root_id] + room_ids(home_rooms@) + room_ids(
            flatten_pages(sub_results@),
        ),
        r is Err ==> {
            let k = first_err_index(sub_results@);
            &&& 0 <= k < sub_results@.len()
            &&& sub_results@[k] is Err
            &&& forall|j: int| 0 <= j < k ==> sub_results@[j] is Ok
            &&& r->Err_0 == sub_results@[k]->Err_0
        },
{
    let mut ids: Vec<u64> = Vec::new();
    ids.push(root_id);
    let mut i: usize = 0;
    while i < home_rooms.len()
        invariant
            0 <= i <= home_rooms@.len(),
            ids@ =~= seq![root_id] + room_ids(home_rooms@.subrange(0, i as int)),
        decreases home_rooms@.len() - i,
    {
        ids.push(home_rooms[i].id);
        proof {
            assert(room_ids(home_rooms@.subrange(0, i + 1 as int)) =~= room_ids(
                home_rooms@.subrange(0, i as int),
            ).push(home_rooms@[i as int].id));
        }
        i = i + 1;
    }
    proof {
        assert(home_rooms@.subrange(0, home_rooms@.len() as int) =~= home_rooms@);
    }
    let empty_first = PageResult { items: Vec::new(), offset: 0, limit: PAGE_SIZE, total: 0 };
    let merged = merge_node_pages(empty_first, sub_results);
    match merged {
        Ok(sub_rooms) => {
            let ghost ids_before = ids@;
            let mut j: usize = 0;
            while j < sub_rooms.len()
                invariant
                    0 <= j <= sub_rooms@.len(),
                    ids@ =~= ids_before + room_ids(sub_rooms@.subrange(0, j as int)),
                decreases sub_rooms@.len() - j,
            {
                ids.push(sub_rooms[j].id);
                proof {
                    assert(room_ids(sub_rooms@.subrange(0, j + 1 as int)) =~= room_ids(
                        sub_rooms@.subrange(0, j as int),
                    ).push(sub_rooms@[j as int].id));
                }
                j = j + 1;
            }
            proof {
                assert(sub_rooms@.subrange(0, sub_rooms@.len() as int) =~= sub_rooms@);
                assert(ids@ =~= seq![root_id] + room_ids(home_rooms@) + room_ids(
                    flatten_pages(sub_results@),
                ));
            }
            Ok(ids)
        },
        Err(e) => Err(e),
    }
}

} // verus!

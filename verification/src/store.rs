//! The position store: for each pool, the slots of the users that trade it,
//! in the order they came.
//!
//! No user has two slots in one pool, no pool has two buckets and no bucket
//! is empty. Every operation keeps this.

use crate::slot::{armed_slot, RealPoolInfo, RealPoolInfoView};
use crate::strategy::{UserBotData, UserBotDataView};
use crate::text::clone_string;
use vstd::prelude::*;

verus! {

/// The slots of one pool.
#[derive(Debug)]
pub struct PoolBucket {
    pub pool_id: String,
    pub slots: Vec<RealPoolInfo>,
}

/// Mathematical value of [`PoolBucket`].
pub struct PoolBucketView {
    pub pool_id: Seq<char>,
    pub slots: Seq<RealPoolInfoView>,
}

/// A list of slots, as values.
pub open spec fn slots_view(slots: Seq<RealPoolInfo>) -> Seq<RealPoolInfoView> {
    Seq::new(slots.len(), |i: int| slots[i]@)
}

impl View for PoolBucket {
    type V = PoolBucketView;

    open spec fn view(&self) -> PoolBucketView {
        PoolBucketView { pool_id: self.pool_id@, slots: slots_view(self.slots@) }
    }
}

/// A list of buckets, as values.
pub open spec fn buckets_view(buckets: Seq<PoolBucket>) -> Seq<PoolBucketView> {
    Seq::new(buckets.len(), |i: int| buckets[i]@)
}

/// The map from pools to the slots of their users.
#[derive(Debug)]
pub struct PositionStore {
    pub pools: Vec<PoolBucket>,
}

impl View for PositionStore {
    type V = Seq<PoolBucketView>;

    open spec fn view(&self) -> Seq<PoolBucketView> {
        buckets_view(self.pools@)
    }
}

/// How often `id` occurs in `ids`.
pub open spec fn count_of(ids: Seq<Seq<char>>, id: Seq<char>) -> nat
    decreases ids.len(),
{
    if ids.len() == 0 {
        0
    } else {
        count_of(ids.drop_last(), id) + if ids.last() == id {
            1nat
        } else {
            0nat
        }
    }
}

/// Position of the first `id` in `ids`, and the length of `ids` where there
/// is none.
pub open spec fn index_of(ids: Seq<Seq<char>>, id: Seq<char>) -> int
    decreases ids.len(),
{
    if ids.len() == 0 {
        0
    } else {
        let before = index_of(ids.drop_last(), id);
        if before < ids.len() - 1 {
            before
        } else if ids.last() == id {
            ids.len() - 1
        } else {
            ids.len() as int
        }
    }
}

/// The users of a list of slots.
pub open spec fn user_ids(slots: Seq<RealPoolInfoView>) -> Seq<Seq<char>> {
    Seq::new(slots.len(), |i: int| slots[i].user_bot_data.user_id)
}

/// The pools of a list of buckets.
pub open spec fn pool_ids(buckets: Seq<PoolBucketView>) -> Seq<Seq<char>> {
    Seq::new(buckets.len(), |i: int| buckets[i].pool_id)
}

/// How many slots the user `user` has in the pool `pool`.
pub open spec fn count_slots(buckets: Seq<PoolBucketView>, pool: Seq<char>, user: Seq<char>) -> nat
    decreases buckets.len(),
{
    if buckets.len() == 0 {
        0
    } else {
        count_slots(buckets.drop_last(), pool, user) + if buckets.last().pool_id == pool {
            count_of(user_ids(buckets.last().slots), user)
        } else {
            0nat
        }
    }
}

/// How many slots there are in all.
pub open spec fn total_slots(buckets: Seq<PoolBucketView>) -> nat
    decreases buckets.len(),
{
    if buckets.len() == 0 {
        0
    } else {
        total_slots(buckets.drop_last()) + buckets.last().slots.len()
    }
}

/// What holds of every bucket: it is not empty, its slots are well formed
/// and belong to its pool, and no user has two of them.
pub open spec fn bucket_wf(bucket: PoolBucketView) -> bool {
    &&& bucket.slots.len() > 0
    &&& forall|i: int|
        0 <= i < bucket.slots.len() ==> (#[trigger] bucket.slots[i]).wf()
            && bucket.slots[i].user_bot_data.pool_id == bucket.pool_id
    &&& forall|user: Seq<char>| #[trigger] count_of(user_ids(bucket.slots), user) <= 1
}

/// What holds of every store: its buckets are well formed and no pool has
/// two of them.
pub open spec fn store_wf(buckets: Seq<PoolBucketView>) -> bool {
    &&& forall|b: int| 0 <= b < buckets.len() ==> bucket_wf(#[trigger] buckets[b])
    &&& forall|pool: Seq<char>| #[trigger] count_of(pool_ids(buckets), pool) <= 1
}

/// `index_of` is the first position of `id`: it lies within `ids` exactly
/// where `id` occurs, `id` stands there, and not before.
pub proof fn lemma_index_of(ids: Seq<Seq<char>>, id: Seq<char>)
    ensures
        0 <= index_of(ids, id) <= ids.len(),
        index_of(ids, id) < ids.len() ==> ids[index_of(ids, id)] == id,
        forall|j: int| 0 <= j < index_of(ids, id) ==> ids[j] != id,
        index_of(ids, id) < ids.len() <==> count_of(ids, id) >= 1,
    decreases ids.len(),
{
    if ids.len() > 0 {
        lemma_index_of(ids.drop_last(), id);
        let before = index_of(ids.drop_last(), id);
        assert forall|j: int| 0 <= j < index_of(ids, id) implies ids[j] != id by {
            if j < ids.len() - 1 {
                assert(ids.drop_last()[j] == ids[j]);
            }
        }
        if before < ids.len() - 1 {
            assert(ids.drop_last()[before] == ids[before]);
        }
    }
}

/// A position where `id` stands and before which it does not is the one
/// `index_of` gives; where `id` stands nowhere, `index_of` gives the length.
pub proof fn lemma_index_of_is(ids: Seq<Seq<char>>, id: Seq<char>, i: int)
    requires
        0 <= i <= ids.len(),
        i < ids.len() ==> ids[i] == id,
        forall|j: int| 0 <= j < i ==> ids[j] != id,
    ensures
        index_of(ids, id) == i,
{
    lemma_index_of(ids, id);
    let r = index_of(ids, id);
    if r < i {
        assert(ids[r] == id);
    } else if i < r {
        assert(ids[i] == id);
    }
}

/// An identifier that occurs at most once stands at one position only.
pub proof fn lemma_count_unique(ids: Seq<Seq<char>>, i: int, j: int)
    requires
        0 <= i < ids.len(),
        0 <= j < ids.len(),
        ids[i] == ids[j],
        count_of(ids, ids[i]) <= 1,
    ensures
        i == j,
    decreases ids.len(),
{
    let last = ids.len() - 1;
    let front = ids.drop_last();
    if i < last && j < last {
        assert(front[i] == ids[i] && front[j] == ids[j]);
        lemma_count_unique(front, i, j);
    } else if i < last {
        assert(front[i] == ids[i]);
        lemma_index_of(front, ids[i]);
        lemma_index_of_is(front, ids[i], index_of(front, ids[i]));
        assert(count_of(front, ids[i]) >= 1) by {
            if index_of(front, ids[i]) >= front.len() {
                assert(front[i] != ids[i]);
            }
        }
    } else if j < last {
        assert(front[j] == ids[j]);
        lemma_index_of(front, ids[j]);
        assert(count_of(front, ids[j]) >= 1) by {
            if index_of(front, ids[j]) >= front.len() {
                assert(front[j] != ids[j]);
            }
        }
    }
}

/// `slots` without the slots of `user`, the others in their order.
pub open spec fn without_user(slots: Seq<RealPoolInfoView>, user: Seq<char>) -> Seq<
    RealPoolInfoView,
>
    decreases slots.len(),
{
    if slots.len() == 0 {
        slots
    } else {
        let rest = without_user(slots.drop_last(), user);
        if slots.last().user_bot_data.user_id == user {
            rest
        } else {
            rest.push(slots.last())
        }
    }
}

/// `buckets` without the slots of `user` and without the buckets that this
/// leaves empty, the others in their order.
pub open spec fn spec_remove_user(buckets: Seq<PoolBucketView>, user: Seq<char>) -> Seq<
    PoolBucketView,
>
    decreases buckets.len(),
{
    if buckets.len() == 0 {
        buckets
    } else {
        let rest = spec_remove_user(buckets.drop_last(), user);
        let kept = without_user(buckets.last().slots, user);
        if kept.len() == 0 {
            rest
        } else {
            rest.push(PoolBucketView { pool_id: buckets.last().pool_id, slots: kept })
        }
    }
}

/// `buckets` with `slot` added at the end of the bucket of its pool, which is
/// made at the end where the pool has none.
pub open spec fn spec_insert(buckets: Seq<PoolBucketView>, slot: RealPoolInfoView) -> Seq<
    PoolBucketView,
> {
    let pool = slot.user_bot_data.pool_id;
    let b = index_of(pool_ids(buckets), pool);
    if b < buckets.len() {
        buckets.update(
            b,
            PoolBucketView { pool_id: buckets[b].pool_id, slots: buckets[b].slots.push(slot) },
        )
    } else {
        buckets.push(PoolBucketView { pool_id: pool, slots: seq![slot] })
    }
}

/// Where the slot of `user` in `pool` stands: the bucket and the place in
/// it.
pub open spec fn slot_position(buckets: Seq<PoolBucketView>, pool: Seq<char>, user: Seq<char>) -> Option<
    (int, int),
> {
    let b = index_of(pool_ids(buckets), pool);
    if b < buckets.len() {
        let i = index_of(user_ids(buckets[b].slots), user);
        if i < buckets[b].slots.len() {
            Some((b, i))
        } else {
            None
        }
    } else {
        None
    }
}

/// The slot of `user` in `pool`, if there is one.
pub open spec fn spec_lookup(buckets: Seq<PoolBucketView>, pool: Seq<char>, user: Seq<char>) -> Option<
    RealPoolInfoView,
> {
    match slot_position(buckets, pool, user) {
        Some((b, i)) => Some(buckets[b].slots[i]),
        None => None,
    }
}

/// `buckets` with `slot` added, unless its user has a slot in its pool.
pub open spec fn spec_insert_if_absent(
    buckets: Seq<PoolBucketView>,
    slot: RealPoolInfoView,
) -> Seq<PoolBucketView> {
    if slot_position(buckets, slot.user_bot_data.pool_id, slot.user_bot_data.user_id) is Some {
        buckets
    } else {
        spec_insert(buckets, slot)
    }
}

/// The store after `user` is activated at `now_ms`: what the user had is
/// removed, then a fresh armed slot is added.
pub open spec fn spec_activate(
    buckets: Seq<PoolBucketView>,
    user: UserBotDataView,
    now_ms: i64,
) -> Seq<PoolBucketView> {
    spec_insert(spec_remove_user(buckets, user.user_id), armed_slot(user, now_ms))
}

/// How many slots `user` has over all pools.
pub open spec fn count_user_slots(buckets: Seq<PoolBucketView>, user: Seq<char>) -> nat
    decreases buckets.len(),
{
    if buckets.len() == 0 {
        0
    } else {
        count_user_slots(buckets.drop_last(), user) + count_of(
            user_ids(buckets.last().slots),
            user,
        )
    }
}

/// Removing a user leaves none of that user's slots and all of the others'.
pub proof fn lemma_without_user_count(slots: Seq<RealPoolInfoView>, user: Seq<char>, other: Seq<char>)
    ensures
        count_of(user_ids(without_user(slots, user)), other) == if other == user {
            0
        } else {
            count_of(user_ids(slots), other)
        },
        without_user(slots, user).len() <= slots.len(),
        count_of(user_ids(slots), user) == 0 ==> without_user(slots, user) == slots,
        without_user(slots, user).len() + count_of(user_ids(slots), user) == slots.len(),
    decreases slots.len(),
{
    if slots.len() > 0 {
        lemma_without_user_count(slots.drop_last(), user, other);
        let rest = without_user(slots.drop_last(), user);
        assert(user_ids(slots).drop_last() =~= user_ids(slots.drop_last()));
        assert(user_ids(slots).last() == slots.last().user_bot_data.user_id);
        if slots.last().user_bot_data.user_id != user {
            let kept = rest.push(slots.last());
            assert(user_ids(kept).drop_last() =~= user_ids(rest));
            assert(user_ids(kept).last() == slots.last().user_bot_data.user_id);
            if count_of(user_ids(slots), user) == 0 {
                assert(slots.drop_last().push(slots.last()) =~= slots);
            }
        }
    }
}

/// Removing a user keeps what holds of each slot that stays.
pub proof fn lemma_without_user_keeps(slots: Seq<RealPoolInfoView>, user: Seq<char>, pool: Seq<char>)
    requires
        forall|i: int|
            0 <= i < slots.len() ==> (#[trigger] slots[i]).wf() && slots[i].user_bot_data.pool_id
                == pool,
    ensures
        forall|i: int|
            0 <= i < without_user(slots, user).len() ==> (#[trigger] without_user(
                slots,
                user,
            )[i]).wf() && without_user(slots, user)[i].user_bot_data.pool_id == pool,
    decreases slots.len(),
{
    if slots.len() > 0 {
        assert forall|i: int| 0 <= i < slots.drop_last().len() implies (
        #[trigger] slots.drop_last()[i]).wf() && slots.drop_last()[i].user_bot_data.pool_id
            == pool by {
            assert(slots.drop_last()[i] == slots[i]);
        }
        lemma_without_user_keeps(slots.drop_last(), user, pool);
        assert(slots.last() == slots[slots.len() - 1]);
    }
}

/// Removing a user from a well-formed store leaves a well-formed store in
/// which the user has no slot, and makes no pool occur more often.
pub proof fn lemma_remove_user_wf(buckets: Seq<PoolBucketView>, user: Seq<char>)
    requires
        store_wf(buckets),
    ensures
        store_wf(spec_remove_user(buckets, user)),
        forall|pool: Seq<char>| #[trigger]
            count_of(pool_ids(spec_remove_user(buckets, user)), pool) <= count_of(
                pool_ids(buckets),
                pool,
            ),
        forall|b: int|
            0 <= b < spec_remove_user(buckets, user).len() ==> count_of(
                user_ids(#[trigger] spec_remove_user(buckets, user)[b].slots),
                user,
            ) == 0,
        count_user_slots(spec_remove_user(buckets, user), user) == 0,
    decreases buckets.len(),
{
    if buckets.len() > 0 {
        let front = buckets.drop_last();
        let last = buckets.last();
        assert(pool_ids(buckets).drop_last() =~= pool_ids(front));
        assert(pool_ids(buckets).last() == last.pool_id);
        assert(store_wf(front)) by {
            assert forall|b: int| 0 <= b < front.len() implies bucket_wf(#[trigger] front[b]) by {
                assert(front[b] == buckets[b]);
            }
            assert forall|pool: Seq<char>| #[trigger]
                count_of(pool_ids(front), pool) <= 1 by {
                assert(count_of(pool_ids(buckets), pool) <= 1);
            }
        }
        lemma_remove_user_wf(front, user);
        let rest = spec_remove_user(front, user);
        let kept = without_user(last.slots, user);
        let out = spec_remove_user(buckets, user);
        assert(bucket_wf(last)) by {
            assert(last == buckets[buckets.len() - 1]);
        }
        lemma_without_user_count(last.slots, user, user);
        if kept.len() > 0 {
            let bucket = PoolBucketView { pool_id: last.pool_id, slots: kept };
            assert(out == rest.push(bucket));
            assert(pool_ids(out).drop_last() =~= pool_ids(rest));
            assert(pool_ids(out).last() == last.pool_id);
            assert(out.drop_last() =~= rest);
            assert(bucket_wf(bucket)) by {
                lemma_without_user_keeps(last.slots, user, last.pool_id);
                assert forall|other: Seq<char>| #[trigger]
                    count_of(user_ids(kept), other) <= 1 by {
                    lemma_without_user_count(last.slots, user, other);
                    assert(count_of(user_ids(last.slots), other) <= 1);
                }
            }
            assert forall|b: int| 0 <= b < out.len() implies bucket_wf(#[trigger] out[b])
                && count_of(user_ids(out[b].slots), user) == 0 by {
                if b < rest.len() {
                    assert(out[b] == rest[b]);
                }
            }
            assert forall|pool: Seq<char>| #[trigger]
                count_of(pool_ids(out), pool) <= count_of(pool_ids(buckets), pool) by {
                assert(count_of(pool_ids(rest), pool) <= count_of(pool_ids(front), pool));
            }
        } else {
            assert forall|pool: Seq<char>| #[trigger]
                count_of(pool_ids(out), pool) <= count_of(pool_ids(buckets), pool) by {
                assert(count_of(pool_ids(rest), pool) <= count_of(pool_ids(front), pool));
            }
        }
        assert forall|pool: Seq<char>| #[trigger] count_of(pool_ids(out), pool) <= 1 by {
            assert(count_of(pool_ids(out), pool) <= count_of(pool_ids(buckets), pool));
            assert(count_of(pool_ids(buckets), pool) <= 1);
        }
    }
}

/// Replacing one bucket changes the totals by what that bucket changes.
pub proof fn lemma_update_totals(
    buckets: Seq<PoolBucketView>,
    b: int,
    bucket: PoolBucketView,
    user: Seq<char>,
)
    requires
        0 <= b < buckets.len(),
    ensures
        total_slots(buckets.update(b, bucket)) + buckets[b].slots.len() == total_slots(buckets)
            + bucket.slots.len(),
        count_user_slots(buckets.update(b, bucket), user) + count_of(
            user_ids(buckets[b].slots),
            user,
        ) == count_user_slots(buckets, user) + count_of(user_ids(bucket.slots), user),
    decreases buckets.len(),
{
    let out = buckets.update(b, bucket);
    if b == buckets.len() - 1 {
        assert(out.drop_last() =~= buckets.drop_last());
    } else {
        assert(out.drop_last() =~= buckets.drop_last().update(b, bucket));
        assert(buckets.drop_last()[b] == buckets[b]);
        lemma_update_totals(buckets.drop_last(), b, bucket, user);
    }
}

/// Adding a slot for a user who has none in the slot's pool keeps the store
/// well formed and adds one to the totals.
pub proof fn lemma_insert_wf(buckets: Seq<PoolBucketView>, slot: RealPoolInfoView)
    requires
        store_wf(buckets),
        slot.wf(),
        slot_position(buckets, slot.user_bot_data.pool_id, slot.user_bot_data.user_id) is None,
    ensures
        store_wf(spec_insert(buckets, slot)),
        total_slots(spec_insert(buckets, slot)) == total_slots(buckets) + 1,
        count_user_slots(spec_insert(buckets, slot), slot.user_bot_data.user_id)
            == count_user_slots(buckets, slot.user_bot_data.user_id) + 1,
        slot_position(
            spec_insert(buckets, slot),
            slot.user_bot_data.pool_id,
            slot.user_bot_data.user_id,
        ) == Some(
            (
                index_of(pool_ids(buckets), slot.user_bot_data.pool_id),
                if index_of(pool_ids(buckets), slot.user_bot_data.pool_id) < buckets.len() {
                    buckets[index_of(pool_ids(buckets), slot.user_bot_data.pool_id)].slots.len() as int
                } else {
                    0
                },
            ),
        ),
        spec_lookup(
            spec_insert(buckets, slot),
            slot.user_bot_data.pool_id,
            slot.user_bot_data.user_id,
        ) == Some(slot),
{
    let pool = slot.user_bot_data.pool_id;
    let user = slot.user_bot_data.user_id;
    let out = spec_insert(buckets, slot);
    let b = index_of(pool_ids(buckets), pool);
    lemma_index_of(pool_ids(buckets), pool);
    if b < buckets.len() {
        let old_slots = buckets[b].slots;
        let bucket = PoolBucketView { pool_id: buckets[b].pool_id, slots: old_slots.push(slot) };
        assert(pool_ids(out) =~= pool_ids(buckets));
        assert(pool_ids(buckets)[b] == pool);
        assert(bucket_wf(buckets[b]));
        lemma_index_of(user_ids(old_slots), user);
        assert(user_ids(bucket.slots).drop_last() =~= user_ids(old_slots));
        assert(user_ids(bucket.slots).last() == user);
        assert(bucket_wf(bucket)) by {
            assert forall|i: int| 0 <= i < bucket.slots.len() implies (
            #[trigger] bucket.slots[i]).wf() && bucket.slots[i].user_bot_data.pool_id
                == bucket.pool_id by {
                if i < old_slots.len() {
                    assert(bucket.slots[i] == old_slots[i]);
                }
            }
            assert forall|other: Seq<char>| #[trigger]
                count_of(user_ids(bucket.slots), other) <= 1 by {
                assert(count_of(user_ids(old_slots), other) <= 1);
            }
        }
        assert forall|k: int| 0 <= k < out.len() implies bucket_wf(#[trigger] out[k]) by {
            if k != b {
                assert(out[k] == buckets[k]);
            }
        }
        lemma_update_totals(buckets, b, bucket, user);
        assert forall|j: int| 0 <= j < old_slots.len() implies user_ids(bucket.slots)[j]
            != user by {
            assert(user_ids(old_slots)[j] != user);
        }
        lemma_index_of_is(user_ids(bucket.slots), user, old_slots.len() as int);
    } else {
        let bucket = PoolBucketView { pool_id: pool, slots: seq![slot] };
        assert(pool_ids(out).drop_last() =~= pool_ids(buckets));
        assert(pool_ids(out).last() == pool);
        assert(out.drop_last() =~= buckets);
        assert(user_ids(bucket.slots).drop_last() =~= Seq::<Seq<char>>::empty());
        assert(user_ids(bucket.slots).last() == user);
        assert(count_of(Seq::<Seq<char>>::empty(), user) == 0);
        assert(bucket_wf(bucket)) by {
            assert forall|other: Seq<char>| #[trigger]
                count_of(user_ids(bucket.slots), other) <= 1 by {
                assert(count_of(Seq::<Seq<char>>::empty(), other) == 0);
            }
        }
        assert forall|k: int| 0 <= k < out.len() implies bucket_wf(#[trigger] out[k]) by {
            if k < buckets.len() {
                assert(out[k] == buckets[k]);
            }
        }
        assert forall|other: Seq<char>| #[trigger] count_of(pool_ids(out), other) <= 1 by {
            assert(count_of(pool_ids(buckets), other) <= 1);
        }
        assert forall|j: int| 0 <= j < buckets.len() implies pool_ids(out)[j] != pool by {
            assert(pool_ids(buckets)[j] != pool);
        }
        lemma_index_of_is(pool_ids(out), pool, buckets.len() as int);
        lemma_index_of_is(user_ids(bucket.slots), user, 0);
    }
}

/// A user without slots in any bucket has no slot in any pool.
pub proof fn lemma_absent_user(buckets: Seq<PoolBucketView>, pool: Seq<char>, user: Seq<char>)
    requires
        forall|b: int|
            0 <= b < buckets.len() ==> count_of(user_ids(#[trigger] buckets[b].slots), user) == 0,
    ensures
        slot_position(buckets, pool, user) is None,
{
    let b = index_of(pool_ids(buckets), pool);
    lemma_index_of(pool_ids(buckets), pool);
    if b < buckets.len() {
        assert(count_of(user_ids(buckets[b].slots), user) == 0);
        lemma_index_of(user_ids(buckets[b].slots), user);
    }
}

/// Position of the slot of `user_id` among `slots`.
pub fn find_user(slots: &Vec<RealPoolInfo>, user_id: &String) -> (out: Option<usize>)
    ensures
        match out {
            Some(i) => i < slots.len() && i == index_of(user_ids(slots_view(slots@)), user_id@),
            None => index_of(user_ids(slots_view(slots@)), user_id@) == slots.len(),
        },
{
    let ghost ids = user_ids(slots_view(slots@));
    let mut i: usize = 0;
    while i < slots.len()
        invariant
            i <= slots.len(),
            ids == user_ids(slots_view(slots@)),
            forall|j: int| 0 <= j < i ==> ids[j] != user_id@,
        decreases slots.len() - i,
    {
        if slots[i].user_bot_data.user_id == *user_id {
            proof {
                assert(ids[i as int] == user_id@);
                lemma_index_of_is(ids, user_id@, i as int);
            }
            return Some(i);
        }
        assert(ids[i as int] != user_id@);
        i += 1;
    }
    proof {
        lemma_index_of_is(ids, user_id@, slots.len() as int);
    }
    None
}

impl PositionStore {
    /// Whether the store is well formed.
    pub open spec fn wf(&self) -> bool {
        store_wf(self@)
    }

    /// A store without slots.
    pub fn new() -> (out: Self)
        ensures
            out@ == Seq::<PoolBucketView>::empty(),
            out.wf(),
    {
        let out = PositionStore { pools: Vec::new() };
        assert(out@ =~= Seq::<PoolBucketView>::empty());
        assert(pool_ids(out@) =~= Seq::<Seq<char>>::empty());
        out
    }

    /// Position of the bucket of `pool_id`.
    pub fn find_pool(&self, pool_id: &String) -> (out: Option<usize>)
        ensures
            match out {
                Some(b) => b < self.pools.len() && b == index_of(pool_ids(self@), pool_id@),
                None => index_of(pool_ids(self@), pool_id@) == self.pools.len(),
            },
    {
        let ghost ids = pool_ids(self@);
        let mut b: usize = 0;
        while b < self.pools.len()
            invariant
                b <= self.pools.len(),
                ids == pool_ids(self@),
                forall|j: int| 0 <= j < b ==> ids[j] != pool_id@,
            decreases self.pools.len() - b,
        {
            if self.pools[b].pool_id == *pool_id {
                proof {
                    assert(ids[b as int] == pool_id@);
                    lemma_index_of_is(ids, pool_id@, b as int);
                }
                return Some(b);
            }
            assert(ids[b as int] != pool_id@);
            b += 1;
        }
        proof {
            lemma_index_of_is(ids, pool_id@, self.pools.len() as int);
        }
        None
    }

    /// Where the slot of `user_id` in `pool_id` stands.
    pub fn find_slot(&self, pool_id: &String, user_id: &String) -> (out: Option<(usize, usize)>)
        ensures
            match out {
                Some((b, i)) => b < self.pools.len() && i < self.pools[b as int].slots.len()
                    && slot_position(self@, pool_id@, user_id@) == Some((b as int, i as int)),
                None => slot_position(self@, pool_id@, user_id@) is None,
            },
    {
        match self.find_pool(pool_id) {
            Some(b) => match find_user(&self.pools[b].slots, user_id) {
                Some(i) => Some((b, i)),
                None => None,
            },
            None => None,
        }
    }

    /// The slot of `user_id` in `pool_id`, if there is one.
    pub fn get(&self, pool_id: &String, user_id: &String) -> (out: Option<&RealPoolInfo>)
        ensures
            out is Some == spec_lookup(self@, pool_id@, user_id@) is Some,
            out is Some ==> Some(out->Some_0@) == spec_lookup(self@, pool_id@, user_id@),
    {
        match self.find_slot(pool_id, user_id) {
            Some((b, i)) => Some(&self.pools[b].slots[i]),
            None => None,
        }
    }

    /// Whether `pool_id` has a bucket.
    pub fn contains_pool(&self, pool_id: &String) -> (out: bool)
        ensures
            out == (index_of(pool_ids(self@), pool_id@) < self@.len()),
    {
        self.find_pool(pool_id).is_some()
    }

    /// How many slots the store holds.
    pub fn slot_count(&self) -> (out: u128)
        ensures
            out == total_slots(self@),
    {
        let mut total: u128 = 0;
        let mut b: usize = 0;
        while b < self.pools.len()
            invariant
                b <= self.pools.len(),
                total == total_slots(self@.subrange(0, b as int)),
                total <= b * usize::MAX,
            decreases self.pools.len() - b,
        {
            proof {
                let next = self@.subrange(0, b as int + 1);
                assert(next.drop_last() =~= self@.subrange(0, b as int));
                assert(next.last().slots.len() == self.pools[b as int].slots.len());
                assert((b + 1) * usize::MAX == b * usize::MAX + usize::MAX) by (nonlinear_arith);
                assert(b * usize::MAX <= 0xFFFF_FFFF_FFFF_FFFF * 0xFFFF_FFFF_FFFF_FFFF)
                    by (nonlinear_arith)
                    requires
                        b < 0xFFFF_FFFF_FFFF_FFFF,
                        usize::MAX <= 0xFFFF_FFFF_FFFF_FFFF,
                ;
            }
            total = total + self.pools[b].slots.len() as u128;
            b += 1;
        }
        assert(self@.subrange(0, b as int) =~= self@);
        total
    }

    /// Adds `slot` unless its user has a slot in its pool, and tells where
    /// the slot of that user in that pool stands afterwards.
    pub fn insert_if_absent(&mut self, slot: RealPoolInfo) -> (out: (usize, usize))
        requires
            old(self).wf(),
            slot@.wf(),
        ensures
            final(self)@ == spec_insert_if_absent(old(self)@, slot@),
            final(self).wf(),
            out.0 < final(self).pools.len(),
            out.1 < final(self).pools[out.0 as int].slots.len(),
            slot_position(
                final(self)@,
                slot@.user_bot_data.pool_id,
                slot@.user_bot_data.user_id,
            ) == Some((out.0 as int, out.1 as int)),
    {
        let ghost before = self@;
        proof {
            lemma_index_of(pool_ids(before), slot@.user_bot_data.pool_id);
        }
        match self.find_pool(&slot.user_bot_data.pool_id) {
            Some(b) => {
                match find_user(&self.pools[b].slots, &slot.user_bot_data.user_id) {
                    Some(i) => (b, i),
                    None => {
                        let i = self.pools[b].slots.len();
                        proof {
                            lemma_insert_wf(before, slot@);
                        }
                        self.pools[b].slots.push(slot);
                        assert(self@ =~= spec_insert(before, slot@)) by {
                            assert(self@[b as int].slots =~= before[b as int].slots.push(slot@));
                            assert forall|k: int| 0 <= k < self@.len() && k != b implies self@[k]
                                == before[k] by {
                                assert(self.pools@[k] == old(self).pools@[k]);
                            }
                        }
                        (b, i)
                    },
                }
            },
            None => {
                let b = self.pools.len();
                let pool_id = clone_string(&slot.user_bot_data.pool_id);
                proof {
                    lemma_insert_wf(before, slot@);
                }
                let mut slots: Vec<RealPoolInfo> = Vec::new();
                slots.push(slot);
                self.pools.push(PoolBucket { pool_id, slots });
                assert(self@ =~= spec_insert(before, slot@)) by {
                    assert(self@[b as int].slots =~= seq![slot@]);
                    assert forall|k: int| 0 <= k < before.len() implies self@[k] == before[k] by {
                        assert(self.pools@[k] == old(self).pools@[k]);
                    }
                }
                (b, 0)
            },
        }
    }

    /// Removes every slot of `user_id`, and every bucket that this leaves
    /// empty.
    pub fn remove_user(&mut self, user_id: &String)
        requires
            old(self).wf(),
        ensures
            final(self)@ == spec_remove_user(old(self)@, user_id@),
            final(self).wf(),
            count_user_slots(final(self)@, user_id@) == 0,
            forall|pool: Seq<char>| slot_position(final(self)@, pool, user_id@) is None,
    {
        let ghost before = self@;
        let mut kept_pools: Vec<PoolBucket> = Vec::new();
        let mut b: usize = 0;
        while b < self.pools.len()
            invariant
                b <= self.pools.len(),
                self@ == before,
                buckets_view(kept_pools@) == spec_remove_user(
                    before.subrange(0, b as int),
                    user_id@,
                ),
            decreases self.pools.len() - b,
        {
            let ghost all = before[b as int].slots;
            let mut kept: Vec<RealPoolInfo> = Vec::new();
            let mut i: usize = 0;
            while i < self.pools[b as usize].slots.len()
                invariant
                    b < self.pools.len(),
                    i <= self.pools[b as int].slots.len(),
                    self@ == before,
                    all == before[b as int].slots,
                    all.len() == self.pools[b as int].slots.len(),
                    slots_view(kept@) == without_user(all.subrange(0, i as int), user_id@),
                decreases self.pools[b as int].slots.len() - i,
            {
                let ghost prefix = all.subrange(0, i as int + 1);
                assert(prefix.drop_last() =~= all.subrange(0, i as int));
                assert(prefix.last() == self.pools[b as int].slots[i as int]@);
                if !(self.pools[b].slots[i].user_bot_data.user_id == *user_id) {
                    let copy = self.pools[b].slots[i].clone();
                    let ghost kept_before = slots_view(kept@);
                    kept.push(copy);
                    assert(slots_view(kept@) =~= kept_before.push(copy@));
                }
                i += 1;
            }
            assert(all.subrange(0, i as int) =~= all);
            let ghost prefix = before.subrange(0, b as int + 1);
            assert(prefix.drop_last() =~= before.subrange(0, b as int));
            assert(prefix.last() == before[b as int]);
            if kept.len() > 0 {
                let pool_id = clone_string(&self.pools[b].pool_id);
                let ghost pools_before = buckets_view(kept_pools@);
                let bucket = PoolBucket { pool_id, slots: kept };
                kept_pools.push(bucket);
                assert(buckets_view(kept_pools@) =~= pools_before.push(
                    PoolBucketView {
                        pool_id: before[b as int].pool_id,
                        slots: without_user(all, user_id@),
                    },
                ));
            }
            b += 1;
        }
        assert(before.subrange(0, b as int) =~= before);
        proof {
            lemma_remove_user_wf(before, user_id@);
            assert forall|pool: Seq<char>|
                slot_position(spec_remove_user(before, user_id@), pool, user_id@) is None by {
                lemma_absent_user(spec_remove_user(before, user_id@), pool, user_id@);
            }
        }
        self.pools = kept_pools;
    }

    /// Activates `user` at `now_ms`: what the user had is removed, and a
    /// fresh armed slot is added to the pool of `user`.
    pub fn activate(&mut self, user: UserBotData, now_ms: i64)
        requires
            old(self).wf(),
        ensures
            final(self)@ == spec_activate(old(self)@, user@, now_ms),
            final(self).wf(),
            count_user_slots(final(self)@, user@.user_id) == 1,
            spec_lookup(final(self)@, user@.pool_id, user@.user_id) == Some(
                armed_slot(user@, now_ms),
            ),
    {
        self.remove_user(&user.user_id);
        let ghost cleared = self@;
        let slot = RealPoolInfo::new(user, now_ms);
        proof {
            lemma_insert_wf(cleared, slot@);
        }
        self.insert_if_absent(slot);
    }
}

/// A well-formed store without its last bucket is well formed.
pub proof fn lemma_store_wf_front(buckets: Seq<PoolBucketView>)
    requires
        store_wf(buckets),
        buckets.len() > 0,
    ensures
        store_wf(buckets.drop_last()),
        bucket_wf(buckets.last()),
        forall|pool: Seq<char>| #[trigger]
            count_of(pool_ids(buckets), pool) == count_of(pool_ids(buckets.drop_last()), pool)
                + if buckets.last().pool_id == pool {
                1nat
            } else {
                0nat
            },
{
    let front = buckets.drop_last();
    assert(pool_ids(buckets).drop_last() =~= pool_ids(front));
    assert(pool_ids(buckets).last() == buckets.last().pool_id);
    assert(buckets.last() == buckets[buckets.len() - 1]);
    assert forall|b: int| 0 <= b < front.len() implies bucket_wf(#[trigger] front[b]) by {
        assert(front[b] == buckets[b]);
    }
    assert forall|pool: Seq<char>| #[trigger] count_of(pool_ids(front), pool) <= 1 by {
        assert(count_of(pool_ids(buckets), pool) <= 1);
    }
}

/// A pool without a bucket has no slots.
pub proof fn lemma_count_slots_absent(buckets: Seq<PoolBucketView>, pool: Seq<char>, user: Seq<char>)
    requires
        count_of(pool_ids(buckets), pool) == 0,
    ensures
        count_slots(buckets, pool, user) == 0,
    decreases buckets.len(),
{
    if buckets.len() > 0 {
        assert(pool_ids(buckets).drop_last() =~= pool_ids(buckets.drop_last()));
        assert(pool_ids(buckets).last() == buckets.last().pool_id);
        lemma_count_slots_absent(buckets.drop_last(), pool, user);
    }
}

/// In a well-formed store no user has more than one slot in a pool.
pub proof fn law_slot_unique(buckets: Seq<PoolBucketView>, pool: Seq<char>, user: Seq<char>)
    requires
        store_wf(buckets),
    ensures
        count_slots(buckets, pool, user) <= 1,
    decreases buckets.len(),
{
    if buckets.len() > 0 {
        lemma_store_wf_front(buckets);
        let front = buckets.drop_last();
        law_slot_unique(front, pool, user);
        if buckets.last().pool_id == pool {
            assert(count_of(pool_ids(buckets), pool) <= 1);
            assert(count_of(pool_ids(front), pool) == 0);
            lemma_count_slots_absent(front, pool, user);
            assert(count_of(user_ids(buckets.last().slots), user) <= 1);
        }
    }
}

/// Removing a user undoes, bucket by bucket, whatever added only slots of
/// that user to buckets that had others.
pub proof fn lemma_remove_user_pointwise(
    buckets: Seq<PoolBucketView>,
    grown: Seq<PoolBucketView>,
    user: Seq<char>,
)
    requires
        buckets.len() == grown.len(),
        forall|k: int|
            0 <= k < buckets.len() ==> (#[trigger] grown[k]).pool_id == buckets[k].pool_id
                && without_user(grown[k].slots, user) == buckets[k].slots && buckets[k].slots.len()
                > 0,
    ensures
        spec_remove_user(grown, user) == buckets,
    decreases buckets.len(),
{
    if buckets.len() > 0 {
        let last = buckets.len() - 1;
        assert forall|k: int| 0 <= k < buckets.drop_last().len() implies (
        #[trigger] grown.drop_last()[k]).pool_id == buckets.drop_last()[k].pool_id
            && without_user(grown.drop_last()[k].slots, user) == buckets.drop_last()[k].slots
            && buckets.drop_last()[k].slots.len() > 0 by {
            assert(grown.drop_last()[k] == grown[k]);
            assert(buckets.drop_last()[k] == buckets[k]);
        }
        lemma_remove_user_pointwise(buckets.drop_last(), grown.drop_last(), user);
        assert(grown.last() == grown[last]);
        assert(buckets.drop_last().push(buckets[last]) =~= buckets);
    } else {
        assert(grown =~= buckets);
    }
}

/// Activating a user who has no slot and then removing the user gives back
/// the store as it was, and so its number of slots.
pub proof fn law_activate_then_stop_restores(
    buckets: Seq<PoolBucketView>,
    user: UserBotDataView,
    now_ms: i64,
)
    requires
        store_wf(buckets),
        forall|b: int|
            0 <= b < buckets.len() ==> count_of(
                user_ids(#[trigger] buckets[b].slots),
                user.user_id,
            ) == 0,
    ensures
        spec_remove_user(spec_activate(buckets, user, now_ms), user.user_id) == buckets,
        total_slots(spec_activate(buckets, user, now_ms)) == total_slots(buckets) + 1,
        total_slots(spec_remove_user(spec_activate(buckets, user, now_ms), user.user_id))
            == total_slots(buckets),
{
    let u = user.user_id;
    let slot = armed_slot(user, now_ms);
    assert forall|k: int| 0 <= k < buckets.len() implies (#[trigger] buckets[k]).pool_id
        == buckets[k].pool_id && without_user(buckets[k].slots, u) == buckets[k].slots
        && buckets[k].slots.len() > 0 by {
        lemma_without_user_count(buckets[k].slots, u, u);
        assert(bucket_wf(buckets[k]));
    }
    lemma_remove_user_pointwise(buckets, buckets, u);
    assert(spec_activate(buckets, user, now_ms) == spec_insert(buckets, slot));
    lemma_absent_user(buckets, slot.user_bot_data.pool_id, u);
    lemma_insert_wf(buckets, slot);
    let grown = spec_insert(buckets, slot);
    let b = index_of(pool_ids(buckets), user.pool_id);
    lemma_index_of(pool_ids(buckets), user.pool_id);
    if b < buckets.len() {
        assert forall|k: int| 0 <= k < buckets.len() implies (#[trigger] grown[k]).pool_id
            == buckets[k].pool_id && without_user(grown[k].slots, u) == buckets[k].slots
            && buckets[k].slots.len() > 0 by {
            assert(bucket_wf(buckets[k]));
            lemma_without_user_count(buckets[k].slots, u, u);
            if k == b {
                assert(grown[k].slots.drop_last() =~= buckets[k].slots);
            }
        }
        lemma_remove_user_pointwise(buckets, grown, u);
    } else {
        assert(grown.drop_last() =~= buckets);
        assert(grown.last().slots.drop_last() =~= Seq::<RealPoolInfoView>::empty());
        assert(without_user(Seq::<RealPoolInfoView>::empty(), u).len() == 0);
        assert(without_user(grown.last().slots, u).len() == 0);
    }
}

/// Activating a user twice, in whatever pools, leaves the user exactly one
/// slot.
pub proof fn law_activate_twice_one_slot(
    buckets: Seq<PoolBucketView>,
    first: UserBotDataView,
    second: UserBotDataView,
    first_ms: i64,
    second_ms: i64,
)
    requires
        store_wf(buckets),
        first.user_id == second.user_id,
    ensures
        store_wf(spec_activate(spec_activate(buckets, first, first_ms), second, second_ms)),
        count_user_slots(
            spec_activate(spec_activate(buckets, first, first_ms), second, second_ms),
            second.user_id,
        ) == 1,
{
    lemma_activate_wf(buckets, first, first_ms);
    lemma_activate_wf(spec_activate(buckets, first, first_ms), second, second_ms);
}

/// Activation keeps the store well formed and leaves the user one slot.
pub proof fn lemma_activate_wf(buckets: Seq<PoolBucketView>, user: UserBotDataView, now_ms: i64)
    requires
        store_wf(buckets),
    ensures
        store_wf(spec_activate(buckets, user, now_ms)),
        count_user_slots(spec_activate(buckets, user, now_ms), user.user_id) == 1,
{
    let cleared = spec_remove_user(buckets, user.user_id);
    lemma_remove_user_wf(buckets, user.user_id);
    lemma_absent_user(cleared, user.pool_id, user.user_id);
    lemma_insert_wf(cleared, armed_slot(user, now_ms));
}

/// `buckets` with the slot at place `i` of bucket `b` replaced by `slot`.
pub open spec fn spec_set_slot(
    buckets: Seq<PoolBucketView>,
    b: int,
    i: int,
    slot: RealPoolInfoView,
) -> Seq<PoolBucketView> {
    buckets.update(
        b,
        PoolBucketView { pool_id: buckets[b].pool_id, slots: buckets[b].slots.update(i, slot) },
    )
}

/// Replacing a slot by a well-formed one of the same user and pool keeps the
/// store well formed, and every slot where it stood.
pub proof fn lemma_set_slot_wf(buckets: Seq<PoolBucketView>, b: int, i: int, slot: RealPoolInfoView)
    requires
        store_wf(buckets),
        0 <= b < buckets.len(),
        0 <= i < buckets[b].slots.len(),
        slot.wf(),
        slot.user_bot_data.user_id == buckets[b].slots[i].user_bot_data.user_id,
        slot.user_bot_data.pool_id == buckets[b].slots[i].user_bot_data.pool_id,
    ensures
        store_wf(spec_set_slot(buckets, b, i, slot)),
        pool_ids(spec_set_slot(buckets, b, i, slot)) == pool_ids(buckets),
        forall|pool: Seq<char>, user: Seq<char>|
            slot_position(spec_set_slot(buckets, b, i, slot), pool, user) == slot_position(
                buckets,
                pool,
                user,
            ),
        total_slots(spec_set_slot(buckets, b, i, slot)) == total_slots(buckets),
{
    let out = spec_set_slot(buckets, b, i, slot);
    let bucket = out[b];
    assert(pool_ids(out) =~= pool_ids(buckets));
    assert(bucket_wf(buckets[b]));
    assert(user_ids(bucket.slots) =~= user_ids(buckets[b].slots));
    assert(bucket_wf(bucket)) by {
        assert forall|k: int| 0 <= k < bucket.slots.len() implies (#[trigger] bucket.slots[k]).wf()
            && bucket.slots[k].user_bot_data.pool_id == bucket.pool_id by {
            if k != i {
                assert(bucket.slots[k] == buckets[b].slots[k]);
            } else {
                assert(buckets[b].slots[i].user_bot_data.pool_id == buckets[b].pool_id);
            }
        }
        assert forall|user: Seq<char>| #[trigger]
            count_of(user_ids(bucket.slots), user) <= 1 by {
            assert(count_of(user_ids(buckets[b].slots), user) <= 1);
        }
    }
    assert forall|k: int| 0 <= k < out.len() implies bucket_wf(#[trigger] out[k]) by {
        if k != b {
            assert(out[k] == buckets[k]);
        }
    }
    assert forall|pool: Seq<char>, user: Seq<char>|
        slot_position(out, pool, user) == slot_position(buckets, pool, user) by {
        let p = index_of(pool_ids(buckets), pool);
        lemma_index_of(pool_ids(buckets), pool);
        if p < buckets.len() && p != b {
            assert(out[p] == buckets[p]);
        }
    }
    lemma_update_totals(buckets, b, bucket, Seq::empty());
}

/// Whether no identifier stands at two places of `ids`.
pub open spec fn all_distinct(ids: Seq<Seq<char>>) -> bool {
    forall|i: int, j: int| 0 <= i < j < ids.len() ==> ids[i] != ids[j]
}

/// No identifier stands at two places exactly where none occurs twice.
pub proof fn lemma_distinct_iff_counts(ids: Seq<Seq<char>>)
    ensures
        all_distinct(ids) <==> forall|id: Seq<char>| #[trigger] count_of(ids, id) <= 1,
    decreases ids.len(),
{
    if all_distinct(ids) {
        assert forall|id: Seq<char>| #[trigger] count_of(ids, id) <= 1 by {
            if ids.len() > 0 {
                let front = ids.drop_last();
                assert(all_distinct(front)) by {
                    assert forall|i: int, j: int| 0 <= i < j < front.len() implies front[i]
                        != front[j] by {
                        assert(front[i] == ids[i] && front[j] == ids[j]);
                    }
                }
                lemma_distinct_iff_counts(front);
                assert(count_of(front, id) <= 1);
                if ids.last() == id {
                    lemma_index_of(front, id);
                    let k = index_of(front, id);
                    if k < front.len() {
                        assert(front[k] == ids[k]);
                        assert(ids[k] != ids[ids.len() - 1]);
                    }
                }
            }
        }
    }
    if forall|id: Seq<char>| #[trigger] count_of(ids, id) <= 1 {
        assert forall|i: int, j: int| 0 <= i < j < ids.len() implies ids[i] != ids[j] by {
            if ids[i] == ids[j] {
                assert(count_of(ids, ids[i]) <= 1);
                lemma_count_unique(ids, i, j);
            }
        }
    }
}

/// A list of texts, as values.
pub open spec fn texts_view(texts: Seq<String>) -> Seq<Seq<char>> {
    Seq::new(texts.len(), |i: int| texts[i]@)
}

/// Whether no text stands at two places of `texts`.
pub fn distinct_texts(texts: &Vec<String>) -> (out: bool)
    ensures
        out == all_distinct(texts_view(texts@)),
{
    let ghost ids = texts_view(texts@);
    let mut j: usize = 0;
    while j < texts.len()
        invariant
            j <= texts.len(),
            ids == texts_view(texts@),
            forall|a: int, b: int| 0 <= a < b < j ==> ids[a] != ids[b],
        decreases texts.len() - j,
    {
        let mut i: usize = 0;
        while i < j
            invariant
                i <= j < texts.len(),
                ids == texts_view(texts@),
                forall|a: int| 0 <= a < i ==> ids[a] != ids[j as int],
            decreases j - i,
        {
            if texts[i] == texts[j] {
                assert(ids[i as int] == ids[j as int]);
                return false;
            }
            assert(ids[i as int] != ids[j as int]);
            i += 1;
        }
        j += 1;
    }
    true
}

fn bucket_is_well_formed(bucket: &PoolBucket) -> (out: bool)
    ensures
        out == bucket_wf(bucket@),
{
    if bucket.slots.len() == 0 {
        return false;
    }
    let mut users: Vec<String> = Vec::new();
    let mut i: usize = 0;
    while i < bucket.slots.len()
        invariant
            i <= bucket.slots.len(),
            users.len() == i,
            forall|k: int|
                0 <= k < i ==> (#[trigger] bucket@.slots[k]).wf()
                    && bucket@.slots[k].user_bot_data.pool_id == bucket@.pool_id,
            forall|k: int| 0 <= k < i ==> users[k]@ == bucket@.slots[k].user_bot_data.user_id,
        decreases bucket.slots.len() - i,
    {
        let slot = &bucket.slots[i];
        assert(bucket@.slots[i as int] == slot@);
        if !slot.is_well_formed() || !(slot.user_bot_data.pool_id == bucket.pool_id) {
            return false;
        }
        users.push(clone_string(&slot.user_bot_data.user_id));
        i += 1;
    }
    assert(texts_view(users@) =~= user_ids(bucket@.slots));
    proof {
        lemma_distinct_iff_counts(user_ids(bucket@.slots));
    }
    distinct_texts(&users)
}

impl PositionStore {
    /// Whether the store is well formed.
    pub fn is_well_formed(&self) -> (out: bool)
        ensures
            out == self.wf(),
    {
        let mut pools: Vec<String> = Vec::new();
        let mut b: usize = 0;
        while b < self.pools.len()
            invariant
                b <= self.pools.len(),
                pools.len() == b,
                forall|k: int| 0 <= k < b ==> bucket_wf(#[trigger] self@[k]),
                forall|k: int| 0 <= k < b ==> pools[k]@ == self@[k].pool_id,
            decreases self.pools.len() - b,
        {
            assert(self@[b as int] == self.pools[b as int]@);
            if !bucket_is_well_formed(&self.pools[b]) {
                return false;
            }
            pools.push(clone_string(&self.pools[b].pool_id));
            b += 1;
        }
        assert(texts_view(pools@) =~= pool_ids(self@));
        proof {
            lemma_distinct_iff_counts(pool_ids(self@));
        }
        distinct_texts(&pools)
    }
}

} // verus!

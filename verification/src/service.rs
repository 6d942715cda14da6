//! Starting and stopping bots, and what is done when a position is closed.
//!
//! The engine shares two structures: the registry of the active users and the
//! position store. A user is in the registry at most once.

use crate::error::{AppError, AppErrorView, AppResult};
use crate::slot::{spec_trade_record, RealPoolInfoView, TradeData};
use crate::store::{
    count_of, count_user_slots, lemma_index_of, lemma_index_of_is, slot_position, spec_activate,
    spec_lookup, spec_remove_user, store_wf, PoolBucketView, PositionStore,
};
use crate::strategy::{BotSettings, BotSettingsView, UserBotData, UserBotDataView};
use crate::text::clone_string;
use vstd::prelude::*;

verus! {

/// The state that the engine's tasks share.
#[derive(Debug)]
pub struct TradingState {
    /// The active users, in the order they were started.
    pub user_list: Vec<UserBotData>,
    /// The slots of the active users, by pool.
    pub real_pool_info: PositionStore,
}

/// Mathematical value of [`TradingState`].
pub struct TradingStateView {
    pub user_list: Seq<UserBotDataView>,
    pub real_pool_info: Seq<PoolBucketView>,
}

/// A list of users, as values.
pub open spec fn users_view(list: Seq<UserBotData>) -> Seq<UserBotDataView> {
    Seq::new(list.len(), |i: int| list[i]@)
}

/// The identifiers of a list of users.
pub open spec fn registry_ids(list: Seq<UserBotDataView>) -> Seq<Seq<char>> {
    Seq::new(list.len(), |i: int| list[i].user_id)
}

impl View for TradingState {
    type V = TradingStateView;

    open spec fn view(&self) -> TradingStateView {
        TradingStateView {
            user_list: users_view(self.user_list@),
            real_pool_info: self.real_pool_info@,
        }
    }
}

/// `list` without the entries of `user`, the others in their order.
pub open spec fn users_without(list: Seq<UserBotDataView>, user: Seq<char>) -> Seq<UserBotDataView>
    decreases list.len(),
{
    if list.len() == 0 {
        list
    } else {
        let rest = users_without(list.drop_last(), user);
        if list.last().user_id == user {
            rest
        } else {
            rest.push(list.last())
        }
    }
}

/// What holds of the shared state: the store is well formed and no user is
/// registered twice.
pub open spec fn state_wf(state: TradingStateView) -> bool {
    &&& store_wf(state.real_pool_info)
    &&& forall|user: Seq<char>| #[trigger] count_of(registry_ids(state.user_list), user) <= 1
}

/// Removing a user from the registry leaves none of that user's entries and
/// all of the others'.
pub proof fn lemma_users_without_count(list: Seq<UserBotDataView>, user: Seq<char>, other: Seq<char>)
    ensures
        count_of(registry_ids(users_without(list, user)), other) == if other == user {
            0
        } else {
            count_of(registry_ids(list), other)
        },
        count_of(registry_ids(list), user) == 0 ==> users_without(list, user) == list,
    decreases list.len(),
{
    if list.len() > 0 {
        lemma_users_without_count(list.drop_last(), user, other);
        let rest = users_without(list.drop_last(), user);
        assert(registry_ids(list).drop_last() =~= registry_ids(list.drop_last()));
        assert(registry_ids(list).last() == list.last().user_id);
        if list.last().user_id != user {
            let kept = rest.push(list.last());
            assert(registry_ids(kept).drop_last() =~= registry_ids(rest));
            assert(registry_ids(kept).last() == list.last().user_id);
            if count_of(registry_ids(list), user) == 0 {
                assert(list.drop_last().push(list.last()) =~= list);
            }
        }
    }
}

/// The state without anything of `user`.
pub open spec fn spec_cleanup(state: TradingStateView, user: Seq<char>) -> TradingStateView {
    TradingStateView {
        user_list: users_without(state.user_list, user),
        real_pool_info: spec_remove_user(state.real_pool_info, user),
    }
}

/// The state after `user` is started at `now_ms`: what the user had is
/// removed, then the user is registered and given a fresh armed slot.
pub open spec fn spec_started(
    state: TradingStateView,
    user: UserBotDataView,
    now_ms: i64,
) -> TradingStateView {
    TradingStateView {
        user_list: users_without(state.user_list, user.user_id).push(user),
        real_pool_info: spec_activate(state.real_pool_info, user, now_ms),
    }
}

impl TradingState {
    /// Whether the state is well formed.
    pub open spec fn wf(&self) -> bool {
        state_wf(self@)
    }

    /// A state without users.
    pub fn new() -> (out: Self)
        ensures
            out@.user_list == Seq::<UserBotDataView>::empty(),
            out@.real_pool_info == Seq::<PoolBucketView>::empty(),
            out.wf(),
    {
        let out = TradingState { user_list: Vec::new(), real_pool_info: PositionStore::new() };
        assert(out@.user_list =~= Seq::<UserBotDataView>::empty());
        assert(registry_ids(out@.user_list) =~= Seq::<Seq<char>>::empty());
        out
    }

    /// Whether the state is well formed.
    pub fn is_well_formed(&self) -> (out: bool)
        ensures
            out == self.wf(),
    {
        if !self.real_pool_info.is_well_formed() {
            return false;
        }
        let mut users: Vec<String> = Vec::new();
        let mut i: usize = 0;
        while i < self.user_list.len()
            invariant
                i <= self.user_list.len(),
                users.len() == i,
                forall|k: int| 0 <= k < i ==> users[k]@ == self@.user_list[k].user_id,
            decreases self.user_list.len() - i,
        {
            users.push(clone_string(&self.user_list[i].user_id));
            i += 1;
        }
        assert(crate::store::texts_view(users@) =~= registry_ids(self@.user_list));
        proof {
            crate::store::lemma_distinct_iff_counts(registry_ids(self@.user_list));
        }
        crate::store::distinct_texts(&users)
    }

    /// Whether `user_id` is registered.
    pub fn is_active(&self, user_id: &String) -> (out: bool)
        ensures
            out == (count_of(registry_ids(self@.user_list), user_id@) >= 1),
    {
        let ghost ids = registry_ids(self@.user_list);
        let mut i: usize = 0;
        while i < self.user_list.len()
            invariant
                i <= self.user_list.len(),
                ids == registry_ids(self@.user_list),
                forall|j: int| 0 <= j < i ==> ids[j] != user_id@,
            decreases self.user_list.len() - i,
        {
            if self.user_list[i].user_id == *user_id {
                proof {
                    assert(ids[i as int] == user_id@);
                    lemma_index_of_is(ids, user_id@, i as int);
                    lemma_index_of(ids, user_id@);
                }
                return true;
            }
            assert(ids[i as int] != user_id@);
            i += 1;
        }
        proof {
            lemma_index_of_is(ids, user_id@, ids.len() as int);
            lemma_index_of(ids, user_id@);
        }
        false
    }

    fn unregister(&mut self, user_id: &String)
        ensures
            final(self)@.user_list == users_without(old(self)@.user_list, user_id@),
            final(self).real_pool_info == old(self).real_pool_info,
    {
        let ghost before = self@.user_list;
        let mut kept: Vec<UserBotData> = Vec::new();
        let mut i: usize = 0;
        while i < self.user_list.len()
            invariant
                i <= self.user_list.len(),
                before == users_view(self.user_list@),
                users_view(kept@) == users_without(before.subrange(0, i as int), user_id@),
            decreases self.user_list.len() - i,
        {
            let ghost prefix = before.subrange(0, i as int + 1);
            assert(prefix.drop_last() =~= before.subrange(0, i as int));
            assert(prefix.last() == self.user_list[i as int]@);
            if !(self.user_list[i].user_id == *user_id) {
                let copy = self.user_list[i].clone();
                let ghost kept_before = users_view(kept@);
                kept.push(copy);
                assert(users_view(kept@) =~= kept_before.push(copy@));
            }
            i += 1;
        }
        assert(before.subrange(0, i as int) =~= before);
        self.user_list = kept;
    }

    /// Removes `user_id` from the registry and from every pool.
    pub fn simple_cleanup(&mut self, user_id: &String)
        requires
            old(self).wf(),
        ensures
            final(self)@ == spec_cleanup(old(self)@, user_id@),
            final(self).wf(),
            count_of(registry_ids(final(self)@.user_list), user_id@) == 0,
            count_user_slots(final(self)@.real_pool_info, user_id@) == 0,
    {
        proof {
            assert forall|other: Seq<char>| #[trigger]
                count_of(registry_ids(users_without(self@.user_list, user_id@)), other) <= 1 by {
                lemma_users_without_count(self@.user_list, user_id@, other);
                assert(count_of(registry_ids(self@.user_list), other) <= 1);
            }
            lemma_users_without_count(self@.user_list, user_id@, user_id@);
        }
        self.unregister(user_id);
        self.real_pool_info.remove_user(user_id);
    }

    /// Registers `user` and arms a slot for it at `now_ms`, in place of
    /// whatever the user had.
    pub fn activate(&mut self, user: UserBotData, now_ms: i64)
        requires
            old(self).wf(),
        ensures
            final(self)@ == spec_started(old(self)@, user@, now_ms),
            final(self).wf(),
            count_of(registry_ids(final(self)@.user_list), user@.user_id) == 1,
            count_user_slots(final(self)@.real_pool_info, user@.user_id) == 1,
    {
        let ghost before = self@.user_list;
        let ghost cleared = users_without(before, user@.user_id);
        proof {
            lemma_users_without_count(before, user@.user_id, user@.user_id);
            let grown = cleared.push(user@);
            assert(registry_ids(grown).drop_last() =~= registry_ids(cleared));
            assert(registry_ids(grown).last() == user@.user_id);
            assert forall|other: Seq<char>| #[trigger]
                count_of(registry_ids(grown), other) <= 1 by {
                lemma_users_without_count(before, user@.user_id, other);
                assert(count_of(registry_ids(before), other) <= 1);
            }
        }
        self.unregister(&user.user_id);
        let copy = user.clone();
        let ghost list_before = users_view(self.user_list@);
        self.user_list.push(copy);
        assert(users_view(self.user_list@) =~= list_before.push(user@));
        self.real_pool_info.activate(user, now_ms);
    }
}

/// The user that a bot runs for, with the settings of the user's first bot.
pub open spec fn spec_user_bot_data(
    user_id: Seq<char>,
    private_key: Seq<char>,
    public_key: Seq<char>,
    bot: BotSettingsView,
) -> UserBotDataView {
    UserBotDataView {
        pool_id: bot.pool_address,
        user_id,
        private_key,
        public_key,
        bot_setting: bot,
    }
}

/// `slot` with the order to leave at the next event.
pub open spec fn spec_forced(slot: RealPoolInfoView) -> RealPoolInfoView {
    RealPoolInfoView {
        user_bot_data: UserBotDataView {
            bot_setting: BotSettingsView { auto_exit: 0, ..slot.user_bot_data.bot_setting },
            ..slot.user_bot_data
        },
        ..slot
    }
}

/// The state after the user `user` is stopped in `pool`. A user who holds
/// tokens there stays, with the order to sell at the next event; any other
/// user is removed from the registry and from every pool.
pub open spec fn spec_stopped(
    state: TradingStateView,
    pool: Seq<char>,
    user: Seq<char>,
) -> TradingStateView {
    match slot_position(state.real_pool_info, pool, user) {
        Some((b, i)) => if state.real_pool_info[b].slots[i].is_bought {
            TradingStateView {
                real_pool_info: crate::store::spec_set_slot(
                    state.real_pool_info,
                    b,
                    i,
                    spec_forced(state.real_pool_info[b].slots[i]),
                ),
                ..state
            }
        } else {
            spec_cleanup(state, user)
        },
        None => spec_cleanup(state, user),
    }
}

/// The keys a user trades with, in base58.
#[derive(Debug)]
pub struct UserKeys {
    pub private_key: String,
    pub public_key: String,
}

/// Starts and stops bots.
pub struct BotService;

impl BotService {
    /// Starts the bot of `user_id` at `now_ms`, given what the repository
    /// holds of the user: the keys, and the bots in the order they were made.
    ///
    /// Whatever the user had in the engine is removed first. Then a user
    /// without keys or without a bot is refused; any other is registered and
    /// armed on the pool of the first bot.
    pub fn start_bot(
        state: &mut TradingState,
        user_id: &String,
        keys: Option<UserKeys>,
        bots: &Vec<BotSettings>,
        now_ms: i64,
    ) -> (out: AppResult<String>)
        requires
            old(state).wf(),
        ensures
            final(state).wf(),
            keys is None ==> out is Err && out->Err_0@ == AppErrorView::NotFound(
                "User not found"@,
            ) && final(state)@ == spec_cleanup(old(state)@, user_id@),
            keys is Some && bots.len() == 0 ==> out is Err && out->Err_0@
                == AppErrorView::NotFound("Bot not found"@) && final(state)@ == spec_cleanup(
                old(state)@,
                user_id@,
            ),
            keys is Some && bots.len() > 0 ==> out is Ok && out->Ok_0@ == "Started bot"@
                && final(state)@ == spec_started(
                spec_cleanup(old(state)@, user_id@),
                spec_user_bot_data(
                    user_id@,
                    keys->Some_0.private_key@,
                    keys->Some_0.public_key@,
                    bots[0]@,
                ),
                now_ms,
            ),
    {
        state.simple_cleanup(user_id);
        let keys = match keys {
            Some(keys) => keys,
            None => {
                return Err(AppError::not_found("User not found"));
            },
        };
        if bots.len() == 0 {
            return Err(AppError::not_found("Bot not found"));
        }
        let bot_settings = bots[0].clone();
        let pool_id = clone_string(&bot_settings.pool_address);
        let user_bot_data = UserBotData {
            pool_id,
            user_id: clone_string(user_id),
            private_key: keys.private_key,
            public_key: keys.public_key,
            bot_setting: bot_settings,
        };
        state.activate(user_bot_data, now_ms);
        Ok("Started bot".to_owned())
    }

    /// Stops the bot of `user_id`, given the user's bots. A user without a
    /// bot is refused. A user who holds tokens in the pool of the first bot
    /// stays, with the order to sell at the next event; any other user is
    /// removed from the registry and from every pool.
    pub fn stop_bot(state: &mut TradingState, bots: &Vec<BotSettings>, user_id: &String) -> (out:
        AppResult<String>)
        requires
            old(state).wf(),
        ensures
            final(state).wf(),
            bots.len() == 0 ==> out is Err && out->Err_0@ == AppErrorView::NotFound(
                "Bot not found"@,
            ) && final(state)@ == old(state)@,
            bots.len() > 0 ==> out is Ok && out->Ok_0@ == "Stopped bot"@ && final(state)@
                == spec_stopped(old(state)@, bots[0]@.pool_address, user_id@),
    {
        if bots.len() == 0 {
            return Err(AppError::not_found("Bot not found"));
        }
        let ghost before = state@;
        match state.real_pool_info.find_slot(&bots[0].pool_address, user_id) {
            Some((b, i)) => {
                if state.real_pool_info.pools[b].slots[i].is_bought {
                    let ghost slot = before.real_pool_info[b as int].slots[i as int];
                    state.real_pool_info.pools[b].slots[i].user_bot_data.bot_setting.auto_exit = 0;
                    proof {
                        let after = crate::store::spec_set_slot(
                            before.real_pool_info,
                            b as int,
                            i as int,
                            spec_forced(slot),
                        );
                        assert(state.real_pool_info@[b as int].slots =~= after[b as int].slots);
                        assert(state.real_pool_info@ =~= after);
                        assert(state@.user_list =~= before.user_list);
                        assert(store_wf(before.real_pool_info));
                        assert(crate::store::bucket_wf(before.real_pool_info[b as int]));
                        crate::store::lemma_set_slot_wf(
                            before.real_pool_info,
                            b as int,
                            i as int,
                            spec_forced(slot),
                        );
                    }
                } else {
                    state.simple_cleanup(user_id);
                }
            },
            None => {
                state.simple_cleanup(user_id);
            },
        }
        Ok("Stopped bot".to_owned())
    }
}

/// Closes the books on the position of `user_id` in `pool_id`: the record of
/// its trade, stamped `ts`, is handed out to be kept, and the user is removed
/// from the registry and from every pool. A user without a slot there leaves
/// no record.
pub fn cleanup_bot_after_sell(
    state: &mut TradingState,
    pool_id: &String,
    user_id: &String,
    ts: String,
) -> (out: Option<TradeData>)
    requires
        old(state).wf(),
    ensures
        final(state).wf(),
        final(state)@ == spec_cleanup(old(state)@, user_id@),
        out is Some == spec_lookup(old(state)@.real_pool_info, pool_id@, user_id@) is Some,
        out is Some ==> out->Some_0@ == spec_trade_record(
            spec_lookup(old(state)@.real_pool_info, pool_id@, user_id@)->Some_0,
            ts@,
        ),
{
    let record = match state.real_pool_info.get(pool_id, user_id) {
        Some(slot) => Some(TradeData::new(slot, ts)),
        None => None,
    };
    state.simple_cleanup(user_id);
    record
}

} // verus!

//! Users of the control surface and what is shown of them.

use crate::error::{AppError, AppErrorView, AppResult};
use crate::strategy::{
    fresh_settings, BotSettings, BotSettingsView, UpdateMevConfigRequest,
    UpdateTradingParamsRequest,
};
use crate::text::{opt_string_view, or_keep};
use vstd::prelude::*;
use vstd::string::*;

verus! {

/// A user as kept in the store. The two keys are in base58 and the two time
/// stamps in milliseconds since the epoch; `id` is set once the user is
/// stored.
#[derive(Debug)]
pub struct User {
    pub id: Option<String>,
    pub email: String,
    pub username: String,
    pub password_hash: String,
    pub private_key: String,
    pub public_key: String,
    pub created_at: i64,
    pub updated_at: i64,
}

/// What is shown of a user: neither the password nor the private key.
#[derive(Debug)]
pub struct UserResponse {
    pub id: String,
    pub email: String,
    pub username: String,
    pub public_key: String,
    pub created_at: i64,
}

impl User {
    /// A user that is not yet stored, made at `now_ms` with a password that
    /// is already hashed.
    pub fn new(
        email: String,
        username: String,
        password_hash: String,
        private_key: String,
        public_key: String,
        now_ms: i64,
    ) -> (out: Self)
        ensures
            out.id is None,
            out.email@ == email@,
            out.username@ == username@,
            out.password_hash@ == password_hash@,
            out.private_key@ == private_key@,
            out.public_key@ == public_key@,
            out.created_at == now_ms,
            out.updated_at == now_ms,
    {
        User {
            id: None,
            email,
            username,
            password_hash,
            private_key,
            public_key,
            created_at: now_ms,
            updated_at: now_ms,
        }
    }

    /// Replaces the address and the name where they are given, and stamps
    /// the change.
    pub fn update_profile(&mut self, email: Option<String>, username: Option<String>, now_ms: i64)
        ensures
            final(self).email@ == or_keep(opt_string_view(email), old(self).email@),
            final(self).username@ == or_keep(opt_string_view(username), old(self).username@),
            final(self).updated_at == now_ms,
            final(self).id == old(self).id,
            final(self).password_hash == old(self).password_hash,
            final(self).private_key == old(self).private_key,
            final(self).public_key == old(self).public_key,
            final(self).created_at == old(self).created_at,
    {
        if let Some(email) = email {
            self.email = email;
        }
        if let Some(username) = username {
            self.username = username;
        }
        self.updated_at = now_ms;
    }

    /// Replaces the hash of the password, and stamps the change.
    pub fn update_password(&mut self, new_password_hash: String, now_ms: i64)
        ensures
            final(self).password_hash@ == new_password_hash@,
            final(self).updated_at == now_ms,
            final(self).id == old(self).id,
            final(self).email == old(self).email,
            final(self).username == old(self).username,
            final(self).private_key == old(self).private_key,
            final(self).public_key == old(self).public_key,
            final(self).created_at == old(self).created_at,
    {
        self.password_hash = new_password_hash;
        self.updated_at = now_ms;
    }
}

impl UserResponse {
    /// What is shown of a stored user. A user that is not stored has nothing
    /// to show.
    pub fn from_user(user: User) -> (out: Option<Self>)
        ensures
            out is Some == user.id is Some,
            out is Some ==> {
                &&& out->Some_0.id@ == user.id->Some_0@
                &&& out->Some_0.email@ == user.email@
                &&& out->Some_0.username@ == user.username@
                &&& out->Some_0.public_key@ == user.public_key@
                &&& out->Some_0.created_at == user.created_at
            },
    {
        match user.id {
            Some(id) => Some(
                UserResponse {
                    id,
                    email: user.email,
                    username: user.username,
                    public_key: user.public_key,
                    created_at: user.created_at,
                },
            ),
            None => None,
        }
    }
}

/// What is shown of a bot: its settings, with the identifier set.
#[derive(Debug)]
pub struct BotSettingsResponse {
    pub id: String,
    pub user_id: String,
    pub name: String,
    pub pool_address: String,
    pub buy_sol_amount: u64,
    pub entry_percent: u64,
    pub entry_slippage: u64,
    pub exit_slippage: u64,
    pub stop_loss: u64,
    pub take_profit: u64,
    pub auto_exit: u64,
    pub confirm_service: String,
    pub cu: u64,
    pub priority_fee_micro_lamport: u64,
    pub third_party_fee: u64,
    pub created_at: i64,
    pub updated_at: i64,
}

impl BotSettingsResponse {
    /// The settings, as values.
    pub open spec fn settings(self) -> BotSettingsView {
        BotSettingsView {
            id: Some(self.id@),
            user_id: self.user_id@,
            name: self.name@,
            pool_address: self.pool_address@,
            buy_sol_amount: self.buy_sol_amount,
            entry_percent: self.entry_percent,
            entry_slippage: self.entry_slippage,
            exit_slippage: self.exit_slippage,
            stop_loss: self.stop_loss,
            take_profit: self.take_profit,
            auto_exit: self.auto_exit,
            confirm_service: self.confirm_service@,
            cu: self.cu,
            priority_fee_micro_lamport: self.priority_fee_micro_lamport,
            third_party_fee: self.third_party_fee,
            created_at: self.created_at,
            updated_at: self.updated_at,
        }
    }

    /// What is shown of a stored bot. A bot that is not stored has nothing
    /// to show.
    pub fn from_settings(bot: BotSettings) -> (out: Option<Self>)
        ensures
            out is Some == bot.id is Some,
            out is Some ==> out->Some_0.settings() == bot@,
    {
        match bot.id {
            Some(id) => Some(
                BotSettingsResponse {
                    id,
                    user_id: bot.user_id,
                    name: bot.name,
                    pool_address: bot.pool_address,
                    buy_sol_amount: bot.buy_sol_amount,
                    entry_percent: bot.entry_percent,
                    entry_slippage: bot.entry_slippage,
                    exit_slippage: bot.exit_slippage,
                    stop_loss: bot.stop_loss,
                    take_profit: bot.take_profit,
                    auto_exit: bot.auto_exit,
                    confirm_service: bot.confirm_service,
                    cu: bot.cu,
                    priority_fee_micro_lamport: bot.priority_fee_micro_lamport,
                    third_party_fee: bot.third_party_fee,
                    created_at: bot.created_at,
                    updated_at: bot.updated_at,
                },
            ),
            None => None,
        }
    }

    /// The answer for a user without a bot: all empty, stamped `now_ms`.
    pub fn empty(now_ms: i64) -> (out: Self)
        ensures
            out.settings() == (BotSettingsView {
                id: Some(Seq::<char>::empty()),
                user_id: Seq::<char>::empty(),
                name: Seq::<char>::empty(),
                pool_address: Seq::<char>::empty(),
                buy_sol_amount: 0,
                entry_percent: 0,
                entry_slippage: 0,
                exit_slippage: 0,
                stop_loss: 0,
                take_profit: 0,
                auto_exit: 0,
                confirm_service: Seq::<char>::empty(),
                cu: 0,
                priority_fee_micro_lamport: 0,
                third_party_fee: 0,
                created_at: now_ms,
                updated_at: now_ms,
            }),
    {
        BotSettingsResponse {
            id: String::new(),
            user_id: String::new(),
            name: String::new(),
            pool_address: String::new(),
            buy_sol_amount: 0,
            entry_percent: 0,
            entry_slippage: 0,
            exit_slippage: 0,
            stop_loss: 0,
            take_profit: 0,
            auto_exit: 0,
            confirm_service: String::new(),
            cu: 0,
            priority_fee_micro_lamport: 0,
            third_party_fee: 0,
            created_at: now_ms,
            updated_at: now_ms,
        }
    }
}

/// Answer to a sign-up or a sign-in.
#[derive(Debug)]
pub struct AuthResponse {
    pub token: String,
    pub user: UserResponse,
    pub bot: BotSettingsResponse,
}

/// Whether one of `bots` is called `name`.
pub open spec fn spec_name_taken(bots: Seq<BotSettings>, name: Seq<char>) -> bool {
    exists|i: int| 0 <= i < bots.len() && (#[trigger] bots[i]).name@ == name
}

/// A new bot called `name` on `pool_address` for a user who has the bots
/// `existing`. A name that one of them has is refused.
pub fn create_bot(
    existing: &Vec<BotSettings>,
    user_id: String,
    name: String,
    pool_address: String,
    now_ms: i64,
) -> (out: AppResult<BotSettings>)
    ensures
        spec_name_taken(existing@, name@) ==> out is Err && out->Err_0@ == AppErrorView::Conflict(
            "Bot name already exists for this user"@,
        ),
        !spec_name_taken(existing@, name@) ==> out is Ok && out->Ok_0@ == fresh_settings(
            user_id@,
            name@,
            pool_address@,
            now_ms,
        ),
{
    let mut i: usize = 0;
    while i < existing.len()
        invariant
            i <= existing.len(),
            forall|j: int| 0 <= j < i ==> existing[j].name@ != name@,
        decreases existing.len() - i,
    {
        if existing[i].name == name {
            return Err(AppError::conflict("Bot name already exists for this user"));
        }
        i += 1;
    }
    Ok(BotSettings::new(user_id, name, pool_address, now_ms))
}

/// The user's first bot with the trading parameters of `request`, stamped
/// `now_ms`. A user without a bot is refused.
pub fn update_trading_params(
    bots: &Vec<BotSettings>,
    request: UpdateTradingParamsRequest,
    now_ms: i64,
) -> (out: AppResult<BotSettings>)
    ensures
        bots.len() == 0 ==> out is Err && out->Err_0@ == AppErrorView::NotFound("Bot not found"@),
        bots.len() > 0 ==> out is Ok && out->Ok_0@ == (BotSettingsView {
            pool_address: or_keep(opt_string_view(request.pool_address), bots[0]@.pool_address),
            buy_sol_amount: or_keep(request.buy_sol_amount, bots[0]@.buy_sol_amount),
            entry_percent: or_keep(request.entry_percent, bots[0]@.entry_percent),
            entry_slippage: or_keep(request.entry_slippage, bots[0]@.entry_slippage),
            exit_slippage: or_keep(request.exit_slippage, bots[0]@.exit_slippage),
            stop_loss: or_keep(request.stop_loss, bots[0]@.stop_loss),
            take_profit: or_keep(request.take_profit, bots[0]@.take_profit),
            auto_exit: or_keep(request.auto_exit, bots[0]@.auto_exit),
            updated_at: now_ms,
            ..bots[0]@
        }),
{
    if bots.len() == 0 {
        return Err(AppError::not_found("Bot not found"));
    }
    let mut bot = bots[0].clone();
    bot.update_trading_params(
        request.pool_address,
        request.buy_sol_amount,
        request.entry_percent,
        request.entry_slippage,
        request.exit_slippage,
        request.stop_loss,
        request.take_profit,
        request.auto_exit,
        now_ms,
    );
    Ok(bot)
}

/// The user's first bot with the relay parameters of `request`, stamped
/// `now_ms`. A user without a bot is refused.
pub fn update_mev_config(
    bots: &Vec<BotSettings>,
    request: UpdateMevConfigRequest,
    now_ms: i64,
) -> (out: AppResult<BotSettings>)
    ensures
        bots.len() == 0 ==> out is Err && out->Err_0@ == AppErrorView::NotFound("Bot not found"@),
        bots.len() > 0 ==> out is Ok && out->Ok_0@ == (BotSettingsView {
            confirm_service: or_keep(
                opt_string_view(request.confirm_service),
                bots[0]@.confirm_service,
            ),
            cu: or_keep(request.cu, bots[0]@.cu),
            priority_fee_micro_lamport: or_keep(
                request.priority_fee,
                bots[0]@.priority_fee_micro_lamport,
            ),
            third_party_fee: or_keep(request.third_party_fee, bots[0]@.third_party_fee),
            updated_at: now_ms,
            ..bots[0]@
        }),
{
    if bots.len() == 0 {
        return Err(AppError::not_found("Bot not found"));
    }
    let mut bot = bots[0].clone();
    bot.update_mev_config(
        request.confirm_service,
        request.cu,
        request.priority_fee,
        request.third_party_fee,
        now_ms,
    );
    Ok(bot)
}

/// Whether a sign-up may go on, given what the repository found: an address
/// that is in use is refused, then a name that is taken.
pub fn check_signup(email_in_use: bool, username_taken: bool) -> (out: AppResult<()>)
    ensures
        email_in_use ==> out is Err && out->Err_0@ == AppErrorView::Conflict(
            "Email already in use"@,
        ),
        !email_in_use && username_taken ==> out is Err && out->Err_0@ == AppErrorView::Conflict(
            "Username already taken"@,
        ),
        !email_in_use && !username_taken ==> out is Ok,
{
    if email_in_use {
        Err(AppError::conflict("Email already in use"))
    } else if username_taken {
        Err(AppError::conflict("Username already taken"))
    } else {
        Ok(())
    }
}

/// The identifier of the user that signs in, given the user that the
/// repository found for the address and whether the password is the user's.
/// An unknown address and a wrong password are refused alike; a user without
/// an identifier is a fault of the store.
pub fn check_signin(user: Option<&User>, password_matches: bool) -> (out: AppResult<String>)
    ensures
        user is None || !password_matches ==> out is Err && out->Err_0@ == AppErrorView::Auth(
            "Invalid email or password"@,
        ),
        user is Some && password_matches && user->Some_0.id is None ==> out is Err
            && out->Err_0@ == AppErrorView::Internal("User ID missing in DB"@),
        user is Some && password_matches && user->Some_0.id is Some ==> out is Ok && out->Ok_0@
            == user->Some_0.id->Some_0@,
{
    let user = match user {
        Some(user) => user,
        None => {
            return Err(AppError::auth("Invalid email or password"));
        },
    };
    if !password_matches {
        return Err(AppError::auth("Invalid email or password"));
    }
    match &user.id {
        Some(id) => Ok(id.clone()),
        None => Err(AppError::internal("User ID missing in DB")),
    }
}

} // verus!

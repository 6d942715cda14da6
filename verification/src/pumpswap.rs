//! Instructions of the bonding-curve pool: buy and sell.

use crate::instruction::{
    create_associated_token_account, readonly, spec_associated_token_address,
    spec_close_account, spec_create_associated_token_account, writable, AccountMeta,
    AccountMetaView, Instruction, InstructionView,
};
use crate::keys::{
    program_address, pumpswap_program_id, seeds_view, try_find_program_address, Pubkey,
    PUMPSWAP_PROGRAM_BYTES, PUMP_FEE_CONFIG_BYTES, PUMP_FEE_PROGRAM_BYTES, TOKEN_PROGRAM_BYTES,
    WSOL_BYTES,
};
use crate::raydium::{
    close_wsol_instruction, create_idempotent_pair, spec_create_idempotent_pair, spec_wrap_sol,
    wrap_sol_instructions,
};
use vstd::bytes::{spec_u64_to_le_bytes, u64_to_le_bytes};
use vstd::prelude::*;
use vstd::string::*;

verus! {

/// Parameters of a buy: the exact amount of base tokens wanted and the most
/// quote tokens paid for it.
#[derive(Clone, Copy, Debug, PartialEq, Eq)]
pub struct Buy {
    pub base_amount_out: u64,
    pub max_quote_amount_in: u64,
}

/// Parameters of a sell: the exact amount of base tokens given and the least
/// quote tokens taken for it.
#[derive(Clone, Copy, Debug, PartialEq, Eq)]
pub struct Sell {
    pub base_amount_in: u64,
    pub min_quote_amount_out: u64,
}

/// The accounts of a buy or a sell, by role.
#[derive(Clone, Copy, Debug, PartialEq, Eq)]
pub struct SellInstructionAccounts {
    pub pool: Pubkey,
    pub user: Pubkey,
    pub global_config: Pubkey,
    pub base_mint: Pubkey,
    pub quote_mint: Pubkey,
    pub user_base_token_account: Pubkey,
    pub user_quote_token_account: Pubkey,
    pub pool_base_token_account: Pubkey,
    pub pool_quote_token_account: Pubkey,
    pub protocol_fee_recipient: Pubkey,
    pub protocol_fee_recipient_token_account: Pubkey,
    pub base_token_program: Pubkey,
    pub quote_token_program: Pubkey,
    pub system_program: Pubkey,
    pub associated_token_program: Pubkey,
    pub event_authority: Pubkey,
    pub program: Pubkey,
    pub coin_creator_vault_ata: Pubkey,
    pub coin_creator_vault_authority: Pubkey,
}

/// The accounts of a buy are those of a sell.
pub type BuyInstructionAccounts = SellInstructionAccounts;

/// The nineteen accounts that a buy and a sell share, in the order the
/// program reads them.
pub open spec fn spec_pump_accounts(a: SellInstructionAccounts) -> Seq<AccountMetaView> {
    spec_pump_accounts_for(a, a.user@, a.user_base_token_account@, a.user_quote_token_account@)
}

/// The accounts that a buy and a sell share, through the pool of `a` for the
/// trader `user` with the token accounts `user_base` and `user_quote`.
pub open spec fn spec_pump_accounts_for(
    a: SellInstructionAccounts,
    user: Seq<u8>,
    user_base: Seq<u8>,
    user_quote: Seq<u8>,
) -> Seq<AccountMetaView> {
    seq![
        readonly(a.pool@, false),
        writable(user, true),
        readonly(a.global_config@, false),
        readonly(a.base_mint@, false),
        readonly(a.quote_mint@, false),
        writable(user_base, false),
        writable(user_quote, false),
        writable(a.pool_base_token_account@, false),
        writable(a.pool_quote_token_account@, false),
        readonly(a.protocol_fee_recipient@, false),
        writable(a.protocol_fee_recipient_token_account@, false),
        readonly(a.base_token_program@, false),
        readonly(a.quote_token_program@, false),
        readonly(a.system_program@, false),
        readonly(a.associated_token_program@, false),
        readonly(a.event_authority@, false),
        readonly(a.program@, false),
        writable(a.coin_creator_vault_ata@, false),
        readonly(a.coin_creator_vault_authority@, false),
    ]
}

/// Seed of the account that adds up the volume of all users.
pub open spec fn global_volume_seed() -> Seq<u8> {
    "global_volume_accumulator".spec_bytes()
}

/// Seed of the account that adds up the volume of one user.
pub open spec fn user_volume_seed() -> Seq<u8> {
    "user_volume_accumulator".spec_bytes()
}

/// Address of the account that adds up the volume of all users.
pub open spec fn spec_global_volume_accumulator() -> Option<Seq<u8>> {
    program_address(seq![global_volume_seed()], PUMPSWAP_PROGRAM_BYTES@)
}

/// Address of the account that adds up the volume of `user`.
pub open spec fn spec_user_volume_accumulator(user: Seq<u8>) -> Option<Seq<u8>> {
    program_address(seq![user_volume_seed(), user], PUMPSWAP_PROGRAM_BYTES@)
}

/// The accounts that a buy adds to the shared ones: the two volume
/// accumulators, the fee configuration and the fee program, all writable.
pub open spec fn spec_buy_tail(global_volume: Seq<u8>, user_volume: Seq<u8>) -> Seq<
    AccountMetaView,
> {
    seq![
        writable(global_volume, false),
        writable(user_volume, false),
        writable(PUMP_FEE_CONFIG_BYTES@, false),
        writable(PUMP_FEE_PROGRAM_BYTES@, false),
    ]
}

/// The accounts that a sell adds to the shared ones: the fee configuration
/// and the fee program, read-only.
pub open spec fn spec_sell_tail() -> Seq<AccountMetaView> {
    seq![readonly(PUMP_FEE_CONFIG_BYTES@, false), readonly(PUMP_FEE_PROGRAM_BYTES@, false)]
}

/// The bytes of a buy: eight bytes of tag, then the base amount wanted and
/// the most quote paid, each in eight bytes, little-endian.
pub open spec fn spec_buy_data(params: Buy) -> Seq<u8> {
    seq![102u8, 6u8, 61u8, 18u8, 1u8, 218u8, 235u8, 234u8] + spec_u64_to_le_bytes(
        params.base_amount_out,
    ) + spec_u64_to_le_bytes(params.max_quote_amount_in)
}

/// The bytes of a sell: eight bytes of tag, then the base amount given and
/// the least quote taken, each in eight bytes, little-endian.
pub open spec fn spec_sell_data(params: Sell) -> Seq<u8> {
    seq![51u8, 230u8, 133u8, 164u8, 1u8, 127u8, 131u8, 173u8] + spec_u64_to_le_bytes(
        params.base_amount_in,
    ) + spec_u64_to_le_bytes(params.min_quote_amount_out)
}

/// The buy instruction.
pub open spec fn spec_buy_ix(
    a: SellInstructionAccounts,
    params: Buy,
    global_volume: Seq<u8>,
    user_volume: Seq<u8>,
) -> InstructionView {
    InstructionView {
        program_id: PUMPSWAP_PROGRAM_BYTES@,
        accounts: spec_pump_accounts(a) + spec_buy_tail(global_volume, user_volume),
        data: spec_buy_data(params),
    }
}

/// The sell instruction.
pub open spec fn spec_sell_ix(a: SellInstructionAccounts, params: Sell) -> InstructionView {
    InstructionView {
        program_id: PUMPSWAP_PROGRAM_BYTES@,
        accounts: spec_pump_accounts(a) + spec_sell_tail(),
        data: spec_sell_data(params),
    }
}

impl SellInstructionAccounts {
    fn shared_accounts(&self) -> (out: Vec<AccountMeta>)
        ensures
            crate::instruction::metas_view(out@) == spec_pump_accounts(*self),
    {
        let out = vec![
            AccountMeta::new_readonly(self.pool, false),
            AccountMeta::new(self.user, true),
            AccountMeta::new_readonly(self.global_config, false),
            AccountMeta::new_readonly(self.base_mint, false),
            AccountMeta::new_readonly(self.quote_mint, false),
            AccountMeta::new(self.user_base_token_account, false),
            AccountMeta::new(self.user_quote_token_account, false),
            AccountMeta::new(self.pool_base_token_account, false),
            AccountMeta::new(self.pool_quote_token_account, false),
            AccountMeta::new_readonly(self.protocol_fee_recipient, false),
            AccountMeta::new(self.protocol_fee_recipient_token_account, false),
            AccountMeta::new_readonly(self.base_token_program, false),
            AccountMeta::new_readonly(self.quote_token_program, false),
            AccountMeta::new_readonly(self.system_program, false),
            AccountMeta::new_readonly(self.associated_token_program, false),
            AccountMeta::new_readonly(self.event_authority, false),
            AccountMeta::new_readonly(self.program, false),
            AccountMeta::new(self.coin_creator_vault_ata, false),
            AccountMeta::new_readonly(self.coin_creator_vault_authority, false),
        ];
        assert(crate::instruction::metas_view(out@) =~= spec_pump_accounts(*self));
        out
    }

    /// Address of the account that adds up the volume of all users.
    pub fn global_volume_accumulator_pda() -> (out: Option<Pubkey>)
        ensures
            out is Some == spec_global_volume_accumulator() is Some,
            out is Some ==> Some(out->Some_0@) == spec_global_volume_accumulator(),
    {
        let mut seeds: Vec<Vec<u8>> = Vec::new();
        seeds.push("global_volume_accumulator".as_bytes_vec());
        assert(seeds_view(seeds@) =~= seq![global_volume_seed()]);
        try_find_program_address(&seeds, &pumpswap_program_id())
    }

    /// Address of the account that adds up the volume of `user`.
    pub fn user_volume_accumulator_pda(user: &Pubkey) -> (out: Option<Pubkey>)
        ensures
            out is Some == spec_user_volume_accumulator(user@) is Some,
            out is Some ==> Some(out->Some_0@) == spec_user_volume_accumulator(user@),
    {
        let mut seeds: Vec<Vec<u8>> = Vec::new();
        seeds.push("user_volume_accumulator".as_bytes_vec());
        seeds.push(user.to_vec());
        assert(seeds_view(seeds@) =~= seq![user_volume_seed(), user@]);
        try_find_program_address(&seeds, &pumpswap_program_id())
    }

    /// Address of the fee configuration.
    pub fn fee_config_pda() -> (out: Pubkey)
        ensures
            out@ == PUMP_FEE_CONFIG_BYTES@,
    {
        Pubkey { bytes: PUMP_FEE_CONFIG_BYTES }
    }

    /// Address of the fee program.
    pub fn fee_program() -> (out: Pubkey)
        ensures
            out@ == PUMP_FEE_PROGRAM_BYTES@,
    {
        Pubkey { bytes: PUMP_FEE_PROGRAM_BYTES }
    }

    /// The buy instruction. `None` where a volume accumulator has no
    /// address.
    pub fn get_buy_ix(&self, buy_params: Buy) -> (out: Option<Instruction>)
        ensures
            out is Some == (spec_global_volume_accumulator() is Some
                && spec_user_volume_accumulator(self.user@) is Some),
            out is Some ==> out->Some_0@ == spec_buy_ix(
                *self,
                buy_params,
                spec_global_volume_accumulator()->Some_0,
                spec_user_volume_accumulator(self.user@)->Some_0,
            ),
    {
        let global_volume_accumulator = match Self::global_volume_accumulator_pda() {
            Some(address) => address,
            None => {
                return None;
            },
        };
        let user_volume_accumulator = match Self::user_volume_accumulator_pda(&self.user) {
            Some(address) => address,
            None => {
                return None;
            },
        };
        let mut data: Vec<u8> = vec![102u8, 6u8, 61u8, 18u8, 1u8, 218u8, 235u8, 234u8];
        let mut base_amount_out = u64_to_le_bytes(buy_params.base_amount_out);
        let mut max_quote_amount_in = u64_to_le_bytes(buy_params.max_quote_amount_in);
        data.append(&mut base_amount_out);
        data.append(&mut max_quote_amount_in);
        let mut accounts = self.shared_accounts();
        accounts.push(AccountMeta::new(global_volume_accumulator, false));
        accounts.push(AccountMeta::new(user_volume_accumulator, false));
        accounts.push(AccountMeta::new(Self::fee_config_pda(), false));
        accounts.push(AccountMeta::new(Self::fee_program(), false));
        let out = Instruction { program_id: pumpswap_program_id(), accounts, data };
        let ghost expected = spec_buy_ix(
            *self,
            buy_params,
            global_volume_accumulator@,
            user_volume_accumulator@,
        );
        assert(out@.accounts =~= expected.accounts);
        assert(out@.data =~= expected.data);
        Some(out)
    }

    /// The sell instruction.
    pub fn get_sell_ix(&self, sell_params: Sell) -> (out: Instruction)
        ensures
            out@ == spec_sell_ix(*self, sell_params),
    {
        let mut data: Vec<u8> = vec![51u8, 230u8, 133u8, 164u8, 1u8, 127u8, 131u8, 173u8];
        let mut base_amount_in = u64_to_le_bytes(sell_params.base_amount_in);
        let mut min_quote_amount_out = u64_to_le_bytes(sell_params.min_quote_amount_out);
        data.append(&mut base_amount_in);
        data.append(&mut min_quote_amount_out);
        let mut accounts = self.shared_accounts();
        accounts.push(AccountMeta::new_readonly(Self::fee_config_pda(), false));
        accounts.push(AccountMeta::new_readonly(Self::fee_program(), false));
        let out = Instruction { program_id: pumpswap_program_id(), accounts, data };
        let ghost expected = spec_sell_ix(*self, sell_params);
        assert(out@.accounts =~= expected.accounts);
        assert(out@.data =~= expected.data);
        out
    }

    /// Instruction that creates the user's token account for the base mint.
    pub fn get_create_ata_ix(&self) -> (out: Option<Instruction>)
        ensures
            out is Some == spec_associated_token_address(
                self.user@,
                self.base_mint@,
                self.base_token_program@,
            ) is Some,
            out is Some ==> out->Some_0@ == spec_create_associated_token_account(
                self.user@,
                spec_associated_token_address(
                    self.user@,
                    self.base_mint@,
                    self.base_token_program@,
                )->Some_0,
                self.user@,
                self.base_mint@,
                self.base_token_program@,
                0,
            ),
    {
        create_associated_token_account(
            &self.user,
            &self.user,
            &self.base_mint,
            &self.base_token_program,
        )
    }

    /// Instructions that create, unless they exist, the user's token accounts
    /// for the base and the quote mint.
    pub fn get_create_idempotent_ata_ix(&self) -> (out: Option<Vec<Instruction>>)
        ensures
            out is Some == (spec_associated_token_address(
                self.user@,
                self.base_mint@,
                self.base_token_program@,
            ) is Some && spec_associated_token_address(
                self.user@,
                self.quote_mint@,
                self.quote_token_program@,
            ) is Some),
            out is Some ==> crate::instruction::instructions_view(out->Some_0@)
                == spec_create_idempotent_pair(
                self.user@,
                spec_associated_token_address(
                    self.user@,
                    self.base_mint@,
                    self.base_token_program@,
                )->Some_0,
                self.base_mint@,
                self.base_token_program@,
                spec_associated_token_address(
                    self.user@,
                    self.quote_mint@,
                    self.quote_token_program@,
                )->Some_0,
                self.quote_mint@,
                self.quote_token_program@,
            ),
    {
        create_idempotent_pair(
            &self.user,
            &self.base_mint,
            &self.base_token_program,
            &self.quote_mint,
            &self.quote_token_program,
        )
    }

    /// Instructions that wrap `sol_lamport` native units for the user.
    pub fn get_wrap_sol(&self, sol_lamport: u64) -> (out: Option<Vec<Instruction>>)
        ensures
            out is Some == spec_associated_token_address(
                self.user@,
                WSOL_BYTES@,
                TOKEN_PROGRAM_BYTES@,
            ) is Some,
            out is Some ==> crate::instruction::instructions_view(out->Some_0@) == spec_wrap_sol(
                self.user@,
                spec_associated_token_address(
                    self.user@,
                    WSOL_BYTES@,
                    TOKEN_PROGRAM_BYTES@,
                )->Some_0,
                sol_lamport,
            ),
    {
        wrap_sol_instructions(&self.user, sol_lamport)
    }

    /// Instruction that closes the user's wrapped native account.
    pub fn get_close_wsol(&self) -> (out: Option<Instruction>)
        ensures
            out is Some == spec_associated_token_address(
                self.user@,
                WSOL_BYTES@,
                TOKEN_PROGRAM_BYTES@,
            ) is Some,
            out is Some ==> out->Some_0@ == spec_close_account(
                spec_associated_token_address(
                    self.user@,
                    WSOL_BYTES@,
                    TOKEN_PROGRAM_BYTES@,
                )->Some_0,
                self.user@,
                self.user@,
            ),
    {
        close_wsol_instruction(&self.user)
    }
}

} // verus!

//! Instructions of the constant-product pool: the base-in swap and what
//! wraps around it.

use crate::instruction::{
    close_account, create_associated_token_account, create_associated_token_account_idempotent,
    get_associated_token_address, readonly, spec_associated_token_address, spec_close_account,
    spec_create_associated_token_account, spec_sync_native, spec_system_transfer, sync_native,
    system_transfer, writable, AccountMeta, AccountMetaView, Instruction, InstructionView,
};
use crate::keys::{
    raydium_v4_program_id, wsol_mint, Pubkey, RAYDIUM_V4_PROGRAM_BYTES, TOKEN_PROGRAM_BYTES,
    WSOL_BYTES,
};
use vstd::bytes::{spec_u64_to_le_bytes, u64_to_le_bytes};
use vstd::prelude::*;

verus! {

/// Parameters of a base-in swap: the exact amount paid and the least amount
/// accepted in return.
#[derive(Clone, Copy, Debug, PartialEq, Eq)]
pub struct SwapBaseIn {
    pub amount_in: u64,
    pub minimum_amount_out: u64,
}

/// Parameters of a base-out swap: the most paid and the exact amount wanted
/// in return.
#[derive(Clone, Copy, Debug, PartialEq, Eq)]
pub struct SwapBaseOut {
    pub max_amount_in: u64,
    pub amount_out: u64,
}

/// The accounts of a base-out swap are those of a base-in swap.
pub type SwapBaseOutInstructionAccounts = SwapBaseInInstructionAccounts;

/// The accounts of a base-in swap, by role.
#[derive(Clone, Copy, Debug, PartialEq, Eq)]
pub struct SwapBaseInInstructionAccounts {
    pub token_program: Pubkey,
    pub amm: Pubkey,
    pub amm_authority: Pubkey,
    pub amm_open_orders: Pubkey,
    pub amm_target_orders: Option<Pubkey>,
    pub pool_coin_token_account: Pubkey,
    pub pool_pc_token_account: Pubkey,
    pub serum_program: Pubkey,
    pub serum_market: Pubkey,
    pub serum_bids: Pubkey,
    pub serum_asks: Pubkey,
    pub serum_event_queue: Pubkey,
    pub serum_coin_vault_account: Pubkey,
    pub serum_pc_vault_account: Pubkey,
    pub serum_vault_signer: Pubkey,
    pub user_source_token_account: Pubkey,
    pub user_destination_token_account: Pubkey,
    pub user_source_owner: Pubkey,
}

/// The accounts of a base-in swap in the order the program reads them; the
/// target orders account stands fifth where there is one.
pub open spec fn spec_swap_base_in_accounts(a: SwapBaseInInstructionAccounts) -> Seq<
    AccountMetaView,
> {
    spec_swap_base_in_accounts_for(
        a,
        a.user_source_token_account@,
        a.user_destination_token_account@,
        a.user_source_owner@,
    )
}

/// The accounts of a base-in swap through the pool of `a` for the trader
/// `owner`, who pays from `source` and receives in `destination`.
pub open spec fn spec_swap_base_in_accounts_for(
    a: SwapBaseInInstructionAccounts,
    source: Seq<u8>,
    destination: Seq<u8>,
    owner: Seq<u8>,
) -> Seq<AccountMetaView> {
    let head = seq![
        readonly(a.token_program@, false),
        writable(a.amm@, false),
        readonly(a.amm_authority@, false),
        writable(a.amm_open_orders@, false),
    ];
    let tail = seq![
        writable(a.pool_coin_token_account@, false),
        writable(a.pool_pc_token_account@, false),
        readonly(a.serum_program@, false),
        writable(a.serum_market@, false),
        writable(a.serum_bids@, false),
        writable(a.serum_asks@, false),
        writable(a.serum_event_queue@, false),
        writable(a.serum_coin_vault_account@, false),
        writable(a.serum_pc_vault_account@, false),
        readonly(a.serum_vault_signer@, false),
        writable(source, false),
        writable(destination, false),
        writable(owner, true),
    ];
    match a.amm_target_orders {
        Some(target_orders) => head + seq![writable(target_orders@, false)] + tail,
        None => head + tail,
    }
}

/// The base-in swap: the tag 9, then the amount paid and the least amount
/// accepted, each in eight bytes, little-endian.
pub open spec fn spec_swap_base_in_ix(
    a: SwapBaseInInstructionAccounts,
    params: SwapBaseIn,
) -> InstructionView {
    InstructionView {
        program_id: RAYDIUM_V4_PROGRAM_BYTES@,
        accounts: spec_swap_base_in_accounts(a),
        data: seq![9u8] + spec_u64_to_le_bytes(params.amount_in) + spec_u64_to_le_bytes(
            params.minimum_amount_out,
        ),
    }
}

/// The base-out swap: the tag 9, then the most paid and the amount wanted,
/// each in eight bytes, little-endian, with the accounts of a base-in swap.
pub open spec fn spec_swap_base_out_ix(
    a: SwapBaseInInstructionAccounts,
    params: SwapBaseOut,
) -> InstructionView {
    InstructionView {
        program_id: RAYDIUM_V4_PROGRAM_BYTES@,
        accounts: spec_swap_base_in_accounts(a),
        data: seq![9u8] + spec_u64_to_le_bytes(params.max_amount_in) + spec_u64_to_le_bytes(
            params.amount_out,
        ),
    }
}

impl SwapBaseInInstructionAccounts {
    /// The base-in swap instruction.
    pub fn get_swap_base_in_ix(&self, buy_exact_in_param: SwapBaseIn) -> (out: Instruction)
        ensures
            out@ == spec_swap_base_in_ix(*self, buy_exact_in_param),
    {
        let mut data: Vec<u8> = vec![9u8];
        let mut amount_in = u64_to_le_bytes(buy_exact_in_param.amount_in);
        let mut minimum_amount_out = u64_to_le_bytes(buy_exact_in_param.minimum_amount_out);
        data.append(&mut amount_in);
        data.append(&mut minimum_amount_out);
        let out = Instruction {
            program_id: raydium_v4_program_id(),
            accounts: self.swap_accounts(),
            data,
        };
        assert(out@.data =~= spec_swap_base_in_ix(*self, buy_exact_in_param).data);
        out
    }

    /// The base-out swap instruction.
    pub fn get_swap_base_out_ix(&self, buy_exact_in_param: SwapBaseOut) -> (out: Instruction)
        ensures
            out@ == spec_swap_base_out_ix(*self, buy_exact_in_param),
    {
        let mut data: Vec<u8> = vec![9u8];
        let mut max_amount_in = u64_to_le_bytes(buy_exact_in_param.max_amount_in);
        let mut amount_out = u64_to_le_bytes(buy_exact_in_param.amount_out);
        data.append(&mut max_amount_in);
        data.append(&mut amount_out);
        let out = Instruction {
            program_id: raydium_v4_program_id(),
            accounts: self.swap_accounts(),
            data,
        };
        assert(out@.data =~= spec_swap_base_out_ix(*self, buy_exact_in_param).data);
        out
    }

    fn swap_accounts(&self) -> (accounts: Vec<AccountMeta>)
        ensures
            crate::instruction::metas_view(accounts@) == spec_swap_base_in_accounts(*self),
    {
        let accounts = if let Some(amm_target_orders) = self.amm_target_orders {
            vec![
                AccountMeta::new_readonly(self.token_program, false),
                AccountMeta::new(self.amm, false),
                AccountMeta::new_readonly(self.amm_authority, false),
                AccountMeta::new(self.amm_open_orders, false),
                AccountMeta::new(amm_target_orders, false),
                AccountMeta::new(self.pool_coin_token_account, false),
                AccountMeta::new(self.pool_pc_token_account, false),
                AccountMeta::new_readonly(self.serum_program, false),
                AccountMeta::new(self.serum_market, false),
                AccountMeta::new(self.serum_bids, false),
                AccountMeta::new(self.serum_asks, false),
                AccountMeta::new(self.serum_event_queue, false),
                AccountMeta::new(self.serum_coin_vault_account, false),
                AccountMeta::new(self.serum_pc_vault_account, false),
                AccountMeta::new_readonly(self.serum_vault_signer, false),
                AccountMeta::new(self.user_source_token_account, false),
                AccountMeta::new(self.user_destination_token_account, false),
                AccountMeta::new(self.user_source_owner, true),
            ]
        } else {
            vec![
                AccountMeta::new_readonly(self.token_program, false),
                AccountMeta::new(self.amm, false),
                AccountMeta::new_readonly(self.amm_authority, false),
                AccountMeta::new(self.amm_open_orders, false),
                AccountMeta::new(self.pool_coin_token_account, false),
                AccountMeta::new(self.pool_pc_token_account, false),
                AccountMeta::new_readonly(self.serum_program, false),
                AccountMeta::new(self.serum_market, false),
                AccountMeta::new(self.serum_bids, false),
                AccountMeta::new(self.serum_asks, false),
                AccountMeta::new(self.serum_event_queue, false),
                AccountMeta::new(self.serum_coin_vault_account, false),
                AccountMeta::new(self.serum_pc_vault_account, false),
                AccountMeta::new_readonly(self.serum_vault_signer, false),
                AccountMeta::new(self.user_source_token_account, false),
                AccountMeta::new(self.user_destination_token_account, false),
                AccountMeta::new(self.user_source_owner, true),
            ]
        };
        assert(crate::instruction::metas_view(accounts@) =~= spec_swap_base_in_accounts(*self));
        accounts
    }
}

/// The two instructions that wrap `lamports` native units for `owner`: the
/// transfer into the owner's wrapped native account `account`, then the
/// token program's recount of it.
pub open spec fn spec_wrap_sol(owner: Seq<u8>, account: Seq<u8>, lamports: u64) -> Seq<
    InstructionView,
> {
    seq![spec_system_transfer(owner, account, lamports), spec_sync_native(account)]
}

/// The two instructions that create, unless they exist, the token accounts
/// `first_account` and `second_account` of `owner` for the two mints.
pub open spec fn spec_create_idempotent_pair(
    owner: Seq<u8>,
    first_account: Seq<u8>,
    first_mint: Seq<u8>,
    first_program: Seq<u8>,
    second_account: Seq<u8>,
    second_mint: Seq<u8>,
    second_program: Seq<u8>,
) -> Seq<InstructionView> {
    seq![
        spec_create_associated_token_account(
            owner,
            first_account,
            owner,
            first_mint,
            first_program,
            1,
        ),
        spec_create_associated_token_account(
            owner,
            second_account,
            owner,
            second_mint,
            second_program,
            1,
        ),
    ]
}

/// Instructions that wrap `lamports` native units for `owner`. `None` where
/// the owner's wrapped native account has no address.
pub fn wrap_sol_instructions(owner: &Pubkey, lamports: u64) -> (out: Option<Vec<Instruction>>)
    ensures
        out is Some == spec_associated_token_address(owner@, WSOL_BYTES@, TOKEN_PROGRAM_BYTES@)
            is Some,
        out is Some ==> crate::instruction::instructions_view(out->Some_0@) == spec_wrap_sol(
            owner@,
            spec_associated_token_address(owner@, WSOL_BYTES@, TOKEN_PROGRAM_BYTES@)->Some_0,
            lamports,
        ),
{
    let wsol_ata = match get_associated_token_address(owner, &wsol_mint()) {
        Some(account) => account,
        None => {
            return None;
        },
    };
    let transfer_ix = system_transfer(owner, &wsol_ata, lamports);
    let wrap_ix = sync_native(&wsol_ata);
    let out = vec![transfer_ix, wrap_ix];
    assert(crate::instruction::instructions_view(out@) =~= spec_wrap_sol(
        owner@,
        wsol_ata@,
        lamports,
    ));
    Some(out)
}

/// Instruction that closes the wrapped native account of `owner` and hands
/// what it holds back to the owner. `None` where that account has no address.
pub fn close_wsol_instruction(owner: &Pubkey) -> (out: Option<Instruction>)
    ensures
        out is Some == spec_associated_token_address(owner@, WSOL_BYTES@, TOKEN_PROGRAM_BYTES@)
            is Some,
        out is Some ==> out->Some_0@ == spec_close_account(
            spec_associated_token_address(owner@, WSOL_BYTES@, TOKEN_PROGRAM_BYTES@)->Some_0,
            owner@,
            owner@,
        ),
{
    match get_associated_token_address(owner, &wsol_mint()) {
        Some(wsol_ata) => Some(close_account(&wsol_ata, owner, owner)),
        None => None,
    }
}

/// Instructions that create, unless they exist, the token accounts of
/// `owner` for two mints. `None` where one of the accounts has no address.
pub fn create_idempotent_pair(
    owner: &Pubkey,
    first_mint: &Pubkey,
    first_program: &Pubkey,
    second_mint: &Pubkey,
    second_program: &Pubkey,
) -> (out: Option<Vec<Instruction>>)
    ensures
        out is Some == (spec_associated_token_address(owner@, first_mint@, first_program@) is Some
            && spec_associated_token_address(owner@, second_mint@, second_program@) is Some),
        out is Some ==> crate::instruction::instructions_view(out->Some_0@)
            == spec_create_idempotent_pair(
            owner@,
            spec_associated_token_address(owner@, first_mint@, first_program@)->Some_0,
            first_mint@,
            first_program@,
            spec_associated_token_address(owner@, second_mint@, second_program@)->Some_0,
            second_mint@,
            second_program@,
        ),
{
    let first = match create_associated_token_account_idempotent(
        owner,
        owner,
        first_mint,
        first_program,
    ) {
        Some(ix) => ix,
        None => {
            return None;
        },
    };
    let second = match create_associated_token_account_idempotent(
        owner,
        owner,
        second_mint,
        second_program,
    ) {
        Some(ix) => ix,
        None => {
            return None;
        },
    };
    let ghost expected = seq![first@, second@];
    let out = vec![first, second];
    assert(crate::instruction::instructions_view(out@) =~= expected);
    Some(out)
}

impl SwapBaseInInstructionAccounts {
    /// Instruction that creates the token account the owner holds for the
    /// mint at the owner's own address.
    pub fn get_create_ata_ix(&self) -> (out: Option<Instruction>)
        ensures
            out is Some == spec_associated_token_address(
                self.user_source_owner@,
                self.user_source_owner@,
                self.token_program@,
            ) is Some,
            out is Some ==> out->Some_0@ == spec_create_associated_token_account(
                self.user_source_owner@,
                spec_associated_token_address(
                    self.user_source_owner@,
                    self.user_source_owner@,
                    self.token_program@,
                )->Some_0,
                self.user_source_owner@,
                self.user_source_owner@,
                self.token_program@,
                0,
            ),
    {
        create_associated_token_account(
            &self.user_source_owner,
            &self.user_source_owner,
            &self.user_source_owner,
            &self.token_program,
        )
    }

    /// Instructions that create, unless they exist, the owner's token
    /// accounts for the two mints of the pool.
    pub fn get_create_idempotent_ata_ix(&self, base_mint: Pubkey, quote_mint: Pubkey) -> (out:
        Option<Vec<Instruction>>)
        ensures
            out is Some == (spec_associated_token_address(
                self.user_source_owner@,
                base_mint@,
                self.token_program@,
            ) is Some && spec_associated_token_address(
                self.user_source_owner@,
                quote_mint@,
                self.token_program@,
            ) is Some),
            out is Some ==> crate::instruction::instructions_view(out->Some_0@)
                == spec_create_idempotent_pair(
                self.user_source_owner@,
                spec_associated_token_address(
                    self.user_source_owner@,
                    base_mint@,
                    self.token_program@,
                )->Some_0,
                base_mint@,
                self.token_program@,
                spec_associated_token_address(
                    self.user_source_owner@,
                    quote_mint@,
                    self.token_program@,
                )->Some_0,
                quote_mint@,
                self.token_program@,
            ),
    {
        create_idempotent_pair(
            &self.user_source_owner,
            &base_mint,
            &self.token_program,
            &quote_mint,
            &self.token_program,
        )
    }

    /// Instructions that wrap `lamports` native units for `pubkey`.
    pub fn get_wrap_sol(&self, pubkey: Pubkey, lamports: u64) -> (out: Option<Vec<Instruction>>)
        ensures
            out is Some == spec_associated_token_address(
                pubkey@,
                WSOL_BYTES@,
                TOKEN_PROGRAM_BYTES@,
            ) is Some,
            out is Some ==> crate::instruction::instructions_view(out->Some_0@) == spec_wrap_sol(
                pubkey@,
                spec_associated_token_address(pubkey@, WSOL_BYTES@, TOKEN_PROGRAM_BYTES@)->Some_0,
                lamports,
            ),
    {
        wrap_sol_instructions(&pubkey, lamports)
    }

    /// Instruction that closes the wrapped native account of `pubkey`.
    pub fn get_close_wsol(&self, pubkey: Pubkey) -> (out: Option<Instruction>)
        ensures
            out is Some == spec_associated_token_address(
                pubkey@,
                WSOL_BYTES@,
                TOKEN_PROGRAM_BYTES@,
            ) is Some,
            out is Some ==> out->Some_0@ == spec_close_account(
                spec_associated_token_address(pubkey@, WSOL_BYTES@, TOKEN_PROGRAM_BYTES@)->Some_0,
                pubkey@,
                pubkey@,
            ),
    {
        close_wsol_instruction(&pubkey)
    }
}

} // verus!

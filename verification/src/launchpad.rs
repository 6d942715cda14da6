//! Instructions of the launchpad pool: buy and sell with an exact input.

use crate::instruction::{
    create_associated_token_account, readonly, spec_associated_token_address,
    spec_create_associated_token_account, writable, AccountMeta, AccountMetaView, Instruction,
    InstructionView,
};
use crate::keys::{system_program_id, Pubkey, SYSTEM_PROGRAM_BYTES};
use crate::raydium::{create_idempotent_pair, spec_create_idempotent_pair};
use vstd::bytes::{spec_u64_to_le_bytes, u64_to_le_bytes};
use vstd::prelude::*;

verus! {

/// `LanMV9sAd7wArD4vJFi2qDdfnVhFxYSUg6eADduJ3uj`
pub const LAUNCHPAD_PROGRAM_BYTES: [u8; 32] = [
    5, 4, 59, 149, 77, 202, 38, 225, 239, 145, 181, 44, 79, 143, 137, 175, 138, 111, 90, 200, 198,
    33, 86, 241, 113, 207, 15, 33, 172, 81, 201, 34,
];

/// `Cyu7XFTGSHSwFtsghriq9DfGVMehrdCaepFefFKNdcKB`
pub const LAUNCHPAD_FIRST_REMAINING_BYTES: [u8; 32] = [
    178, 4, 1, 86, 61, 179, 237, 220, 181, 221, 122, 120, 88, 114, 80, 107, 21, 169, 56, 5, 75, 154,
    26, 196, 114, 200, 19, 247, 140, 148, 160, 186,
];

/// `3togC4WnVohRh4QYqGVB5VLdz3VwX2RKTgybM8VZcwUd`
pub const LAUNCHPAD_SECOND_REMAINING_BYTES: [u8; 32] = [
    42, 252, 197, 129, 1, 104, 209, 192, 157, 138, 10, 11, 187, 5, 25, 254, 79, 226, 156, 224, 19,
    18, 89, 8, 76, 192, 185, 83, 90, 72, 90, 146,
];

/// Address of the pool program.
pub fn launchpad_program_id() -> (out: Pubkey)
    ensures
        out@ == LAUNCHPAD_PROGRAM_BYTES@,
{
    Pubkey { bytes: LAUNCHPAD_PROGRAM_BYTES }
}

/// Parameters of a buy: the exact amount paid, the least amount accepted in
/// return, and the rate of the fee that is shared.
#[derive(Clone, Copy, Debug, PartialEq, Eq)]
pub struct BuyExactIn {
    pub amount_in: u64,
    pub minimum_amount_out: u64,
    pub share_fee_rate: u64,
}

/// Parameters of a sell: the exact amount given, the least amount accepted
/// in return, and the rate of the fee that is shared.
#[derive(Clone, Copy, Debug, PartialEq, Eq)]
pub struct SellExactIn {
    pub amount_in: u64,
    pub minimum_amount_out: u64,
    pub share_fee_rate: u64,
}

/// The accounts of a buy or a sell, by role.
#[derive(Clone, Copy, Debug, PartialEq, Eq)]
pub struct SellExactInInstructionAccounts {
    pub payer: Pubkey,
    pub authority: Pubkey,
    pub global_config: Pubkey,
    pub platform_config: Pubkey,
    pub pool_state: Pubkey,
    pub user_base_token: Pubkey,
    pub user_quote_token: Pubkey,
    pub base_vault: Pubkey,
    pub quote_vault: Pubkey,
    pub base_token_mint: Pubkey,
    pub quote_token_mint: Pubkey,
    pub base_token_program: Pubkey,
    pub quote_token_program: Pubkey,
    pub event_authority: Pubkey,
    pub program: Pubkey,
}

/// The accounts of a buy are those of a sell.
pub type BuyExactInInstructionAccounts = SellExactInInstructionAccounts;

/// The eighteen accounts of a buy and of a sell, in the order the program
/// reads them: the fifteen by role, the system program, and two more that
/// are always the same.
pub open spec fn spec_launchpad_accounts(a: SellExactInInstructionAccounts) -> Seq<
    AccountMetaView,
> {
    seq![
        writable(a.payer@, true),
        readonly(a.authority@, false),
        readonly(a.global_config@, false),
        readonly(a.platform_config@, false),
        writable(a.pool_state@, false),
        writable(a.user_base_token@, false),
        writable(a.user_quote_token@, false),
        writable(a.base_vault@, false),
        writable(a.quote_vault@, false),
        readonly(a.base_token_mint@, false),
        readonly(a.quote_token_mint@, false),
        readonly(a.base_token_program@, false),
        readonly(a.quote_token_program@, false),
        readonly(a.event_authority@, false),
        readonly(a.program@, false),
        readonly(SYSTEM_PROGRAM_BYTES@, false),
        readonly(LAUNCHPAD_FIRST_REMAINING_BYTES@, false),
        readonly(LAUNCHPAD_SECOND_REMAINING_BYTES@, false),
    ]
}

/// The three numbers of a buy or a sell, each in eight bytes, little-endian.
pub open spec fn spec_exact_in_numbers(
    amount_in: u64,
    minimum_amount_out: u64,
    share_fee_rate: u64,
) -> Seq<u8> {
    spec_u64_to_le_bytes(amount_in) + spec_u64_to_le_bytes(minimum_amount_out)
        + spec_u64_to_le_bytes(share_fee_rate)
}

/// The buy: eight bytes of tag, then the three numbers.
pub open spec fn spec_buy_exact_in_ix(
    a: SellExactInInstructionAccounts,
    params: BuyExactIn,
) -> InstructionView {
    InstructionView {
        program_id: LAUNCHPAD_PROGRAM_BYTES@,
        accounts: spec_launchpad_accounts(a),
        data: seq![250u8, 234u8, 13u8, 123u8, 213u8, 156u8, 19u8, 236u8] + spec_exact_in_numbers(
            params.amount_in,
            params.minimum_amount_out,
            params.share_fee_rate,
        ),
    }
}

/// The sell: eight bytes of tag, then the three numbers.
pub open spec fn spec_sell_exact_in_ix(
    a: SellExactInInstructionAccounts,
    params: SellExactIn,
) -> InstructionView {
    InstructionView {
        program_id: LAUNCHPAD_PROGRAM_BYTES@,
        accounts: spec_launchpad_accounts(a),
        data: seq![149u8, 39u8, 222u8, 155u8, 211u8, 124u8, 152u8, 26u8] + spec_exact_in_numbers(
            params.amount_in,
            params.minimum_amount_out,
            params.share_fee_rate,
        ),
    }
}

impl SellExactInInstructionAccounts {
    fn accounts(&self) -> (out: Vec<AccountMeta>)
        ensures
            crate::instruction::metas_view(out@) == spec_launchpad_accounts(*self),
    {
        let out = vec![
            AccountMeta::new(self.payer, true),
            AccountMeta::new_readonly(self.authority, false),
            AccountMeta::new_readonly(self.global_config, false),
            AccountMeta::new_readonly(self.platform_config, false),
            AccountMeta::new(self.pool_state, false),
            AccountMeta::new(self.user_base_token, false),
            AccountMeta::new(self.user_quote_token, false),
            AccountMeta::new(self.base_vault, false),
            AccountMeta::new(self.quote_vault, false),
            AccountMeta::new_readonly(self.base_token_mint, false),
            AccountMeta::new_readonly(self.quote_token_mint, false),
            AccountMeta::new_readonly(self.base_token_program, false),
            AccountMeta::new_readonly(self.quote_token_program, false),
            AccountMeta::new_readonly(self.event_authority, false),
            AccountMeta::new_readonly(self.program, false),
            AccountMeta::new_readonly(system_program_id(), false),
            AccountMeta::new_readonly(Pubkey { bytes: LAUNCHPAD_FIRST_REMAINING_BYTES }, false),
            AccountMeta::new_readonly(Pubkey { bytes: LAUNCHPAD_SECOND_REMAINING_BYTES }, false),
        ];
        assert(crate::instruction::metas_view(out@) =~= spec_launchpad_accounts(*self));
        out
    }

    fn numbers(amount_in: u64, minimum_amount_out: u64, share_fee_rate: u64) -> (out: Vec<u8>)
        ensures
            out@ == spec_exact_in_numbers(amount_in, minimum_amount_out, share_fee_rate),
    {
        let mut out = u64_to_le_bytes(amount_in);
        let mut second = u64_to_le_bytes(minimum_amount_out);
        let mut third = u64_to_le_bytes(share_fee_rate);
        out.append(&mut second);
        out.append(&mut third);
        out
    }

    /// The buy instruction.
    pub fn get_buy_ix(&self, buy_params: BuyExactIn) -> (out: Instruction)
        ensures
            out@ == spec_buy_exact_in_ix(*self, buy_params),
    {
        let mut data: Vec<u8> = vec![250u8, 234u8, 13u8, 123u8, 213u8, 156u8, 19u8, 236u8];
        let mut numbers = Self::numbers(
            buy_params.amount_in,
            buy_params.minimum_amount_out,
            buy_params.share_fee_rate,
        );
        data.append(&mut numbers);
        let out = Instruction { program_id: launchpad_program_id(), accounts: self.accounts(), data };
        assert(out@.data =~= spec_buy_exact_in_ix(*self, buy_params).data);
        out
    }

    /// The sell instruction.
    pub fn get_sell_ix(&self, sell_params: SellExactIn) -> (out: Instruction)
        ensures
            out@ == spec_sell_exact_in_ix(*self, sell_params),
    {
        let mut data: Vec<u8> = vec![149u8, 39u8, 222u8, 155u8, 211u8, 124u8, 152u8, 26u8];
        let mut numbers = Self::numbers(
            sell_params.amount_in,
            sell_params.minimum_amount_out,
            sell_params.share_fee_rate,
        );
        data.append(&mut numbers);
        let out = Instruction { program_id: launchpad_program_id(), accounts: self.accounts(), data };
        assert(out@.data =~= spec_sell_exact_in_ix(*self, sell_params).data);
        out
    }

    /// Instruction that creates the payer's token account for the base mint.
    pub fn get_create_ata_ix(&self) -> (out: Option<Instruction>)
        ensures
            out is Some == spec_associated_token_address(
                self.payer@,
                self.base_token_mint@,
                self.base_token_program@,
            ) is Some,
            out is Some ==> out->Some_0@ == spec_create_associated_token_account(
                self.payer@,
                spec_associated_token_address(
                    self.payer@,
                    self.base_token_mint@,
                    self.base_token_program@,
                )->Some_0,
                self.payer@,
                self.base_token_mint@,
                self.base_token_program@,
                0,
            ),
    {
        create_associated_token_account(
            &self.payer,
            &self.payer,
            &self.base_token_mint,
            &self.base_token_program,
        )
    }

    /// Instructions that create, unless they exist, the payer's token
    /// accounts for the base and the quote mint.
    pub fn get_create_idempotent_ata_ix(&self) -> (out: Option<Vec<Instruction>>)
        ensures
            out is Some == (spec_associated_token_address(
                self.payer@,
                self.base_token_mint@,
                self.base_token_program@,
            ) is Some && spec_associated_token_address(
                self.payer@,
                self.quote_token_mint@,
                self.quote_token_program@,
            ) is Some),
            out is Some ==> crate::instruction::instructions_view(out->Some_0@)
                == spec_create_idempotent_pair(
                self.payer@,
                spec_associated_token_address(
                    self.payer@,
                    self.base_token_mint@,
                    self.base_token_program@,
                )->Some_0,
                self.base_token_mint@,
                self.base_token_program@,
                spec_associated_token_address(
                    self.payer@,
                    self.quote_token_mint@,
                    self.quote_token_program@,
                )->Some_0,
                self.quote_token_mint@,
                self.quote_token_program@,
            ),
    {
        create_idempotent_pair(
            &self.payer,
            &self.base_token_mint,
            &self.base_token_program,
            &self.quote_token_mint,
            &self.quote_token_program,
        )
    }
}

} // verus!

//! Instructions of the constant-product pool of the newer kind: the swap
//! with an exact input.

use crate::instruction::{
    create_associated_token_account, spec_associated_token_address,
    spec_create_associated_token_account, writable, AccountMeta, AccountMetaView, Instruction,
    InstructionView,
};
use crate::keys::Pubkey;
use crate::raydium::{create_idempotent_pair, spec_create_idempotent_pair};
use vstd::bytes::{spec_u64_to_le_bytes, u64_to_le_bytes};
use vstd::prelude::*;

verus! {

/// `CPMMoo8L3F4NbTegBCKVNunggL7H1ZpdTHKxQB5qKP1C`
pub const CPMM_PROGRAM_BYTES: [u8; 32] = [
    169, 42, 90, 139, 79, 41, 89, 82, 132, 37, 80, 170, 147, 253, 91, 149, 181, 172, 230, 168, 235,
    146, 12, 147, 148, 46, 67, 105, 12, 32, 236, 115,
];

/// Address of the pool program.
pub fn cpmm_program_id() -> (out: Pubkey)
    ensures
        out@ == CPMM_PROGRAM_BYTES@,
{
    Pubkey { bytes: CPMM_PROGRAM_BYTES }
}

/// Parameters of a swap: the exact amount paid and the least amount
/// accepted in return.
#[derive(Clone, Copy, Debug, PartialEq, Eq)]
pub struct SwapBaseInput {
    pub amount_in: u64,
    pub minimum_amount_out: u64,
}

/// The accounts of a swap, by role.
#[derive(Clone, Copy, Debug, PartialEq, Eq)]
pub struct SwapBaseInputInstructionAccounts {
    pub payer: Pubkey,
    pub authority: Pubkey,
    pub amm_config: Pubkey,
    pub pool_state: Pubkey,
    pub input_token_account: Pubkey,
    pub output_token_account: Pubkey,
    pub input_vault: Pubkey,
    pub output_vault: Pubkey,
    pub input_token_program: Pubkey,
    pub output_token_program: Pubkey,
    pub input_token_mint: Pubkey,
    pub output_token_mint: Pubkey,
    pub observation_state: Pubkey,
}

/// The swap: eight bytes of tag, then the amount paid and the least amount
/// accepted, each in eight bytes, little-endian. All thirteen accounts are
/// writable and the payer signs.
pub open spec fn spec_swap_base_input_ix(
    a: SwapBaseInputInstructionAccounts,
    params: SwapBaseInput,
) -> InstructionView {
    InstructionView {
        program_id: CPMM_PROGRAM_BYTES@,
        accounts: seq![
            writable(a.payer@, true),
            writable(a.authority@, false),
            writable(a.amm_config@, false),
            writable(a.pool_state@, false),
            writable(a.input_token_account@, false),
            writable(a.output_token_account@, false),
            writable(a.input_vault@, false),
            writable(a.output_vault@, false),
            writable(a.input_token_program@, false),
            writable(a.output_token_program@, false),
            writable(a.input_token_mint@, false),
            writable(a.output_token_mint@, false),
            writable(a.observation_state@, false),
        ],
        data: seq![146u8, 190u8, 90u8, 218u8, 196u8, 30u8, 51u8, 222u8] + spec_u64_to_le_bytes(
            params.amount_in,
        ) + spec_u64_to_le_bytes(params.minimum_amount_out),
    }
}

impl SwapBaseInputInstructionAccounts {
    /// The swap instruction.
    pub fn get_swap_base_input_ix(&self, swap_base_input_param: SwapBaseInput) -> (out: Instruction)
        ensures
            out@ == spec_swap_base_input_ix(*self, swap_base_input_param),
    {
        let mut data: Vec<u8> = vec![146u8, 190u8, 90u8, 218u8, 196u8, 30u8, 51u8, 222u8];
        let mut amount_in = u64_to_le_bytes(swap_base_input_param.amount_in);
        let mut minimum_amount_out = u64_to_le_bytes(swap_base_input_param.minimum_amount_out);
        data.append(&mut amount_in);
        data.append(&mut minimum_amount_out);
        let accounts = vec![
            AccountMeta::new(self.payer, true),
            AccountMeta::new(self.authority, false),
            AccountMeta::new(self.amm_config, false),
            AccountMeta::new(self.pool_state, false),
            AccountMeta::new(self.input_token_account, false),
            AccountMeta::new(self.output_token_account, false),
            AccountMeta::new(self.input_vault, false),
            AccountMeta::new(self.output_vault, false),
            AccountMeta::new(self.input_token_program, false),
            AccountMeta::new(self.output_token_program, false),
            AccountMeta::new(self.input_token_mint, false),
            AccountMeta::new(self.output_token_mint, false),
            AccountMeta::new(self.observation_state, false),
        ];
        let out = Instruction { program_id: cpmm_program_id(), accounts, data };
        let ghost expected = spec_swap_base_input_ix(*self, swap_base_input_param);
        assert(out@.accounts =~= expected.accounts);
        assert(out@.data =~= expected.data);
        out
    }

    /// Instruction that creates the payer's token account for the input
    /// mint.
    pub fn get_create_ata_ix(&self) -> (out: Option<Instruction>)
        ensures
            out is Some == spec_associated_token_address(
                self.payer@,
                self.input_token_mint@,
                self.input_token_program@,
            ) is Some,
            out is Some ==> out->Some_0@ == spec_create_associated_token_account(
                self.payer@,
                spec_associated_token_address(
                    self.payer@,
                    self.input_token_mint@,
                    self.input_token_program@,
                )->Some_0,
                self.payer@,
                self.input_token_mint@,
                self.input_token_program@,
                0,
            ),
    {
        create_associated_token_account(
            &self.payer,
            &self.payer,
            &self.input_token_mint,
            &self.input_token_program,
        )
    }

    /// Instructions that create, unless they exist, the payer's token
    /// accounts for the two mints given, the first under the input token
    /// program and the second under the output token program.
    pub fn get_create_idempotent_ata_ix(&self, input_mint: Pubkey, output_mint: Pubkey) -> (out:
        Option<Vec<Instruction>>)
        ensures
            out is Some == (spec_associated_token_address(
                self.payer@,
                input_mint@,
                self.input_token_program@,
            ) is Some && spec_associated_token_address(
                self.payer@,
                output_mint@,
                self.output_token_program@,
            ) is Some),
            out is Some ==> crate::instruction::instructions_view(out->Some_0@)
                == spec_create_idempotent_pair(
                self.payer@,
                spec_associated_token_address(
                    self.payer@,
                    input_mint@,
                    self.input_token_program@,
                )->Some_0,
                input_mint@,
                self.input_token_program@,
                spec_associated_token_address(
                    self.payer@,
                    output_mint@,
                    self.output_token_program@,
                )->Some_0,
                output_mint@,
                self.output_token_program@,
            ),
    {
        create_idempotent_pair(
            &self.payer,
            &input_mint,
            &self.input_token_program,
            &output_mint,
            &self.output_token_program,
        )
    }
}

} // verus!

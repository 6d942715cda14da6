//! Instructions as plain data, and the encoders of the few instructions of
//! the system, token and associated-token-account programs that a swap needs
//! around it.

use crate::keys::{
    associated_token_program_id, program_address, seeds_view, system_program_id, token_program_id,
    try_find_program_address, Pubkey, ASSOCIATED_TOKEN_PROGRAM_BYTES, SYSTEM_PROGRAM_BYTES,
    TOKEN_PROGRAM_BYTES,
};
use vstd::bytes::{spec_u64_to_le_bytes, u64_to_le_bytes};
use vstd::prelude::*;

verus! {

/// One account that an instruction touches.
#[derive(Clone, Copy, Debug, PartialEq, Eq)]
pub struct AccountMeta {
    pub pubkey: Pubkey,
    pub is_signer: bool,
    pub is_writable: bool,
}

/// Mathematical value of [`AccountMeta`].
pub struct AccountMetaView {
    pub pubkey: Seq<u8>,
    pub is_signer: bool,
    pub is_writable: bool,
}

impl View for AccountMeta {
    type V = AccountMetaView;

    open spec fn view(&self) -> AccountMetaView {
        AccountMetaView {
            pubkey: self.pubkey@,
            is_signer: self.is_signer,
            is_writable: self.is_writable,
        }
    }
}

/// A writable account.
pub open spec fn writable(pubkey: Seq<u8>, is_signer: bool) -> AccountMetaView {
    AccountMetaView { pubkey, is_signer, is_writable: true }
}

/// A read-only account.
pub open spec fn readonly(pubkey: Seq<u8>, is_signer: bool) -> AccountMetaView {
    AccountMetaView { pubkey, is_signer, is_writable: false }
}

impl AccountMeta {
    /// A writable account.
    pub fn new(pubkey: Pubkey, is_signer: bool) -> (out: Self)
        ensures
            out@ == writable(pubkey@, is_signer),
    {
        AccountMeta { pubkey, is_signer, is_writable: true }
    }

    /// A read-only account.
    pub fn new_readonly(pubkey: Pubkey, is_signer: bool) -> (out: Self)
        ensures
            out@ == readonly(pubkey@, is_signer),
    {
        AccountMeta { pubkey, is_signer, is_writable: false }
    }
}

/// An instruction for a program: the accounts in the order the program
/// expects them, and the bytes it decodes.
#[derive(Debug, PartialEq, Eq)]
pub struct Instruction {
    pub program_id: Pubkey,
    pub accounts: Vec<AccountMeta>,
    pub data: Vec<u8>,
}

/// Mathematical value of [`Instruction`].
pub struct InstructionView {
    pub program_id: Seq<u8>,
    pub accounts: Seq<AccountMetaView>,
    pub data: Seq<u8>,
}

/// The accounts of an instruction, as values.
pub open spec fn metas_view(accounts: Seq<AccountMeta>) -> Seq<AccountMetaView> {
    Seq::new(accounts.len(), |i: int| accounts[i]@)
}

impl View for Instruction {
    type V = InstructionView;

    open spec fn view(&self) -> InstructionView {
        InstructionView {
            program_id: self.program_id@,
            accounts: metas_view(self.accounts@),
            data: self.data@,
        }
    }
}

/// A list of instructions, as values.
pub open spec fn instructions_view(list: Seq<Instruction>) -> Seq<InstructionView> {
    Seq::new(list.len(), |i: int| list[i]@)
}

/// Copy of a byte vector.
pub fn clone_bytes(bytes: &Vec<u8>) -> (out: Vec<u8>)
    ensures
        out@ == bytes@,
{
    let mut out: Vec<u8> = Vec::new();
    let mut i: usize = 0;
    while i < bytes.len()
        invariant
            i <= bytes.len(),
            out@ == bytes@.subrange(0, i as int),
        decreases bytes.len() - i,
    {
        out.push(bytes[i]);
        assert(out@ =~= bytes@.subrange(0, i as int + 1));
        i += 1;
    }
    assert(out@ =~= bytes@);
    out
}

impl Clone for Instruction {
    fn clone(&self) -> (out: Self)
        ensures
            out@ == self@,
    {
        let mut accounts: Vec<AccountMeta> = Vec::new();
        let mut i: usize = 0;
        while i < self.accounts.len()
            invariant
                i <= self.accounts.len(),
                accounts@ == self.accounts@.subrange(0, i as int),
            decreases self.accounts.len() - i,
        {
            accounts.push(self.accounts[i]);
            assert(accounts@ =~= self.accounts@.subrange(0, i as int + 1));
            i += 1;
        }
        assert(accounts@ =~= self.accounts@);
        Instruction { program_id: self.program_id, accounts, data: clone_bytes(&self.data) }
    }
}

/// Copy of a list of instructions.
pub fn clone_instructions(list: &Vec<Instruction>) -> (out: Vec<Instruction>)
    ensures
        instructions_view(out@) == instructions_view(list@),
{
    let mut out: Vec<Instruction> = Vec::new();
    let mut i: usize = 0;
    while i < list.len()
        invariant
            i <= list.len(),
            out.len() == i,
            forall|k: int| 0 <= k < i ==> out[k]@ == list[k]@,
        decreases list.len() - i,
    {
        out.push(list[i].clone());
        i += 1;
    }
    assert(instructions_view(out@) =~= instructions_view(list@));
    out
}

/// Address of the token account that `wallet` holds for `mint` under
/// `token_program`: the program address derived for the associated-token
/// program from the three, in the order wallet, token program, mint.
pub open spec fn spec_associated_token_address(
    wallet: Seq<u8>,
    mint: Seq<u8>,
    token_program: Seq<u8>,
) -> Option<Seq<u8>> {
    program_address(seq![wallet, token_program, mint], ASSOCIATED_TOKEN_PROGRAM_BYTES@)
}

/// Associated token account of `wallet` for `mint` under `token_program`.
pub fn get_associated_token_address_with_program_id(
    wallet: &Pubkey,
    mint: &Pubkey,
    token_program: &Pubkey,
) -> (out: Option<Pubkey>)
    ensures
        out is Some == spec_associated_token_address(wallet@, mint@, token_program@) is Some,
        out is Some ==> Some(out->Some_0@) == spec_associated_token_address(
            wallet@,
            mint@,
            token_program@,
        ),
{
    let mut seeds: Vec<Vec<u8>> = Vec::new();
    seeds.push(wallet.to_vec());
    seeds.push(token_program.to_vec());
    seeds.push(mint.to_vec());
    assert(seeds_view(seeds@) =~= seq![wallet@, token_program@, mint@]);
    try_find_program_address(&seeds, &associated_token_program_id())
}

/// Associated token account of `wallet` for `mint` under the token program.
pub fn get_associated_token_address(wallet: &Pubkey, mint: &Pubkey) -> (out: Option<Pubkey>)
    ensures
        out is Some == spec_associated_token_address(wallet@, mint@, TOKEN_PROGRAM_BYTES@) is Some,
        out is Some ==> Some(out->Some_0@) == spec_associated_token_address(
            wallet@,
            mint@,
            TOKEN_PROGRAM_BYTES@,
        ),
{
    get_associated_token_address_with_program_id(wallet, mint, &token_program_id())
}

/// The instruction that creates the associated token account `account` of
/// `wallet` for `mint`, paid by `funding`; `tag` is 0 to create and 1 to
/// create unless it exists.
pub open spec fn spec_create_associated_token_account(
    funding: Seq<u8>,
    account: Seq<u8>,
    wallet: Seq<u8>,
    mint: Seq<u8>,
    token_program: Seq<u8>,
    tag: u8,
) -> InstructionView {
    InstructionView {
        program_id: ASSOCIATED_TOKEN_PROGRAM_BYTES@,
        accounts: seq![
            writable(funding, true),
            writable(account, false),
            readonly(wallet, false),
            readonly(mint, false),
            readonly(SYSTEM_PROGRAM_BYTES@, false),
            readonly(token_program, false),
        ],
        data: seq![tag],
    }
}

fn build_associated_token_account_instruction(
    funding: &Pubkey,
    wallet: &Pubkey,
    mint: &Pubkey,
    token_program: &Pubkey,
    tag: u8,
) -> (out: Option<Instruction>)
    ensures
        out is Some == spec_associated_token_address(wallet@, mint@, token_program@) is Some,
        out is Some ==> out->Some_0@ == spec_create_associated_token_account(
            funding@,
            spec_associated_token_address(wallet@, mint@, token_program@)->Some_0,
            wallet@,
            mint@,
            token_program@,
            tag,
        ),
{
    let account = match get_associated_token_address_with_program_id(wallet, mint, token_program) {
        Some(account) => account,
        None => {
            return None;
        },
    };
    let accounts = vec![
        AccountMeta::new(*funding, true),
        AccountMeta::new(account, false),
        AccountMeta::new_readonly(*wallet, false),
        AccountMeta::new_readonly(*mint, false),
        AccountMeta::new_readonly(system_program_id(), false),
        AccountMeta::new_readonly(*token_program, false),
    ];
    let data = vec![tag];
    let out = Instruction { program_id: associated_token_program_id(), accounts, data };
    assert(out@.accounts =~= spec_create_associated_token_account(
        funding@,
        account@,
        wallet@,
        mint@,
        token_program@,
        tag,
    ).accounts);
    assert(out@.data =~= seq![tag]);
    Some(out)
}

/// Instruction that creates the associated token account of `wallet` for
/// `mint`. `None` where that account has no address.
pub fn create_associated_token_account(
    funding: &Pubkey,
    wallet: &Pubkey,
    mint: &Pubkey,
    token_program: &Pubkey,
) -> (out: Option<Instruction>)
    ensures
        out is Some == spec_associated_token_address(wallet@, mint@, token_program@) is Some,
        out is Some ==> out->Some_0@ == spec_create_associated_token_account(
            funding@,
            spec_associated_token_address(wallet@, mint@, token_program@)->Some_0,
            wallet@,
            mint@,
            token_program@,
            0,
        ),
{
    build_associated_token_account_instruction(funding, wallet, mint, token_program, 0)
}

/// Instruction that creates the associated token account of `wallet` for
/// `mint` unless it exists. `None` where that account has no address.
pub fn create_associated_token_account_idempotent(
    funding: &Pubkey,
    wallet: &Pubkey,
    mint: &Pubkey,
    token_program: &Pubkey,
) -> (out: Option<Instruction>)
    ensures
        out is Some == spec_associated_token_address(wallet@, mint@, token_program@) is Some,
        out is Some ==> out->Some_0@ == spec_create_associated_token_account(
            funding@,
            spec_associated_token_address(wallet@, mint@, token_program@)->Some_0,
            wallet@,
            mint@,
            token_program@,
            1,
        ),
{
    build_associated_token_account_instruction(funding, wallet, mint, token_program, 1)
}

/// The system program's transfer of `lamports` from `from` to `to`: the
/// instruction's index 2 in four bytes, then the amount in eight, both
/// little-endian.
pub open spec fn spec_system_transfer(from: Seq<u8>, to: Seq<u8>, lamports: u64) -> InstructionView {
    InstructionView {
        program_id: SYSTEM_PROGRAM_BYTES@,
        accounts: seq![writable(from, true), writable(to, false)],
        data: seq![2u8, 0u8, 0u8, 0u8] + spec_u64_to_le_bytes(lamports),
    }
}

/// Transfer of native units between two accounts.
pub fn system_transfer(from: &Pubkey, to: &Pubkey, lamports: u64) -> (out: Instruction)
    ensures
        out@ == spec_system_transfer(from@, to@, lamports),
{
    let accounts = vec![AccountMeta::new(*from, true), AccountMeta::new(*to, false)];
    let mut data: Vec<u8> = vec![2u8, 0u8, 0u8, 0u8];
    let mut amount = u64_to_le_bytes(lamports);
    data.append(&mut amount);
    let out = Instruction { program_id: system_program_id(), accounts, data };
    assert(out@.accounts =~= spec_system_transfer(from@, to@, lamports).accounts);
    assert(out@.data =~= spec_system_transfer(from@, to@, lamports).data);
    out
}

/// The token program's instruction that brings the balance of a wrapped
/// native account up to the native units it holds.
pub open spec fn spec_sync_native(account: Seq<u8>) -> InstructionView {
    InstructionView {
        program_id: TOKEN_PROGRAM_BYTES@,
        accounts: seq![writable(account, false)],
        data: seq![17u8],
    }
}

/// See [`spec_sync_native`].
pub fn sync_native(account: &Pubkey) -> (out: Instruction)
    ensures
        out@ == spec_sync_native(account@),
{
    let accounts = vec![AccountMeta::new(*account, false)];
    let data = vec![17u8];
    let out = Instruction { program_id: token_program_id(), accounts, data };
    assert(out@.accounts =~= spec_sync_native(account@).accounts);
    assert(out@.data =~= seq![17u8]);
    out
}

/// The token program's instruction that closes `account`, signed by its
/// `owner`, and sends what it holds to `destination`.
pub open spec fn spec_close_account(
    account: Seq<u8>,
    destination: Seq<u8>,
    owner: Seq<u8>,
) -> InstructionView {
    InstructionView {
        program_id: TOKEN_PROGRAM_BYTES@,
        accounts: seq![writable(account, false), writable(destination, false), readonly(owner, true)],
        data: seq![9u8],
    }
}

/// See [`spec_close_account`].
pub fn close_account(account: &Pubkey, destination: &Pubkey, owner: &Pubkey) -> (out: Instruction)
    ensures
        out@ == spec_close_account(account@, destination@, owner@),
{
    let accounts = vec![
        AccountMeta::new(*account, false),
        AccountMeta::new(*destination, false),
        AccountMeta::new_readonly(*owner, true),
    ];
    let data = vec![9u8];
    let out = Instruction { program_id: token_program_id(), accounts, data };
    assert(out@.accounts =~= spec_close_account(account@, destination@, owner@).accounts);
    assert(out@.data =~= seq![9u8]);
    out
}

} // verus!

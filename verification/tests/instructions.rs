use raydium_amm_monitor::cpmm::{cpmm_program_id, SwapBaseInput, SwapBaseInputInstructionAccounts};
use raydium_amm_monitor::instruction::{
    close_account, create_associated_token_account, create_associated_token_account_idempotent,
    get_associated_token_address, get_associated_token_address_with_program_id, sync_native,
    system_transfer, Instruction,
};
use raydium_amm_monitor::keys::{
    associated_token_program_id, pumpswap_program_id, raydium_v4_program_id, system_program_id,
    token_program_id, wsol_mint, Pubkey, PUMP_FEE_CONFIG_BYTES, PUMP_FEE_PROGRAM_BYTES,
};
use raydium_amm_monitor::launchpad::{
    launchpad_program_id, BuyExactIn, SellExactIn, SellExactInInstructionAccounts,
    LAUNCHPAD_FIRST_REMAINING_BYTES, LAUNCHPAD_SECOND_REMAINING_BYTES,
};
use raydium_amm_monitor::pumpswap::{Buy, Sell, SellInstructionAccounts};
use raydium_amm_monitor::raydium::{SwapBaseIn, SwapBaseInInstructionAccounts, SwapBaseOut};
use std::str::FromStr;

fn chain_key(key: &Pubkey) -> solana_sdk::pubkey::Pubkey {
    solana_sdk::pubkey::Pubkey::new_from_array(key.bytes)
}

fn key(seed: u8) -> Pubkey {
    let mut bytes = [0u8; 32];
    for (i, b) in bytes.iter_mut().enumerate() {
        *b = seed.wrapping_mul(31).wrapping_add(i as u8);
    }
    Pubkey::new_from_array(bytes)
}

fn same_instruction(ours: &Instruction, theirs: &solana_sdk::instruction::Instruction) {
    assert_eq!(ours.program_id.bytes, theirs.program_id.to_bytes());
    assert_eq!(ours.data, theirs.data);
    assert_eq!(ours.accounts.len(), theirs.accounts.len());
    for (a, b) in ours.accounts.iter().zip(theirs.accounts.iter()) {
        assert_eq!(a.pubkey.bytes, b.pubkey.to_bytes());
        assert_eq!(a.is_signer, b.is_signer);
        assert_eq!(a.is_writable, b.is_writable);
    }
}

#[test]
fn program_ids_match_their_base58() {
    let parse = |text: &str| solana_sdk::pubkey::Pubkey::from_str(text).unwrap().to_bytes();
    assert_eq!(wsol_mint().bytes, parse("So11111111111111111111111111111111111111112"));
    assert_eq!(token_program_id().bytes, spl_token::ID.to_bytes());
    assert_eq!(
        associated_token_program_id().bytes,
        spl_associated_token_account::ID.to_bytes()
    );
    assert_eq!(system_program_id().bytes, solana_sdk::system_program::ID.to_bytes());
    assert_eq!(
        raydium_v4_program_id().bytes,
        parse("675kPX9MHTjS2zt1qfr1NYHuzeLXfQM9H24wFSUt1Mp8")
    );
    assert_eq!(pumpswap_program_id().bytes, parse("pAMMBay6oceH9fJKBRHGP5D4bD4sWpmSwMn52FMfXEA"));
    assert_eq!(PUMP_FEE_CONFIG_BYTES, parse("5PHirr8joyTMp9JMm6nW7hNDVyEYdkzDqazxPD7RaTjx"));
    assert_eq!(PUMP_FEE_PROGRAM_BYTES, parse("pfeeUxB6jkeY1Hxd7CsFCAjcbHA9rWtchMGdZ6VojVZ"));
}

#[test]
fn associated_token_address_is_the_chains() {
    for seed in 1u8..6 {
        let wallet = key(seed);
        let mint = key(seed + 40);
        let ours = get_associated_token_address(&wallet, &mint).unwrap();
        let theirs = spl_associated_token_account::get_associated_token_address(
            &chain_key(&wallet),
            &chain_key(&mint),
        );
        assert_eq!(ours.bytes, theirs.to_bytes());
        assert_ne!(ours.bytes, wallet.bytes);
        let program = key(seed + 90);
        let ours = get_associated_token_address_with_program_id(&wallet, &mint, &program).unwrap();
        let theirs = spl_associated_token_account::get_associated_token_address_with_program_id(
            &chain_key(&wallet),
            &chain_key(&mint),
            &chain_key(&program),
        );
        assert_eq!(ours.bytes, theirs.to_bytes());
    }
}

#[test]
fn create_token_account_instructions_are_the_chains() {
    let funder = key(3);
    let wallet = key(4);
    let mint = key(5);
    let program = token_program_id();
    let ours =
        create_associated_token_account_idempotent(&funder, &wallet, &mint, &program).unwrap();
    let theirs =
        spl_associated_token_account::instruction::create_associated_token_account_idempotent(
            &chain_key(&funder),
            &chain_key(&wallet),
            &chain_key(&mint),
            &chain_key(&program),
        );
    same_instruction(&ours, &theirs);
    assert_eq!(ours.data, vec![1u8]);
    let ours = create_associated_token_account(&funder, &wallet, &mint, &program).unwrap();
    let theirs = spl_associated_token_account::instruction::create_associated_token_account(
        &chain_key(&funder),
        &chain_key(&wallet),
        &chain_key(&mint),
        &chain_key(&program),
    );
    same_instruction(&ours, &theirs);
    assert_eq!(ours.data, vec![0u8]);
}

#[test]
fn transfer_sync_and_close_are_the_chains() {
    let from = key(7);
    let to = key(8);
    for lamports in [0u64, 1, 11_000_000, u64::MAX] {
        let ours = system_transfer(&from, &to, lamports);
        let theirs = solana_sdk::system_instruction::transfer(
            &chain_key(&from),
            &chain_key(&to),
            lamports,
        );
        same_instruction(&ours, &theirs);
    }
    let ours = system_transfer(&from, &to, 11_000_000);
    assert_eq!(ours.data, vec![2, 0, 0, 0, 0xC0, 0xD8, 0xA7, 0, 0, 0, 0, 0]);

    let ours = sync_native(&to);
    let theirs = spl_token::instruction::sync_native(&spl_token::ID, &chain_key(&to)).unwrap();
    same_instruction(&ours, &theirs);

    let ours = close_account(&to, &from, &from);
    let theirs = spl_token::instruction::close_account(
        &spl_token::ID,
        &chain_key(&to),
        &chain_key(&from),
        &chain_key(&from),
        &[],
    )
    .unwrap();
    same_instruction(&ours, &theirs);
}

fn raydium_accounts(target_orders: Option<Pubkey>) -> SwapBaseInInstructionAccounts {
    SwapBaseInInstructionAccounts {
        token_program: token_program_id(),
        amm: key(10),
        amm_authority: key(11),
        amm_open_orders: key(12),
        amm_target_orders: target_orders,
        pool_coin_token_account: key(13),
        pool_pc_token_account: key(14),
        serum_program: key(15),
        serum_market: key(16),
        serum_bids: key(17),
        serum_asks: key(18),
        serum_event_queue: key(19),
        serum_coin_vault_account: key(20),
        serum_pc_vault_account: key(21),
        serum_vault_signer: key(22),
        user_source_token_account: key(23),
        user_destination_token_account: key(24),
        user_source_owner: key(25),
    }
}

#[test]
fn swap_base_in_layout() {
    let params = SwapBaseIn { amount_in: 10_000_000, minimum_amount_out: 0x0102030405060708 };
    let with_target = raydium_accounts(Some(key(30))).get_swap_base_in_ix(params);
    assert_eq!(with_target.program_id, raydium_v4_program_id());
    assert_eq!(with_target.accounts.len(), 18);
    assert_eq!(with_target.accounts[4].pubkey, key(30));
    assert!(with_target.accounts[4].is_writable);
    assert_eq!(
        with_target.data,
        vec![9, 0x80, 0x96, 0x98, 0, 0, 0, 0, 0, 8, 7, 6, 5, 4, 3, 2, 1]
    );
    let without = raydium_accounts(None).get_swap_base_in_ix(params);
    assert_eq!(without.accounts.len(), 17);
    assert_eq!(without.accounts[4].pubkey, key(13));
    assert_eq!(without.accounts[0].pubkey, token_program_id());
    assert!(!without.accounts[0].is_writable);
    let owner = without.accounts[16];
    assert_eq!(owner.pubkey, key(25));
    assert!(owner.is_signer && owner.is_writable);
    assert!(without.accounts.iter().filter(|a| a.is_signer).count() == 1);
}

fn pump_accounts() -> SellInstructionAccounts {
    SellInstructionAccounts {
        pool: key(50),
        user: key(51),
        global_config: key(52),
        base_mint: key(53),
        quote_mint: wsol_mint(),
        user_base_token_account: key(55),
        user_quote_token_account: key(56),
        pool_base_token_account: key(57),
        pool_quote_token_account: key(58),
        protocol_fee_recipient: key(59),
        protocol_fee_recipient_token_account: key(60),
        base_token_program: token_program_id(),
        quote_token_program: token_program_id(),
        system_program: system_program_id(),
        associated_token_program: associated_token_program_id(),
        event_authority: key(61),
        program: pumpswap_program_id(),
        coin_creator_vault_ata: key(62),
        coin_creator_vault_authority: key(63),
    }
}

#[test]
fn pump_buy_and_sell_layout() {
    let accounts = pump_accounts();
    let buy = accounts
        .get_buy_ix(Buy { base_amount_out: 5, max_quote_amount_in: 7 })
        .unwrap();
    assert_eq!(buy.program_id, pumpswap_program_id());
    assert_eq!(buy.accounts.len(), 23);
    assert_eq!(
        buy.data,
        vec![102, 6, 61, 18, 1, 218, 235, 234, 5, 0, 0, 0, 0, 0, 0, 0, 7, 0, 0, 0, 0, 0, 0, 0]
    );
    let program = chain_key(&pumpswap_program_id());
    let (global, _) = solana_sdk::pubkey::Pubkey::find_program_address(
        &[b"global_volume_accumulator"],
        &program,
    );
    let (user_volume, _) = solana_sdk::pubkey::Pubkey::find_program_address(
        &[b"user_volume_accumulator", &accounts.user.bytes],
        &program,
    );
    assert_eq!(buy.accounts[19].pubkey.bytes, global.to_bytes());
    assert_eq!(buy.accounts[20].pubkey.bytes, user_volume.to_bytes());
    assert_eq!(buy.accounts[21].pubkey.bytes, PUMP_FEE_CONFIG_BYTES);
    assert_eq!(buy.accounts[22].pubkey.bytes, PUMP_FEE_PROGRAM_BYTES);
    assert!(buy.accounts[19..].iter().all(|a| a.is_writable && !a.is_signer));
    assert!(buy.accounts[1].is_signer && buy.accounts[1].is_writable);

    let sell = accounts.get_sell_ix(Sell { base_amount_in: 9, min_quote_amount_out: 256 });
    assert_eq!(sell.accounts.len(), 21);
    assert_eq!(
        sell.data,
        vec![51, 230, 133, 164, 1, 127, 131, 173, 9, 0, 0, 0, 0, 0, 0, 0, 0, 1, 0, 0, 0, 0, 0, 0]
    );
    assert!(sell.accounts[19..].iter().all(|a| !a.is_writable && !a.is_signer));
    assert_eq!(sell.accounts[..19], buy.accounts[..19]);
}

#[test]
fn wrap_and_close_for_the_user() {
    let accounts = pump_accounts();
    let wrapped = get_associated_token_address(&accounts.user, &wsol_mint()).unwrap();
    let wrap = accounts.get_wrap_sol(11_000_000).unwrap();
    assert_eq!(wrap.len(), 2);
    assert_eq!(wrap[0], system_transfer(&accounts.user, &wrapped, 11_000_000));
    assert_eq!(wrap[1], sync_native(&wrapped));
    let close = accounts.get_close_wsol().unwrap();
    assert_eq!(close, close_account(&wrapped, &accounts.user, &accounts.user));
    let pair = accounts.get_create_idempotent_ata_ix().unwrap();
    assert_eq!(pair.len(), 2);
    assert_eq!(pair[0].accounts[3].pubkey, accounts.base_mint);
    assert_eq!(pair[1].accounts[3].pubkey, accounts.quote_mint);
    assert_eq!(pair[1].accounts[1].pubkey, wrapped);
}

#[test]
fn swap_base_out_layout() {
    let accounts = raydium_accounts(Some(key(30)));
    let out = accounts.get_swap_base_out_ix(SwapBaseOut { max_amount_in: 258, amount_out: 3 });
    let base_in = accounts.get_swap_base_in_ix(SwapBaseIn { amount_in: 258, minimum_amount_out: 3 });
    assert_eq!(out.accounts, base_in.accounts);
    assert_eq!(out.program_id, raydium_v4_program_id());
    assert_eq!(out.data, vec![9, 2, 1, 0, 0, 0, 0, 0, 0, 3, 0, 0, 0, 0, 0, 0, 0]);
}

#[test]
fn cpmm_swap_layout() {
    let parse = |text: &str| solana_sdk::pubkey::Pubkey::from_str(text).unwrap().to_bytes();
    assert_eq!(cpmm_program_id().bytes, parse("CPMMoo8L3F4NbTegBCKVNunggL7H1ZpdTHKxQB5qKP1C"));
    let accounts = SwapBaseInputInstructionAccounts {
        payer: key(1),
        authority: key(2),
        amm_config: key(3),
        pool_state: key(4),
        input_token_account: key(5),
        output_token_account: key(6),
        input_vault: key(7),
        output_vault: key(8),
        input_token_program: token_program_id(),
        output_token_program: key(10),
        input_token_mint: key(11),
        output_token_mint: key(12),
        observation_state: key(13),
    };
    let ix = accounts.get_swap_base_input_ix(SwapBaseInput { amount_in: 1, minimum_amount_out: 2 });
    assert_eq!(ix.program_id, cpmm_program_id());
    assert_eq!(ix.accounts.len(), 13);
    assert!(ix.accounts.iter().all(|a| a.is_writable));
    assert!(ix.accounts[0].is_signer);
    assert_eq!(ix.accounts.iter().filter(|a| a.is_signer).count(), 1);
    assert_eq!(ix.accounts[12].pubkey, key(13));
    assert_eq!(
        ix.data,
        vec![146, 190, 90, 218, 196, 30, 51, 222, 1, 0, 0, 0, 0, 0, 0, 0, 2, 0, 0, 0, 0, 0, 0, 0]
    );
    let pair = accounts.get_create_idempotent_ata_ix(key(11), key(12)).unwrap();
    assert_eq!(pair[0].accounts[5].pubkey, token_program_id());
    assert_eq!(pair[1].accounts[5].pubkey, key(10));
    assert_eq!(pair[1].accounts[3].pubkey, key(12));
    let create = accounts.get_create_ata_ix().unwrap();
    assert_eq!(create.data, vec![0u8]);
    assert_eq!(create.accounts[3].pubkey, key(11));
}

#[test]
fn launchpad_buy_and_sell_layout() {
    let parse = |text: &str| solana_sdk::pubkey::Pubkey::from_str(text).unwrap().to_bytes();
    assert_eq!(
        launchpad_program_id().bytes,
        parse("LanMV9sAd7wArD4vJFi2qDdfnVhFxYSUg6eADduJ3uj")
    );
    assert_eq!(
        LAUNCHPAD_FIRST_REMAINING_BYTES,
        parse("Cyu7XFTGSHSwFtsghriq9DfGVMehrdCaepFefFKNdcKB")
    );
    assert_eq!(
        LAUNCHPAD_SECOND_REMAINING_BYTES,
        parse("3togC4WnVohRh4QYqGVB5VLdz3VwX2RKTgybM8VZcwUd")
    );
    let accounts = SellExactInInstructionAccounts {
        payer: key(1),
        authority: key(2),
        global_config: key(3),
        platform_config: key(4),
        pool_state: key(5),
        user_base_token: key(6),
        user_quote_token: key(7),
        base_vault: key(8),
        quote_vault: key(9),
        base_token_mint: key(10),
        quote_token_mint: key(11),
        base_token_program: token_program_id(),
        quote_token_program: token_program_id(),
        event_authority: key(14),
        program: launchpad_program_id(),
    };
    let buy = accounts.get_buy_ix(BuyExactIn {
        amount_in: 1,
        minimum_amount_out: 2,
        share_fee_rate: 3,
    });
    let sell = accounts.get_sell_ix(SellExactIn {
        amount_in: 1,
        minimum_amount_out: 2,
        share_fee_rate: 3,
    });
    assert_eq!(buy.program_id, launchpad_program_id());
    assert_eq!(buy.accounts, sell.accounts);
    assert_eq!(buy.accounts.len(), 18);
    let writable: Vec<usize> =
        (0..18).filter(|i| buy.accounts[*i].is_writable).collect();
    assert_eq!(writable, vec![0, 4, 5, 6, 7, 8]);
    assert!(buy.accounts[0].is_signer);
    assert_eq!(buy.accounts[15].pubkey, system_program_id());
    assert_eq!(buy.accounts[16].pubkey.bytes, LAUNCHPAD_FIRST_REMAINING_BYTES);
    assert_eq!(buy.accounts[17].pubkey.bytes, LAUNCHPAD_SECOND_REMAINING_BYTES);
    let numbers = vec![1, 0, 0, 0, 0, 0, 0, 0, 2, 0, 0, 0, 0, 0, 0, 0, 3, 0, 0, 0, 0, 0, 0, 0];
    assert_eq!(buy.data[..8], [250, 234, 13, 123, 213, 156, 19, 236]);
    assert_eq!(sell.data[..8], [149, 39, 222, 155, 211, 124, 152, 26]);
    assert_eq!(buy.data[8..], numbers[..]);
    assert_eq!(sell.data[8..], numbers[..]);
    let pair = accounts.get_create_idempotent_ata_ix().unwrap();
    assert_eq!(pair[0].accounts[3].pubkey, key(10));
    assert_eq!(pair[1].accounts[3].pubkey, key(11));
    assert_eq!(accounts.get_create_ata_ix().unwrap().accounts[3].pubkey, key(10));
}

//! The swap builder: the instructions of the next leg of a position, a buy
//! while it is not long and a sell while it is.
//!
//! A leg is quoted against the reserves that the last swap left in the pool.
//! A buy spends the strategy's buy size and wraps a tenth more than that; a
//! sell gives all the tokens held. Through the constant-product pool both
//! legs create the token accounts unless they exist and close the wrapped
//! native account after the swap. Through the bonding-curve pool a buy
//! creates the token accounts and a sell closes the wrapped native account.
//! Nothing is built where an address cannot be derived, an amount is missing,
//! or the quote would divide by zero.

use crate::event::{Observed, ObservedView};
use crate::instruction::{
    get_associated_token_address, instructions_view, spec_associated_token_address,
    spec_close_account, Instruction, InstructionView,
};
use crate::keys::{
    wsol_mint, Pubkey, PUMPSWAP_PROGRAM_BYTES, RAYDIUM_V4_PROGRAM_BYTES, TOKEN_PROGRAM_BYTES,
    WSOL_BYTES,
};
use crate::math::{
    get_amount_out, lemma_amount_out_bounded, sol_token_quote, spec_amount_out,
    spec_sol_token_quote,
};
use crate::price::{
    min_out_with_slippage, quote_limit_with_slippage, spec_min_out, spec_quote_limit,
    spec_wrap_amount, wrap_amount,
};
use crate::pumpswap::{
    spec_buy_data, spec_buy_tail, spec_global_volume_accumulator, spec_pump_accounts_for,
    spec_sell_data, spec_sell_tail, spec_user_volume_accumulator, Buy, Sell,
    SellInstructionAccounts,
};
use crate::raydium::{
    spec_create_idempotent_pair, spec_swap_base_in_accounts_for, spec_swap_base_in_ix,
    spec_wrap_sol, SwapBaseIn, SwapBaseInInstructionAccounts,
};
use crate::strategy::{BotSettings, BotSettingsView};
use vstd::prelude::*;

verus! {

/// The amount that the next leg puts in: the strategy's buy size for a buy,
/// and for a sell the tokens held, where that is known.
pub open spec fn spec_leg_amount(
    strategy: BotSettingsView,
    is_long: bool,
    held_tokens: Option<u64>,
) -> Option<u64> {
    if is_long {
        held_tokens
    } else {
        Some(strategy.buy_sol_amount)
    }
}

/// The slippage that the next leg allows: the entry slippage for a buy, the
/// exit slippage for a sell.
pub open spec fn spec_leg_slippage(strategy: BotSettingsView, is_long: bool) -> u64 {
    if is_long {
        strategy.exit_slippage
    } else {
        strategy.entry_slippage
    }
}

/// The base-in swap of the next leg for the user `user`.
///
/// A buy pays from the user's account of the native side into that of the
/// token side, a sell the other way. The least amount accepted is the
/// constant-product quote of the amount put in, less the pool's fee and the
/// leg's slippage.
pub open spec fn spec_raydium_swap(
    a: SwapBaseInInstructionAccounts,
    observed: ObservedView,
    user: Seq<u8>,
    native_account: Seq<u8>,
    token_account: Seq<u8>,
    strategy: BotSettingsView,
    is_long: bool,
    amount_in: u64,
) -> InstructionView {
    let input_reserve = if is_long {
        observed.token_reserve()
    } else {
        observed.native_reserve()
    };
    let output_reserve = if is_long {
        observed.native_reserve()
    } else {
        observed.token_reserve()
    };
    let minimum = spec_min_out(
        spec_amount_out(amount_in as int, input_reserve as int, output_reserve as int),
        spec_leg_slippage(strategy, is_long) as int,
    );
    InstructionView {
        program_id: RAYDIUM_V4_PROGRAM_BYTES@,
        accounts: spec_swap_base_in_accounts_for(
            a,
            if is_long {
                token_account
            } else {
                native_account
            },
            if is_long {
                native_account
            } else {
                token_account
            },
            user,
        ),
        data: spec_swap_base_in_ix(
            a,
            SwapBaseIn { amount_in, minimum_amount_out: minimum as u64 },
        ).data,
    }
}

/// The instructions of the next leg through the constant-product pool of
/// `a`, where they can be built.
///
/// Both legs start by creating, unless they exist, the user's token accounts
/// for the two mints, and end by closing the user's wrapped native account.
/// A buy wraps before it swaps.
pub open spec fn spec_raydium_leg(
    a: SwapBaseInInstructionAccounts,
    observed: ObservedView,
    user: Seq<u8>,
    strategy: BotSettingsView,
    is_long: bool,
    held_tokens: Option<u64>,
) -> Option<Seq<InstructionView>> {
    let native_account = spec_associated_token_address(
        user,
        observed.native_mint(),
        TOKEN_PROGRAM_BYTES@,
    );
    let token_account = spec_associated_token_address(
        user,
        observed.token_mint(),
        TOKEN_PROGRAM_BYTES@,
    );
    let wrapped = spec_associated_token_address(user, WSOL_BYTES@, TOKEN_PROGRAM_BYTES@);
    let created_in = spec_associated_token_address(user, observed.input_mint, a.token_program@);
    let created_out = spec_associated_token_address(user, observed.output_mint, a.token_program@);
    let amount_in = spec_leg_amount(strategy, is_long, held_tokens);
    let input_reserve = if is_long {
        observed.token_reserve()
    } else {
        observed.native_reserve()
    };
    if native_account is Some && token_account is Some && wrapped is Some && created_in is Some
        && created_out is Some && amount_in is Some && input_reserve + amount_in->Some_0 > 0 {
        let create = spec_create_idempotent_pair(
            user,
            created_in->Some_0,
            observed.input_mint,
            a.token_program@,
            created_out->Some_0,
            observed.output_mint,
            a.token_program@,
        );
        let wrap = if is_long {
            Seq::<InstructionView>::empty()
        } else {
            spec_wrap_sol(user, wrapped->Some_0, spec_wrap_amount(amount_in->Some_0 as int) as u64)
        };
        let swap = spec_raydium_swap(
            a,
            observed,
            user,
            native_account->Some_0,
            token_account->Some_0,
            strategy,
            is_long,
            amount_in->Some_0,
        );
        Some(create + wrap + seq![swap, spec_close_account(wrapped->Some_0, user, user)])
    } else {
        None
    }
}

/// Appends `more` to `list`.
pub fn append_instructions(list: &mut Vec<Instruction>, more: Vec<Instruction>)
    ensures
        instructions_view(final(list)@) == instructions_view(old(list)@) + instructions_view(more@),
{
    let mut more = more;
    let ghost before = list@;
    let ghost added = more@;
    list.append(&mut more);
    assert(instructions_view(list@) =~= instructions_view(before) + instructions_view(added));
}

/// Appends `ix` to `list`.
pub fn push_instruction(list: &mut Vec<Instruction>, ix: Instruction)
    ensures
        instructions_view(final(list)@) == instructions_view(old(list)@).push(ix@),
{
    let ghost before = list@;
    list.push(ix);
    assert(instructions_view(list@) =~= instructions_view(before).push(ix@));
}

/// See [`spec_raydium_leg`].
pub fn build_raydium_leg(
    arranged: &SwapBaseInInstructionAccounts,
    observed: &Observed,
    user: &Pubkey,
    strategy: &BotSettings,
    is_long: bool,
    held_tokens: Option<u64>,
) -> (out: Option<Vec<Instruction>>)
    ensures
        out is Some == spec_raydium_leg(
            *arranged,
            observed@,
            user@,
            strategy@,
            is_long,
            held_tokens,
        ) is Some,
        out is Some ==> Some(instructions_view(out->Some_0@)) == spec_raydium_leg(
            *arranged,
            observed@,
            user@,
            strategy@,
            is_long,
            held_tokens,
        ),
{
    let native_account = match get_associated_token_address(user, &observed.native_mint()) {
        Some(account) => account,
        None => {
            return None;
        },
    };
    let token_account = match get_associated_token_address(user, &observed.token_mint()) {
        Some(account) => account,
        None => {
            return None;
        },
    };
    let amount_in = if is_long {
        match held_tokens {
            Some(amount) => amount,
            None => {
                return None;
            },
        }
    } else {
        strategy.buy_sol_amount
    };
    let (input_reserve, output_reserve) = if is_long {
        (observed.token_reserve(), observed.native_reserve())
    } else {
        (observed.native_reserve(), observed.token_reserve())
    };
    if input_reserve == 0 && amount_in == 0 {
        return None;
    }
    proof {
        lemma_amount_out_bounded(amount_in as int, input_reserve as int, output_reserve as int);
        assert(amount_in as int * output_reserve as int <= u128::MAX) by (nonlinear_arith)
            requires
                0 <= amount_in as int <= 0xFFFF_FFFF_FFFF_FFFF,
                0 <= output_reserve as int <= 0xFFFF_FFFF_FFFF_FFFF,
        ;
    }
    let raw_out = get_amount_out(amount_in as u128, input_reserve as u128, output_reserve as u128);
    let slippage = if is_long {
        strategy.exit_slippage
    } else {
        strategy.entry_slippage
    };
    let minimum_amount_out = min_out_with_slippage(raw_out as u64, slippage);
    let mut accounts = *arranged;
    accounts.user_source_owner = *user;
    if is_long {
        accounts.user_source_token_account = token_account;
        accounts.user_destination_token_account = native_account;
    } else {
        accounts.user_source_token_account = native_account;
        accounts.user_destination_token_account = token_account;
    }
    let mut ix = match accounts.get_create_idempotent_ata_ix(
        observed.input_mint,
        observed.output_mint,
    ) {
        Some(create) => create,
        None => {
            return None;
        },
    };
    if !is_long {
        match accounts.get_wrap_sol(*user, wrap_amount(amount_in)) {
            Some(wrap) => {
                append_instructions(&mut ix, wrap);
            },
            None => {
                return None;
            },
        }
    }
    let swap_ix = accounts.get_swap_base_in_ix(SwapBaseIn { amount_in, minimum_amount_out });
    let close_ix = match accounts.get_close_wsol(*user) {
        Some(close) => close,
        None => {
            return None;
        },
    };
    proof {
        let expected = spec_raydium_leg(
            *arranged,
            observed@,
            user@,
            strategy@,
            is_long,
            held_tokens,
        );
        assert(expected is Some);
        assert(swap_ix@.accounts =~= spec_raydium_swap(
            *arranged,
            observed@,
            user@,
            native_account@,
            token_account@,
            strategy@,
            is_long,
            amount_in,
        ).accounts);
        assert(swap_ix@ == spec_raydium_swap(
            *arranged,
            observed@,
            user@,
            native_account@,
            token_account@,
            strategy@,
            is_long,
            amount_in,
        ));
    }
    let ghost head = instructions_view(ix@);
    push_instruction(&mut ix, swap_ix);
    push_instruction(&mut ix, close_ix);
    assert(instructions_view(ix@) =~= head + seq![swap_ix@, close_ix@]);
    Some(ix)
}

/// What the chain reports of the accounts that a leg through the
/// bonding-curve pool depends on; `None` where the chain did not answer or
/// the answer is no number.
#[derive(Clone, Copy, Debug, PartialEq, Eq)]
pub struct ChainBalances {
    /// Tokens in the account that a sell pays from.
    pub held_tokens: Option<u64>,
    /// Balance of the pool's quote vault.
    pub pool_quote_reserve: Option<u64>,
    /// Balance of the pool's base vault.
    pub pool_base_reserve: Option<u64>,
}

/// The swap of the next leg through the bonding-curve pool of `a`, for a
/// user with the token accounts `user_base` and `user_quote`.
///
/// The pool is quoted for the amount put in, against the quote reserve where
/// the quote side is native on a buy and the base side on a sell, and the
/// other way round otherwise. The instruction is a buy where the quote side
/// is native on a buy and where it is not on a sell, and a sell otherwise.
/// A buy leg asks for the quoted amount, a sell leg gives the amount held;
/// the limit on the quote side is the quoted amount with the leg's slippage,
/// a ceiling in a buy instruction and a floor in a sell instruction.
pub open spec fn spec_pump_swap(
    a: SellInstructionAccounts,
    user: Seq<u8>,
    user_base: Seq<u8>,
    user_quote: Seq<u8>,
    global_volume: Seq<u8>,
    user_volume: Seq<u8>,
    strategy: BotSettingsView,
    is_long: bool,
    amount_in: u64,
    quote_reserve: u64,
    base_reserve: u64,
) -> InstructionView {
    let quote_native = a.quote_mint@ == WSOL_BYTES@;
    let against_quote = quote_native != is_long;
    let quoted = if against_quote {
        spec_sol_token_quote(amount_in as int, quote_reserve as int, base_reserve as int, true)
    } else {
        spec_sol_token_quote(amount_in as int, base_reserve as int, quote_reserve as int, true)
    } as u64;
    let base_amount = if is_long {
        amount_in
    } else {
        quoted
    };
    let slippage = spec_leg_slippage(strategy, is_long);
    let accounts = spec_pump_accounts_for(a, user, user_base, user_quote);
    if against_quote {
        InstructionView {
            program_id: PUMPSWAP_PROGRAM_BYTES@,
            accounts: accounts + spec_buy_tail(global_volume, user_volume),
            data: spec_buy_data(
                Buy {
                    base_amount_out: base_amount,
                    max_quote_amount_in: spec_quote_limit(
                        quoted as int,
                        slippage as int,
                        true,
                    ) as u64,
                },
            ),
        }
    } else {
        InstructionView {
            program_id: PUMPSWAP_PROGRAM_BYTES@,
            accounts: accounts + spec_sell_tail(),
            data: spec_sell_data(
                Sell {
                    base_amount_in: base_amount,
                    min_quote_amount_out: spec_quote_limit(
                        quoted as int,
                        slippage as int,
                        false,
                    ) as u64,
                },
            ),
        }
    }
}

/// The instructions of the next leg through the bonding-curve pool of `a`,
/// where they can be built. `input_reserve` is the input side's reserve
/// after the observed swap.
///
/// A buy creates, unless they exist, the user's token accounts for the two
/// mints, wraps a tenth more native units than it spends where the quote
/// side or else the base side is native, and swaps. A sell swaps and closes
/// the user's wrapped native account.
pub open spec fn spec_pump_leg(
    a: SellInstructionAccounts,
    input_reserve: u64,
    user: Seq<u8>,
    strategy: BotSettingsView,
    is_long: bool,
    balances: ChainBalances,
) -> Option<Seq<InstructionView>> {
    let user_base = spec_associated_token_address(user, a.base_mint@, TOKEN_PROGRAM_BYTES@);
    let user_quote = spec_associated_token_address(user, a.quote_mint@, TOKEN_PROGRAM_BYTES@);
    let amount_in = spec_leg_amount(strategy, is_long, balances.held_tokens);
    let quote_native = a.quote_mint@ == WSOL_BYTES@;
    let against_quote = quote_native != is_long;
    let global_volume = spec_global_volume_accumulator();
    let user_volume = spec_user_volume_accumulator(user);
    let wrapped = spec_associated_token_address(user, WSOL_BYTES@, TOKEN_PROGRAM_BYTES@);
    let created_base = spec_associated_token_address(user, a.base_mint@, a.base_token_program@);
    let created_quote = spec_associated_token_address(user, a.quote_mint@, a.quote_token_program@);
    let wraps = !is_long && (quote_native || a.base_mint@ == WSOL_BYTES@);
    if user_base is Some && user_quote is Some && amount_in is Some && balances.pool_quote_reserve
        is Some && balances.pool_base_reserve is Some && input_reserve + amount_in->Some_0 > 0 && (
    against_quote ==> global_volume is Some && user_volume is Some) && (!is_long
        ==> created_base is Some && created_quote is Some) && (is_long || wraps ==> wrapped
        is Some) {
        let swap = spec_pump_swap(
            a,
            user,
            user_base->Some_0,
            user_quote->Some_0,
            global_volume->Some_0,
            user_volume->Some_0,
            strategy,
            is_long,
            amount_in->Some_0,
            balances.pool_quote_reserve->Some_0,
            balances.pool_base_reserve->Some_0,
        );
        if is_long {
            Some(seq![swap, spec_close_account(wrapped->Some_0, user, user)])
        } else {
            let create = spec_create_idempotent_pair(
                user,
                created_base->Some_0,
                a.base_mint@,
                a.base_token_program@,
                created_quote->Some_0,
                a.quote_mint@,
                a.quote_token_program@,
            );
            let wrap = if wraps {
                spec_wrap_sol(
                    user,
                    wrapped->Some_0,
                    spec_wrap_amount(amount_in->Some_0 as int) as u64,
                )
            } else {
                Seq::<InstructionView>::empty()
            };
            Some(create + wrap + seq![swap])
        }
    } else {
        None
    }
}

/// See [`spec_pump_leg`].
pub fn build_pump_leg(
    arranged: &SellInstructionAccounts,
    input_reserve: u64,
    user: &Pubkey,
    strategy: &BotSettings,
    is_long: bool,
    balances: &ChainBalances,
) -> (out: Option<Vec<Instruction>>)
    ensures
        out is Some == spec_pump_leg(
            *arranged,
            input_reserve,
            user@,
            strategy@,
            is_long,
            *balances,
        ) is Some,
        out is Some ==> Some(instructions_view(out->Some_0@)) == spec_pump_leg(
            *arranged,
            input_reserve,
            user@,
            strategy@,
            is_long,
            *balances,
        ),
{
    let mut accounts = *arranged;
    accounts.user = *user;
    accounts.user_base_token_account = match get_associated_token_address(
        user,
        &arranged.base_mint,
    ) {
        Some(account) => account,
        None => {
            return None;
        },
    };
    accounts.user_quote_token_account = match get_associated_token_address(
        user,
        &arranged.quote_mint,
    ) {
        Some(account) => account,
        None => {
            return None;
        },
    };
    let amount_in = if is_long {
        match balances.held_tokens {
            Some(amount) => amount,
            None => {
                return None;
            },
        }
    } else {
        strategy.buy_sol_amount
    };
    let quote_reserve = match balances.pool_quote_reserve {
        Some(reserve) => reserve,
        None => {
            return None;
        },
    };
    let base_reserve = match balances.pool_base_reserve {
        Some(reserve) => reserve,
        None => {
            return None;
        },
    };
    if input_reserve == 0 && amount_in == 0 {
        return None;
    }
    let quote_native = arranged.quote_mint.same(&wsol_mint());
    let against_quote = quote_native != is_long;
    let quoted = if against_quote {
        sol_token_quote(amount_in, quote_reserve, base_reserve, true)
    } else {
        sol_token_quote(amount_in, base_reserve, quote_reserve, true)
    };
    let base_amount = if is_long {
        amount_in
    } else {
        quoted
    };
    let slippage = if is_long {
        strategy.exit_slippage
    } else {
        strategy.entry_slippage
    };
    let swap_ix = if against_quote {
        match accounts.get_buy_ix(
            Buy {
                base_amount_out: base_amount,
                max_quote_amount_in: quote_limit_with_slippage(quoted, slippage, true),
            },
        ) {
            Some(ix) => ix,
            None => {
                return None;
            },
        }
    } else {
        accounts.get_sell_ix(
            Sell {
                base_amount_in: base_amount,
                min_quote_amount_out: quote_limit_with_slippage(quoted, slippage, false),
            },
        )
    };
    proof {
        let expected = spec_pump_swap(
            *arranged,
            user@,
            accounts.user_base_token_account@,
            accounts.user_quote_token_account@,
            spec_global_volume_accumulator()->Some_0,
            spec_user_volume_accumulator(user@)->Some_0,
            strategy@,
            is_long,
            amount_in,
            quote_reserve,
            base_reserve,
        );
        assert(swap_ix@.accounts =~= expected.accounts);
        assert(swap_ix@ == expected);
    }
    if is_long {
        let close_ix = match accounts.get_close_wsol() {
            Some(close) => close,
            None => {
                return None;
            },
        };
        let out = vec![swap_ix, close_ix];
        assert(instructions_view(out@) =~= seq![swap_ix@, close_ix@]);
        Some(out)
    } else {
        let mut ix = match accounts.get_create_idempotent_ata_ix() {
            Some(create) => create,
            None => {
                return None;
            },
        };
        if quote_native || arranged.base_mint.same(&wsol_mint()) {
            match accounts.get_wrap_sol(wrap_amount(amount_in)) {
                Some(wrap) => {
                    append_instructions(&mut ix, wrap);
                },
                None => {
                    return None;
                },
            }
        }
        let ghost head = instructions_view(ix@);
        push_instruction(&mut ix, swap_ix);
        assert(instructions_view(ix@) =~= head + seq![swap_ix@]);
        Some(ix)
    }
}

/// Built twice from the same reserves, strategy and side, a leg through the
/// constant-product pool is the same list of instructions, byte for byte.
pub proof fn law_raydium_rebuild_idempotent(
    a: SwapBaseInInstructionAccounts,
    observed: ObservedView,
    user: Seq<u8>,
    strategy: BotSettingsView,
    is_long: bool,
    held_tokens: Option<u64>,
    first: Seq<InstructionView>,
    second: Seq<InstructionView>,
)
    requires
        Some(first) == spec_raydium_leg(a, observed, user, strategy, is_long, held_tokens),
        Some(second) == spec_raydium_leg(a, observed, user, strategy, is_long, held_tokens),
    ensures
        first == second,
{
}

/// Built twice from the same reserves, strategy and side, a leg through the
/// bonding-curve pool is the same list of instructions, byte for byte.
pub proof fn law_pump_rebuild_idempotent(
    a: SellInstructionAccounts,
    input_reserve: u64,
    user: Seq<u8>,
    strategy: BotSettingsView,
    is_long: bool,
    balances: ChainBalances,
    first: Seq<InstructionView>,
    second: Seq<InstructionView>,
)
    requires
        Some(first) == spec_pump_leg(a, input_reserve, user, strategy, is_long, balances),
        Some(second) == spec_pump_leg(a, input_reserve, user, strategy, is_long, balances),
    ensures
        first == second,
{
}

} // verus!

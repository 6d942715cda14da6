//! A swap seen on the stream, and what is read off it: the pool's reserves,
//! the decimals of its token and the balances of single accounts.

use crate::instruction::{get_associated_token_address, spec_associated_token_address};
use crate::keys::{
    base58_of_pubkey, parse_pubkey, pubkey_of_base58, pubkey_to_string, wsol_mint, Pubkey,
    TOKEN_PROGRAM_BYTES, WSOL_BYTES,
};
use crate::price::{derive_price, spec_price, spec_price_fits};
use crate::pumpswap::{BuyInstructionAccounts, SellInstructionAccounts};
use crate::raydium::SwapBaseInInstructionAccounts;
use crate::text::{clone_string, parse_u64, spec_parse_u64};
use vstd::prelude::*;

verus! {

/// The balance of one token account before or after a transaction. `owner`
/// and `mint` are addresses in base58, `amount` is the balance in atomic
/// units as a decimal number, and `account_index` is the place of the
/// account among the transaction's keys.
#[derive(Debug)]
pub struct TokenBalance {
    pub account_index: u8,
    pub mint: String,
    pub owner: String,
    pub amount: String,
    pub decimals: u8,
}

/// Mathematical value of [`TokenBalance`].
pub struct TokenBalanceView {
    pub account_index: u8,
    pub mint: Seq<char>,
    pub owner: Seq<char>,
    pub amount: Seq<char>,
    pub decimals: u8,
}

impl View for TokenBalance {
    type V = TokenBalanceView;

    open spec fn view(&self) -> TokenBalanceView {
        TokenBalanceView {
            account_index: self.account_index,
            mint: self.mint@,
            owner: self.owner@,
            amount: self.amount@,
            decimals: self.decimals,
        }
    }
}

/// A list of balances, as values.
pub open spec fn balances_view(list: Seq<TokenBalance>) -> Seq<TokenBalanceView> {
    Seq::new(list.len(), |i: int| list[i]@)
}

/// A list of addresses, as values.
pub open spec fn keys_view(keys: Seq<Pubkey>) -> Seq<Seq<u8>> {
    Seq::new(keys.len(), |i: int| keys[i]@)
}

/// The decoded instruction of a swap, with its accounts by role.
#[derive(Clone, Copy, Debug, PartialEq, Eq)]
pub enum SwapInstruction {
    /// A base-in swap of the constant-product pool.
    RaydiumV4SwapBaseIn(SwapBaseInInstructionAccounts),
    /// A buy on the bonding-curve pool.
    PumpSwapBuy(BuyInstructionAccounts),
    /// A sell on the bonding-curve pool.
    PumpSwapSell(SellInstructionAccounts),
    /// Anything else.
    Other,
}

/// One swap seen on the stream.
#[derive(Debug)]
pub struct PoolEvent {
    /// Signature of the transaction, in base58.
    pub signature: String,
    /// Fee the transaction paid, in atomic native units.
    pub fee: u64,
    /// Every account of the transaction: the static keys, then the loaded
    /// writable ones, then the loaded read-only ones.
    pub account_keys: Vec<Pubkey>,
    /// Native balance of each account before the transaction.
    pub pre_balances: Vec<u64>,
    /// Native balance of each account after the transaction.
    pub post_balances: Vec<u64>,
    /// Token balances before the transaction.
    pub pre_token_balances: Vec<TokenBalance>,
    /// Token balances after the transaction.
    pub post_token_balances: Vec<TokenBalance>,
    /// The swap instruction.
    pub instruction: SwapInstruction,
}

/// Position of the first element of `s` that satisfies `p`, and the length
/// of `s` where none does.
pub open spec fn first_where<T>(s: Seq<T>, p: spec_fn(T) -> bool) -> int
    decreases s.len(),
{
    if s.len() == 0 {
        0
    } else {
        let before = first_where(s.drop_last(), p);
        if before < s.len() - 1 {
            before
        } else if p(s.last()) {
            s.len() - 1
        } else {
            s.len() as int
        }
    }
}

/// `first_where` lies within `s` exactly where some element satisfies `p`;
/// the element there does, and none before it.
pub proof fn lemma_first_where<T>(s: Seq<T>, p: spec_fn(T) -> bool)
    ensures
        0 <= first_where(s, p) <= s.len(),
        first_where(s, p) < s.len() ==> p(s[first_where(s, p)]),
        forall|j: int| 0 <= j < first_where(s, p) ==> !p(s[j]),
    decreases s.len(),
{
    if s.len() > 0 {
        lemma_first_where(s.drop_last(), p);
        let before = first_where(s.drop_last(), p);
        assert forall|j: int| 0 <= j < first_where(s, p) implies !p(s[j]) by {
            if j < s.len() - 1 {
                assert(s.drop_last()[j] == s[j]);
            }
        }
        if before < s.len() - 1 {
            assert(s.drop_last()[before] == s[before]);
        }
    }
}

/// A position whose element satisfies `p` while none before it does is the
/// one `first_where` gives; where no element does, it gives the length.
pub proof fn lemma_first_where_is<T>(s: Seq<T>, p: spec_fn(T) -> bool, i: int)
    requires
        0 <= i <= s.len(),
        i < s.len() ==> p(s[i]),
        forall|j: int| 0 <= j < i ==> !p(s[j]),
    ensures
        first_where(s, p) == i,
{
    lemma_first_where(s, p);
    let r = first_where(s, p);
    if r < i {
        assert(p(s[r]));
    } else if i < r {
        assert(p(s[i]));
    }
}

/// Balances that `owner` holds of `mint`.
pub open spec fn owned_of_mint(owner: Seq<char>, mint: Seq<char>) -> spec_fn(TokenBalanceView) -> bool {
    |b: TokenBalanceView| b.owner == owner && b.mint == mint
}

/// Balances of `mint`.
pub open spec fn of_mint(mint: Seq<char>) -> spec_fn(TokenBalanceView) -> bool {
    |b: TokenBalanceView| b.mint == mint
}

/// Balances that `owner` holds in the account `vault`, which the balance
/// names by its place among `keys`.
pub open spec fn in_vault(owner: Seq<char>, vault: Seq<u8>, keys: Seq<Seq<u8>>) -> spec_fn(
    TokenBalanceView,
) -> bool {
    |b: TokenBalanceView|
        b.owner == owner && b.account_index < keys.len() && keys[b.account_index as int] == vault
}

/// The amount of the first balance that `owner` holds of `mint`; 0 where
/// there is none or its amount is no number.
pub open spec fn spec_amount_of(
    balances: Seq<TokenBalanceView>,
    owner: Seq<char>,
    mint: Seq<char>,
) -> u64 {
    let i = first_where(balances, owned_of_mint(owner, mint));
    if i < balances.len() {
        match spec_parse_u64(balances[i].amount) {
            Some(amount) => amount,
            None => 0,
        }
    } else {
        0
    }
}

fn amount_of(balances: &Vec<TokenBalance>, owner: &String, mint: &String) -> (out: u64)
    ensures
        out == spec_amount_of(balances_view(balances@), owner@, mint@),
{
    let ghost list = balances_view(balances@);
    let ghost p = owned_of_mint(owner@, mint@);
    let mut i: usize = 0;
    while i < balances.len()
        invariant
            i <= balances.len(),
            list == balances_view(balances@),
            p == owned_of_mint(owner@, mint@),
            forall|j: int| 0 <= j < i ==> !p(list[j]),
        decreases balances.len() - i,
    {
        if balances[i].owner == *owner && balances[i].mint == *mint {
            proof {
                assert(p(list[i as int]));
                lemma_first_where_is(list, p, i as int);
            }
            return match parse_u64(balances[i].amount.as_str()) {
                Some(amount) => amount,
                None => 0,
            };
        }
        assert(!p(list[i as int]));
        i += 1;
    }
    proof {
        lemma_first_where_is(list, p, list.len() as int);
    }
    0
}

/// What the pool `pool_addr` held of `token_mint` before and after a
/// transaction.
pub fn get_pre_post_token_balance(
    pre_token_balance: Vec<TokenBalance>,
    post_token_balance: Vec<TokenBalance>,
    pool_addr: &str,
    token_mint: &str,
) -> (out: (u64, u64))
    ensures
        out.0 == spec_amount_of(balances_view(pre_token_balance@), pool_addr@, token_mint@),
        out.1 == spec_amount_of(balances_view(post_token_balance@), pool_addr@, token_mint@),
{
    let owner = pool_addr.to_owned();
    let mint = token_mint.to_owned();
    let pre_amount = amount_of(&pre_token_balance, &owner, &mint);
    let post_amount = amount_of(&post_token_balance, &owner, &mint);
    (pre_amount, post_amount)
}

/// The balance at place `index`, and 0 where the list is shorter.
pub open spec fn balance_at(balances: Seq<u64>, index: int) -> u64 {
    if 0 <= index < balances.len() {
        balances[index]
    } else {
        0
    }
}

/// Addresses whose base58 text is `owner`.
pub open spec fn written_as(owner: Seq<char>) -> spec_fn(Seq<u8>) -> bool {
    |key: Seq<u8>| base58_of_pubkey(key) == owner
}

/// Place of the account written `owner` among `keys`, and 0 where it is not
/// among them.
pub open spec fn spec_owner_index(keys: Seq<Seq<u8>>, owner: Seq<char>) -> int {
    let i = first_where(keys, written_as(owner));
    if i < keys.len() {
        i
    } else {
        0
    }
}

/// The native balance of the account written `owner` before and after a
/// transaction with the accounts `account_keys`. An account that is not among
/// them is taken to be the first, and a missing balance is 0.
pub fn get_pre_post_sol_balance(
    account_keys: &Vec<Pubkey>,
    pre_balances: &Vec<u64>,
    post_balances: &Vec<u64>,
    owner: &str,
) -> (out: (u64, u64))
    ensures
        out.0 == balance_at(pre_balances@, spec_owner_index(keys_view(account_keys@), owner@)),
        out.1 == balance_at(post_balances@, spec_owner_index(keys_view(account_keys@), owner@)),
{
    let owner_text = owner.to_owned();
    let ghost keys = keys_view(account_keys@);
    let ghost p = written_as(owner@);
    let mut idx: usize = 0;
    let mut found = false;
    while idx < account_keys.len() && !found
        invariant
            idx <= account_keys.len(),
            keys == keys_view(account_keys@),
            p == written_as(owner@),
            owner_text@ == owner@,
            forall|j: int| 0 <= j < idx ==> !p(keys[j]),
            found ==> idx < account_keys.len() && p(keys[idx as int]),
        decreases account_keys.len() - idx + if found { 0int } else { 1int },
    {
        if pubkey_to_string(&account_keys[idx]) == owner_text {
            assert(p(keys[idx as int]));
            found = true;
        } else {
            assert(!p(keys[idx as int]));
            idx += 1;
        }
    }
    proof {
        lemma_first_where_is(keys, p, idx as int);
    }
    let index: usize = if found {
        idx
    } else {
        0
    };
    let pre_amount = if index < pre_balances.len() {
        pre_balances[index]
    } else {
        0
    };
    let post_amount = if index < post_balances.len() {
        post_balances[index]
    } else {
        0
    };
    (pre_amount, post_amount)
}

/// An amount and a mint, as values.
pub open spec fn info_view(info: Option<(String, String)>) -> Option<(Seq<char>, Seq<char>)> {
    match info {
        Some((amount, mint)) => Some((amount@, mint@)),
        None => None,
    }
}

/// The amount and the mint of the first balance that `owner` holds in
/// `vault`.
pub open spec fn spec_vault_info(
    balances: Seq<TokenBalanceView>,
    owner: Seq<char>,
    vault: Seq<u8>,
    keys: Seq<Seq<u8>>,
) -> Option<(Seq<char>, Seq<char>)> {
    let i = first_where(balances, in_vault(owner, vault, keys));
    if i < balances.len() {
        Some((balances[i].amount, balances[i].mint))
    } else {
        None
    }
}

fn vault_info(
    balances: &Vec<TokenBalance>,
    owner: &String,
    vault: &Pubkey,
    account_keys: &Vec<Pubkey>,
) -> (out: Option<(String, String)>)
    ensures
        info_view(out) == spec_vault_info(
            balances_view(balances@),
            owner@,
            vault@,
            keys_view(account_keys@),
        ),
{
    let ghost list = balances_view(balances@);
    let ghost keys = keys_view(account_keys@);
    let ghost p = in_vault(owner@, vault@, keys);
    let mut i: usize = 0;
    while i < balances.len()
        invariant
            i <= balances.len(),
            list == balances_view(balances@),
            keys == keys_view(account_keys@),
            p == in_vault(owner@, vault@, keys),
            forall|j: int| 0 <= j < i ==> !p(list[j]),
        decreases balances.len() - i,
    {
        let balance = &balances[i];
        let place = balance.account_index as usize;
        if balance.owner == *owner && place < account_keys.len() && account_keys[place].same(
            vault,
        ) {
            proof {
                assert(keys[place as int] == account_keys[place as int]@);
                assert(p(list[i as int]));
                lemma_first_where_is(list, p, i as int);
            }
            return Some((clone_string(&balance.amount), clone_string(&balance.mint)));
        }
        proof {
            if place < account_keys.len() {
                assert(keys[place as int] == account_keys[place as int]@);
            }
            assert(!p(list[i as int]));
        }
        i += 1;
    }
    proof {
        lemma_first_where_is(list, p, list.len() as int);
    }
    None
}

/// The reserves of a pool after and before a transaction: for the base
/// vault and the quote vault, each held by `pool_auth`, the amount and the
/// mint of the balance, in the order base after, quote after, base before,
/// quote before.
pub fn get_coin_pc_mint(
    post_token_balance: &Vec<TokenBalance>,
    pre_token_balance: &Vec<TokenBalance>,
    base_vault: Pubkey,
    quote_vault: Pubkey,
    pool_auth: Pubkey,
    account_keys: &Vec<Pubkey>,
) -> (out: (
    Option<(String, String)>,
    Option<(String, String)>,
    Option<(String, String)>,
    Option<(String, String)>,
))
    ensures
        info_view(out.0) == spec_vault_info(
            balances_view(post_token_balance@),
            base58_of_pubkey(pool_auth@),
            base_vault@,
            keys_view(account_keys@),
        ),
        info_view(out.1) == spec_vault_info(
            balances_view(post_token_balance@),
            base58_of_pubkey(pool_auth@),
            quote_vault@,
            keys_view(account_keys@),
        ),
        info_view(out.2) == spec_vault_info(
            balances_view(pre_token_balance@),
            base58_of_pubkey(pool_auth@),
            base_vault@,
            keys_view(account_keys@),
        ),
        info_view(out.3) == spec_vault_info(
            balances_view(pre_token_balance@),
            base58_of_pubkey(pool_auth@),
            quote_vault@,
            keys_view(account_keys@),
        ),
{
    let owner = pubkey_to_string(&pool_auth);
    let base_info = vault_info(post_token_balance, &owner, &base_vault, account_keys);
    let pre_base_info = vault_info(pre_token_balance, &owner, &base_vault, account_keys);
    let quote_info = vault_info(post_token_balance, &owner, &quote_vault, account_keys);
    let pre_quote_info = vault_info(pre_token_balance, &owner, &quote_vault, account_keys);
    (base_info, quote_info, pre_base_info, pre_quote_info)
}

/// The first match in two lists taken one after the other is the first
/// match of the first list, or else that of the second.
pub proof fn lemma_first_where_concat<T>(a: Seq<T>, b: Seq<T>, p: spec_fn(T) -> bool)
    ensures
        first_where(a + b, p) == if first_where(a, p) < a.len() {
            first_where(a, p)
        } else {
            a.len() + first_where(b, p)
        },
{
    lemma_first_where(a, p);
    lemma_first_where(b, p);
    let i = if first_where(a, p) < a.len() {
        first_where(a, p)
    } else {
        a.len() + first_where(b, p)
    };
    assert forall|j: int| 0 <= j < i implies !p((a + b)[j]) by {
        if j >= a.len() {
            assert((a + b)[j] == b[j - a.len()]);
        }
    }
    if i < (a + b).len() {
        if i >= a.len() {
            assert((a + b)[i] == b[i - a.len()]);
        }
    }
    lemma_first_where_is(a + b, p, i);
}

/// The decimals of the token `mint`: those of the first balance of that mint
/// after the transaction, or else before it, or else six.
pub open spec fn spec_decimals_of(
    post: Seq<TokenBalanceView>,
    pre: Seq<TokenBalanceView>,
    mint: Seq<char>,
) -> u8 {
    let all = post + pre;
    let i = first_where(all, of_mint(mint));
    if i < all.len() {
        all[i].decimals
    } else {
        crate::price::DEFAULT_TOKEN_DECIMALS
    }
}

fn decimals_in(balances: &Vec<TokenBalance>, mint: &String) -> (out: Option<u8>)
    ensures
        match out {
            Some(decimals) => first_where(balances_view(balances@), of_mint(mint@))
                < balances.len() && decimals == balances_view(balances@)[first_where(
                balances_view(balances@),
                of_mint(mint@),
            )].decimals,
            None => first_where(balances_view(balances@), of_mint(mint@)) == balances.len(),
        },
{
    let ghost list = balances_view(balances@);
    let ghost p = of_mint(mint@);
    let mut i: usize = 0;
    while i < balances.len()
        invariant
            i <= balances.len(),
            list == balances_view(balances@),
            p == of_mint(mint@),
            forall|j: int| 0 <= j < i ==> !p(list[j]),
        decreases balances.len() - i,
    {
        if balances[i].mint == *mint {
            proof {
                assert(p(list[i as int]));
                lemma_first_where_is(list, p, i as int);
            }
            return Some(balances[i].decimals);
        }
        assert(!p(list[i as int]));
        i += 1;
    }
    proof {
        lemma_first_where_is(list, p, list.len() as int);
    }
    None
}

/// The decimals of the token `mint`, read off the token balances of a
/// transaction.
pub fn mint_decimals(
    post_token_balance: &Vec<TokenBalance>,
    pre_token_balance: &Vec<TokenBalance>,
    mint: &Pubkey,
) -> (out: u8)
    ensures
        out == spec_decimals_of(
            balances_view(post_token_balance@),
            balances_view(pre_token_balance@),
            base58_of_pubkey(mint@),
        ),
{
    let text = pubkey_to_string(mint);
    proof {
        let post = balances_view(post_token_balance@);
        let pre = balances_view(pre_token_balance@);
        lemma_first_where_concat(post, pre, of_mint(text@));
        lemma_first_where(post, of_mint(text@));
        lemma_first_where(pre, of_mint(text@));
        let i = first_where(post + pre, of_mint(text@));
        if i < post.len() {
            assert((post + pre)[i] == post[i]);
        } else if i < (post + pre).len() {
            assert((post + pre)[i] == pre[i - post.len()]);
        }
    }
    match decimals_in(post_token_balance, &text) {
        Some(decimals) => decimals,
        None => match decimals_in(pre_token_balance, &text) {
            Some(decimals) => decimals,
            None => crate::price::DEFAULT_TOKEN_DECIMALS,
        },
    }
}

/// All accounts of a transaction: the static keys, then the loaded writable
/// ones, then the loaded read-only ones.
pub fn collect_account_keys(
    static_keys: &Vec<Pubkey>,
    writable: &Vec<Pubkey>,
    readonly: &Vec<Pubkey>,
) -> (out: Vec<Pubkey>)
    ensures
        out@ == static_keys@ + writable@ + readonly@,
{
    let mut out: Vec<Pubkey> = Vec::new();
    let mut i: usize = 0;
    while i < static_keys.len()
        invariant
            i <= static_keys.len(),
            out@ == static_keys@.subrange(0, i as int),
        decreases static_keys.len() - i,
    {
        out.push(static_keys[i]);
        assert(out@ =~= static_keys@.subrange(0, i as int + 1));
        i += 1;
    }
    assert(static_keys@.subrange(0, i as int) =~= static_keys@);
    let mut j: usize = 0;
    while j < writable.len()
        invariant
            j <= writable.len(),
            out@ == static_keys@ + writable@.subrange(0, j as int),
        decreases writable.len() - j,
    {
        out.push(writable[j]);
        assert(out@ =~= static_keys@ + writable@.subrange(0, j as int + 1));
        j += 1;
    }
    assert(writable@.subrange(0, j as int) =~= writable@);
    let mut k: usize = 0;
    while k < readonly.len()
        invariant
            k <= readonly.len(),
            out@ == static_keys@ + writable@ + readonly@.subrange(0, k as int),
        decreases readonly.len() - k,
    {
        out.push(readonly[k]);
        assert(out@ =~= static_keys@ + writable@ + readonly@.subrange(0, k as int + 1));
        k += 1;
    }
    assert(readonly@.subrange(0, k as int) =~= readonly@);
    out
}

/// The two sides of a pool as an observed swap went through it: what the
/// trader paid in and what the trader took out, each with the pool's reserve
/// after the swap.
#[derive(Clone, Copy, Debug, PartialEq, Eq)]
pub struct Observed {
    pub input_mint: Pubkey,
    pub input_reserve: u64,
    pub output_mint: Pubkey,
    pub output_reserve: u64,
}

/// Mathematical value of [`Observed`].
pub struct ObservedView {
    pub input_mint: Seq<u8>,
    pub input_reserve: u64,
    pub output_mint: Seq<u8>,
    pub output_reserve: u64,
}

impl View for Observed {
    type V = ObservedView;

    open spec fn view(&self) -> ObservedView {
        ObservedView {
            input_mint: self.input_mint@,
            input_reserve: self.input_reserve,
            output_mint: self.output_mint@,
            output_reserve: self.output_reserve,
        }
    }
}

impl ObservedView {
    /// The mint of the native side: the input where that is the wrapped
    /// native mint, the output otherwise.
    pub open spec fn native_mint(self) -> Seq<u8> {
        if self.input_mint == WSOL_BYTES@ {
            self.input_mint
        } else {
            self.output_mint
        }
    }

    /// The pool's reserve of the native side.
    pub open spec fn native_reserve(self) -> u64 {
        if self.input_mint == WSOL_BYTES@ {
            self.input_reserve
        } else {
            self.output_reserve
        }
    }

    /// The mint of the token side.
    pub open spec fn token_mint(self) -> Seq<u8> {
        if self.input_mint == WSOL_BYTES@ {
            self.output_mint
        } else {
            self.input_mint
        }
    }

    /// The pool's reserve of the token side.
    pub open spec fn token_reserve(self) -> u64 {
        if self.input_mint == WSOL_BYTES@ {
            self.output_reserve
        } else {
            self.input_reserve
        }
    }
}

impl Observed {
    /// Whether the trader paid in native units.
    pub fn native_in(&self) -> (out: bool)
        ensures
            out == (self@.input_mint == WSOL_BYTES@),
    {
        self.input_mint.same(&wsol_mint())
    }

    /// The mint of the native side.
    pub fn native_mint(&self) -> (out: Pubkey)
        ensures
            out@ == self@.native_mint(),
    {
        if self.native_in() {
            self.input_mint
        } else {
            self.output_mint
        }
    }

    /// The pool's reserve of the native side.
    pub fn native_reserve(&self) -> (out: u64)
        ensures
            out == self@.native_reserve(),
    {
        if self.native_in() {
            self.input_reserve
        } else {
            self.output_reserve
        }
    }

    /// The mint of the token side.
    pub fn token_mint(&self) -> (out: Pubkey)
        ensures
            out@ == self@.token_mint(),
    {
        if self.native_in() {
            self.output_mint
        } else {
            self.input_mint
        }
    }

    /// The pool's reserve of the token side.
    pub fn token_reserve(&self) -> (out: u64)
        ensures
            out == self@.token_reserve(),
    {
        if self.native_in() {
            self.output_reserve
        } else {
            self.input_reserve
        }
    }
}

/// The direction of an observed swap, from the reserves of the pool's two
/// vaults, each an amount and a mint, and from the trader's accounts.
///
/// The first vault is the input side where the trader's first account is the
/// trader's token account for the first mint, or the second account that for
/// the second mint; otherwise the second vault is. There is no direction
/// where a mint is no address, an amount no number, or a token account has
/// no address.
pub open spec fn spec_observed(
    first: (Seq<char>, Seq<char>),
    second: (Seq<char>, Seq<char>),
    trader: Seq<u8>,
    first_account: Seq<u8>,
    second_account: Seq<u8>,
) -> Option<ObservedView> {
    let first_mint = pubkey_of_base58(first.1);
    let second_mint = pubkey_of_base58(second.1);
    let first_reserve = spec_parse_u64(first.0);
    let second_reserve = spec_parse_u64(second.0);
    if first_mint is Some && second_mint is Some && first_reserve is Some && second_reserve
        is Some {
        let first_ata = spec_associated_token_address(
            trader,
            first_mint->Some_0,
            TOKEN_PROGRAM_BYTES@,
        );
        let second_ata = spec_associated_token_address(
            trader,
            second_mint->Some_0,
            TOKEN_PROGRAM_BYTES@,
        );
        if first_ata is Some && second_ata is Some {
            if first_ata->Some_0 == first_account || second_ata->Some_0 == second_account {
                Some(
                    ObservedView {
                        input_mint: first_mint->Some_0,
                        input_reserve: first_reserve->Some_0,
                        output_mint: second_mint->Some_0,
                        output_reserve: second_reserve->Some_0,
                    },
                )
            } else {
                Some(
                    ObservedView {
                        input_mint: second_mint->Some_0,
                        input_reserve: second_reserve->Some_0,
                        output_mint: first_mint->Some_0,
                        output_reserve: first_reserve->Some_0,
                    },
                )
            }
        } else {
            None
        }
    } else {
        None
    }
}

/// See [`spec_observed`].
pub fn infer_direction(
    first: &(String, String),
    second: &(String, String),
    trader: &Pubkey,
    first_account: &Pubkey,
    second_account: &Pubkey,
) -> (out: Option<Observed>)
    ensures
        out is Some == spec_observed(
            (first.0@, first.1@),
            (second.0@, second.1@),
            trader@,
            first_account@,
            second_account@,
        ) is Some,
        out is Some ==> Some(out->Some_0@) == spec_observed(
            (first.0@, first.1@),
            (second.0@, second.1@),
            trader@,
            first_account@,
            second_account@,
        ),
{
    let first_mint = match parse_pubkey(first.1.as_str()) {
        Some(mint) => mint,
        None => {
            return None;
        },
    };
    let second_mint = match parse_pubkey(second.1.as_str()) {
        Some(mint) => mint,
        None => {
            return None;
        },
    };
    let first_reserve = match parse_u64(first.0.as_str()) {
        Some(reserve) => reserve,
        None => {
            return None;
        },
    };
    let second_reserve = match parse_u64(second.0.as_str()) {
        Some(reserve) => reserve,
        None => {
            return None;
        },
    };
    let first_ata = match get_associated_token_address(trader, &first_mint) {
        Some(account) => account,
        None => {
            return None;
        },
    };
    let second_ata = match get_associated_token_address(trader, &second_mint) {
        Some(account) => account,
        None => {
            return None;
        },
    };
    if first_ata.same(first_account) || second_ata.same(second_account) {
        Some(
            Observed {
                input_mint: first_mint,
                input_reserve: first_reserve,
                output_mint: second_mint,
                output_reserve: second_reserve,
            },
        )
    } else {
        Some(
            Observed {
                input_mint: second_mint,
                input_reserve: second_reserve,
                output_mint: first_mint,
                output_reserve: first_reserve,
            },
        )
    }
}

/// The price that an observed swap left the pool at, where it fits the
/// machine's integers: the native reserve over the token reserve, with the
/// token's decimals read off the balances `post` and `pre`.
pub open spec fn spec_observed_price(
    observed: ObservedView,
    post: Seq<TokenBalanceView>,
    pre: Seq<TokenBalanceView>,
) -> Option<u128> {
    let decimals = spec_decimals_of(post, pre, base58_of_pubkey(observed.token_mint()));
    if spec_price_fits(
        observed.native_reserve() as int,
        observed.token_reserve() as int,
        decimals as nat,
    ) {
        Some(
            spec_price(
                observed.native_reserve() as int,
                observed.token_reserve() as int,
                decimals as nat,
            ) as u128,
        )
    } else {
        None
    }
}

/// See [`spec_observed_price`].
pub fn observed_price(
    observed: &Observed,
    post_token_balance: &Vec<TokenBalance>,
    pre_token_balance: &Vec<TokenBalance>,
) -> (out: Option<u128>)
    ensures
        out == spec_observed_price(
            observed@,
            balances_view(post_token_balance@),
            balances_view(pre_token_balance@),
        ),
{
    let token_mint = observed.token_mint();
    let decimals = mint_decimals(post_token_balance, pre_token_balance, &token_mint);
    derive_price(observed.native_reserve(), observed.token_reserve(), decimals)
}

/// A pool that is out of tokens has price zero.
pub proof fn law_empty_reserve_prices_zero(native_reserve: int, token_reserve: int, decimals: nat)
    requires
        0 <= native_reserve,
        0 <= token_reserve,
        native_reserve == 0 || token_reserve == 0,
    ensures
        spec_price(native_reserve, token_reserve, decimals) == 0,
        spec_price_fits(native_reserve, token_reserve, decimals),
{
    if token_reserve > 0 {
        assert(0 * crate::price::pow10(decimals + 9) == 0);
        assert(0int / token_reserve == 0);
    }
}

} // verus!

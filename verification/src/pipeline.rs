//! The submission pipeline, as the decisions between its outside steps.
//!
//! A fired decision is carried out in three outside steps: the relay adds
//! its tip to the prepared instructions and the transaction is signed; the
//! transaction is simulated; it is sent to the relay. Before the first step
//! the slot is asked for what to send, after the second the simulation is
//! judged, and after the third the relay's answer is written into the slot.
//! Nothing but an accepted transaction changes the slot.

use crate::instruction::{clone_instructions, instructions_view, Instruction, InstructionView};
use crate::keys::{parse_pubkey, pubkey_of_base58, Pubkey};
use crate::slot::{accepts_submission, RealPoolInfo, RealPoolInfoView};
use crate::store::{
    bucket_wf, lemma_set_slot_wf, slot_position, spec_set_slot, PoolBucketView, PositionStore,
};
use vstd::prelude::*;
use vstd::string::*;

verus! {

/// The relays a strategy can name.
#[derive(Clone, Copy, Debug, PartialEq, Eq, Structural)]
pub enum Relay {
    Jito,
}

impl Relay {
    /// Which of the relay's tip accounts is paid.
    pub open spec fn spec_tip_index(self) -> u8 {
        match self {
            Relay::Jito => 4,
        }
    }

    /// Which of the relay's tip accounts is paid.
    pub fn tip_index(&self) -> (out: u8)
        ensures
            out == self.spec_tip_index(),
    {
        match self {
            Relay::Jito => 4,
        }
    }
}

/// The relay that a strategy's tag names.
pub open spec fn spec_relay_of(tag: Seq<char>) -> Option<Relay> {
    if tag == "JITO"@ {
        Some(Relay::Jito)
    } else {
        None
    }
}

/// The relay that a strategy's tag names.
pub fn relay_of(tag: &String) -> (out: Option<Relay>)
    ensures
        out == spec_relay_of(tag@),
{
    if *tag == "JITO".to_owned() {
        Some(Relay::Jito)
    } else {
        None
    }
}

/// What the relay is asked to wrap: the prepared instructions, who pays, the
/// compute budget, the priority fee in millionths of an atomic unit per
/// compute unit, and the tip with the account it goes to.
#[derive(Debug)]
pub struct Tips {
    pub cu: Option<u64>,
    pub priority_fee_micro_lamport: Option<u64>,
    pub payer: Pubkey,
    pub pure_ix: Vec<Instruction>,
    pub tip_addr_idx: u8,
    pub tip_sol_amount: u64,
}

/// Mathematical value of [`Tips`].
pub struct TipsView {
    pub cu: Option<u64>,
    pub priority_fee_micro_lamport: Option<u64>,
    pub payer: Seq<u8>,
    pub pure_ix: Seq<InstructionView>,
    pub tip_addr_idx: u8,
    pub tip_sol_amount: u64,
}

impl View for Tips {
    type V = TipsView;

    open spec fn view(&self) -> TipsView {
        TipsView {
            cu: self.cu,
            priority_fee_micro_lamport: self.priority_fee_micro_lamport,
            payer: self.payer@,
            pure_ix: instructions_view(self.pure_ix@),
            tip_addr_idx: self.tip_addr_idx,
            tip_sol_amount: self.tip_sol_amount,
        }
    }
}

/// Why a submission came to nothing.
#[derive(Debug)]
pub enum SubmitError {
    /// The slot has nothing prepared.
    NoInstructions,
    /// The strategy names no relay that is known.
    UnknownService,
    /// The user's public key is no address.
    InvalidPayer,
    /// The relay's client is not there.
    ClientMissing,
    /// The simulation failed, with what it said.
    Simulation(String),
    /// The relay refused, with what it said.
    Relay(String),
    /// The slot has a transaction in flight, or is gone.
    NotAccepted,
}

/// Mathematical value of [`SubmitError`].
pub enum SubmitErrorView {
    NoInstructions,
    UnknownService,
    InvalidPayer,
    ClientMissing,
    Simulation(Seq<char>),
    Relay(Seq<char>),
    NotAccepted,
}

impl View for SubmitError {
    type V = SubmitErrorView;

    open spec fn view(&self) -> SubmitErrorView {
        match self {
            SubmitError::NoInstructions => SubmitErrorView::NoInstructions,
            SubmitError::UnknownService => SubmitErrorView::UnknownService,
            SubmitError::InvalidPayer => SubmitErrorView::InvalidPayer,
            SubmitError::ClientMissing => SubmitErrorView::ClientMissing,
            SubmitError::Simulation(m) => SubmitErrorView::Simulation(m@),
            SubmitError::Relay(m) => SubmitErrorView::Relay(m@),
            SubmitError::NotAccepted => SubmitErrorView::NotAccepted,
        }
    }
}

impl SubmitErrorView {
    /// The kind of the failure, as reported.
    pub open spec fn result(self) -> Seq<char> {
        match self {
            SubmitErrorView::Simulation(_) => "simulation_error"@,
            _ => "error"@,
        }
    }

    /// The failure in words.
    pub open spec fn message(self) -> Seq<char> {
        match self {
            SubmitErrorView::NoInstructions => "No swap instructions to submit"@,
            SubmitErrorView::UnknownService => "unknown confirmation service"@,
            SubmitErrorView::InvalidPayer => "invalid public key"@,
            SubmitErrorView::ClientMissing => "Jito client not initialized"@,
            SubmitErrorView::Simulation(m) => "Simulation failed: "@ + m,
            SubmitErrorView::Relay(m) => m,
            SubmitErrorView::NotAccepted => "transaction already in flight"@,
        }
    }
}

impl SubmitError {
    /// The kind of the failure, as reported.
    pub fn result(&self) -> (out: String)
        ensures
            out@ == self@.result(),
    {
        match self {
            SubmitError::Simulation(_) => "simulation_error".to_owned(),
            _ => "error".to_owned(),
        }
    }

    /// The failure in words.
    pub fn message(&self) -> (out: String)
        ensures
            out@ == self@.message(),
    {
        match self {
            SubmitError::NoInstructions => "No swap instructions to submit".to_owned(),
            SubmitError::UnknownService => "unknown confirmation service".to_owned(),
            SubmitError::InvalidPayer => "invalid public key".to_owned(),
            SubmitError::ClientMissing => "Jito client not initialized".to_owned(),
            SubmitError::Simulation(m) => "Simulation failed: ".to_owned().concat(m.as_str()),
            SubmitError::Relay(m) => m.clone(),
            SubmitError::NotAccepted => "transaction already in flight".to_owned(),
        }
    }
}

/// What a slot hands to the relay, or why it hands nothing: a slot with
/// nothing prepared, with a relay that is not known or with a public key that
/// is no address is refused, in this order.
pub open spec fn spec_prepare_submission(slot: RealPoolInfoView) -> Result<TipsView, SubmitErrorView> {
    let strategy = slot.user_bot_data.bot_setting;
    if slot.swap_buy_ixs.len() == 0 {
        Err(SubmitErrorView::NoInstructions)
    } else if spec_relay_of(strategy.confirm_service) is None {
        Err(SubmitErrorView::UnknownService)
    } else if pubkey_of_base58(slot.user_bot_data.public_key) is None {
        Err(SubmitErrorView::InvalidPayer)
    } else {
        Ok(
            TipsView {
                cu: Some(strategy.cu),
                priority_fee_micro_lamport: Some(strategy.priority_fee_micro_lamport),
                payer: pubkey_of_base58(slot.user_bot_data.public_key)->Some_0,
                pure_ix: slot.swap_buy_ixs,
                tip_addr_idx: spec_relay_of(strategy.confirm_service)->Some_0.spec_tip_index(),
                tip_sol_amount: strategy.third_party_fee,
            },
        )
    }
}

/// A result of the pipeline, as values.
pub open spec fn tips_result_view(result: Result<Tips, SubmitError>) -> Result<
    TipsView,
    SubmitErrorView,
> {
    match result {
        Ok(tips) => Ok(tips@),
        Err(error) => Err(error@),
    }
}

/// First decision: what is handed to the relay. The slot is only read.
pub fn prepare_submission(slot: &RealPoolInfo) -> (out: Result<Tips, SubmitError>)
    ensures
        tips_result_view(out) == spec_prepare_submission(slot@),
{
    let strategy = &slot.user_bot_data.bot_setting;
    if slot.swap_buy_ixs.len() == 0 {
        return Err(SubmitError::NoInstructions);
    }
    let relay = match relay_of(&strategy.confirm_service) {
        Some(relay) => relay,
        None => {
            return Err(SubmitError::UnknownService);
        },
    };
    let payer = match parse_pubkey(slot.user_bot_data.public_key.as_str()) {
        Some(payer) => payer,
        None => {
            return Err(SubmitError::InvalidPayer);
        },
    };
    Ok(
        Tips {
            cu: Some(strategy.cu),
            priority_fee_micro_lamport: Some(strategy.priority_fee_micro_lamport),
            payer,
            pure_ix: clone_instructions(&slot.swap_buy_ixs),
            tip_addr_idx: relay.tip_index(),
            tip_sol_amount: strategy.third_party_fee,
        },
    )
}

/// The instructions that are signed: the nonce instruction first, where
/// there is one, then the others.
pub fn instructions_to_sign(ixs: Vec<Instruction>, nonce_ix: Option<Instruction>) -> (out: Vec<
    Instruction,
>)
    ensures
        instructions_view(out@) == (match nonce_ix {
            Some(nonce) => seq![nonce@] + instructions_view(ixs@),
            None => instructions_view(ixs@),
        }),
{
    let mut ixs = ixs;
    let ghost before = ixs@;
    if let Some(nonce_instruction) = nonce_ix {
        ixs.insert(0, nonce_instruction);
        assert(instructions_view(ixs@) =~= seq![nonce_instruction@] + instructions_view(before));
    }
    ixs
}

/// Second decision: a simulation that reports an error ends the submission.
pub fn check_simulation(simulation_err: Option<String>) -> (out: Result<(), SubmitError>)
    ensures
        simulation_err is None ==> out is Ok,
        simulation_err is Some ==> out is Err && out->Err_0@ == SubmitErrorView::Simulation(
            simulation_err->Some_0@,
        ),
{
    match simulation_err {
        Some(text) => Err(SubmitError::Simulation(text)),
        None => Ok(()),
    }
}

/// The store after the relay answered for the slot of `user` in `pool`: an
/// accepted transaction leaves its signature in the slot, where the slot can
/// take it; anything else leaves the store as it was.
pub open spec fn spec_relay_answered(
    store: Seq<PoolBucketView>,
    pool: Seq<char>,
    user: Seq<char>,
    answer: Result<Seq<char>, Seq<char>>,
) -> Seq<PoolBucketView> {
    match (answer, slot_position(store, pool, user)) {
        (Ok(signature), Some((b, i))) => if accepts_submission(store[b].slots[i]) {
            spec_set_slot(
                store,
                b,
                i,
                RealPoolInfoView { signature: Some(signature), ..store[b].slots[i] },
            )
        } else {
            store
        },
        _ => store,
    }
}

/// What the submission came to, given the relay's answer.
pub open spec fn spec_relay_outcome(
    store: Seq<PoolBucketView>,
    pool: Seq<char>,
    user: Seq<char>,
    answer: Result<Seq<char>, Seq<char>>,
) -> Result<Seq<char>, SubmitErrorView> {
    match answer {
        Ok(signature) => match slot_position(store, pool, user) {
            Some((b, i)) => if accepts_submission(store[b].slots[i]) {
                Ok(signature)
            } else {
                Err(SubmitErrorView::NotAccepted)
            },
            None => Err(SubmitErrorView::NotAccepted),
        },
        Err(text) => Err(SubmitErrorView::Relay(text)),
    }
}

/// The answer of a relay, as values.
pub open spec fn answer_view(answer: Result<String, String>) -> Result<Seq<char>, Seq<char>> {
    match answer {
        Ok(signature) => Ok(signature@),
        Err(text) => Err(text@),
    }
}

/// The end of a submission, as values.
pub open spec fn outcome_view(outcome: Result<String, SubmitError>) -> Result<
    Seq<char>,
    SubmitErrorView,
> {
    match outcome {
        Ok(signature) => Ok(signature@),
        Err(error) => Err(error@),
    }
}

/// Third decision: the relay's answer is written into the slot of `user_id`
/// in `pool_id`.
pub fn record_relay_answer(
    store: &mut PositionStore,
    pool_id: &String,
    user_id: &String,
    answer: Result<String, String>,
) -> (out: Result<String, SubmitError>)
    requires
        old(store).wf(),
    ensures
        final(store)@ == spec_relay_answered(old(store)@, pool_id@, user_id@, answer_view(answer)),
        outcome_view(out) == spec_relay_outcome(
            old(store)@,
            pool_id@,
            user_id@,
            answer_view(answer),
        ),
        final(store).wf(),
{
    let signature = match answer {
        Ok(signature) => signature,
        Err(text) => {
            return Err(SubmitError::Relay(text));
        },
    };
    let (b, i) = match store.find_slot(pool_id, user_id) {
        Some(position) => position,
        None => {
            return Err(SubmitError::NotAccepted);
        },
    };
    let ghost before = store@;
    proof {
        assert(bucket_wf(before[b as int]));
    }
    let copy = signature.clone();
    if store.pools[b].slots[i].record_submission(signature) {
        proof {
            let after = store@[b as int].slots[i as int];
            assert(store@[b as int].slots =~= before[b as int].slots.update(i as int, after));
            assert(store@ =~= spec_set_slot(before, b as int, i as int, after));
            lemma_set_slot_wf(before, b as int, i as int, after);
        }
        Ok(copy)
    } else {
        proof {
            assert(store@[b as int].slots =~= before[b as int].slots);
            assert(store@ =~= before);
        }
        Err(SubmitError::NotAccepted)
    }
}

} // verus!

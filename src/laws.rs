//! What holds of the escrow across its operations.
use vstd::prelude::*;

use crate::escrow::{
    after_confirm_delivery, after_deposit, after_initialize, confirm_plan, deposit_plan, fee_of,
    model_valid, payout_of, stage, state_of, ContractModel, EscrowError, EscrowState, Reply,
    TransferModel, RecordModel,
};

verus! {

/// A freshly initialized escrow, with a price that is not negative, awaits its
/// deposit.
pub proof fn lemma_initialize_awaits_deposit(
    c: ContractModel,
    client: Seq<u8>,
    freelancer: Seq<u8>,
    platform: Seq<u8>,
    amount: int,
    token_asset: Seq<u8>,
)
    requires
        amount >= 0,
    ensures
        after_initialize(c, client, freelancer, platform, amount, token_asset).1 == Ok::<
            Reply,
            EscrowError,
        >(Reply::Initialized),
        state_of(after_initialize(c, client, freelancer, platform, amount, token_asset).0) == Ok::<
            EscrowState,
            EscrowError,
        >(EscrowState::AwaitingDeposit),
        model_valid(after_initialize(c, client, freelancer, platform, amount, token_asset).0),
{
}

/// A deposit out of turn fails with `InvalidState`, and one by anybody but the
/// client fails with `Unauthorized`. Either way no transfer is asked for and
/// the escrow is left as it was, whatever the token service answered.
pub proof fn lemma_deposit_refused(c: ContractModel, caller: Seq<u8>, outcome: Result<(), String>)
    requires
        c.record is Some,
    ensures
        c.record->0.state != EscrowState::AwaitingDeposit ==> deposit_plan(c, caller) == Err::<
            Seq<TransferModel>,
            EscrowError,
        >(EscrowError::InvalidState) && after_deposit(c, caller, outcome) == (
            c,
            Err::<Reply, EscrowError>(EscrowError::InvalidState),
        ),
        c.record->0.state == EscrowState::AwaitingDeposit && caller != c.record->0.client
            ==> deposit_plan(c, caller) == Err::<Seq<TransferModel>, EscrowError>(
            EscrowError::Unauthorized,
        ) && after_deposit(c, caller, outcome) == (
            c,
            Err::<Reply, EscrowError>(EscrowError::Unauthorized),
        ),
{
}

/// After a successful deposit the escrow awaits delivery, and the deposit asked
/// for exactly one transfer: the whole price, from the client to the escrow's
/// own account.
pub proof fn lemma_deposit_succeeds(c: ContractModel, caller: Seq<u8>, outcome: Result<(), String>)
    requires
        after_deposit(c, caller, outcome).1 is Ok,
    ensures
        c.record is Some,
        caller == c.record->0.client,
        state_of(after_deposit(c, caller, outcome).0) == Ok::<EscrowState, EscrowError>(
            EscrowState::AwaitingDelivery,
        ),
        deposit_plan(c, caller) == Ok::<Seq<TransferModel>, EscrowError>(
            seq![
                TransferModel {
                    asset: c.record->0.token_asset,
                    from: c.record->0.client,
                    to: c.account,
                    amount: c.record->0.amount,
                },
            ],
        ),
{
}

/// Settlement out of turn, or by anybody but the client, fails: no transfer is
/// asked for and the escrow is left as it was.
pub proof fn lemma_confirm_refused(c: ContractModel, caller: Seq<u8>, outcome: Result<(), String>)
    requires
        c.record is Some,
        c.record->0.state != EscrowState::AwaitingDelivery || caller != c.record->0.client,
    ensures
        confirm_plan(c, caller) is Err,
        after_confirm_delivery(c, caller, outcome).0 == c,
        after_confirm_delivery(c, caller, outcome).1 is Err,
{
}

/// Of any price that is not negative, the platform's five percent rounded down
/// and the freelancer's remainder are both not negative and sum to the price.
pub proof fn lemma_fee_split(amount: int)
    requires
        amount >= 0,
    ensures
        fee_of(amount) == amount * 5 / 100,
        0 <= fee_of(amount) <= amount,
        payout_of(amount) >= 0,
        fee_of(amount) + payout_of(amount) == amount,
{
    assert(0 <= amount * 5 / 100 <= amount) by (nonlinear_arith)
        requires
            amount >= 0,
    ;
}

/// A successful settlement pays the platform its fee and the freelancer the
/// rest, from the escrow's own account, and the two sum to the price.
pub proof fn lemma_settlement_split(c: ContractModel, caller: Seq<u8>, outcome: Result<(), String>)
    requires
        model_valid(c),
        after_confirm_delivery(c, caller, outcome).1 is Ok,
    ensures
        c.record is Some,
        state_of(after_confirm_delivery(c, caller, outcome).0) == Ok::<EscrowState, EscrowError>(
            EscrowState::Complete,
        ),
        confirm_plan(c, caller) == Ok::<Seq<TransferModel>, EscrowError>(
            seq![
                TransferModel {
                    asset: c.record->0.token_asset,
                    from: c.account,
                    to: c.record->0.platform,
                    amount: c.record->0.amount * 5 / 100,
                },
                TransferModel {
                    asset: c.record->0.token_asset,
                    from: c.account,
                    to: c.record->0.freelancer,
                    amount: c.record->0.amount - c.record->0.amount * 5 / 100,
                },
            ],
        ),
        fee_of(c.record->0.amount) >= 0,
        payout_of(c.record->0.amount) >= 0,
        fee_of(c.record->0.amount) + payout_of(c.record->0.amount) == c.record->0.amount,
{
    lemma_fee_split(c.record->0.amount);
}

/// A complete escrow stays complete: deposit and settlement both fail with
/// `InvalidState`, for any caller, and change nothing.
pub proof fn lemma_complete_is_final(c: ContractModel, caller: Seq<u8>, outcome: Result<(), String>)
    requires
        state_of(c) == Ok::<EscrowState, EscrowError>(EscrowState::Complete),
    ensures
        deposit_plan(c, caller) == Err::<Seq<TransferModel>, EscrowError>(
            EscrowError::InvalidState,
        ),
        confirm_plan(c, caller) == Err::<Seq<TransferModel>, EscrowError>(
            EscrowError::InvalidState,
        ),
        after_deposit(c, caller, outcome) == (c, Err::<Reply, EscrowError>(EscrowError::InvalidState)),
        after_confirm_delivery(c, caller, outcome) == (
            c,
            Err::<Reply, EscrowError>(EscrowError::InvalidState),
        ),
{
}

/// When the token service refuses a deposit, the escrow is left as it was: it
/// still awaits the deposit if it did before.
pub proof fn lemma_failed_deposit_keeps_state(c: ContractModel, caller: Seq<u8>, reason: String)
    ensures
        after_deposit(c, caller, Err(reason)).0 == c,
        after_deposit(c, caller, Err(reason)).1 is Err,
        state_of(after_deposit(c, caller, Err(reason)).0) == state_of(c),
{
}

/// When the token service refuses a settlement transfer, the escrow is left as
/// it was.
pub proof fn lemma_failed_settlement_keeps_state(c: ContractModel, caller: Seq<u8>, reason: String)
    ensures
        after_confirm_delivery(c, caller, Err(reason)).0 == c,
        after_confirm_delivery(c, caller, Err(reason)).1 is Err,
{
}

/// Deposit and settlement move the state forward by exactly one step when
/// they succeed and leave the escrow as it was when they fail; the parties,
/// the price and the token are never changed.
pub proof fn lemma_steps_move_forward(c: ContractModel, caller: Seq<u8>, outcome: Result<(), String>)
    requires
        c.record is Some,
    ensures
        forall|post: (ContractModel, Result<Reply, EscrowError>)|
            post == after_deposit(c, caller, outcome) || post == after_confirm_delivery(
                c,
                caller,
                outcome,
            ) ==> {
                &&& post.0.account == c.account
                &&& post.0.record is Some
                &&& post.0.record->0 == (RecordModel { state: post.0.record->0.state, ..c.record->0 })
                &&& post.1 is Ok ==> stage(post.0.record->0.state) == stage(c.record->0.state) + 1
                &&& post.1 is Err ==> post.0 == c
            },
{
}

} // verus!

//! The escrow state machine: one record per escrow, three states that only
//! move forward, and the fee split at settlement.
//!
//! Token transfers are carried out by whoever hosts the escrow. Each moving
//! operation comes in two halves: a `plan_*` call checks the preconditions and
//! returns the transfers to make, and the operation itself takes the outcome of
//! those transfers and commits the new state only when they all succeeded.
use vstd::prelude::*;

use crate::account::AccountId;

verus! {

/// Where an escrow stands in its lifecycle.
#[derive(Clone, Copy, Debug, PartialEq, Eq, Structural)]
pub enum EscrowState {
    AwaitingDeposit,
    AwaitingDelivery,
    Complete,
}

/// What a successful operation answers.
#[derive(Clone, Copy, Debug, PartialEq, Eq, Structural)]
pub enum Reply {
    Initialized,
    DepositReceived,
    DeliveryConfirmed,
}

/// Why an operation was rejected. A rejected operation changes nothing.
#[derive(Debug, PartialEq, Eq)]
pub enum EscrowError {
    /// The escrow is not in the state the operation needs.
    InvalidState,
    /// The caller is not the party allowed to perform the operation.
    Unauthorized,
    /// The token service refused a transfer, for the reason it gave.
    TransferFailed(String),
    /// No escrow has been initialized yet.
    Uninitialized,
    /// The agreed price is negative.
    InvalidAmount,
}

/// A movement of `amount` units of the token `asset` from one account to another.
pub struct Transfer {
    pub asset: AccountId,
    pub from: AccountId,
    pub to: AccountId,
    pub amount: i128,
}

/// A transfer seen as plain values.
pub struct TransferModel {
    pub asset: Seq<u8>,
    pub from: Seq<u8>,
    pub to: Seq<u8>,
    pub amount: int,
}

impl View for Transfer {
    type V = TransferModel;

    open spec fn view(&self) -> TransferModel {
        TransferModel { asset: self.asset@, from: self.from@, to: self.to@, amount: self.amount as int }
    }
}

/// The persisted record of one escrow.
pub struct EscrowInstance {
    pub client: AccountId,
    pub freelancer: AccountId,
    pub platform: AccountId,
    pub amount: i128,
    pub token_asset: AccountId,
    pub state: EscrowState,
}

/// An escrow record seen as plain values.
pub struct RecordModel {
    pub client: Seq<u8>,
    pub freelancer: Seq<u8>,
    pub platform: Seq<u8>,
    pub amount: int,
    pub token_asset: Seq<u8>,
    pub state: EscrowState,
}

impl View for EscrowInstance {
    type V = RecordModel;

    open spec fn view(&self) -> RecordModel {
        RecordModel {
            client: self.client@,
            freelancer: self.freelancer@,
            platform: self.platform@,
            amount: self.amount as int,
            token_asset: self.token_asset@,
            state: self.state,
        }
    }
}

/// One escrow: the custodial account that holds the deposit, and its record,
/// absent until the escrow is initialized.
pub struct EscrowContract {
    account: AccountId,
    record: Option<EscrowInstance>,
}

/// An escrow seen as plain values.
pub struct ContractModel {
    pub account: Seq<u8>,
    pub record: Option<RecordModel>,
}

impl View for EscrowContract {
    type V = ContractModel;

    closed spec fn view(&self) -> ContractModel {
        ContractModel {
            account: self.account@,
            record: match self.record {
                Some(r) => Some(r@),
                None => None,
            },
        }
    }
}

/// What holds of every escrow: a recorded price is never negative.
pub open spec fn model_valid(c: ContractModel) -> bool {
    match c.record {
        Some(r) => r.amount >= 0,
        None => true,
    }
}

/// The platform's share of a price: five percent, rounded down.
pub open spec fn fee_of(amount: int) -> int {
    amount * 5 / 100
}

/// What the freelancer is paid: the price less the platform's share.
pub open spec fn payout_of(amount: int) -> int {
    amount - fee_of(amount)
}

/// The position of a state in the lifecycle.
pub open spec fn stage(s: EscrowState) -> int {
    match s {
        EscrowState::AwaitingDeposit => 0,
        EscrowState::AwaitingDelivery => 1,
        EscrowState::Complete => 2,
    }
}

/// What `get_state` answers.
pub open spec fn state_of(c: ContractModel) -> Result<EscrowState, EscrowError> {
    match c.record {
        Some(r) => Ok(r.state),
        None => Err(EscrowError::Uninitialized),
    }
}

/// The escrow after `initialize`, and its answer.
pub open spec fn after_initialize(
    c: ContractModel,
    client: Seq<u8>,
    freelancer: Seq<u8>,
    platform: Seq<u8>,
    amount: int,
    token_asset: Seq<u8>,
) -> (ContractModel, Result<Reply, EscrowError>) {
    if amount < 0 {
        (c, Err(EscrowError::InvalidAmount))
    } else {
        let r = RecordModel {
            client,
            freelancer,
            platform,
            amount,
            token_asset,
            state: EscrowState::AwaitingDeposit,
        };
        (ContractModel { account: c.account, record: Some(r) }, Ok(Reply::Initialized))
    }
}

/// The check that a call by `caller` may move the escrow on from state `from`.
pub open spec fn check_step(c: ContractModel, caller: Seq<u8>, from: EscrowState) -> Result<
    RecordModel,
    EscrowError,
> {
    match c.record {
        None => Err(EscrowError::Uninitialized),
        Some(r) => if r.state != from {
            Err(EscrowError::InvalidState)
        } else if caller != r.client {
            Err(EscrowError::Unauthorized)
        } else {
            Ok(r)
        },
    }
}

/// The transfers that a deposit by `caller` needs: the whole price, from the
/// caller to the escrow's own account.
pub open spec fn deposit_plan(c: ContractModel, caller: Seq<u8>) -> Result<
    Seq<TransferModel>,
    EscrowError,
> {
    match check_step(c, caller, EscrowState::AwaitingDeposit) {
        Err(e) => Err(e),
        Ok(r) => Ok(
            seq![TransferModel { asset: r.token_asset, from: caller, to: c.account, amount: r.amount }],
        ),
    }
}

/// The transfers that settlement needs: the fee to the platform and the rest
/// to the freelancer, both from the escrow's own account.
pub open spec fn confirm_plan(c: ContractModel, caller: Seq<u8>) -> Result<
    Seq<TransferModel>,
    EscrowError,
> {
    match check_step(c, caller, EscrowState::AwaitingDelivery) {
        Err(e) => Err(e),
        Ok(r) => Ok(
            seq![
                TransferModel {
                    asset: r.token_asset,
                    from: c.account,
                    to: r.platform,
                    amount: fee_of(r.amount),
                },
                TransferModel {
                    asset: r.token_asset,
                    from: c.account,
                    to: r.freelancer,
                    amount: payout_of(r.amount),
                },
            ],
        ),
    }
}

/// The escrow after a step from state `from` to state `to` by `caller`, given
/// the outcome of the step's transfers, and the step's answer.
pub open spec fn after_step(
    c: ContractModel,
    caller: Seq<u8>,
    outcome: Result<(), String>,
    from: EscrowState,
    to: EscrowState,
    reply: Reply,
) -> (ContractModel, Result<Reply, EscrowError>) {
    match check_step(c, caller, from) {
        Err(e) => (c, Err(e)),
        Ok(r) => match outcome {
            Err(reason) => (c, Err(EscrowError::TransferFailed(reason))),
            Ok(_) => (
                ContractModel { account: c.account, record: Some(RecordModel { state: to, ..r }) },
                Ok(reply),
            ),
        },
    }
}

/// The escrow after a deposit by `caller`, and its answer.
pub open spec fn after_deposit(c: ContractModel, caller: Seq<u8>, outcome: Result<(), String>) -> (
    ContractModel,
    Result<Reply, EscrowError>,
) {
    after_step(
        c,
        caller,
        outcome,
        EscrowState::AwaitingDeposit,
        EscrowState::AwaitingDelivery,
        Reply::DepositReceived,
    )
}

/// The escrow after settlement by `caller`, and its answer.
pub open spec fn after_confirm_delivery(
    c: ContractModel,
    caller: Seq<u8>,
    outcome: Result<(), String>,
) -> (ContractModel, Result<Reply, EscrowError>) {
    after_step(
        c,
        caller,
        outcome,
        EscrowState::AwaitingDelivery,
        EscrowState::Complete,
        Reply::DeliveryConfirmed,
    )
}

/// A list of transfers seen as plain values.
pub open spec fn transfers_view(v: Seq<Transfer>) -> Seq<TransferModel> {
    v.map_values(|t: Transfer| t@)
}

/// A plan of transfers, or the refusal, seen as plain values.
pub open spec fn plan_view(r: Result<Vec<Transfer>, EscrowError>) -> Result<
    Seq<TransferModel>,
    EscrowError,
> {
    match r {
        Ok(v) => Ok(transfers_view(v@)),
        Err(e) => Err(e),
    }
}

/// The platform's share of `amount`: five percent, rounded down.
pub fn platform_fee(amount: i128) -> (r: i128)
    requires
        amount >= 0,
    ensures
        r == fee_of(amount as int),
{
    let q = amount / 100;
    let m = amount % 100;
    proof {
        let a = amount as int;
        let qi = q as int;
        let mi = m as int;
        assert(a == 100 * qi + mi && 0 <= mi < 100) by {
            vstd::arithmetic::div_mod::lemma_fundamental_div_mod(a, 100);
        }
        assert(a * 5 == 5 * mi + (5 * qi) * 100) by (nonlinear_arith)
            requires
                a == 100 * qi + mi,
        ;
        vstd::arithmetic::div_mod::lemma_hoist_over_denominator(5 * mi, 5 * qi, 100);
        assert(0 <= qi * 5 <= a) by (nonlinear_arith)
            requires
                a == 100 * qi + mi,
                0 <= mi < 100,
                a >= 0,
        ;
    }
    q * 5 + m * 5 / 100
}

/// What the freelancer is paid out of `amount`.
pub fn payout(amount: i128) -> (r: i128)
    requires
        amount >= 0,
    ensures
        r == payout_of(amount as int),
{
    let fee = platform_fee(amount);
    proof {
        assert(0 <= amount * 5 / 100 <= amount) by (nonlinear_arith)
            requires
                amount >= 0,
        ;
    }
    amount - fee
}

impl EscrowInstance {
    fn copy_with_state(&self, state: EscrowState) -> (r: EscrowInstance)
        ensures
            r@ == (RecordModel { state, ..self@ }),
    {
        EscrowInstance {
            client: self.client.copy(),
            freelancer: self.freelancer.copy(),
            platform: self.platform.copy(),
            amount: self.amount,
            token_asset: self.token_asset.copy(),
            state,
        }
    }
}

impl EscrowContract {
    #[verifier::type_invariant]
    spec fn inv(self) -> bool {
        match self.record {
            Some(r) => r.amount >= 0,
            None => true,
        }
    }

    /// A new escrow whose deposits are held by `account`, not yet initialized.
    pub fn new(account: AccountId) -> (r: EscrowContract)
        ensures
            r@ == (ContractModel { account: account@, record: None }),
            model_valid(r@),
    {
        EscrowContract { account, record: None }
    }

    /// An escrow rebuilt from a record kept elsewhere; a record with a negative
    /// price is refused.
    pub fn restore(account: AccountId, record: EscrowInstance) -> (r: Result<
        EscrowContract,
        EscrowError,
    >)
        ensures
            match r {
                Ok(c) => record.amount >= 0 && c@ == (ContractModel {
                    account: account@,
                    record: Some(record@),
                }),
                Err(e) => record.amount < 0 && e == EscrowError::InvalidAmount,
            },
    {
        if record.amount < 0 {
            return Err(EscrowError::InvalidAmount);
        }
        Ok(EscrowContract { account, record: Some(record) })
    }

    /// The record of the escrow, absent until it is initialized.
    pub fn record(&self) -> (r: Option<&EscrowInstance>)
        ensures
            match r {
                Some(rec) => self@.record == Some(rec@),
                None => self@.record is None,
            },
    {
        match &self.record {
            Some(rec) => Some(rec),
            None => None,
        }
    }

    /// The account that holds the deposit between deposit and settlement.
    pub fn account(&self) -> (r: &AccountId)
        ensures
            r@ == self@.account,
    {
        &self.account
    }

    /// Records the parties, the price and the token of the escrow, and sets it
    /// to await the deposit. Any earlier record is replaced. A negative price
    /// is refused.
    pub fn initialize(
        &mut self,
        client: AccountId,
        freelancer: AccountId,
        platform: AccountId,
        amount: i128,
        token_asset: AccountId,
    ) -> (r: Result<Reply, EscrowError>)
        ensures
            (final(self)@, r) == after_initialize(
                old(self)@,
                client@,
                freelancer@,
                platform@,
                amount as int,
                token_asset@,
            ),
            model_valid(final(self)@),
    {
        proof {
            use_type_invariant(&*self);
        }
        if amount < 0 {
            return Err(EscrowError::InvalidAmount);
        }
        self.record = Some(
            EscrowInstance {
                client,
                freelancer,
                platform,
                amount,
                token_asset,
                state: EscrowState::AwaitingDeposit,
            },
        );
        Ok(Reply::Initialized)
    }

    /// The state of the escrow.
    pub fn get_state(&self) -> (r: Result<EscrowState, EscrowError>)
        ensures
            r == state_of(self@),
    {
        match &self.record {
            Some(rec) => Ok(rec.state),
            None => Err(EscrowError::Uninitialized),
        }
    }

    /// The record, when `caller` may move the escrow on from state `from`.
    fn checked_record(&self, caller: &AccountId, from: EscrowState) -> (r: Result<
        &EscrowInstance,
        EscrowError,
    >)
        ensures
            match r {
                Ok(rec) => check_step(self@, caller@, from) == Ok::<RecordModel, EscrowError>(rec@)
                    && rec.amount >= 0,
                Err(e) => check_step(self@, caller@, from) == Err::<RecordModel, EscrowError>(e),
            },
    {
        proof {
            use_type_invariant(self);
        }
        match &self.record {
            None => Err(EscrowError::Uninitialized),
            Some(rec) => {
                if rec.state != from {
                    Err(EscrowError::InvalidState)
                } else if !caller.same_as(&rec.client) {
                    Err(EscrowError::Unauthorized)
                } else {
                    Ok(rec)
                }
            },
        }
    }

    /// Moves the escrow from state `from` to state `to` for `caller`, once the
    /// step's transfers have had `outcome`.
    fn step(
        &mut self,
        caller: &AccountId,
        outcome: Result<(), String>,
        from: EscrowState,
        to: EscrowState,
        reply: Reply,
    ) -> (r: Result<Reply, EscrowError>)
        ensures
            (final(self)@, r) == after_step(old(self)@, caller@, outcome, from, to, reply),
            model_valid(final(self)@),
    {
        proof {
            use_type_invariant(&*self);
        }
        let next = match self.checked_record(caller, from) {
            Err(e) => return Err(e),
            Ok(rec) => rec.copy_with_state(to),
        };
        match outcome {
            Err(reason) => Err(EscrowError::TransferFailed(reason)),
            Ok(_) => {
                self.record = Some(next);
                Ok(reply)
            },
        }
    }

    /// The transfers that a deposit by `caller` needs, or why it is refused.
    pub fn plan_deposit(&self, caller: &AccountId) -> (r: Result<Vec<Transfer>, EscrowError>)
        ensures
            plan_view(r) == deposit_plan(self@, caller@),
    {
        let rec = match self.checked_record(caller, EscrowState::AwaitingDeposit) {
            Err(e) => return Err(e),
            Ok(rec) => rec,
        };
        let t = Transfer {
            asset: rec.token_asset.copy(),
            from: caller.copy(),
            to: self.account.copy(),
            amount: rec.amount,
        };
        let v = vec![t];
        proof {
            assert(transfers_view(v@) =~= deposit_plan(self@, caller@)->Ok_0);
        }
        Ok(v)
    }

    /// Takes the deposit of `caller`, given the outcome of the transfer that
    /// `plan_deposit` asked for. The escrow then awaits delivery; on any
    /// refusal, or a failed transfer, it is left as it was.
    pub fn deposit(&mut self, caller: &AccountId, outcome: Result<(), String>) -> (r: Result<
        Reply,
        EscrowError,
    >)
        ensures
            (final(self)@, r) == after_deposit(old(self)@, caller@, outcome),
            model_valid(final(self)@),
    {
        self.step(
            caller,
            outcome,
            EscrowState::AwaitingDeposit,
            EscrowState::AwaitingDelivery,
            Reply::DepositReceived,
        )
    }

    /// The transfers that settlement by `caller` needs, or why it is refused.
    pub fn plan_confirm_delivery(&self, caller: &AccountId) -> (r: Result<
        Vec<Transfer>,
        EscrowError,
    >)
        ensures
            plan_view(r) == confirm_plan(self@, caller@),
    {
        let rec = match self.checked_record(caller, EscrowState::AwaitingDelivery) {
            Err(e) => return Err(e),
            Ok(rec) => rec,
        };
        let fee = Transfer {
            asset: rec.token_asset.copy(),
            from: self.account.copy(),
            to: rec.platform.copy(),
            amount: platform_fee(rec.amount),
        };
        let rest = Transfer {
            asset: rec.token_asset.copy(),
            from: self.account.copy(),
            to: rec.freelancer.copy(),
            amount: payout(rec.amount),
        };
        let v = vec![fee, rest];
        proof {
            assert(transfers_view(v@) =~= confirm_plan(self@, caller@)->Ok_0);
        }
        Ok(v)
    }

    /// Settles the escrow on delivery confirmed by `caller`, given the outcome
    /// of the transfers that `plan_confirm_delivery` asked for. The escrow is
    /// then complete; on any refusal, or a failed transfer, it is left as it was.
    pub fn confirm_delivery(&mut self, caller: &AccountId, outcome: Result<(), String>) -> (r: Result<
        Reply,
        EscrowError,
    >)
        ensures
            (final(self)@, r) == after_confirm_delivery(old(self)@, caller@, outcome),
            model_valid(final(self)@),
    {
        self.step(
            caller,
            outcome,
            EscrowState::AwaitingDelivery,
            EscrowState::Complete,
            Reply::DeliveryConfirmed,
        )
    }
}

} // verus!

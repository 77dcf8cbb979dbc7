use escrow::account::AccountId;
use escrow::escrow::{
    payout, platform_fee, EscrowContract, EscrowError, EscrowState, Reply, Transfer,
};

fn acct(tag: u8) -> AccountId {
    AccountId::new(vec![tag, tag, tag])
}

fn client() -> AccountId {
    acct(1)
}

fn freelancer() -> AccountId {
    acct(2)
}

fn platform() -> AccountId {
    acct(3)
}

fn token() -> AccountId {
    acct(4)
}

fn escrow_account() -> AccountId {
    acct(9)
}

fn initialized(amount: i128) -> EscrowContract {
    let mut c = EscrowContract::new(escrow_account());
    let r = c.initialize(client(), freelancer(), platform(), amount, token());
    assert_eq!(r, Ok(Reply::Initialized));
    c
}

fn funded(amount: i128) -> EscrowContract {
    let mut c = initialized(amount);
    assert!(c.plan_deposit(&client()).is_ok());
    assert_eq!(c.deposit(&client(), Ok(())), Ok(Reply::DepositReceived));
    c
}

fn assert_transfer(t: &Transfer, from: &AccountId, to: &AccountId, amount: i128) {
    assert_eq!(t.asset.bytes, token().bytes);
    assert_eq!(t.from.bytes, from.bytes);
    assert_eq!(t.to.bytes, to.bytes);
    assert_eq!(t.amount, amount);
}

#[test]
fn initialize_then_get_state_awaits_deposit() {
    for amount in [0i128, 1, 19, 20, 1000, i128::MAX] {
        let c = initialized(amount);
        assert_eq!(c.get_state(), Ok(EscrowState::AwaitingDeposit));
    }
}

#[test]
fn initialize_refuses_negative_amount() {
    let mut c = EscrowContract::new(escrow_account());
    let r = c.initialize(client(), freelancer(), platform(), -1, token());
    assert_eq!(r, Err(EscrowError::InvalidAmount));
    assert_eq!(c.get_state(), Err(EscrowError::Uninitialized));
}

#[test]
fn initialize_replaces_earlier_record() {
    let mut c = funded(1000);
    let r = c.initialize(client(), freelancer(), platform(), 500, token());
    assert_eq!(r, Ok(Reply::Initialized));
    assert_eq!(c.get_state(), Ok(EscrowState::AwaitingDeposit));
}

#[test]
fn uninitialized_escrow_refuses_everything() {
    let mut c = EscrowContract::new(escrow_account());
    assert_eq!(c.get_state(), Err(EscrowError::Uninitialized));
    assert!(matches!(c.plan_deposit(&client()), Err(EscrowError::Uninitialized)));
    assert_eq!(c.deposit(&client(), Ok(())), Err(EscrowError::Uninitialized));
    assert!(matches!(
        c.plan_confirm_delivery(&client()),
        Err(EscrowError::Uninitialized)
    ));
    assert_eq!(
        c.confirm_delivery(&client(), Ok(())),
        Err(EscrowError::Uninitialized)
    );
}

#[test]
fn deposit_by_other_party_is_unauthorized() {
    for caller in [freelancer(), platform(), escrow_account(), acct(7)] {
        let mut c = initialized(1000);
        assert!(matches!(c.plan_deposit(&caller), Err(EscrowError::Unauthorized)));
        assert_eq!(c.deposit(&caller, Ok(())), Err(EscrowError::Unauthorized));
        assert_eq!(c.get_state(), Ok(EscrowState::AwaitingDeposit));
    }
}

#[test]
fn deposit_out_of_turn_is_invalid_state() {
    let mut c = funded(1000);
    assert!(matches!(c.plan_deposit(&client()), Err(EscrowError::InvalidState)));
    assert_eq!(c.deposit(&client(), Ok(())), Err(EscrowError::InvalidState));
    assert_eq!(c.deposit(&freelancer(), Ok(())), Err(EscrowError::InvalidState));
    assert_eq!(c.get_state(), Ok(EscrowState::AwaitingDelivery));
}

#[test]
fn deposit_plans_one_transfer_of_the_price() {
    let mut c = initialized(1000);
    let plan = c.plan_deposit(&client()).unwrap();
    assert_eq!(plan.len(), 1);
    assert_transfer(&plan[0], &client(), &escrow_account(), 1000);
    assert_eq!(c.deposit(&client(), Ok(())), Ok(Reply::DepositReceived));
    assert_eq!(c.get_state(), Ok(EscrowState::AwaitingDelivery));
}

#[test]
fn failed_deposit_transfer_keeps_state() {
    let mut c = initialized(1000);
    let r = c.deposit(&client(), Err("insufficient balance".to_string()));
    assert_eq!(
        r,
        Err(EscrowError::TransferFailed("insufficient balance".to_string()))
    );
    assert_eq!(c.get_state(), Ok(EscrowState::AwaitingDeposit));
    assert_eq!(c.deposit(&client(), Ok(())), Ok(Reply::DepositReceived));
}

#[test]
fn confirm_before_deposit_is_invalid_state() {
    let mut c = initialized(1000);
    assert!(matches!(
        c.plan_confirm_delivery(&client()),
        Err(EscrowError::InvalidState)
    ));
    assert_eq!(
        c.confirm_delivery(&client(), Ok(())),
        Err(EscrowError::InvalidState)
    );
    assert_eq!(c.get_state(), Ok(EscrowState::AwaitingDeposit));
}

#[test]
fn confirm_by_other_party_is_unauthorized() {
    let mut c = funded(1000);
    for caller in [freelancer(), platform(), acct(7)] {
        assert!(matches!(
            c.plan_confirm_delivery(&caller),
            Err(EscrowError::Unauthorized)
        ));
        assert_eq!(
            c.confirm_delivery(&caller, Ok(())),
            Err(EscrowError::Unauthorized)
        );
        assert_eq!(c.get_state(), Ok(EscrowState::AwaitingDelivery));
    }
}

#[test]
fn failed_settlement_transfer_keeps_state() {
    let mut c = funded(1000);
    let r = c.confirm_delivery(&client(), Err("ledger rejected".to_string()));
    assert_eq!(r, Err(EscrowError::TransferFailed("ledger rejected".to_string())));
    assert_eq!(c.get_state(), Ok(EscrowState::AwaitingDelivery));
}

#[test]
fn full_sequence_with_amount_1000() {
    let mut c = initialized(1000);
    let deposit = c.plan_deposit(&client()).unwrap();
    assert_eq!(deposit.len(), 1);
    assert_transfer(&deposit[0], &client(), &escrow_account(), 1000);
    assert_eq!(c.deposit(&client(), Ok(())), Ok(Reply::DepositReceived));
    let settle = c.plan_confirm_delivery(&client()).unwrap();
    assert_eq!(settle.len(), 2);
    assert_transfer(&settle[0], &escrow_account(), &platform(), 50);
    assert_transfer(&settle[1], &escrow_account(), &freelancer(), 950);
    assert_eq!(
        c.confirm_delivery(&client(), Ok(())),
        Ok(Reply::DeliveryConfirmed)
    );
    assert_eq!(c.get_state(), Ok(EscrowState::Complete));
}

#[test]
fn amount_one_pays_no_fee() {
    assert_eq!(platform_fee(1), 0);
    assert_eq!(payout(1), 1);
    let c = funded(1);
    let settle = c.plan_confirm_delivery(&client()).unwrap();
    assert_transfer(&settle[0], &escrow_account(), &platform(), 0);
    assert_transfer(&settle[1], &escrow_account(), &freelancer(), 1);
}

#[test]
fn fee_and_payout_values() {
    assert_eq!(platform_fee(0), 0);
    assert_eq!(payout(0), 0);
    assert_eq!(platform_fee(19), 0);
    assert_eq!(platform_fee(20), 1);
    assert_eq!(payout(20), 19);
    assert_eq!(platform_fee(1000), 50);
    assert_eq!(payout(1000), 950);
    assert_eq!(platform_fee(1999), 99);
    assert_eq!(payout(1999), 1900);
}

#[test]
fn fee_split_sums_to_amount() {
    for amount in [0i128, 1, 7, 99, 100, 101, 12345, 1_000_000_007, i128::MAX] {
        let fee = platform_fee(amount);
        let rest = payout(amount);
        assert!(fee >= 0 && rest >= 0);
        assert_eq!(fee + rest, amount);
    }
}

#[test]
fn fee_of_largest_amount_does_not_overflow() {
    let m = i128::MAX;
    assert_eq!(platform_fee(m), m / 100 * 5 + (m % 100) * 5 / 100);
    assert_eq!(payout(m), m - platform_fee(m));
}

#[test]
fn complete_escrow_refuses_further_steps() {
    let mut c = funded(1000);
    assert_eq!(
        c.confirm_delivery(&client(), Ok(())),
        Ok(Reply::DeliveryConfirmed)
    );
    for caller in [client(), freelancer(), platform(), acct(7)] {
        assert!(matches!(c.plan_deposit(&caller), Err(EscrowError::InvalidState)));
        assert_eq!(c.deposit(&caller, Ok(())), Err(EscrowError::InvalidState));
        assert!(matches!(
            c.plan_confirm_delivery(&caller),
            Err(EscrowError::InvalidState)
        ));
        assert_eq!(
            c.confirm_delivery(&caller, Ok(())),
            Err(EscrowError::InvalidState)
        );
        assert_eq!(c.get_state(), Ok(EscrowState::Complete));
    }
}

#[test]
fn account_identity_compares_bytes() {
    assert!(client().same_as(&client()));
    assert!(!client().same_as(&freelancer()));
    assert!(!AccountId::new(vec![1, 1]).same_as(&AccountId::new(vec![1, 1, 1])));
    assert!(AccountId::new(vec![]).same_as(&AccountId::new(vec![])));
    assert_eq!(client().copy().bytes, client().bytes);
    assert_eq!(EscrowContract::new(escrow_account()).account().bytes, escrow_account().bytes);
}

#[test]
fn restore_keeps_record_and_refuses_negative_amount() {
    let c = funded(1000);
    let rec = c.record().unwrap();
    let copy = escrow::escrow::EscrowInstance {
        client: rec.client.copy(),
        freelancer: rec.freelancer.copy(),
        platform: rec.platform.copy(),
        amount: rec.amount,
        token_asset: rec.token_asset.copy(),
        state: rec.state,
    };
    let mut back = match EscrowContract::restore(escrow_account(), copy) {
        Ok(b) => b,
        Err(e) => panic!("restore refused: {:?}", e),
    };
    assert_eq!(back.get_state(), Ok(EscrowState::AwaitingDelivery));
    assert_eq!(
        back.confirm_delivery(&client(), Ok(())),
        Ok(Reply::DeliveryConfirmed)
    );
    let bad = escrow::escrow::EscrowInstance {
        client: client(),
        freelancer: freelancer(),
        platform: platform(),
        amount: -5,
        token_asset: token(),
        state: EscrowState::AwaitingDeposit,
    };
    assert!(matches!(
        EscrowContract::restore(escrow_account(), bad),
        Err(EscrowError::InvalidAmount)
    ));
    assert!(EscrowContract::new(escrow_account()).record().is_none());
}

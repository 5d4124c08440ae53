use remit::config::BusinessRulesConfig;
use remit::errors::AppError;
use remit::exchange_rate::ExchangeRateRepository;
use remit::providers::{RecipientDetails, UserDetails};
use remit::remittance::{NextStage, RemittanceService};
use remit::repository::TransactionRepository;
use remit::transaction::{
    ConversionDetails, PaymentDetails, Transaction, TransactionStatus, TransferDetails,
};

fn rules() -> BusinessRulesConfig {
    BusinessRulesConfig {
        min_transaction_amount_inr: 1000,
        max_transaction_amount_inr: 1_000_000,
        fee_basis_points: 50,
        min_fee_inr: 100,
        exchange_rate_cache_seconds: 300,
        transaction_expiry_hours: 24,
    }
}

fn service() -> RemittanceService {
    RemittanceService::new(TransactionRepository::new(), ExchangeRateRepository::new(300), rules())
}

fn user(verified: bool) -> Result<UserDetails, AppError> {
    Ok(UserDetails {
        user_id: "user-1".to_string(),
        name: "Asha".to_string(),
        email: "asha@example.com".to_string(),
        phone: "+910000000000".to_string(),
        kyc_status: "VERIFIED".to_string(),
        kyc_verified: verified,
    })
}

fn recipient() -> Result<RecipientDetails, AppError> {
    Ok(RecipientDetails {
        recipient_id: "rcp-1".to_string(),
        name: "Jane".to_string(),
        account_holder_name: "Jane Doe".to_string(),
        account_number: "12345678".to_string(),
        bank_name: "Maple Bank".to_string(),
        ifsc_or_swift_code: "MAPLCATT".to_string(),
        relationship: "sister".to_string(),
    })
}

fn create(svc: &mut RemittanceService, amount: u64) -> Transaction {
    svc.create_transaction(
        "user-1".to_string(),
        amount,
        "rcp-1".to_string(),
        Some("tuition".to_string()),
        user(true),
        recipient(),
    )
    .unwrap()
}

fn payment(reference: &str) -> PaymentDetails {
    PaymentDetails {
        payment_id: Some("pay-1".to_string()),
        payment_link: None,
        payment_time: Some(1_000),
        reference_id: Some(reference.to_string()),
    }
}

fn conversion() -> (ConversionDetails, u64, u64) {
    (
        ConversionDetails {
            conversion_id: Some("conv-1".to_string()),
            conversion_time: Some(1_100),
            actual_exchange_rate: Some(1_620_000),
            reference_id: Some("conv-ref".to_string()),
        },
        1_620_000,
        4_520,
    )
}

fn transfer(id: &str) -> TransferDetails {
    TransferDetails {
        transfer_id: Some(id.to_string()),
        transfer_time: Some(1_200),
        tracking_url: None,
        estimated_delivery: None,
        reference_id: Some("tr-ref".to_string()),
    }
}

#[test]
fn create_small_amount_takes_minimum_fee() {
    let mut svc = service();
    let t = create(&mut svc, 500_000);
    assert_eq!(t.fees, 10_000);
    assert_eq!(t.status, TransactionStatus::Pending);
    assert_eq!(t.source_amount, 500_000);
    assert_eq!(t.destination_amount, None);
    assert_eq!(t.exchange_rate, None);
    assert_eq!(t.source_currency, "INR");
    assert_eq!(t.destination_currency, "CAD");
    assert_eq!(t.recipient_account_details.account_holder_name, "Jane Doe");
    assert_eq!(svc.get_transaction(&t.transaction_id).unwrap(), t);
}

#[test]
fn create_large_amount_takes_percentage_fee() {
    let mut svc = service();
    let t = create(&mut svc, 10_000_000);
    assert_eq!(t.fees, 50_000);
}

#[test]
fn calculate_fee_formula() {
    let svc = service();
    assert_eq!(svc.calculate_fee(500_000), 10_000);
    assert_eq!(svc.calculate_fee(3_000_000), 15_000);
    assert_eq!(svc.calculate_fee(2_000_000), 10_000);
    assert_eq!(svc.calculate_fee(2_000_100), 10_000);
}

#[test]
fn create_rejects_amount_out_of_bounds() {
    let mut svc = service();
    let low = svc.create_transaction("user-1".to_string(), 99_999, "rcp-1".to_string(), None, user(true), recipient());
    assert!(matches!(low, Err(AppError::ValidationError(_))));
    let high = svc.create_transaction("user-1".to_string(), 100_000_001, "rcp-1".to_string(), None, user(true), recipient());
    assert!(matches!(high, Err(AppError::ValidationError(_))));
    assert!(svc.get_user_transactions("user-1", None).is_empty());
}

#[test]
fn create_rejects_ineligible_payer() {
    let mut svc = service();
    let r = svc.create_transaction("user-1".to_string(), 500_000, "rcp-1".to_string(), None, user(false), recipient());
    assert!(matches!(r, Err(AppError::ValidationError(_))));
}

#[test]
fn create_passes_on_unknown_recipient() {
    let mut svc = service();
    let r = svc.create_transaction(
        "user-1".to_string(),
        500_000,
        "rcp-9".to_string(),
        None,
        user(true),
        Err(AppError::not_found("Recipient not found: rcp-9".to_string())),
    );
    assert_eq!(r, Err(AppError::NotFoundError("Recipient not found: rcp-9".to_string())));
}

#[test]
fn create_rejects_fee_above_amount() {
    let mut svc = RemittanceService::new(
        TransactionRepository::new(),
        ExchangeRateRepository::new(300),
        BusinessRulesConfig { min_fee_inr: 2_000, ..rules() },
    );
    let r = svc.create_transaction("user-1".to_string(), 150_000, "rcp-1".to_string(), None, user(true), recipient());
    assert!(matches!(r, Err(AppError::ValidationError(_))));
}

#[test]
fn create_rejects_overlong_notes() {
    let mut svc = service();
    let r = svc.create_transaction("user-1".to_string(), 500_000, "rcp-1".to_string(), Some("x".repeat(501)), user(true), recipient());
    assert!(matches!(r, Err(AppError::ValidationError(_))));
    let ok = svc.create_transaction("user-1".to_string(), 500_000, "rcp-1".to_string(), Some("x".repeat(500)), user(true), recipient());
    assert!(ok.is_ok());
}

#[test]
fn full_saga_reaches_completed() {
    let mut svc = service();
    let t = create(&mut svc, 500_000);
    let id = t.transaction_id.clone();
    let funded = svc.process_payment(&id, payment("ref-1"), 1_000).unwrap();
    assert_eq!(funded.status, TransactionStatus::Funded);
    assert_eq!(funded.destination_amount, None);
    let converted = svc.process_currency_conversion(&id, Ok(conversion()), 1_100).unwrap();
    assert_eq!(converted.status, TransactionStatus::Converted);
    assert_eq!(converted.destination_amount, Some(4_520));
    assert_eq!(converted.exchange_rate, Some(1_620_000));
    let transferred = svc.process_transfer(&id, Ok(transfer("tr-1")), 1_200).unwrap();
    assert_eq!(transferred.status, TransactionStatus::Transferred);
    let done = svc.complete_transaction(&id, 1_300).unwrap();
    assert_eq!(done.status, TransactionStatus::Completed);
    assert_eq!(done.fees, 10_000);
    assert_eq!(done.destination_amount, Some(4_520));
    assert_eq!(done.updated_at, t.updated_at.max(1_300));
    assert_eq!(svc.get_transaction(&id).unwrap(), done);
}

#[test]
fn complete_on_converted_is_invalid_state() {
    let mut svc = service();
    let t = create(&mut svc, 500_000);
    let id = t.transaction_id.clone();
    svc.process_payment(&id, payment("ref-1"), 1_000).unwrap();
    svc.process_currency_conversion(&id, Ok(conversion()), 1_100).unwrap();
    let before = svc.get_transaction(&id).unwrap();
    let r = svc.complete_transaction(&id, 1_200);
    assert_eq!(
        r,
        Err(AppError::InvalidStateError {
            current: "CONVERTED".to_string(),
            expected: "TRANSFERRED".to_string(),
        })
    );
    assert_eq!(svc.get_transaction(&id).unwrap(), before);
}

#[test]
fn stage_out_of_order_leaves_record_unchanged() {
    let mut svc = service();
    let t = create(&mut svc, 500_000);
    let id = t.transaction_id.clone();
    let r = svc.process_transfer(&id, Ok(transfer("tr-1")), 1_000);
    assert_eq!(
        r,
        Err(AppError::InvalidStateError { current: "PENDING".to_string(), expected: "CONVERTED".to_string() })
    );
    let r = svc.process_currency_conversion(&id, Ok(conversion()), 1_000);
    assert_eq!(
        r,
        Err(AppError::InvalidStateError { current: "PENDING".to_string(), expected: "FUNDED".to_string() })
    );
    assert_eq!(svc.get_transaction(&id).unwrap(), t);
}

#[test]
fn failed_provider_call_does_not_advance() {
    let mut svc = service();
    let t = create(&mut svc, 500_000);
    let id = t.transaction_id.clone();
    svc.process_payment(&id, payment("ref-1"), 1_000).unwrap();
    let before = svc.get_transaction(&id).unwrap();
    let r = svc.process_currency_conversion(&id, Err(AppError::CurrencyError("down".to_string())), 1_100);
    assert_eq!(r, Err(AppError::CurrencyError("down".to_string())));
    assert_eq!(svc.get_transaction(&id).unwrap(), before);
}

#[test]
fn fail_transaction_from_active_and_terminal() {
    let mut svc = service();
    let t = create(&mut svc, 500_000);
    let id = t.transaction_id.clone();
    let failed = svc.fail_transaction(&id, "cancelled by payer".to_string(), 1_000).unwrap();
    assert_eq!(failed.status, TransactionStatus::Failed);
    assert_eq!(failed.failure_reason, Some("cancelled by payer".to_string()));
    let again = svc.fail_transaction(&id, "again".to_string(), 1_100);
    assert_eq!(
        again,
        Err(AppError::InvalidStateError {
            current: "FAILED".to_string(),
            expected: "PENDING|FUNDED|CONVERTED|TRANSFERRED".to_string(),
        })
    );
    assert_eq!(svc.get_transaction(&id).unwrap(), failed);
}

#[test]
fn unknown_transaction_is_not_found() {
    let mut svc = service();
    assert!(matches!(svc.get_transaction("nope"), Err(AppError::NotFoundError(_))));
    assert!(matches!(svc.complete_transaction("nope", 1), Err(AppError::NotFoundError(_))));
}

#[test]
fn initiate_payment_records_details_and_returns_link() {
    let mut svc = service();
    let t = create(&mut svc, 500_000);
    let id = t.transaction_id.clone();
    let (total, description) = svc.payment_request(&id).unwrap();
    assert_eq!(total, 510_000);
    assert_eq!(description, format!("Remittance to Jane Doe ({})", id));
    let created = PaymentDetails {
        payment_id: Some("pay-7".to_string()),
        payment_link: Some("upi://pay/7".to_string()),
        payment_time: None,
        reference_id: Some("ref-7".to_string()),
    };
    let link = svc.initiate_payment(&id, Ok(created.clone()), 900).unwrap();
    assert_eq!(link, "upi://pay/7");
    let stored = svc.get_transaction(&id).unwrap();
    assert_eq!(stored.status, TransactionStatus::Pending);
    assert_eq!(stored.payment_details, created);
}

#[test]
fn initiate_payment_without_link_is_internal_error() {
    let mut svc = service();
    let t = create(&mut svc, 500_000);
    let id = t.transaction_id.clone();
    let created = PaymentDetails { payment_link: None, ..payment("ref-2") };
    let r = svc.initiate_payment(&id, Ok(created.clone()), 900);
    assert!(matches!(r, Err(AppError::InternalError(_))));
    assert_eq!(svc.get_transaction(&id).unwrap().payment_details, created);
}

#[test]
fn payment_token_collision_is_conflict() {
    let mut svc = service();
    let a = create(&mut svc, 500_000);
    let b = create(&mut svc, 600_000);
    svc.process_payment(&a.transaction_id, payment("ref-1"), 1_000).unwrap();
    let r = svc.process_payment(&b.transaction_id, payment("ref-1"), 1_000);
    assert!(matches!(r, Err(AppError::ConflictError(_))));
    assert_eq!(svc.get_transaction(&b.transaction_id).unwrap(), b);
}

#[test]
fn destination_estimate_after_fee() {
    let svc = service();
    assert_eq!(svc.calculate_destination_amount(500_000, 1_620_000), Ok((7_938, 1_620_000)));
    let strict = RemittanceService::new(
        TransactionRepository::new(),
        ExchangeRateRepository::new(300),
        BusinessRulesConfig { min_fee_inr: 10_000, ..rules() },
    );
    assert!(matches!(strict.calculate_destination_amount(500_000, 1_620_000), Err(AppError::ValidationError(_))));
}

#[test]
fn user_transactions_newest_first_with_limit() {
    let mut svc = service();
    let a = create(&mut svc, 500_000);
    let b = create(&mut svc, 600_000);
    let c = create(&mut svc, 700_000);
    let all = svc.get_user_transactions("user-1", None);
    assert_eq!(all, vec![c.clone(), b.clone(), a.clone()]);
    let two = svc.get_user_transactions("user-1", Some(2));
    assert_eq!(two, vec![c, b]);
    assert!(svc.get_user_transactions("user-2", None).is_empty());
}

#[test]
fn transfer_request_after_conversion() {
    let mut svc = service();
    let t = create(&mut svc, 500_000);
    let id = t.transaction_id.clone();
    assert_eq!(
        svc.transfer_request(&id),
        Err(AppError::InvalidStateError { current: "PENDING".to_string(), expected: "CONVERTED".to_string() })
    );
    svc.process_payment(&id, payment("ref-1"), 1_000).unwrap();
    svc.process_currency_conversion(&id, Ok(conversion()), 1_100).unwrap();
    let (currency, amount, bank, description) = svc.transfer_request(&id).unwrap();
    assert_eq!(currency, "INR");
    assert_eq!(amount, 4_520);
    assert_eq!(bank, t.recipient_account_details);
    assert_eq!(description, "Remittance: tuition");
}

#[test]
fn amount_check_before_directory() {
    let svc = service();
    assert!(matches!(svc.check_amount(99_999), Err(AppError::ValidationError(_))));
    assert_eq!(svc.check_amount(100_000), Ok(()));
    assert_eq!(svc.check_amount(100_000_000), Ok(()));
    assert!(matches!(svc.check_amount(100_000_001), Err(AppError::ValidationError(_))));
}

#[test]
fn next_stage_follows_the_saga() {

    let mut svc = service();
    let t = create(&mut svc, 500_000);
    let id = t.transaction_id.clone();
    assert_eq!(svc.next_stage(&id), Ok(NextStage::AwaitPayment));
    svc.process_payment(&id, payment("ref-1"), 1_000).unwrap();
    assert_eq!(svc.next_stage(&id), Ok(NextStage::Convert));
    svc.process_currency_conversion(&id, Ok(conversion()), 1_100).unwrap();
    assert_eq!(svc.next_stage(&id), Ok(NextStage::Transfer));
    svc.process_transfer(&id, Ok(transfer("tr-1")), 1_200).unwrap();
    assert_eq!(svc.next_stage(&id), Ok(NextStage::AwaitDelivery));
    svc.complete_transaction(&id, 1_300).unwrap();
    assert_eq!(svc.next_stage(&id), Ok(NextStage::Finished(TransactionStatus::Completed)));
    assert!(matches!(svc.next_stage("missing"), Err(AppError::NotFoundError(_))));
}

#[test]
fn ledger_status_updates_are_conditional() {
    let mut svc = service();
    let t = create(&mut svc, 500_000);
    let id = t.transaction_id.clone();
    let repo = &mut svc.transaction_repo;
    assert!(matches!(repo.update_status(&id, TransactionStatus::Converted, 10), Err(AppError::ValidationError(_))));
    assert_eq!(
        repo.update_status(&id, TransactionStatus::Completed, 10),
        Err(AppError::InvalidStateError { current: "PENDING".to_string(), expected: "TRANSFERRED".to_string() })
    );
    assert_eq!(repo.get_by_id(&id).unwrap(), t);
    let funded = repo.update_status(&id, TransactionStatus::Funded, 10).unwrap();
    assert_eq!(funded.status, TransactionStatus::Funded);
    let failed = repo.mark_as_failed(&id, "stopped".to_string(), 20).unwrap();
    assert_eq!(failed.failure_reason, Some("stopped".to_string()));
    assert_eq!(
        repo.mark_as_failed(&id, "again".to_string(), 30),
        Err(AppError::InvalidStateError {
            current: "FAILED".to_string(),
            expected: "PENDING|FUNDED|CONVERTED|TRANSFERRED".to_string(),
        })
    );
    assert_eq!(repo.get_by_id(&id).unwrap(), failed);
}

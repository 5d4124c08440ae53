use remit::config::BusinessRulesConfig;
use remit::errors::AppError;
use remit::exchange_rate::ExchangeRateRepository;
use remit::providers::{
    PaymentStatus, RecipientDetails, TransferStatus, UpiWebhookPayload, UserDetails,
    WiseWebhookPayload,
};
use remit::remittance::{RemittanceService, StatusCheck};
use remit::repository::TransactionRepository;
use remit::transaction::{
    BankAccountDetails, ConversionDetails, PaymentDetails, Transaction, TransactionStatus,
    TransferDetails,
};
use remit::webhooks::{upi_webhook, wise_webhook};

fn service() -> RemittanceService {
    let rules = BusinessRulesConfig {
        min_transaction_amount_inr: 1000,
        max_transaction_amount_inr: 1_000_000,
        fee_basis_points: 50,
        min_fee_inr: 100,
        exchange_rate_cache_seconds: 300,
        transaction_expiry_hours: 24,
    };
    RemittanceService::new(TransactionRepository::new(), ExchangeRateRepository::new(300), rules)
}

fn create(svc: &mut RemittanceService) -> Transaction {
    let user = UserDetails {
        user_id: "user-1".to_string(),
        name: "Asha".to_string(),
        email: "asha@example.com".to_string(),
        phone: "+910000000000".to_string(),
        kyc_status: "VERIFIED".to_string(),
        kyc_verified: true,
    };
    let recipient = RecipientDetails {
        recipient_id: "rcp-1".to_string(),
        name: "Jane".to_string(),
        account_holder_name: "Jane Doe".to_string(),
        account_number: "12345678".to_string(),
        bank_name: "Maple Bank".to_string(),
        ifsc_or_swift_code: "MAPLCATT".to_string(),
        relationship: "sister".to_string(),
    };
    svc.create_transaction("user-1".to_string(), 500_000, "rcp-1".to_string(), None, Ok(user), Ok(recipient))
        .unwrap()
}

fn initiate(svc: &mut RemittanceService, id: &str, reference: &str) {
    let created = PaymentDetails {
        payment_id: Some("pay-1".to_string()),
        payment_link: Some("upi://pay/1".to_string()),
        payment_time: None,
        reference_id: Some(reference.to_string()),
    };
    svc.initiate_payment(id, Ok(created), 900).unwrap();
}

fn upi_event(reference: &str, status: &str) -> UpiWebhookPayload {
    UpiWebhookPayload {
        payment_id: "pay-1".to_string(),
        status: status.to_string(),
        reference_id: reference.to_string(),
        payment_time: 1_000,
        upi_transaction_id: "upi-tx-1".to_string(),
    }
}

fn wise_event(transfer_id: &str, status: &str) -> WiseWebhookPayload {
    WiseWebhookPayload {
        event_type: "transfers#state-change".to_string(),
        transfer_id: transfer_id.to_string(),
        status: status.to_string(),
        timestamp: 2_000,
        tracking_url: None,
        estimated_delivery: None,
    }
}

fn to_transferred(svc: &mut RemittanceService, transfer_id: &str) -> String {
    let t = create(svc);
    let id = t.transaction_id.clone();
    initiate(svc, &id, "ref-1");
    assert_eq!(upi_webhook(svc, upi_event("ref-1", "success"), 1_000), Ok(TransactionStatus::Funded));
    let conversion = ConversionDetails {
        conversion_id: Some("conv-1".to_string()),
        conversion_time: Some(1_100),
        actual_exchange_rate: Some(1_620_000),
        reference_id: None,
    };
    svc.process_currency_conversion(&id, Ok((conversion, 1_620_000, 4_520)), 1_100).unwrap();
    let transfer = TransferDetails {
        transfer_id: Some(transfer_id.to_string()),
        transfer_time: Some(1_200),
        tracking_url: None,
        estimated_delivery: None,
        reference_id: None,
    };
    svc.process_transfer(&id, Ok(transfer), 1_200).unwrap();
    id
}

#[test]
fn concurrent_payments_one_wins_other_conflicts() {
    let mut repo = TransactionRepository::new();
    let t = Transaction::new_at(
        "tx-1".to_string(),
        100,
        "user-1".to_string(),
        500_000,
        "rcp-1".to_string(),
        BankAccountDetails {
            bank_name: "Maple Bank".to_string(),
            account_number: "12345678".to_string(),
            account_holder_name: "Jane Doe".to_string(),
            ifsc_or_swift_code: "MAPLCATT".to_string(),
        },
        None,
        10_000,
    );
    repo.save(t).unwrap();
    let seen_by_first = repo.get_by_id("tx-1").unwrap();
    let seen_by_second = repo.get_by_id("tx-1").unwrap();
    let first = seen_by_first.fund(PaymentDetails::default(), 200).unwrap();
    let second = seen_by_second.fund(PaymentDetails::default(), 201).unwrap();
    assert_eq!(repo.compare_and_swap(TransactionStatus::Pending, first.clone()), Ok(()));
    let lost = repo.compare_and_swap(TransactionStatus::Pending, second);
    assert!(matches!(lost, Err(AppError::ConflictError(_))));
    let stored = repo.get_by_id("tx-1").unwrap();
    assert_eq!(stored, first);
    assert_eq!(stored.status, TransactionStatus::Funded);
    assert_eq!(stored.updated_at, 200);
}

#[test]
fn duplicate_save_is_conflict() {
    let mut svc = service();
    let t = create(&mut svc);
    let mut repo = TransactionRepository::new();
    repo.save(t.clone()).unwrap();
    assert!(matches!(repo.save(t), Err(AppError::ConflictError(_))));
}

#[test]
fn payment_webhook_replay_is_one_transition() {
    let mut svc = service();
    let t = create(&mut svc);
    let id = t.transaction_id.clone();
    initiate(&mut svc, &id, "ref-9");
    assert_eq!(upi_webhook(&mut svc, upi_event("ref-9", "SUCCESS"), 1_000), Ok(TransactionStatus::Funded));
    let once = svc.get_transaction(&id).unwrap();
    assert_eq!(once.status, TransactionStatus::Funded);
    assert_eq!(once.payment_details.payment_time, Some(1_000));
    assert_eq!(upi_webhook(&mut svc, upi_event("ref-9", "SUCCESS"), 5_000), Ok(TransactionStatus::Funded));
    assert_eq!(svc.get_transaction(&id).unwrap(), once);
}

#[test]
fn payment_webhook_failure_and_expiry_fail_transaction() {
    let mut svc = service();
    let a = create(&mut svc);
    initiate(&mut svc, &a.transaction_id, "ref-a");
    assert_eq!(upi_webhook(&mut svc, upi_event("ref-a", "Failure"), 1_000), Ok(TransactionStatus::Failed));
    let failed = svc.get_transaction(&a.transaction_id).unwrap();
    assert_eq!(failed.failure_reason, Some("Payment failed".to_string()));
    assert_eq!(upi_webhook(&mut svc, upi_event("ref-a", "Failure"), 2_000), Ok(TransactionStatus::Failed));
    assert_eq!(svc.get_transaction(&a.transaction_id).unwrap(), failed);

    let b = create(&mut svc);
    initiate(&mut svc, &b.transaction_id, "ref-b");
    assert_eq!(upi_webhook(&mut svc, upi_event("ref-b", "EXPIRED"), 1_000), Ok(TransactionStatus::Failed));
    assert_eq!(
        svc.get_transaction(&b.transaction_id).unwrap().failure_reason,
        Some("Payment expired".to_string())
    );
}

#[test]
fn payment_webhook_intermediate_status_is_ignored() {
    let mut svc = service();
    let t = create(&mut svc);
    initiate(&mut svc, &t.transaction_id, "ref-p");
    let before = svc.get_transaction(&t.transaction_id).unwrap();
    assert_eq!(upi_webhook(&mut svc, upi_event("ref-p", "processing"), 1_000), Ok(TransactionStatus::Pending));
    assert_eq!(svc.get_transaction(&t.transaction_id).unwrap(), before);
}

#[test]
fn payment_webhook_unknown_reference_is_not_found() {
    let mut svc = service();
    create(&mut svc);
    let r = upi_webhook(&mut svc, upi_event("ref-unknown", "success"), 1_000);
    assert!(matches!(r, Err(AppError::NotFoundError(_))));
}

#[test]
fn transfer_webhook_completes_then_replay_is_noop() {
    let mut svc = service();
    let id = to_transferred(&mut svc, "tr-1");
    assert_eq!(
        wise_webhook(&mut svc, wise_event("tr-1", "outgoing_payment_sent"), 2_000),
        Ok(TransactionStatus::Completed)
    );
    let once = svc.get_transaction(&id).unwrap();
    assert_eq!(once.status, TransactionStatus::Completed);
    assert_eq!(
        wise_webhook(&mut svc, wise_event("tr-1", "outgoing_payment_sent"), 3_000),
        Ok(TransactionStatus::Completed)
    );
    assert_eq!(svc.get_transaction(&id).unwrap(), once);
}

#[test]
fn transfer_webhook_cancelled_fails_transaction() {
    let mut svc = service();
    let id = to_transferred(&mut svc, "tr-2");
    assert_eq!(
        wise_webhook(&mut svc, wise_event("tr-2", "Outgoing_Payment_Cancelled"), 2_000),
        Ok(TransactionStatus::Failed)
    );
    assert_eq!(svc.get_transaction(&id).unwrap().failure_reason, Some("Transfer cancelled".to_string()));
}

#[test]
fn transfer_webhook_processing_is_ignored() {
    let mut svc = service();
    let id = to_transferred(&mut svc, "tr-3");
    let before = svc.get_transaction(&id).unwrap();
    assert_eq!(
        wise_webhook(&mut svc, wise_event("tr-3", "incoming_payment_waiting"), 2_000),
        Ok(TransactionStatus::Transferred)
    );
    assert_eq!(svc.get_transaction(&id).unwrap(), before);
}

#[test]
fn poll_payment_completed_funds() {
    let mut svc = service();
    let t = create(&mut svc);
    initiate(&mut svc, &t.transaction_id, "ref-q");
    assert_eq!(
        svc.check_payment_status(&t.transaction_id, Ok(PaymentStatus::Completed), 1_000),
        Ok(TransactionStatus::Funded)
    );
    let funded = svc.get_transaction(&t.transaction_id).unwrap();
    assert_eq!(funded.payment_details.payment_link, Some("upi://pay/1".to_string()));
    assert_eq!(
        svc.check_payment_status(&t.transaction_id, Ok(PaymentStatus::Failed), 2_000),
        Ok(TransactionStatus::Funded)
    );
    assert_eq!(svc.get_transaction(&t.transaction_id).unwrap(), funded);
}

#[test]
fn poll_payment_without_payment_id_is_internal_error() {
    let mut svc = service();
    let t = create(&mut svc);
    let r = svc.check_payment_status(&t.transaction_id, Ok(PaymentStatus::Completed), 1_000);
    assert!(matches!(r, Err(AppError::InternalError(_))));
}

#[test]
fn poll_transfer_outcomes() {
    let mut svc = service();
    let id = to_transferred(&mut svc, "tr-4");
    assert_eq!(
        svc.check_transfer_status(&id, Ok(TransferStatus::Processing), 2_000),
        Ok(TransactionStatus::Transferred)
    );
    assert_eq!(
        svc.check_transfer_status(&id, Err(AppError::TransferError("down".to_string())), 2_000),
        Err(AppError::TransferError("down".to_string()))
    );
    assert_eq!(
        svc.check_transfer_status(&id, Ok(TransferStatus::Failed), 2_100),
        Ok(TransactionStatus::Failed)
    );
    assert_eq!(svc.get_transaction(&id).unwrap().failure_reason, Some("Transfer failed".to_string()));
}

#[test]
fn status_queries_by_index() {
    let mut svc = service();
    let a = create(&mut svc);
    let b = create(&mut svc);
    initiate(&mut svc, &b.transaction_id, "ref-s");
    upi_webhook(&mut svc, upi_event("ref-s", "completed"), 1_000).unwrap();
    let pending = svc.transaction_repo.get_by_status(TransactionStatus::Pending, None);
    assert_eq!(pending, vec![a.clone()]);
    let funded = svc.transaction_repo.get_by_status(TransactionStatus::Funded, Some(10));
    assert_eq!(funded.len(), 1);
    assert_eq!(funded[0].transaction_id, b.transaction_id);
    assert_eq!(
        svc.transaction_repo.find_by_payment_reference("ref-s").map(|t| t.transaction_id),
        Some(b.transaction_id.clone())
    );
    assert_eq!(svc.transaction_repo.find_by_transfer_id("nothing"), None);
    assert!(svc.transaction_repo.get_by_status(TransactionStatus::Pending, Some(0)).is_empty());
}

#[test]
fn status_check_asks_the_awaited_provider() {
    let mut svc = service();
    let t = create(&mut svc);
    assert!(matches!(svc.status_check(&t.transaction_id), Err(AppError::InternalError(_))));
    initiate(&mut svc, &t.transaction_id, "ref-c");
    assert_eq!(svc.status_check(&t.transaction_id), Ok(StatusCheck::Payment("pay-1".to_string())));
    let id = to_transferred(&mut svc, "tr-c");
    assert_eq!(svc.status_check(&id), Ok(StatusCheck::Transfer("tr-c".to_string())));
    svc.complete_transaction(&id, 3_000).unwrap();
    assert_eq!(svc.status_check(&id), Ok(StatusCheck::Settled(TransactionStatus::Completed)));
    assert!(matches!(svc.status_check("missing"), Err(AppError::NotFoundError(_))));
}

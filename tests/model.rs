use remit::config::BusinessRulesConfig;
use remit::errors::AppError;
use remit::remittance::RemittanceService;
use remit::repository::TransactionRepository;
use remit::exchange_rate::{ExchangeRate, ExchangeRateRepository};
use remit::providers::{
    process_upi_webhook, process_wise_webhook, PaymentStatus, TransferStatus, UpiWebhookPayload,
    WiseWebhookPayload,
};
use remit::transaction::{BankAccountDetails, PaymentDetails, Transaction, TransactionStatus};

fn bank() -> BankAccountDetails {
    BankAccountDetails {
        bank_name: "Maple Bank".to_string(),
        account_number: "12345678".to_string(),
        account_holder_name: "Jane Doe".to_string(),
        ifsc_or_swift_code: "MAPLCATT".to_string(),
    }
}

fn quote(source: &str, destination: &str, rate: u64, at: i64) -> ExchangeRate {
    ExchangeRate::new_at(source.to_string(), destination.to_string(), rate, "AD Bank".to_string(), at)
}

#[test]
fn status_names() {
    assert_eq!(TransactionStatus::Pending.to_string(), "PENDING");
    assert_eq!(TransactionStatus::Funded.to_string(), "FUNDED");
    assert_eq!(TransactionStatus::Converted.to_string(), "CONVERTED");
    assert_eq!(TransactionStatus::Transferred.to_string(), "TRANSFERRED");
    assert_eq!(TransactionStatus::Completed.to_string(), "COMPLETED");
    assert_eq!(TransactionStatus::Failed.to_string(), "FAILED");
    assert_eq!(TransactionStatus::default(), TransactionStatus::Pending);
    assert!(TransactionStatus::Completed.is_terminal());
    assert!(!TransactionStatus::Transferred.is_terminal());
}

#[test]
fn provider_status_words_ignore_case() {
    assert_eq!(PaymentStatus::from_status("SUCCESS"), PaymentStatus::Completed);
    assert_eq!(PaymentStatus::from_status("Completed"), PaymentStatus::Completed);
    assert_eq!(PaymentStatus::from_status("FAILURE"), PaymentStatus::Failed);
    assert_eq!(PaymentStatus::from_status("Expired"), PaymentStatus::Expired);
    assert_eq!(PaymentStatus::from_status("created"), PaymentStatus::Pending);
    assert_eq!(TransferStatus::from_status("OUTGOING_PAYMENT_SENT"), TransferStatus::Completed);
    assert_eq!(TransferStatus::from_status("Failed"), TransferStatus::Failed);
    assert_eq!(TransferStatus::from_status("CANCELLED"), TransferStatus::Cancelled);
    assert_eq!(TransferStatus::from_status("processing"), TransferStatus::Processing);
    assert_eq!(PaymentStatus::from_lowercase("SUCCESS"), PaymentStatus::Pending);
}

#[test]
fn new_transaction_gets_fresh_identifier() {
    let a = Transaction::new("user-1".to_string(), 500_000, "rcp-1".to_string(), bank(), None, 10_000);
    let b = Transaction::new("user-1".to_string(), 500_000, "rcp-1".to_string(), bank(), None, 10_000);
    assert_eq!(a.transaction_id.len(), 36);
    assert_ne!(a.transaction_id, b.transaction_id);
    assert_eq!(a.created_at, a.updated_at);
    assert_eq!(a.status, TransactionStatus::Pending);
    assert_eq!(a.fees, 10_000);
}

#[test]
fn transitions_keep_times_monotone() {
    let t = Transaction::new_at("tx-1".to_string(), 500, "u".to_string(), 500_000, "r".to_string(), bank(), None, 10_000);
    let funded = t.fund(PaymentDetails::default(), 400).unwrap();
    assert_eq!(funded.updated_at, 500);
    assert_eq!(funded.created_at, 500);
    let failed = funded.fail("stop".to_string(), 900).unwrap();
    assert_eq!(failed.updated_at, 900);
    assert_eq!(failed.status, TransactionStatus::Failed);
    assert_eq!(failed.fees, 10_000);
    let mut m = t.clone();
    m.update_status_at(TransactionStatus::Funded, 600);
    assert_eq!(m.status, TransactionStatus::Funded);
    assert_eq!(m.updated_at, 600);
    let mut n = t.clone();
    n.mark_as_failed("gone".to_string());
    assert_eq!(n.status, TransactionStatus::Failed);
    assert_eq!(n.failure_reason, Some("gone".to_string()));
    assert!(n.updated_at >= 500);
}

#[test]
fn validate_field_constraints() {
    let t = Transaction::new_at("tx-1".to_string(), 0, "u".to_string(), 500_000, "r".to_string(), bank(), None, 10_000);
    assert_eq!(t.validate(), Ok(()));
    let empty_user = Transaction { user_id: String::new(), ..t.clone() };
    assert!(matches!(empty_user.validate(), Err(AppError::ValidationError(_))));
    let long_bank = Transaction {
        recipient_account_details: BankAccountDetails { bank_name: "b".repeat(51), ..bank() },
        ..t.clone()
    };
    assert!(matches!(long_bank.validate(), Err(AppError::ValidationError(_))));
    let too_big = Transaction { source_amount: 100_000_001, ..t };
    assert!(matches!(too_big.validate(), Err(AppError::ValidationError(_))));
}

#[test]
fn fresh_quote_returned_stale_quote_not() {
    let mut rates = ExchangeRateRepository::new(300);
    rates.save(quote("INR", "CAD", 1_620_000, 1_000));
    assert_eq!(rates.get_latest("INR", "CAD", 1_300), Some(quote("INR", "CAD", 1_620_000, 1_000)));
    assert_eq!(rates.get_latest("INR", "CAD", 1_301), None);
    assert_eq!(rates.get_latest("INR", "USD", 1_000), None);
}

#[test]
fn latest_quote_supersedes() {
    let mut rates = ExchangeRateRepository::new(300);
    rates.save(quote("INR", "CAD", 1_600_000, 1_000));
    rates.save(quote("INR", "CAD", 1_650_000, 1_100));
    rates.save(quote("INR", "USD", 1_200_000, 1_150));
    assert_eq!(rates.get_latest("INR", "CAD", 1_200).map(|q| q.rate), Some(1_650_000));
    let history = rates.get_history("INR", "CAD", None);
    assert_eq!(history.iter().map(|q| q.rate).collect::<Vec<_>>(), vec![1_650_000, 1_600_000]);
    assert_eq!(rates.get_history("INR", "CAD", Some(1)).len(), 1);
}

#[test]
fn service_rate_cache_and_refresh() {
    let rules = BusinessRulesConfig {
        min_transaction_amount_inr: 1000,
        max_transaction_amount_inr: 1_000_000,
        fee_basis_points: 50,
        min_fee_inr: 100,
        exchange_rate_cache_seconds: 60,
        transaction_expiry_hours: 24,
    };
    let mut svc = RemittanceService::new(TransactionRepository::new(), ExchangeRateRepository::new(60), rules);
    assert_eq!(svc.get_exchange_rate("INR", "CAD", 1_000), None);
    assert_eq!(svc.refresh_exchange_rate(Ok(quote("INR", "CAD", 1_620_000, 1_000))), Ok(1_620_000));
    assert_eq!(svc.get_exchange_rate("INR", "CAD", 1_060), Some(1_620_000));
    assert_eq!(svc.get_exchange_rate("INR", "CAD", 1_061), None);
    let failed = svc.refresh_exchange_rate(Err(AppError::CurrencyError("down".to_string())));
    assert_eq!(failed, Err(AppError::CurrencyError("down".to_string())));
}

#[test]
fn error_codes_and_messages() {
    let v = AppError::validation_error("bad amount".to_string());
    assert_eq!(v.status_code(), 400);
    assert_eq!(v.message(), "Validation error: bad amount");
    let resp = v.error_response();
    assert_eq!(resp.status, "error");
    assert_eq!(resp.error_code, Some("400".to_string()));
    assert_eq!(resp.message, "Validation error: bad amount");
    assert_eq!(AppError::not_found("x".to_string()).status_code(), 404);
    let s = AppError::invalid_state("CONVERTED".to_string(), "TRANSFERRED".to_string());
    assert_eq!(s.status_code(), 422);
    assert_eq!(s.message(), "Transaction in invalid state: current=CONVERTED, expected=TRANSFERRED");
    assert_eq!(AppError::conflict("c".to_string()).status_code(), 409);
    assert_eq!(AppError::PaymentError("p".to_string()).status_code(), 502);
    assert_eq!(AppError::database_error("d".to_string()).status_code(), 500);
    assert_eq!(AppError::internal_error("i".to_string()).error_response().error_code, Some("500".to_string()));
    assert_eq!(AppError::ConfigError("c".to_string()).to_error_response("503").error_code, Some("503".to_string()));
}

#[test]
fn status_names_parse_back() {
    for s in [
        TransactionStatus::Pending,
        TransactionStatus::Funded,
        TransactionStatus::Converted,
        TransactionStatus::Transferred,
        TransactionStatus::Completed,
        TransactionStatus::Failed,
    ] {
        assert_eq!(TransactionStatus::parse(&s.to_string()), Some(s));
    }
    assert_eq!(TransactionStatus::parse("funded"), None);
    assert_eq!(TransactionStatus::parse(""), None);
}

#[test]
fn transfer_description_uses_notes() {
    let t = Transaction::new_at("tx-1".to_string(), 0, "u".to_string(), 500_000, "r".to_string(), bank(), Some("rent".to_string()), 10_000);
    assert_eq!(t.transfer_description(), "Remittance: rent");
    let plain = Transaction { notes: None, ..t };
    assert_eq!(plain.transfer_description(), "Remittance");
}

#[test]
fn refresh_failure_is_currency_error() {
    let rules = BusinessRulesConfig {
        min_transaction_amount_inr: 1000,
        max_transaction_amount_inr: 1_000_000,
        fee_basis_points: 50,
        min_fee_inr: 100,
        exchange_rate_cache_seconds: 60,
        transaction_expiry_hours: 24,
    };
    let mut svc = RemittanceService::new(TransactionRepository::new(), ExchangeRateRepository::new(60), rules);
    let r = svc.refresh_exchange_rate(Err(AppError::ExternalServiceError("timeout".to_string())));
    assert_eq!(r, Err(AppError::CurrencyError("External service error: timeout".to_string())));
    assert_eq!(svc.get_exchange_rate("INR", "CAD", 0), None);
}

#[test]
fn quote_date_is_utc_day() {
    let q = quote("INR", "CAD", 1_620_000, 1_431_648_000);
    assert_eq!(q.date, "2015-05-15");
    assert_eq!(quote("INR", "CAD", 1, 0).date, "1970-01-01");
    assert_eq!(quote("INR", "CAD", 1, i64::MAX).date, "");
}

#[test]
fn provider_events_read_as_details() {

    let upi = |status: &str| UpiWebhookPayload {
        payment_id: "pay-1".to_string(),
        status: status.to_string(),
        reference_id: "ref-1".to_string(),
        payment_time: 1_000,
        upi_transaction_id: "u-1".to_string(),
    };
    let details = process_upi_webhook(upi("SUCCESS")).unwrap();
    assert_eq!(details.payment_id, Some("pay-1".to_string()));
    assert_eq!(details.reference_id, Some("ref-1".to_string()));
    assert_eq!(details.payment_time, Some(1_000));
    assert_eq!(details.payment_link, None);
    assert_eq!(
        process_upi_webhook(upi("expired")),
        Err(AppError::PaymentError("Payment failed with status: expired".to_string()))
    );
    let wise = |status: &str| WiseWebhookPayload {
        event_type: "transfers#state-change".to_string(),
        transfer_id: "tr-1".to_string(),
        status: status.to_string(),
        timestamp: 2_000,
        tracking_url: Some("https://track/1".to_string()),
        estimated_delivery: None,
    };
    let t = process_wise_webhook(wise("Outgoing_Payment_Sent")).unwrap();
    assert_eq!(t.transfer_id, Some("tr-1".to_string()));
    assert_eq!(t.transfer_time, Some(2_000));
    assert_eq!(t.tracking_url, Some("https://track/1".to_string()));
    assert_eq!(t.reference_id, None);
    assert!(matches!(process_wise_webhook(wise("OUTGOING_PAYMENT_FAILED")), Err(AppError::TransferError(_))));
    assert!(process_wise_webhook(wise("cancelled")).is_ok());
}

use vstd::prelude::*;
use vstd::string::StringExecFns;

use crate::errors::{invalid_input, payment_rejected, transfer_rejected, AppError};
use crate::text::{lower_of, lowercase, text};
use crate::transaction::{BankAccountDetails, PaymentDetails, TransferDetails};

verus! {

/// A collection-provider payment status.
#[derive(Clone, Copy, Debug, PartialEq, Eq, Structural)]
pub enum PaymentStatus {
    Pending,
    Completed,
    Failed,
    Expired,
}

/// A transfer-provider status.
#[derive(Clone, Copy, Debug, PartialEq, Eq, Structural)]
pub enum TransferStatus {
    Processing,
    Completed,
    Failed,
    Cancelled,
}

/// The payment status that a lower-case provider status word stands for;
/// unknown and intermediate words count as Pending.
pub open spec fn payment_status_of(lower: Seq<char>) -> PaymentStatus {
    if lower == "completed"@ || lower == "success"@ {
        PaymentStatus::Completed
    } else if lower == "failed"@ || lower == "failure"@ {
        PaymentStatus::Failed
    } else if lower == "expired"@ {
        PaymentStatus::Expired
    } else {
        PaymentStatus::Pending
    }
}

/// The transfer status that a lower-case provider status word stands for;
/// unknown and intermediate words count as Processing.
pub open spec fn transfer_status_of(lower: Seq<char>) -> TransferStatus {
    if lower == "completed"@ || lower == "outgoing_payment_sent"@ {
        TransferStatus::Completed
    } else if lower == "failed"@ || lower == "outgoing_payment_failed"@ {
        TransferStatus::Failed
    } else if lower == "cancelled"@ || lower == "outgoing_payment_cancelled"@ {
        TransferStatus::Cancelled
    } else {
        TransferStatus::Processing
    }
}

impl PaymentStatus {
    /// Classifies a status word already in lower case.
    pub fn from_lowercase(lower: &str) -> (r: Self)
        ensures
            r == payment_status_of(lower@),
    {
        let s = text(lower);
        if s == text("completed") || s == text("success") {
            PaymentStatus::Completed
        } else if s == text("failed") || s == text("failure") {
            PaymentStatus::Failed
        } else if s == text("expired") {
            PaymentStatus::Expired
        } else {
            PaymentStatus::Pending
        }
    }

    /// Classifies a provider status word, ignoring case.
    pub fn from_status(status: &str) -> (r: Self)
        ensures
            r == payment_status_of(lower_of(status@)),
    {
        let lower = lowercase(status);
        PaymentStatus::from_lowercase(lower.as_str())
    }
}

impl TransferStatus {
    /// Classifies a status word already in lower case.
    pub fn from_lowercase(lower: &str) -> (r: Self)
        ensures
            r == transfer_status_of(lower@),
    {
        let s = text(lower);
        if s == text("completed") || s == text("outgoing_payment_sent") {
            TransferStatus::Completed
        } else if s == text("failed") || s == text("outgoing_payment_failed") {
            TransferStatus::Failed
        } else if s == text("cancelled") || s == text("outgoing_payment_cancelled") {
            TransferStatus::Cancelled
        } else {
            TransferStatus::Processing
        }
    }

    /// Classifies a provider status word, ignoring case.
    pub fn from_status(status: &str) -> (r: Self)
        ensures
            r == transfer_status_of(lower_of(status@)),
    {
        let lower = lowercase(status);
        TransferStatus::from_lowercase(lower.as_str())
    }
}

/// A collection-provider webhook event. Times are Unix seconds.
#[derive(Clone, Debug, PartialEq, Eq)]
pub struct UpiWebhookPayload {
    pub payment_id: String,
    pub status: String,
    pub reference_id: String,
    pub payment_time: i64,
    pub upi_transaction_id: String,
}

/// A transfer-provider webhook event. Times are Unix seconds.
#[derive(Clone, Debug, PartialEq, Eq)]
pub struct WiseWebhookPayload {
    pub event_type: String,
    pub transfer_id: String,
    pub status: String,
    pub timestamp: i64,
    pub tracking_url: Option<String>,
    pub estimated_delivery: Option<i64>,
}

/// A payer as the user directory reports them.
#[derive(Clone, Debug, PartialEq, Eq)]
pub struct UserDetails {
    pub user_id: String,
    pub name: String,
    pub email: String,
    pub phone: String,
    pub kyc_status: String,
    pub kyc_verified: bool,
}

/// A payer's recipient as the user directory reports them.
#[derive(Clone, Debug, PartialEq, Eq)]
pub struct RecipientDetails {
    pub recipient_id: String,
    pub name: String,
    pub account_holder_name: String,
    pub account_number: String,
    pub bank_name: String,
    pub ifsc_or_swift_code: String,
    pub relationship: String,
}

impl RecipientDetails {
    /// A snapshot of the recipient's bank details.
    pub fn bank_account_details(&self) -> (r: BankAccountDetails)
        ensures
            r.bank_name == self.bank_name,
            r.account_number == self.account_number,
            r.account_holder_name == self.account_holder_name,
            r.ifsc_or_swift_code == self.ifsc_or_swift_code,
    {
        BankAccountDetails {
            bank_name: self.bank_name.clone(),
            account_number: self.account_number.clone(),
            account_holder_name: self.account_holder_name.clone(),
            ifsc_or_swift_code: self.ifsc_or_swift_code.clone(),
        }
    }
}

/// A payer is eligible once their KYC is verified.
pub fn verify_eligibility(user: &UserDetails) -> (r: Result<bool, AppError>)
    ensures
        user.kyc_verified ==> r == Ok::<bool, AppError>(true),
        !user.kyc_verified ==> invalid_input(r),
{
    if !user.kyc_verified {
        return Err(AppError::validation_error(text("User KYC not verified")));
    }
    Ok(true)
}

/// The payment details that a collection-provider event carries.
pub open spec fn event_payment_details(payload: UpiWebhookPayload) -> PaymentDetails {
    PaymentDetails {
        payment_id: Some(payload.payment_id),
        payment_link: None,
        payment_time: Some(payload.payment_time),
        reference_id: Some(payload.reference_id),
    }
}

/// The transfer details that a transfer-provider event carries; events hold
/// no reference id of their own.
pub open spec fn event_transfer_details(payload: WiseWebhookPayload) -> TransferDetails {
    TransferDetails {
        transfer_id: Some(payload.transfer_id),
        transfer_time: Some(payload.timestamp),
        tracking_url: payload.tracking_url,
        estimated_delivery: payload.estimated_delivery,
        reference_id: None,
    }
}

/// Reads a collection-provider event as confirmed payment: its payment
/// details when the status reports success, a payment error otherwise.
pub fn process_upi_webhook(payload: UpiWebhookPayload) -> (r: Result<PaymentDetails, AppError>)
    ensures
        payment_status_of(lower_of(payload.status@)) == PaymentStatus::Completed ==> r == Ok::<
            PaymentDetails,
            AppError,
        >(event_payment_details(payload)),
        payment_status_of(lower_of(payload.status@)) != PaymentStatus::Completed
            ==> payment_rejected(r),
{
    let status = PaymentStatus::from_status(payload.status.as_str());
    if status != PaymentStatus::Completed {
        return Err(
            AppError::PaymentError(text("Payment failed with status: ").concat(payload.status.as_str())),
        );
    }
    Ok(
        PaymentDetails {
            payment_id: Some(payload.payment_id),
            payment_link: None,
            payment_time: Some(payload.payment_time),
            reference_id: Some(payload.reference_id),
        },
    )
}

/// Reads a transfer-provider event as transfer details: a transfer error when
/// the status reports failure, its details otherwise.
pub fn process_wise_webhook(payload: WiseWebhookPayload) -> (r: Result<TransferDetails, AppError>)
    ensures
        transfer_status_of(lower_of(payload.status@)) == TransferStatus::Failed ==> transfer_rejected(
            r,
        ),
        transfer_status_of(lower_of(payload.status@)) != TransferStatus::Failed ==> r == Ok::<
            TransferDetails,
            AppError,
        >(event_transfer_details(payload)),
{
    let status = TransferStatus::from_status(payload.status.as_str());
    if status == TransferStatus::Failed {
        return Err(
            AppError::TransferError(
                text("Transfer failed with status: ").concat(payload.status.as_str()),
            ),
        );
    }
    Ok(
        TransferDetails {
            transfer_id: Some(payload.transfer_id),
            transfer_time: Some(payload.timestamp),
            tracking_url: payload.tracking_url,
            estimated_delivery: payload.estimated_delivery,
            reference_id: None,
        },
    )
}

} // verus!

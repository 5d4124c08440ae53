use vstd::prelude::*;
use vstd::string::StringExecFns;

use crate::errors::{invalid_input, AppError};
use crate::sources::{current_timestamp, new_transaction_id};
use crate::text::{copy_opt, length_within, text};

verus! {

/// Amounts are held in minor units: hundredths of the currency's major unit.
pub const MINOR_UNITS_PER_MAJOR: u64 = 100;

/// Smallest source amount a transaction may hold, in minor units.
pub const MIN_SOURCE_AMOUNT: u64 = 100_000;

/// Largest source amount a transaction may hold, in minor units.
pub const MAX_SOURCE_AMOUNT: u64 = 100_000_000;

/// The state of a remittance transaction.
#[derive(Clone, Copy, Debug, PartialEq, Eq, Structural)]
pub enum TransactionStatus {
    Pending,
    Funded,
    Converted,
    Transferred,
    Completed,
    Failed,
}

impl TransactionStatus {
    /// The upper-case name under which a status is stored and reported.
    pub open spec fn name(self) -> Seq<char> {
        match self {
            TransactionStatus::Pending => "PENDING"@,
            TransactionStatus::Funded => "FUNDED"@,
            TransactionStatus::Converted => "CONVERTED"@,
            TransactionStatus::Transferred => "TRANSFERRED"@,
            TransactionStatus::Completed => "COMPLETED"@,
            TransactionStatus::Failed => "FAILED"@,
        }
    }

    /// Completed and Failed are final: no edge leaves them.
    pub open spec fn terminal(self) -> bool {
        self == TransactionStatus::Completed || self == TransactionStatus::Failed
    }

    /// The exchange rate and destination amount are known exactly in these states.
    pub open spec fn converted_stage(self) -> bool {
        self == TransactionStatus::Converted || self == TransactionStatus::Transferred || self
            == TransactionStatus::Completed
    }

    /// The name under which this status is stored and reported.
    pub fn to_string(&self) -> (r: String)
        ensures
            r@ == self.name(),
    {
        match self {
            TransactionStatus::Pending => text("PENDING"),
            TransactionStatus::Funded => text("FUNDED"),
            TransactionStatus::Converted => text("CONVERTED"),
            TransactionStatus::Transferred => text("TRANSFERRED"),
            TransactionStatus::Completed => text("COMPLETED"),
            TransactionStatus::Failed => text("FAILED"),
        }
    }

    /// The status stored under `name`, if `name` is one of the six names.
    pub fn parse(name: &str) -> (r: Option<TransactionStatus>)
        ensures
            match r {
                Some(s) => s.name() == name@,
                None => forall|s: TransactionStatus| s.name() != name@,
            },
    {
        let n = text(name);
        proof {
            reveal_strlit("PENDING");
            reveal_strlit("FUNDED");
            reveal_strlit("CONVERTED");
            reveal_strlit("TRANSFERRED");
            reveal_strlit("COMPLETED");
            reveal_strlit("FAILED");
        }
        if n == text("PENDING") {
            Some(TransactionStatus::Pending)
        } else if n == text("FUNDED") {
            Some(TransactionStatus::Funded)
        } else if n == text("CONVERTED") {
            Some(TransactionStatus::Converted)
        } else if n == text("TRANSFERRED") {
            Some(TransactionStatus::Transferred)
        } else if n == text("COMPLETED") {
            Some(TransactionStatus::Completed)
        } else if n == text("FAILED") {
            Some(TransactionStatus::Failed)
        } else {
            None
        }
    }

    /// Whether no edge leaves this status.
    pub fn is_terminal(&self) -> (r: bool)
        ensures
            r == self.terminal(),
    {
        match self {
            TransactionStatus::Completed | TransactionStatus::Failed => true,
            _ => false,
        }
    }
}

impl Default for TransactionStatus {
    fn default() -> (r: Self)
        ensures
            r == TransactionStatus::Pending,
    {
        TransactionStatus::Pending
    }
}

/// The edges of the remittance state machine: one stage forward, or into Failed
/// from any state that is not terminal.
pub open spec fn valid_edge(from: TransactionStatus, to: TransactionStatus) -> bool {
    match (from, to) {
        (TransactionStatus::Pending, TransactionStatus::Funded) => true,
        (TransactionStatus::Funded, TransactionStatus::Converted) => true,
        (TransactionStatus::Converted, TransactionStatus::Transferred) => true,
        (TransactionStatus::Transferred, TransactionStatus::Completed) => true,
        (_, TransactionStatus::Failed) => !from.terminal(),
        _ => false,
    }
}

/// The label of the states from which a transaction may fail.
pub open spec fn non_terminal_label() -> Seq<char> {
    "PENDING|FUNDED|CONVERTED|TRANSFERRED"@
}

/// `e` reports that an operation found `current` where it needed `expected`.
pub open spec fn is_invalid_state(e: AppError, current: Seq<char>, expected: Seq<char>) -> bool {
    &&& e matches AppError::InvalidStateError { current: c, expected: x }
    &&& c@ == current
    &&& x@ == expected
}

/// `r` is an invalid-state error that found `current` where `expected` was needed.
pub open spec fn rejected<T>(r: Result<T, AppError>, current: Seq<char>, expected: Seq<char>) -> bool {
    r matches Err(e) && is_invalid_state(e, current, expected)
}

/// The error raised when a transaction is found in `current` but `expected` is required.
pub fn invalid_state_error(current: TransactionStatus, expected: TransactionStatus) -> (e: AppError)
    ensures
        is_invalid_state(e, current.name(), expected.name()),
{
    AppError::invalid_state(current.to_string(), expected.to_string())
}

/// Destination bank details of the recipient, captured when the transaction is made.
#[derive(Clone, Debug, PartialEq, Eq)]
pub struct BankAccountDetails {
    pub bank_name: String,
    pub account_number: String,
    pub account_holder_name: String,
    pub ifsc_or_swift_code: String,
}

impl BankAccountDetails {
    /// Every field holds between 1 and 50 characters.
    pub open spec fn valid(&self) -> bool {
        &&& 1 <= self.bank_name@.len() <= 50
        &&& 1 <= self.account_number@.len() <= 50
        &&& 1 <= self.account_holder_name@.len() <= 50
        &&& 1 <= self.ifsc_or_swift_code@.len() <= 50
    }

    /// A field-by-field copy.
    pub fn duplicate(&self) -> (r: Self)
        ensures
            r == *self,
    {
        BankAccountDetails {
            bank_name: self.bank_name.clone(),
            account_number: self.account_number.clone(),
            account_holder_name: self.account_holder_name.clone(),
            ifsc_or_swift_code: self.ifsc_or_swift_code.clone(),
        }
    }

    /// Whether every field holds between 1 and 50 characters.
    pub fn is_valid(&self) -> (r: bool)
        ensures
            r == self.valid(),
    {
        length_within(&self.bank_name, 1, 50) && length_within(&self.account_number, 1, 50)
            && length_within(&self.account_holder_name, 1, 50) && length_within(
            &self.ifsc_or_swift_code,
            1,
            50,
        )
    }
}

/// Collection-stage correlation record. Times are Unix seconds.
#[derive(Clone, Debug, PartialEq, Eq)]
pub struct PaymentDetails {
    pub payment_id: Option<String>,
    pub payment_link: Option<String>,
    pub payment_time: Option<i64>,
    pub reference_id: Option<String>,
}

impl PaymentDetails {
    /// No field is set yet.
    pub open spec fn is_empty(&self) -> bool {
        &&& self.payment_id is None
        &&& self.payment_link is None
        &&& self.payment_time is None
        &&& self.reference_id is None
    }

    /// A field-by-field copy.
    pub fn duplicate(&self) -> (r: Self)
        ensures
            r == *self,
    {
        PaymentDetails {
            payment_id: copy_opt(&self.payment_id),
            payment_link: copy_opt(&self.payment_link),
            payment_time: self.payment_time,
            reference_id: copy_opt(&self.reference_id),
        }
    }
}

impl Default for PaymentDetails {
    fn default() -> (r: Self)
        ensures
            r.is_empty(),
    {
        PaymentDetails { payment_id: None, payment_link: None, payment_time: None, reference_id: None }
    }
}

/// Conversion-stage correlation record. The rate is fixed point, see `RATE_SCALE`.
#[derive(Clone, Debug, PartialEq, Eq)]
pub struct ConversionDetails {
    pub conversion_id: Option<String>,
    pub conversion_time: Option<i64>,
    pub actual_exchange_rate: Option<u64>,
    pub reference_id: Option<String>,
}

impl ConversionDetails {
    /// No field is set yet.
    pub open spec fn is_empty(&self) -> bool {
        &&& self.conversion_id is None
        &&& self.conversion_time is None
        &&& self.actual_exchange_rate is None
        &&& self.reference_id is None
    }

    /// A field-by-field copy.
    pub fn duplicate(&self) -> (r: Self)
        ensures
            r == *self,
    {
        ConversionDetails {
            conversion_id: copy_opt(&self.conversion_id),
            conversion_time: self.conversion_time,
            actual_exchange_rate: self.actual_exchange_rate,
            reference_id: copy_opt(&self.reference_id),
        }
    }
}

impl Default for ConversionDetails {
    fn default() -> (r: Self)
        ensures
            r.is_empty(),
    {
        ConversionDetails {
            conversion_id: None,
            conversion_time: None,
            actual_exchange_rate: None,
            reference_id: None,
        }
    }
}

/// Transfer-stage correlation record. Times are Unix seconds.
#[derive(Clone, Debug, PartialEq, Eq)]
pub struct TransferDetails {
    pub transfer_id: Option<String>,
    pub transfer_time: Option<i64>,
    pub tracking_url: Option<String>,
    pub estimated_delivery: Option<i64>,
    pub reference_id: Option<String>,
}

impl TransferDetails {
    /// No field is set yet.
    pub open spec fn is_empty(&self) -> bool {
        &&& self.transfer_id is None
        &&& self.transfer_time is None
        &&& self.tracking_url is None
        &&& self.estimated_delivery is None
        &&& self.reference_id is None
    }

    /// A field-by-field copy.
    pub fn duplicate(&self) -> (r: Self)
        ensures
            r == *self,
    {
        TransferDetails {
            transfer_id: copy_opt(&self.transfer_id),
            transfer_time: self.transfer_time,
            tracking_url: copy_opt(&self.tracking_url),
            estimated_delivery: self.estimated_delivery,
            reference_id: copy_opt(&self.reference_id),
        }
    }
}

impl Default for TransferDetails {
    fn default() -> (r: Self)
        ensures
            r.is_empty(),
    {
        TransferDetails {
            transfer_id: None,
            transfer_time: None,
            tracking_url: None,
            estimated_delivery: None,
            reference_id: None,
        }
    }
}

/// A remittance record. Amounts are in minor units, the exchange rate is fixed
/// point (see `RATE_SCALE`), times are Unix seconds.
#[derive(Clone, Debug, PartialEq, Eq)]
pub struct Transaction {
    pub transaction_id: String,
    pub user_id: String,
    pub status: TransactionStatus,
    pub created_at: i64,
    pub updated_at: i64,
    pub source_amount: u64,
    pub source_currency: String,
    pub destination_amount: Option<u64>,
    pub destination_currency: String,
    pub exchange_rate: Option<u64>,
    pub fees: u64,
    pub recipient_id: String,
    pub recipient_account_details: BankAccountDetails,
    pub payment_details: PaymentDetails,
    pub conversion_details: ConversionDetails,
    pub transfer_details: TransferDetails,
    pub failure_reason: Option<String>,
    pub notes: Option<String>,
}

/// The later of a record's last update and the time of a new event.
pub open spec fn later(updated_at: i64, now: i64) -> i64 {
    if now > updated_at {
        now
    } else {
        updated_at
    }
}

/// `t` moved to `status` by an event at `now`, all else kept.
pub open spec fn moved(t: Transaction, status: TransactionStatus, now: i64) -> Transaction {
    Transaction { status, updated_at: later(t.updated_at, now), ..t }
}

/// `t` with its collection record replaced, status kept.
pub open spec fn with_payment(t: Transaction, details: PaymentDetails, now: i64) -> Transaction {
    Transaction { payment_details: details, updated_at: later(t.updated_at, now), ..t }
}

/// `t` after the collection stage confirmed payment.
pub open spec fn funded(t: Transaction, details: PaymentDetails, now: i64) -> Transaction {
    Transaction {
        status: TransactionStatus::Funded,
        payment_details: details,
        updated_at: later(t.updated_at, now),
        ..t
    }
}

/// `t` after the conversion stage settled at `rate`, giving `destination_amount`.
pub open spec fn converted(
    t: Transaction,
    rate: u64,
    destination_amount: u64,
    details: ConversionDetails,
    now: i64,
) -> Transaction {
    Transaction {
        status: TransactionStatus::Converted,
        exchange_rate: Some(rate),
        destination_amount: Some(destination_amount),
        conversion_details: details,
        updated_at: later(t.updated_at, now),
        ..t
    }
}

/// `t` after the transfer stage was initiated.
pub open spec fn transferred(t: Transaction, details: TransferDetails, now: i64) -> Transaction {
    Transaction {
        status: TransactionStatus::Transferred,
        transfer_details: details,
        updated_at: later(t.updated_at, now),
        ..t
    }
}

/// `t` after it failed for `reason`.
pub open spec fn failed(t: Transaction, reason: String, now: i64) -> Transaction {
    Transaction {
        status: TransactionStatus::Failed,
        failure_reason: Some(reason),
        updated_at: later(t.updated_at, now),
        ..t
    }
}

impl Transaction {
    /// The record's invariant: the destination amount and the exchange rate are
    /// unset before conversion and set from conversion to completion, a failure
    /// reason is set exactly on failure, and the record was not updated before
    /// it was made.
    pub open spec fn wf(&self) -> bool {
        &&& (self.status == TransactionStatus::Pending || self.status == TransactionStatus::Funded)
            ==> self.destination_amount is None && self.exchange_rate is None
        &&& self.status.converted_stage() ==> self.destination_amount is Some
            && self.exchange_rate is Some
        &&& (self.failure_reason is Some <==> self.status == TransactionStatus::Failed)
        &&& self.created_at <= self.updated_at
    }

    /// The field constraints that a new record must meet.
    pub open spec fn valid(&self) -> bool {
        &&& 1 <= self.user_id@.len() <= 50
        &&& MIN_SOURCE_AMOUNT <= self.source_amount <= MAX_SOURCE_AMOUNT
        &&& 1 <= self.recipient_id@.len() <= 50
        &&& self.recipient_account_details.valid()
        &&& (self.notes matches Some(n) ==> n@.len() <= 500)
    }

    /// A new Pending record made at `now` under the identifier `transaction_id`.
    pub fn new_at(
        transaction_id: String,
        now: i64,
        user_id: String,
        source_amount: u64,
        recipient_id: String,
        recipient_account_details: BankAccountDetails,
        notes: Option<String>,
        fees: u64,
    ) -> (t: Self)
        ensures
            t.transaction_id == transaction_id,
            t.user_id == user_id,
            t.status == TransactionStatus::Pending,
            t.created_at == now,
            t.updated_at == now,
            t.source_amount == source_amount,
            t.source_currency@ == "INR"@,
            t.destination_amount is None,
            t.destination_currency@ == "CAD"@,
            t.exchange_rate is None,
            t.fees == fees,
            t.recipient_id == recipient_id,
            t.recipient_account_details == recipient_account_details,
            t.payment_details.is_empty(),
            t.conversion_details.is_empty(),
            t.transfer_details.is_empty(),
            t.failure_reason is None,
            t.notes == notes,
            t.wf(),
    {
        Transaction {
            transaction_id,
            user_id,
            status: TransactionStatus::Pending,
            created_at: now,
            updated_at: now,
            source_amount,
            source_currency: text("INR"),
            destination_amount: None,
            destination_currency: text("CAD"),
            exchange_rate: None,
            fees,
            recipient_id,
            recipient_account_details,
            payment_details: PaymentDetails::default(),
            conversion_details: ConversionDetails::default(),
            transfer_details: TransferDetails::default(),
            failure_reason: None,
            notes,
        }
    }

    /// A new Pending record under a fresh random identifier, made now.
    pub fn new(
        user_id: String,
        source_amount: u64,
        recipient_id: String,
        recipient_account_details: BankAccountDetails,
        notes: Option<String>,
        fees: u64,
    ) -> (t: Self)
        ensures
            t.transaction_id@.len() == 36,
            t.user_id == user_id,
            t.status == TransactionStatus::Pending,
            t.created_at == t.updated_at,
            t.source_amount == source_amount,
            t.source_currency@ == "INR"@,
            t.destination_amount is None,
            t.destination_currency@ == "CAD"@,
            t.exchange_rate is None,
            t.fees == fees,
            t.recipient_id == recipient_id,
            t.recipient_account_details == recipient_account_details,
            t.payment_details.is_empty(),
            t.conversion_details.is_empty(),
            t.transfer_details.is_empty(),
            t.failure_reason is None,
            t.notes == notes,
            t.wf(),
    {
        let id = new_transaction_id();
        let now = current_timestamp();
        Transaction::new_at(
            id,
            now,
            user_id,
            source_amount,
            recipient_id,
            recipient_account_details,
            notes,
            fees,
        )
    }

    /// A field-by-field copy.
    pub fn duplicate(&self) -> (r: Self)
        ensures
            r == *self,
    {
        Transaction {
            transaction_id: self.transaction_id.clone(),
            user_id: self.user_id.clone(),
            status: self.status,
            created_at: self.created_at,
            updated_at: self.updated_at,
            source_amount: self.source_amount,
            source_currency: self.source_currency.clone(),
            destination_amount: self.destination_amount,
            destination_currency: self.destination_currency.clone(),
            exchange_rate: self.exchange_rate,
            fees: self.fees,
            recipient_id: self.recipient_id.clone(),
            recipient_account_details: self.recipient_account_details.duplicate(),
            payment_details: self.payment_details.duplicate(),
            conversion_details: self.conversion_details.duplicate(),
            transfer_details: self.transfer_details.duplicate(),
            failure_reason: copy_opt(&self.failure_reason),
            notes: copy_opt(&self.notes),
        }
    }

    /// The reference sent with the transfer: the payer's notes, if any, after
    /// a fixed prefix.
    pub fn transfer_description(&self) -> (r: String)
        ensures
            r@ == match self.notes {
                Some(n) => "Remittance: "@ + n@,
                None => "Remittance"@,
            },
    {
        match &self.notes {
            Some(n) => text("Remittance: ").concat(n.as_str()),
            None => text("Remittance"),
        }
    }

    /// Checks the field constraints of a new record.
    pub fn validate(&self) -> (r: Result<(), AppError>)
        ensures
            r is Ok <==> self.valid(),
            r is Err ==> invalid_input(r),
    {
        let notes_ok = match &self.notes {
            Some(n) => length_within(n, 0, 500),
            None => true,
        };
        if length_within(&self.user_id, 1, 50) && MIN_SOURCE_AMOUNT <= self.source_amount
            && self.source_amount <= MAX_SOURCE_AMOUNT && length_within(&self.recipient_id, 1, 50)
            && self.recipient_account_details.is_valid() && notes_ok {
            Ok(())
        } else {
            Err(AppError::validation_error(text("Invalid transaction: field constraints violated")))
        }
    }

    fn stamp(&mut self, now: i64)
        ensures
            *final(self) == (Transaction { updated_at: later(old(self).updated_at, now), ..*old(self) }),
    {
        if now > self.updated_at {
            self.updated_at = now;
        }
    }

    /// Sets the status and records the update time, keeping times monotone.
    pub fn update_status_at(&mut self, status: TransactionStatus, now: i64)
        ensures
            *final(self) == moved(*old(self), status, now),
    {
        self.status = status;
        self.stamp(now);
    }

    /// Sets the status, failure reason and update time.
    pub fn mark_as_failed_at(&mut self, reason: String, now: i64)
        ensures
            *final(self) == failed(*old(self), reason, now),
    {
        self.status = TransactionStatus::Failed;
        self.failure_reason = Some(reason);
        self.stamp(now);
    }

    /// Sets the status and stamps the record with the current time.
    pub fn update_status(&mut self, status: TransactionStatus)
        ensures
            final(self).status == status,
            final(self).updated_at >= old(self).updated_at,
            *final(self) == (Transaction { status, updated_at: final(self).updated_at, ..*old(self) }),
    {
        let now = current_timestamp();
        self.update_status_at(status, now);
    }

    /// Marks the record Failed for `reason`, stamped with the current time.
    pub fn mark_as_failed(&mut self, reason: String)
        ensures
            final(self).updated_at >= old(self).updated_at,
            *final(self) == (Transaction {
                status: TransactionStatus::Failed,
                failure_reason: Some(reason),
                updated_at: final(self).updated_at,
                ..*old(self)
            }),
    {
        let now = current_timestamp();
        self.mark_as_failed_at(reason, now);
    }

    /// The record with the details of an initiated collection stored.
    /// Requires Pending; the status does not change.
    pub fn record_payment_initiation(&self, details: PaymentDetails, now: i64) -> (r: Result<
        Transaction,
        AppError,
    >)
        ensures
            self.status == TransactionStatus::Pending ==> r == Ok::<Transaction, AppError>(
                with_payment(*self, details, now),
            ),
            self.status != TransactionStatus::Pending ==> rejected(r,
                self.status.name(),
                TransactionStatus::Pending.name(),
            ),
    {
        if self.status != TransactionStatus::Pending {
            return Err(invalid_state_error(self.status, TransactionStatus::Pending));
        }
        let mut t = self.duplicate();
        t.payment_details = details;
        t.stamp(now);
        Ok(t)
    }

    /// The record after confirmed payment: Pending to Funded.
    pub fn fund(&self, details: PaymentDetails, now: i64) -> (r: Result<Transaction, AppError>)
        ensures
            self.status == TransactionStatus::Pending ==> r == Ok::<Transaction, AppError>(
                funded(*self, details, now),
            ),
            self.status != TransactionStatus::Pending ==> rejected(r,
                self.status.name(),
                TransactionStatus::Pending.name(),
            ),
    {
        if self.status != TransactionStatus::Pending {
            return Err(invalid_state_error(self.status, TransactionStatus::Pending));
        }
        let mut t = self.duplicate();
        t.payment_details = details;
        t.update_status_at(TransactionStatus::Funded, now);
        Ok(t)
    }

    /// The record after settled conversion: Funded to Converted, with the rate
    /// and destination amount set.
    pub fn convert(
        &self,
        rate: u64,
        destination_amount: u64,
        details: ConversionDetails,
        now: i64,
    ) -> (r: Result<Transaction, AppError>)
        ensures
            self.status == TransactionStatus::Funded ==> r == Ok::<Transaction, AppError>(
                converted(*self, rate, destination_amount, details, now),
            ),
            self.status != TransactionStatus::Funded ==> rejected(r,
                self.status.name(),
                TransactionStatus::Funded.name(),
            ),
    {
        if self.status != TransactionStatus::Funded {
            return Err(invalid_state_error(self.status, TransactionStatus::Funded));
        }
        let mut t = self.duplicate();
        t.exchange_rate = Some(rate);
        t.destination_amount = Some(destination_amount);
        t.conversion_details = details;
        t.update_status_at(TransactionStatus::Converted, now);
        Ok(t)
    }

    /// The record after the transfer was initiated: Converted to Transferred.
    pub fn transfer(&self, details: TransferDetails, now: i64) -> (r: Result<Transaction, AppError>)
        ensures
            self.status == TransactionStatus::Converted ==> r == Ok::<Transaction, AppError>(
                transferred(*self, details, now),
            ),
            self.status != TransactionStatus::Converted ==> rejected(r,
                self.status.name(),
                TransactionStatus::Converted.name(),
            ),
    {
        if self.status != TransactionStatus::Converted {
            return Err(invalid_state_error(self.status, TransactionStatus::Converted));
        }
        let mut t = self.duplicate();
        t.transfer_details = details;
        t.update_status_at(TransactionStatus::Transferred, now);
        Ok(t)
    }

    /// The record after confirmed delivery: Transferred to Completed.
    pub fn complete(&self, now: i64) -> (r: Result<Transaction, AppError>)
        ensures
            self.status == TransactionStatus::Transferred ==> r == Ok::<Transaction, AppError>(
                moved(*self, TransactionStatus::Completed, now),
            ),
            self.status != TransactionStatus::Transferred ==> rejected(r,
                self.status.name(),
                TransactionStatus::Transferred.name(),
            ),
    {
        if self.status != TransactionStatus::Transferred {
            return Err(invalid_state_error(self.status, TransactionStatus::Transferred));
        }
        let mut t = self.duplicate();
        t.update_status_at(TransactionStatus::Completed, now);
        Ok(t)
    }

    /// The record after a failure signal: any non-terminal state to Failed.
    pub fn fail(&self, reason: String, now: i64) -> (r: Result<Transaction, AppError>)
        ensures
            !self.status.terminal() ==> r == Ok::<Transaction, AppError>(
                failed(*self, reason, now),
            ),
            self.status.terminal() ==> rejected(r,
                self.status.name(),
                non_terminal_label(),
            ),
    {
        if self.status.is_terminal() {
            return Err(
                AppError::invalid_state(
                    self.status.to_string(),
                    text("PENDING|FUNDED|CONVERTED|TRANSFERRED"),
                ),
            );
        }
        let mut t = self.duplicate();
        t.mark_as_failed_at(reason, now);
        Ok(t)
    }
}

/// `n` is `t` after one status-changing operation of the state machine,
/// applied in the state that the operation requires.
pub open spec fn is_step(t: Transaction, n: Transaction) -> bool {
    ||| t.status == TransactionStatus::Pending && exists|d: PaymentDetails, now: i64|
        n == #[trigger] funded(t, d, now)
    ||| t.status == TransactionStatus::Funded && exists|
        rate: u64,
        amount: u64,
        d: ConversionDetails,
        now: i64,
    | n == #[trigger] converted(t, rate, amount, d, now)
    ||| t.status == TransactionStatus::Converted && exists|d: TransferDetails, now: i64|
        n == #[trigger] transferred(t, d, now)
    ||| t.status == TransactionStatus::Transferred && exists|now: i64|
        n == #[trigger] moved(t, TransactionStatus::Completed, now)
    ||| !t.status.terminal() && exists|reason: String, now: i64| n == #[trigger] failed(t, reason, now)
}

/// Every status change follows an edge of the state machine, keeps the
/// record's identity, amounts and fee as fixed at creation, never moves its
/// update time back, and keeps the record's invariant: the destination amount
/// and rate are unset before conversion and set from then to completion.
pub proof fn lemma_step(t: Transaction, n: Transaction)
    requires
        t.wf(),
        is_step(t, n),
    ensures
        valid_edge(t.status, n.status),
        n.transaction_id == t.transaction_id,
        n.source_amount == t.source_amount,
        n.fees == t.fees,
        n.created_at == t.created_at,
        n.updated_at >= t.updated_at,
        n.wf(),
{
}

/// Distinct statuses have distinct names, so a status is recovered from the
/// name it is stored under.
pub proof fn lemma_status_names_distinct(a: TransactionStatus, b: TransactionStatus)
    ensures
        a.name() == b.name() ==> a == b,
{
    reveal_strlit("PENDING");
    reveal_strlit("FUNDED");
    reveal_strlit("CONVERTED");
    reveal_strlit("TRANSFERRED");
    reveal_strlit("COMPLETED");
    reveal_strlit("FAILED");
    if a.name() == b.name() && a != b {
        assert(a.name().len() != b.name().len() || a.name()[2] != b.name()[2]);
    }
}

} // verus!

use vstd::prelude::*;
use vstd::string::StringExecFns;

use crate::config::BusinessRulesConfig;
use crate::errors::{conflicted, error_message, internal, invalid_input, not_found, AppError};
use crate::exchange_rate::{ExchangeRate, ExchangeRateRepository, RATE_SCALE};
use crate::providers::{
    verify_eligibility, PaymentStatus, RecipientDetails, TransferStatus, UserDetails,
};
use crate::repository::{
    records_ok, swaps,
    lemma_own_tokens_free,
    first_n, newest_for_user, payment_token, payment_token_free, query_limit,
    transfer_token, transfer_token_free, TransactionRepository,
};
use crate::text::text;
use crate::transaction::{
    converted, failed, funded, moved, non_terminal_label, rejected, transferred, valid_edge,
    with_payment, BankAccountDetails, ConversionDetails, PaymentDetails, Transaction, TransactionStatus,
    TransferDetails, MAX_SOURCE_AMOUNT, MINOR_UNITS_PER_MAJOR, MIN_SOURCE_AMOUNT,
};

verus! {

/// Basis points in a whole: a fee rate of `b` basis points is `b / 100` percent.
pub const BASIS_POINTS: u64 = 10_000;

/// The percentage fee on `amount` (minor units) at `basis_points`, rounded down
/// to the minor unit: `amount * (basis_points / 100) / 100`.
pub open spec fn percentage_fee(amount: int, basis_points: int) -> int {
    (amount * basis_points) / (BASIS_POINTS as int)
}

/// The fee on `amount` (minor units) under `rules`: the percentage fee, but
/// never less than the minimum fee.
pub open spec fn fee_for(amount: int, rules: BusinessRulesConfig) -> int {
    let raw = percentage_fee(amount, rules.fee_basis_points as int);
    let floor = rules.min_fee_inr * MINOR_UNITS_PER_MAJOR;
    if raw < floor {
        floor
    } else {
        raw
    }
}

/// `amount` (minor units) at fixed-point `rate`, rounded down to the minor unit.
pub open spec fn converted_amount(amount: int, rate: int) -> int {
    (amount * rate) / (RATE_SCALE as int)
}

/// The outcome of a conditional write of `n` over the record `id` of `m`,
/// made when its status was found as required: written when no other record
/// holds one of `n`'s correlation tokens, a conflict otherwise.
pub open spec fn written(
    m: Map<Seq<char>, Transaction>,
    after: Map<Seq<char>, Transaction>,
    id: Seq<char>,
    n: Transaction,
    r: Result<Transaction, AppError>,
) -> bool {
    if payment_token_free(m, payment_token(n), id) && transfer_token_free(m, transfer_token(n), id) {
        r == Ok::<Transaction, AppError>(n) && after == m.insert(id, n)
    } else {
        conflicted(r) && after == m
    }
}

/// The failure reason recorded when the collection provider reports `report`.
pub open spec fn payment_failure_label(report: PaymentStatus) -> Seq<char> {
    if report == PaymentStatus::Expired {
        "Payment expired"@
    } else {
        "Payment failed"@
    }
}

/// The failure reason recorded when the transfer provider reports `report`.
pub open spec fn transfer_failure_label(report: TransferStatus) -> Seq<char> {
    if report == TransferStatus::Cancelled {
        "Transfer cancelled"@
    } else {
        "Transfer failed"@
    }
}

/// The payment details kept when payment is confirmed: the reported ones, or
/// those already stored when the report carries none.
pub open spec fn confirmed_details(t: Transaction, details: Option<PaymentDetails>) -> PaymentDetails {
    match details {
        Some(d) => d,
        None => t.payment_details,
    }
}

/// A confirmed payment on the Pending record `id` cannot be written because
/// another record holds the reported correlation token.
pub open spec fn payment_report_blocked(
    m: Map<Seq<char>, Transaction>,
    id: Seq<char>,
    report: PaymentStatus,
    details: Option<PaymentDetails>,
    now: i64,
) -> bool {
    &&& m.contains_key(id)
    &&& m[id].status == TransactionStatus::Pending
    &&& report == PaymentStatus::Completed
    &&& !payment_token_free(
        m,
        payment_token(funded(m[id], confirmed_details(m[id], details), now)),
        id,
    )
}

/// The ledger after the collection provider reported `report` on record `id`:
/// only a Pending record moves, to Funded on success and to Failed with
/// `reason` on failure or expiry; any other report, or a record in any other
/// state, leaves the ledger as it is.
pub open spec fn after_payment_report(
    m: Map<Seq<char>, Transaction>,
    id: Seq<char>,
    report: PaymentStatus,
    details: Option<PaymentDetails>,
    reason: String,
    now: i64,
) -> Map<Seq<char>, Transaction> {
    if !m.contains_key(id) || m[id].status != TransactionStatus::Pending {
        m
    } else {
        match report {
            PaymentStatus::Completed => if payment_report_blocked(m, id, report, details, now) {
                m
            } else {
                m.insert(id, funded(m[id], confirmed_details(m[id], details), now))
            },
            PaymentStatus::Failed | PaymentStatus::Expired => m.insert(
                id,
                failed(m[id], reason, now),
            ),
            PaymentStatus::Pending => m,
        }
    }
}

/// The ledger after the transfer provider reported `report` on record `id`:
/// only a Transferred record moves, to Completed on delivery and to Failed
/// with `reason` on failure or cancellation; anything else leaves the ledger
/// as it is.
pub open spec fn after_transfer_report(
    m: Map<Seq<char>, Transaction>,
    id: Seq<char>,
    report: TransferStatus,
    reason: String,
    now: i64,
) -> Map<Seq<char>, Transaction> {
    if !m.contains_key(id) || m[id].status != TransactionStatus::Transferred {
        m
    } else {
        match report {
            TransferStatus::Completed => m.insert(
                id,
                moved(m[id], TransactionStatus::Completed, now),
            ),
            TransferStatus::Failed | TransferStatus::Cancelled => m.insert(
                id,
                failed(m[id], reason, now),
            ),
            TransferStatus::Processing => m,
        }
    }
}

/// What a status check of a transaction must ask of a provider.
#[derive(Clone, Debug, PartialEq, Eq)]
pub enum StatusCheck {
    /// Poll the collection provider for this payment id.
    Payment(String),
    /// Poll the transfer provider for this transfer id.
    Transfer(String),
    /// No provider confirmation is awaited; the transaction is in this status.
    Settled(TransactionStatus),
}

/// The stage that a transaction's saga runs next. A caller that wants the
/// saga driven end to end in one go repeats: ask for the next stage, run it
/// through its operation, until the transaction waits on a provider or ends.
#[derive(Clone, Copy, Debug, PartialEq, Eq, Structural)]
pub enum NextStage {
    /// Waiting for the payer's payment to be confirmed.
    AwaitPayment,
    /// Ready for `process_currency_conversion`.
    Convert,
    /// Ready for `transfer_request` and `process_transfer`.
    Transfer,
    /// Waiting for the transfer provider to confirm delivery.
    AwaitDelivery,
    /// The saga ended in this status.
    Finished(TransactionStatus),
}

/// The stage that follows a transaction in `status`.
pub open spec fn next_stage_of(status: TransactionStatus) -> NextStage {
    match status {
        TransactionStatus::Pending => NextStage::AwaitPayment,
        TransactionStatus::Funded => NextStage::Convert,
        TransactionStatus::Converted => NextStage::Transfer,
        TransactionStatus::Transferred => NextStage::AwaitDelivery,
        _ => NextStage::Finished(status),
    }
}

/// Drives the remittance saga of each transaction: creation, collection,
/// conversion, transfer and completion or failure. Each stage is invoked on
/// its own and writes only through the ledger's conditional write.
pub struct RemittanceService {
    pub transaction_repo: TransactionRepository,
    pub exchange_rate_repo: ExchangeRateRepository,
    pub business_rules: BusinessRulesConfig,
}

impl RemittanceService {
    /// The ledger's indexes agree with its records.
    pub open spec fn inv(&self) -> bool {
        self.transaction_repo.inv()
    }

    /// A service over the given stores, under the given fee policy and limits.
    pub fn new(
        transaction_repo: TransactionRepository,
        exchange_rate_repo: ExchangeRateRepository,
        business_rules: BusinessRulesConfig,
    ) -> (r: Self)
        ensures
            r.transaction_repo == transaction_repo,
            r.exchange_rate_repo == exchange_rate_repo,
            r.business_rules == business_rules,
    {
        RemittanceService { transaction_repo, exchange_rate_repo, business_rules }
    }

    /// The fee on `amount` (minor units): `max(amount * feeRate / 100, minFee)`
    /// with the rate in percent, rounded down to the minor unit.
    pub fn calculate_fee(&self, amount: u64) -> (fee: u128)
        ensures
            fee == fee_for(amount as int, self.business_rules),
    {
        let bps = self.business_rules.fee_basis_points;
        proof {
            assert((amount as int) * (bps as int) <= (u64::MAX as int) * (u64::MAX as int))
                by (nonlinear_arith);
        }
        let raw: u128 = (amount as u128) * (bps as u128) / (BASIS_POINTS as u128);
        let floor: u128 = (self.business_rules.min_fee_inr as u128) * (MINOR_UNITS_PER_MAJOR as u128);
        if raw < floor {
            floor
        } else {
            raw
        }
    }

    /// The record stored under `transaction_id`.
    pub fn get_transaction(&self, transaction_id: &str) -> (r: Result<Transaction, AppError>)
        ensures
            self.transaction_repo@.contains_key(transaction_id@) ==> r == Ok::<
                Transaction,
                AppError,
            >(self.transaction_repo@[transaction_id@]),
            !self.transaction_repo@.contains_key(transaction_id@) ==> not_found(r),
    {
        self.transaction_repo.get_by_id(transaction_id)
    }

    /// Checks `source_amount` (minor units) against the configured bounds, so
    /// that a caller can reject an out-of-range amount before consulting the
    /// user directory.
    pub fn check_amount(&self, source_amount: u64) -> (r: Result<(), AppError>)
        ensures
            source_amount < self.business_rules.min_transaction_amount_inr * MINOR_UNITS_PER_MAJOR
                ==> invalid_input(r),
            source_amount > self.business_rules.max_transaction_amount_inr * MINOR_UNITS_PER_MAJOR
                ==> invalid_input(r),
            self.business_rules.min_transaction_amount_inr * MINOR_UNITS_PER_MAJOR <= source_amount
                <= self.business_rules.max_transaction_amount_inr * MINOR_UNITS_PER_MAJOR ==> r
                == Ok::<(), AppError>(()),
    {
        let rules = self.business_rules;
        let min_amount = (rules.min_transaction_amount_inr as u128) * (
        MINOR_UNITS_PER_MAJOR as u128);
        let max_amount = (rules.max_transaction_amount_inr as u128) * (
        MINOR_UNITS_PER_MAJOR as u128);
        if (source_amount as u128) < min_amount {
            return Err(
                AppError::validation_error(text("Transaction amount is below the minimum")),
            );
        }
        if (source_amount as u128) > max_amount {
            return Err(
                AppError::validation_error(text("Transaction amount exceeds the maximum")),
            );
        }
        Ok(())
    }

    /// Creates a Pending transaction of `source_amount` (minor units) from
    /// `user_id` to `recipient_id`. `user` and `recipient` are the user
    /// directory's answers for the payer and the recipient.
    ///
    /// Fails with a validation error when the amount is outside the configured
    /// bounds, the payer is not eligible, the fee would exceed the amount or a
    /// field breaks its constraints; with the directory's error when it has
    /// none (not found); and with a conflict only in the unlikely case that the
    /// new random identifier is already taken, which needs a stored record
    /// whose identifier has as many characters. Only success changes the ledger.
    pub fn create_transaction(
        &mut self,
        user_id: String,
        source_amount: u64,
        recipient_id: String,
        notes: Option<String>,
        user: Result<UserDetails, AppError>,
        recipient: Result<RecipientDetails, AppError>,
    ) -> (r: Result<Transaction, AppError>)
        requires
            old(self).inv(),
        ensures
            final(self).inv(),
            final(self).business_rules == old(self).business_rules,
            final(self).exchange_rate_repo == old(self).exchange_rate_repo,
            r is Err ==> final(self).transaction_repo.ids() == old(self).transaction_repo.ids(),
            r is Ok ==> final(self).transaction_repo.ids() == old(self).transaction_repo.ids().push(
                r->Ok_0.transaction_id@,
            ),
            ({
                let rules = old(self).business_rules;
                let m = old(self).transaction_repo@;
                let after = final(self).transaction_repo@;
                if source_amount < rules.min_transaction_amount_inr * MINOR_UNITS_PER_MAJOR {
                    invalid_input(r) && after == m
                } else if source_amount > rules.max_transaction_amount_inr
                    * MINOR_UNITS_PER_MAJOR {
                    invalid_input(r) && after == m
                } else if user is Err {
                    r == Err::<Transaction, AppError>(user->Err_0) && after == m
                } else if !user->Ok_0.kyc_verified {
                    invalid_input(r) && after == m
                } else if recipient is Err {
                    r == Err::<Transaction, AppError>(recipient->Err_0) && after == m
                } else if fee_for(source_amount as int, rules) > source_amount {
                    invalid_input(r) && after == m
                } else {
                    let p = recipient->Ok_0;
                    let fields_ok = 1 <= user_id@.len() <= 50 && MIN_SOURCE_AMOUNT <= source_amount
                        <= MAX_SOURCE_AMOUNT && 1 <= recipient_id@.len() <= 50 && 1
                        <= p.bank_name@.len() <= 50 && 1 <= p.account_number@.len() <= 50 && 1
                        <= p.account_holder_name@.len() <= 50 && 1 <= p.ifsc_or_swift_code@.len()
                        <= 50 && (notes matches Some(n) ==> n@.len() <= 500);
                    if !fields_ok {
                        invalid_input(r) && after == m
                    } else {
                        match r {
                            Ok(t) => {
                                &&& t.status == TransactionStatus::Pending
                                &&& t.user_id == user_id
                                &&& t.source_amount == source_amount
                                &&& t.fees == fee_for(source_amount as int, rules)
                                &&& t.recipient_id == recipient_id
                                &&& t.recipient_account_details.bank_name == p.bank_name
                                &&& t.recipient_account_details.account_number == p.account_number
                                &&& t.recipient_account_details.account_holder_name
                                    == p.account_holder_name
                                &&& t.recipient_account_details.ifsc_or_swift_code
                                    == p.ifsc_or_swift_code
                                &&& t.notes == notes
                                &&& t.destination_amount is None
                                &&& t.exchange_rate is None
                                &&& t.payment_details.is_empty()
                                &&& t.conversion_details.is_empty()
                                &&& t.transfer_details.is_empty()
                                &&& !m.contains_key(t.transaction_id@)
                                &&& after == m.insert(t.transaction_id@, t)
                            },
                            Err(e) => {
                                &&& e is ConflictError
                                &&& after == m
                                &&& exists|k: Seq<char>| m.contains_key(k) && k.len() == 36
                            },
                        }
                    }
                }
            }),
    {
        match self.check_amount(source_amount) {
            Ok(()) => {},
            Err(e) => {
                return Err(e);
            },
        }
        let user = match user {
            Ok(u) => u,
            Err(e) => {
                return Err(e);
            },
        };
        match verify_eligibility(&user) {
            Ok(_) => {},
            Err(e) => {
                return Err(e);
            },
        }
        let recipient = match recipient {
            Ok(p) => p,
            Err(e) => {
                return Err(e);
            },
        };
        let fee = self.calculate_fee(source_amount);
        if fee > source_amount as u128 {
            return Err(
                AppError::validation_error(text("Fee would exceed the transaction amount")),
            );
        }
        let bank_account_details = recipient.bank_account_details();
        let transaction = Transaction::new(
            user_id,
            source_amount,
            recipient_id,
            bank_account_details,
            notes,
            fee as u64,
        );
        match transaction.validate() {
            Ok(()) => {},
            Err(e) => {
                return Err(e);
            },
        }
        let copy = transaction.duplicate();
        match self.transaction_repo.save(copy) {
            Ok(()) => Ok(transaction),
            Err(e) => Err(e),
        }
    }

    /// Writes `next`, made from the record `transaction_id` found in `expected`,
    /// through the conditional write.
    fn commit(
        &mut self,
        transaction_id: &str,
        expected: TransactionStatus,
        next: Transaction,
    ) -> (r: Result<Transaction, AppError>)
        requires
            old(self).inv(),
            old(self).transaction_repo@.contains_key(transaction_id@),
            old(self).transaction_repo@[transaction_id@].status == expected,
            next.transaction_id@ == transaction_id@,
            next.wf(),
            next.status == expected || valid_edge(expected, next.status),
        ensures
            final(self).inv(),
            final(self).business_rules == old(self).business_rules,
            final(self).exchange_rate_repo == old(self).exchange_rate_repo,
            final(self).transaction_repo.ids() == old(self).transaction_repo.ids(),
            written(
                old(self).transaction_repo@,
                final(self).transaction_repo@,
                transaction_id@,
                next,
                r,
            ),
    {
        let copy = next.duplicate();
        match self.transaction_repo.compare_and_swap(expected, copy) {
            Ok(()) => Ok(next),
            Err(e) => Err(e),
        }
    }

    /// Looks up `transaction_id` and checks that it is in `expected`.
    fn require_status(&self, transaction_id: &str, expected: TransactionStatus) -> (r: Result<
        Transaction,
        AppError,
    >)
        requires
            self.inv(),
        ensures
            ({
                let m = self.transaction_repo@;
                let id = transaction_id@;
                if !m.contains_key(id) {
                    not_found(r)
                } else if m[id].status != expected {
                    rejected(r, m[id].status.name(), expected.name())
                } else {
                    r == Ok::<Transaction, AppError>(m[id])
                }
            }),
            r is Ok ==> r->Ok_0.wf() && r->Ok_0.transaction_id@ == transaction_id@,
    {
        proof {
            self.transaction_repo.lemma_inv();
        }
        let t = match self.transaction_repo.get_by_id(transaction_id) {
            Ok(t) => t,
            Err(e) => {
                return Err(e);
            },
        };
        if t.status != expected {
            return Err(crate::transaction::invalid_state_error(t.status, expected));
        }
        Ok(t)
    }
    /// What the collection provider must be asked for on a Pending transaction:
    /// the source amount plus fees (minor units) and a description naming the
    /// recipient and the transaction.
    pub fn payment_request(&self, transaction_id: &str) -> (r: Result<(u128, String), AppError>)
        requires
            self.inv(),
        ensures
            ({
                let m = self.transaction_repo@;
                let id = transaction_id@;
                if !m.contains_key(id) {
                    not_found(r)
                } else if m[id].status != TransactionStatus::Pending {
                    rejected(r, m[id].status.name(), TransactionStatus::Pending.name())
                } else {
                    r is Ok && r->Ok_0.0 == m[id].source_amount + m[id].fees && r->Ok_0.1@
                        == "Remittance to "@ + m[id].recipient_account_details.account_holder_name@
                        + " ("@ + id + ")"@
                }
            }),
    {
        let t = match self.require_status(transaction_id, TransactionStatus::Pending) {
            Ok(t) => t,
            Err(e) => {
                return Err(e);
            },
        };
        let total = t.source_amount as u128 + t.fees as u128;
        let description = text("Remittance to ").concat(
            t.recipient_account_details.account_holder_name.as_str(),
        ).concat(" (").concat(t.transaction_id.as_str()).concat(")");
        Ok((total, description))
    }

    /// Records the collection provider's answer to a payment request on a
    /// Pending transaction and returns the payment link. The status does not
    /// change: it advances only on confirmed payment. A failed provider call
    /// changes nothing; an answer without a link is stored, then reported as
    /// an internal error.
    pub fn initiate_payment(
        &mut self,
        transaction_id: &str,
        created: Result<PaymentDetails, AppError>,
        now: i64,
    ) -> (r: Result<String, AppError>)
        requires
            old(self).inv(),
        ensures
            final(self).inv(),
            final(self).business_rules == old(self).business_rules,
            final(self).exchange_rate_repo == old(self).exchange_rate_repo,
            final(self).transaction_repo.ids() == old(self).transaction_repo.ids(),
            ({
                let m = old(self).transaction_repo@;
                let after = final(self).transaction_repo@;
                let id = transaction_id@;
                if !m.contains_key(id) {
                    not_found(r) && after == m
                } else if m[id].status != TransactionStatus::Pending {
                    rejected(r, m[id].status.name(), TransactionStatus::Pending.name()) && after
                        == m
                } else if created is Err {
                    r == Err::<String, AppError>(created->Err_0) && after == m
                } else {
                    let d = created->Ok_0;
                    let n = with_payment(m[id], d, now);
                    if payment_token_free(m, payment_token(n), id) {
                        &&& after == m.insert(id, n)
                        &&& d.payment_link matches Some(link) ==> r == Ok::<String, AppError>(link)
                        &&& d.payment_link is None ==> internal(r)
                    } else {
                        conflicted(r) && after == m
                    }
                }
            }),
    {
        let t = match self.require_status(transaction_id, TransactionStatus::Pending) {
            Ok(t) => t,
            Err(e) => {
                return Err(e);
            },
        };
        let details = match created {
            Ok(d) => d,
            Err(e) => {
                return Err(e);
            },
        };
        let link = crate::text::copy_opt(&details.payment_link);
        let next = match t.record_payment_initiation(details, now) {
            Ok(n) => n,
            Err(e) => {
                return Err(e);
            },
        };
        proof {
            self.transaction_repo.lemma_inv();
            lemma_own_tokens_free(self.transaction_repo@, transaction_id@, next);
        }
        match self.commit(transaction_id, TransactionStatus::Pending, next) {
            Ok(_) => match link {
                Some(l) => Ok(l),
                None => Err(AppError::internal_error(text("Payment link not available"))),
            },
            Err(e) => Err(e),
        }
    }

    /// Confirmed payment: stores the final payment details and moves the
    /// transaction from Pending to Funded.
    pub fn process_payment(
        &mut self,
        transaction_id: &str,
        payment_details: PaymentDetails,
        now: i64,
    ) -> (r: Result<Transaction, AppError>)
        requires
            old(self).inv(),
        ensures
            final(self).inv(),
            final(self).business_rules == old(self).business_rules,
            final(self).exchange_rate_repo == old(self).exchange_rate_repo,
            final(self).transaction_repo.ids() == old(self).transaction_repo.ids(),
            ({
                let m = old(self).transaction_repo@;
                let after = final(self).transaction_repo@;
                let id = transaction_id@;
                if !m.contains_key(id) {
                    not_found(r) && after == m
                } else if m[id].status != TransactionStatus::Pending {
                    rejected(r, m[id].status.name(), TransactionStatus::Pending.name()) && after
                        == m
                } else {
                    written(m, after, id, funded(m[id], payment_details, now), r)
                }
            }),
    {
        let t = match self.require_status(transaction_id, TransactionStatus::Pending) {
            Ok(t) => t,
            Err(e) => {
                return Err(e);
            },
        };
        let next = match t.fund(payment_details, now) {
            Ok(n) => n,
            Err(e) => {
                return Err(e);
            },
        };
        self.commit(transaction_id, TransactionStatus::Pending, next)
    }

    /// Settled conversion: `conversion` is the conversion provider's answer,
    /// its details, the rate and the destination amount. Moves the
    /// transaction from Funded to Converted with the rate and destination
    /// amount set. A failed provider call changes nothing.
    pub fn process_currency_conversion(
        &mut self,
        transaction_id: &str,
        conversion: Result<(ConversionDetails, u64, u64), AppError>,
        now: i64,
    ) -> (r: Result<Transaction, AppError>)
        requires
            old(self).inv(),
        ensures
            final(self).inv(),
            final(self).business_rules == old(self).business_rules,
            final(self).exchange_rate_repo == old(self).exchange_rate_repo,
            final(self).transaction_repo.ids() == old(self).transaction_repo.ids(),
            ({
                let m = old(self).transaction_repo@;
                let after = final(self).transaction_repo@;
                let id = transaction_id@;
                if !m.contains_key(id) {
                    not_found(r) && after == m
                } else if m[id].status != TransactionStatus::Funded {
                    rejected(r, m[id].status.name(), TransactionStatus::Funded.name()) && after
                        == m
                } else if conversion is Err {
                    r == Err::<Transaction, AppError>(conversion->Err_0) && after == m
                } else {
                    let (d, rate, amount) = conversion->Ok_0;
                    r == Ok::<Transaction, AppError>(converted(m[id], rate, amount, d, now)) && after == m.insert(
                        id,
                        converted(m[id], rate, amount, d, now),
                    )
                }
            }),
    {
        let t = match self.require_status(transaction_id, TransactionStatus::Funded) {
            Ok(t) => t,
            Err(e) => {
                return Err(e);
            },
        };
        let (details, rate, amount) = match conversion {
            Ok(c) => c,
            Err(e) => {
                return Err(e);
            },
        };
        let next = match t.convert(rate, amount, details, now) {
            Ok(n) => n,
            Err(e) => {
                return Err(e);
            },
        };
        proof {
            self.transaction_repo.lemma_inv();
            lemma_own_tokens_free(self.transaction_repo@, transaction_id@, next);
        }
        self.commit(transaction_id, TransactionStatus::Funded, next)
    }

    /// What the transfer provider must be sent for a Converted transaction:
    /// the source currency, the destination amount (minor units), the
    /// recipient's bank details and the transfer's reference text.
    pub fn transfer_request(&self, transaction_id: &str) -> (r: Result<
        (String, u64, BankAccountDetails, String),
        AppError,
    >)
        requires
            self.inv(),
        ensures
            ({
                let m = self.transaction_repo@;
                let id = transaction_id@;
                if !m.contains_key(id) {
                    not_found(r)
                } else if m[id].status != TransactionStatus::Converted {
                    rejected(r, m[id].status.name(), TransactionStatus::Converted.name())
                } else {
                    &&& r is Ok
                    &&& r->Ok_0.0 == m[id].source_currency
                    &&& m[id].destination_amount == Some(r->Ok_0.1)
                    &&& r->Ok_0.2 == m[id].recipient_account_details
                    &&& r->Ok_0.3@ == match m[id].notes {
                        Some(n) => "Remittance: "@ + n@,
                        None => "Remittance"@,
                    }
                }
            }),
    {
        let t = match self.require_status(transaction_id, TransactionStatus::Converted) {
            Ok(t) => t,
            Err(e) => {
                return Err(e);
            },
        };
        let amount = match t.destination_amount {
            Some(a) => a,
            None => {
                return Err(AppError::internal_error(text("Destination amount not set")));
            },
        };
        let description = t.transfer_description();
        Ok((t.source_currency, amount, t.recipient_account_details, description))
    }

    /// Initiated transfer: `transfer` is the transfer provider's answer. Moves
    /// the transaction from Converted to Transferred with its transfer details
    /// stored. A failed provider call changes nothing.
    pub fn process_transfer(
        &mut self,
        transaction_id: &str,
        transfer: Result<TransferDetails, AppError>,
        now: i64,
    ) -> (r: Result<Transaction, AppError>)
        requires
            old(self).inv(),
        ensures
            final(self).inv(),
            final(self).business_rules == old(self).business_rules,
            final(self).exchange_rate_repo == old(self).exchange_rate_repo,
            final(self).transaction_repo.ids() == old(self).transaction_repo.ids(),
            ({
                let m = old(self).transaction_repo@;
                let after = final(self).transaction_repo@;
                let id = transaction_id@;
                if !m.contains_key(id) {
                    not_found(r) && after == m
                } else if m[id].status != TransactionStatus::Converted {
                    rejected(r, m[id].status.name(), TransactionStatus::Converted.name()) && after
                        == m
                } else if transfer is Err {
                    r == Err::<Transaction, AppError>(transfer->Err_0) && after == m
                } else {
                    written(m, after, id, transferred(m[id], transfer->Ok_0, now), r)
                }
            }),
    {
        let t = match self.require_status(transaction_id, TransactionStatus::Converted) {
            Ok(t) => t,
            Err(e) => {
                return Err(e);
            },
        };
        let details = match transfer {
            Ok(d) => d,
            Err(e) => {
                return Err(e);
            },
        };
        let next = match t.transfer(details, now) {
            Ok(n) => n,
            Err(e) => {
                return Err(e);
            },
        };
        self.commit(transaction_id, TransactionStatus::Converted, next)
    }

    /// Confirmed delivery: moves the transaction from Transferred to Completed.
    pub fn complete_transaction(&mut self, transaction_id: &str, now: i64) -> (r: Result<
        Transaction,
        AppError,
    >)
        requires
            old(self).inv(),
        ensures
            final(self).inv(),
            final(self).business_rules == old(self).business_rules,
            final(self).exchange_rate_repo == old(self).exchange_rate_repo,
            final(self).transaction_repo.ids() == old(self).transaction_repo.ids(),
            ({
                let m = old(self).transaction_repo@;
                let after = final(self).transaction_repo@;
                let id = transaction_id@;
                if !m.contains_key(id) {
                    not_found(r) && after == m
                } else if m[id].status != TransactionStatus::Transferred {
                    rejected(r, m[id].status.name(), TransactionStatus::Transferred.name())
                        && after == m
                } else {
                    r == Ok::<Transaction, AppError>(moved(m[id], TransactionStatus::Completed, now))
                        && after == m.insert(id, moved(m[id], TransactionStatus::Completed, now))
                }
            }),
    {
        let t = match self.require_status(transaction_id, TransactionStatus::Transferred) {
            Ok(t) => t,
            Err(e) => {
                return Err(e);
            },
        };
        let next = match t.complete(now) {
            Ok(n) => n,
            Err(e) => {
                return Err(e);
            },
        };
        proof {
            self.transaction_repo.lemma_inv();
            lemma_own_tokens_free(self.transaction_repo@, transaction_id@, next);
        }
        self.commit(transaction_id, TransactionStatus::Transferred, next)
    }

    /// A failure signal: moves a transaction in any non-terminal state to
    /// Failed with `reason`; a terminal transaction is left as it is.
    pub fn fail_transaction(&mut self, transaction_id: &str, reason: String, now: i64) -> (r:
        Result<Transaction, AppError>)
        requires
            old(self).inv(),
        ensures
            final(self).inv(),
            final(self).business_rules == old(self).business_rules,
            final(self).exchange_rate_repo == old(self).exchange_rate_repo,
            final(self).transaction_repo.ids() == old(self).transaction_repo.ids(),
            ({
                let m = old(self).transaction_repo@;
                let after = final(self).transaction_repo@;
                let id = transaction_id@;
                if !m.contains_key(id) {
                    not_found(r) && after == m
                } else if m[id].status.terminal() {
                    rejected(r, m[id].status.name(), non_terminal_label()) && after == m
                } else {
                    r == Ok::<Transaction, AppError>(failed(m[id], reason, now)) && after == m.insert(
                        id,
                        failed(m[id], reason, now),
                    )
                }
            }),
    {
        proof {
            self.transaction_repo.lemma_inv();
        }
        let t = match self.transaction_repo.get_by_id(transaction_id) {
            Ok(t) => t,
            Err(e) => {
                return Err(e);
            },
        };
        let next = match t.fail(reason, now) {
            Ok(n) => n,
            Err(e) => {
                return Err(e);
            },
        };
        proof {
            self.transaction_repo.lemma_inv();
            lemma_own_tokens_free(self.transaction_repo@, transaction_id@, next);
        }
        self.commit(transaction_id, t.status, next)
    }

    /// The destination amount that `source_amount` (minor units) buys at
    /// `exchange_rate` once the fee is taken off, with the rate. Fails with a
    /// validation error when the fee exceeds the amount.
    pub fn calculate_destination_amount(&self, source_amount: u64, exchange_rate: u64) -> (r:
        Result<(u128, u64), AppError>)
        ensures
            fee_for(source_amount as int, self.business_rules) > source_amount ==> invalid_input(r),
            fee_for(source_amount as int, self.business_rules) <= source_amount ==> r == Ok::<
                (u128, u64),
                AppError,
            >(
                (
                    converted_amount(
                        source_amount - fee_for(source_amount as int, self.business_rules),
                        exchange_rate as int,
                    ) as u128,
                    exchange_rate,
                ),
            ),
    {
        let fee = self.calculate_fee(source_amount);
        if fee > source_amount as u128 {
            return Err(
                AppError::validation_error(text("Fee would exceed the transaction amount")),
            );
        }
        let net = (source_amount as u128) - fee;
        proof {
            assert((net as int) * (exchange_rate as int) <= (u64::MAX as int) * (u64::MAX as int))
                by (nonlinear_arith)
                requires
                    net <= u64::MAX,
                    exchange_rate <= u64::MAX,
            ;
        }
        let destination = net * (exchange_rate as u128) / (RATE_SCALE as u128);
        Ok((destination, exchange_rate))
    }

    /// The rate of the latest quote for the pair if it is still fresh at `now`;
    /// `None` when a fresh quote must be fetched from the conversion provider.
    pub fn get_exchange_rate(&self, source_currency: &str, destination_currency: &str, now: i64) -> (r:
        Option<u64>)
        ensures
            match r {
                Some(rate) => exists|i: int|
                    crate::exchange_rate::is_latest(
                        self.exchange_rate_repo@,
                        i,
                        source_currency@,
                        destination_currency@,
                    ) && self.exchange_rate_repo@[i].rate == rate && crate::exchange_rate::fresh(
                        self.exchange_rate_repo@[i].timestamp,
                        now,
                        self.exchange_rate_repo.ttl(),
                    ),
                None => forall|i: int|
                    crate::exchange_rate::is_latest(
                        self.exchange_rate_repo@,
                        i,
                        source_currency@,
                        destination_currency@,
                    ) ==> !crate::exchange_rate::fresh(
                        #[trigger] self.exchange_rate_repo@[i].timestamp,
                        now,
                        self.exchange_rate_repo.ttl(),
                    ),
            },
    {
        match self.exchange_rate_repo.get_latest(source_currency, destination_currency, now) {
            Some(q) => Some(q.rate),
            None => None,
        }
    }

    /// Stores a freshly fetched quote and returns its rate. A failed fetch
    /// stores nothing and is reported as a currency error, carrying the
    /// provider's message when it was some other kind of error.
    pub fn refresh_exchange_rate(&mut self, fetched: Result<ExchangeRate, AppError>) -> (r: Result<
        u64,
        AppError,
    >)
        ensures
            final(self).transaction_repo == old(self).transaction_repo,
            final(self).business_rules == old(self).business_rules,
            final(self).exchange_rate_repo.ttl() == old(self).exchange_rate_repo.ttl(),
            match fetched {
                Ok(q) => r == Ok::<u64, AppError>(q.rate) && final(self).exchange_rate_repo@ == old(
                    self,
                ).exchange_rate_repo@.push(q),
                Err(e) => final(self).exchange_rate_repo@ == old(self).exchange_rate_repo@ && if e is CurrencyError {
                    r == Err::<u64, AppError>(e)
                } else {
                    r matches Err(AppError::CurrencyError(m)) && m@ == error_message(e)
                },
            },
    {
        match fetched {
            Ok(q) => {
                let rate = q.rate;
                self.exchange_rate_repo.save(q);
                Ok(rate)
            },
            Err(AppError::CurrencyError(m)) => Err(AppError::CurrencyError(m)),
            Err(e) => Err(AppError::CurrencyError(e.message())),
        }
    }
    /// Applies a collection-stage report to record `transaction_id`, recording
    /// `reason` on failure. See `after_payment_report`.
    fn settle_payment(
        &mut self,
        transaction_id: &str,
        report: PaymentStatus,
        details: Option<PaymentDetails>,
        reason: String,
        now: i64,
    ) -> (r: Result<TransactionStatus, AppError>)
        requires
            old(self).inv(),
        ensures
            final(self).inv(),
            final(self).business_rules == old(self).business_rules,
            final(self).exchange_rate_repo == old(self).exchange_rate_repo,
            final(self).transaction_repo.ids() == old(self).transaction_repo.ids(),
            final(self).transaction_repo@ == after_payment_report(
                old(self).transaction_repo@,
                transaction_id@,
                report,
                details,
                reason,
                now,
            ),
            ({
                let m = old(self).transaction_repo@;
                let id = transaction_id@;
                if !m.contains_key(id) {
                    not_found(r)
                } else if payment_report_blocked(m, id, report, details, now) {
                    conflicted(r)
                } else {
                    r == Ok::<TransactionStatus, AppError>(final(self).transaction_repo@[id].status)
                }
            }),
    {
        proof {
            self.transaction_repo.lemma_inv();
        }
        let t = match self.transaction_repo.get_by_id(transaction_id) {
            Ok(t) => t,
            Err(e) => {
                return Err(e);
            },
        };
        if t.status != TransactionStatus::Pending {
            return Ok(t.status);
        }
        let next = match report {
            PaymentStatus::Completed => {
                let d = match details {
                    Some(d) => d,
                    None => t.payment_details.duplicate(),
                };
                t.fund(d, now)
            },
            PaymentStatus::Failed | PaymentStatus::Expired => t.fail(reason, now),
            PaymentStatus::Pending => {
                return Ok(TransactionStatus::Pending);
            },
        };
        let next = match next {
            Ok(n) => n,
            Err(e) => {
                return Err(e);
            },
        };
        proof {
            lemma_own_tokens_free(self.transaction_repo@, transaction_id@, next);
        }
        match self.commit(transaction_id, TransactionStatus::Pending, next) {
            Ok(n) => Ok(n.status),
            Err(e) => Err(e),
        }
    }

    /// The one reconciliation primitive of the collection stage, shared by
    /// polling and webhook delivery: applies the provider's `report` to record
    /// `transaction_id`. Success moves a Pending record to Funded (storing
    /// `details` if given), failure or expiry moves it to Failed; a record not
    /// Pending, or a report still pending, is left as it is, so a replayed
    /// report changes nothing. Returns the record's status afterwards.
    pub fn apply_payment_report(
        &mut self,
        transaction_id: &str,
        report: PaymentStatus,
        details: Option<PaymentDetails>,
        now: i64,
    ) -> (r: Result<TransactionStatus, AppError>)
        requires
            old(self).inv(),
        ensures
            final(self).inv(),
            final(self).business_rules == old(self).business_rules,
            final(self).exchange_rate_repo == old(self).exchange_rate_repo,
            final(self).transaction_repo.ids() == old(self).transaction_repo.ids(),
            exists|reason: String|
                reason@ == payment_failure_label(report) && final(self).transaction_repo@
                    == #[trigger] after_payment_report(
                    old(self).transaction_repo@,
                    transaction_id@,
                    report,
                    details,
                    reason,
                    now,
                ),
            ({
                let m = old(self).transaction_repo@;
                let id = transaction_id@;
                if !m.contains_key(id) {
                    not_found(r)
                } else if payment_report_blocked(m, id, report, details, now) {
                    conflicted(r)
                } else {
                    r == Ok::<TransactionStatus, AppError>(final(self).transaction_repo@[id].status)
                }
            }),
    {
        let reason = if report == PaymentStatus::Expired {
            text("Payment expired")
        } else {
            text("Payment failed")
        };
        let ghost g = reason;
        let r = self.settle_payment(transaction_id, report, details, reason, now);
        assert(g@ == payment_failure_label(report));
        r
    }

    /// Applies a transfer-stage report to record `transaction_id`, recording
    /// `reason` on failure. See `after_transfer_report`.
    fn settle_transfer(
        &mut self,
        transaction_id: &str,
        report: TransferStatus,
        reason: String,
        now: i64,
    ) -> (r: Result<TransactionStatus, AppError>)
        requires
            old(self).inv(),
        ensures
            final(self).inv(),
            final(self).business_rules == old(self).business_rules,
            final(self).exchange_rate_repo == old(self).exchange_rate_repo,
            final(self).transaction_repo.ids() == old(self).transaction_repo.ids(),
            final(self).transaction_repo@ == after_transfer_report(
                old(self).transaction_repo@,
                transaction_id@,
                report,
                reason,
                now,
            ),
            !old(self).transaction_repo@.contains_key(transaction_id@) ==> not_found(r),
            old(self).transaction_repo@.contains_key(transaction_id@) ==> r == Ok::<
                TransactionStatus,
                AppError,
            >(final(self).transaction_repo@[transaction_id@].status),
    {
        proof {
            self.transaction_repo.lemma_inv();
        }
        let t = match self.transaction_repo.get_by_id(transaction_id) {
            Ok(t) => t,
            Err(e) => {
                return Err(e);
            },
        };
        if t.status != TransactionStatus::Transferred {
            return Ok(t.status);
        }
        let next = match report {
            TransferStatus::Completed => t.complete(now),
            TransferStatus::Failed | TransferStatus::Cancelled => t.fail(reason, now),
            TransferStatus::Processing => {
                return Ok(TransactionStatus::Transferred);
            },
        };
        let next = match next {
            Ok(n) => n,
            Err(e) => {
                return Err(e);
            },
        };
        proof {
            lemma_own_tokens_free(self.transaction_repo@, transaction_id@, next);
        }
        match self.commit(transaction_id, TransactionStatus::Transferred, next) {
            Ok(n) => Ok(n.status),
            Err(e) => Err(e),
        }
    }

    /// The one reconciliation primitive of the transfer stage, shared by
    /// polling and webhook delivery: applies the provider's `report` to record
    /// `transaction_id`. Delivery moves a Transferred record to Completed,
    /// failure or cancellation moves it to Failed; a record not Transferred,
    /// or a report still processing, is left as it is, so a replayed report
    /// changes nothing. Returns the record's status afterwards.
    pub fn apply_transfer_report(
        &mut self,
        transaction_id: &str,
        report: TransferStatus,
        now: i64,
    ) -> (r: Result<TransactionStatus, AppError>)
        requires
            old(self).inv(),
        ensures
            final(self).inv(),
            final(self).business_rules == old(self).business_rules,
            final(self).exchange_rate_repo == old(self).exchange_rate_repo,
            final(self).transaction_repo.ids() == old(self).transaction_repo.ids(),
            exists|reason: String|
                reason@ == transfer_failure_label(report) && final(self).transaction_repo@
                    == #[trigger] after_transfer_report(
                    old(self).transaction_repo@,
                    transaction_id@,
                    report,
                    reason,
                    now,
                ),
            !old(self).transaction_repo@.contains_key(transaction_id@) ==> not_found(r),
            old(self).transaction_repo@.contains_key(transaction_id@) ==> r == Ok::<
                TransactionStatus,
                AppError,
            >(final(self).transaction_repo@[transaction_id@].status),
    {
        let reason = if report == TransferStatus::Cancelled {
            text("Transfer cancelled")
        } else {
            text("Transfer failed")
        };
        let ghost g = reason;
        let r = self.settle_transfer(transaction_id, report, reason, now);
        assert(g@ == transfer_failure_label(report));
        r
    }

    /// Polls the collection stage: `poll` is the provider's answer for the
    /// record's payment id. A record not Pending is reported as it is; a
    /// Pending record without a payment id is an internal error; otherwise
    /// the answer goes through `apply_payment_report`.
    pub fn check_payment_status(
        &mut self,
        transaction_id: &str,
        poll: Result<PaymentStatus, AppError>,
        now: i64,
    ) -> (r: Result<TransactionStatus, AppError>)
        requires
            old(self).inv(),
        ensures
            final(self).inv(),
            final(self).business_rules == old(self).business_rules,
            final(self).exchange_rate_repo == old(self).exchange_rate_repo,
            final(self).transaction_repo.ids() == old(self).transaction_repo.ids(),
            ({
                let m = old(self).transaction_repo@;
                let after = final(self).transaction_repo@;
                let id = transaction_id@;
                if !m.contains_key(id) {
                    not_found(r) && after == m
                } else if m[id].status != TransactionStatus::Pending {
                    r == Ok::<TransactionStatus, AppError>(m[id].status) && after == m
                } else if m[id].payment_details.payment_id is None {
                    internal(r) && after == m
                } else if poll is Err {
                    r == Err::<TransactionStatus, AppError>(poll->Err_0) && after == m
                } else {
                    let report = poll->Ok_0;
                    &&& exists|reason: String|
                        reason@ == payment_failure_label(report) && after
                            == #[trigger] after_payment_report(m, id, report, None, reason, now)
                    &&& r == Ok::<TransactionStatus, AppError>(after[id].status)
                }
            }),
    {
        proof {
            self.transaction_repo.lemma_inv();
        }
        let t = match self.transaction_repo.get_by_id(transaction_id) {
            Ok(t) => t,
            Err(e) => {
                return Err(e);
            },
        };
        if t.status != TransactionStatus::Pending {
            return Ok(t.status);
        }
        if t.payment_details.payment_id.is_none() {
            return Err(AppError::internal_error(text("Payment ID not found")));
        }
        let report = match poll {
            Ok(p) => p,
            Err(e) => {
                return Err(e);
            },
        };
        proof {
            lemma_own_tokens_free(
                self.transaction_repo@,
                transaction_id@,
                funded(t, t.payment_details, now),
            );
        }
        self.apply_payment_report(transaction_id, report, None, now)
    }

    /// Polls the transfer stage: `poll` is the provider's answer for the
    /// record's transfer id. A record not Transferred is reported as it is; a
    /// Transferred record without a transfer id is an internal error;
    /// otherwise the answer goes through `apply_transfer_report`.
    pub fn check_transfer_status(
        &mut self,
        transaction_id: &str,
        poll: Result<TransferStatus, AppError>,
        now: i64,
    ) -> (r: Result<TransactionStatus, AppError>)
        requires
            old(self).inv(),
        ensures
            final(self).inv(),
            final(self).business_rules == old(self).business_rules,
            final(self).exchange_rate_repo == old(self).exchange_rate_repo,
            final(self).transaction_repo.ids() == old(self).transaction_repo.ids(),
            ({
                let m = old(self).transaction_repo@;
                let after = final(self).transaction_repo@;
                let id = transaction_id@;
                if !m.contains_key(id) {
                    not_found(r) && after == m
                } else if m[id].status != TransactionStatus::Transferred {
                    r == Ok::<TransactionStatus, AppError>(m[id].status) && after == m
                } else if m[id].transfer_details.transfer_id is None {
                    internal(r) && after == m
                } else if poll is Err {
                    r == Err::<TransactionStatus, AppError>(poll->Err_0) && after == m
                } else {
                    let report = poll->Ok_0;
                    &&& exists|reason: String|
                        reason@ == transfer_failure_label(report) && after
                            == #[trigger] after_transfer_report(m, id, report, reason, now)
                    &&& r == Ok::<TransactionStatus, AppError>(after[id].status)
                }
            }),
    {
        let t = match self.transaction_repo.get_by_id(transaction_id) {
            Ok(t) => t,
            Err(e) => {
                return Err(e);
            },
        };
        if t.status != TransactionStatus::Transferred {
            return Ok(t.status);
        }
        if t.transfer_details.transfer_id.is_none() {
            return Err(AppError::internal_error(text("Transfer ID not found")));
        }
        let report = match poll {
            Ok(p) => p,
            Err(e) => {
                return Err(e);
            },
        };
        self.apply_transfer_report(transaction_id, report, now)
    }
    /// The transactions of `user_id`, newest first, at most `limit` of them
    /// (50 when not given, never more than 100).
    pub fn get_user_transactions(&self, user_id: &str, limit: Option<usize>) -> (r: Vec<
        Transaction,
    >)
        requires
            self.inv(),
        ensures
            r@ == first_n(
                newest_for_user(self.transaction_repo@, self.transaction_repo.ids(), user_id@),
                query_limit(limit),
            ),
    {
        self.transaction_repo.get_by_user_id(user_id, limit)
    }
    /// Decides how to check on a transaction: a Pending one awaits the
    /// collection provider and a Transferred one the transfer provider, each
    /// polled by its correlation id (missing: an internal error); any other is
    /// settled for now. Its answer goes to `check_payment_status` or
    /// `check_transfer_status`.
    pub fn status_check(&self, transaction_id: &str) -> (r: Result<StatusCheck, AppError>)
        ensures
            ({
                let m = self.transaction_repo@;
                let id = transaction_id@;
                if !m.contains_key(id) {
                    not_found(r)
                } else if m[id].status == TransactionStatus::Pending {
                    match m[id].payment_details.payment_id {
                        Some(p) => r == Ok::<StatusCheck, AppError>(StatusCheck::Payment(p)),
                        None => internal(r),
                    }
                } else if m[id].status == TransactionStatus::Transferred {
                    match m[id].transfer_details.transfer_id {
                        Some(t) => r == Ok::<StatusCheck, AppError>(StatusCheck::Transfer(t)),
                        None => internal(r),
                    }
                } else {
                    r == Ok::<StatusCheck, AppError>(StatusCheck::Settled(m[id].status))
                }
            }),
    {
        let t = match self.transaction_repo.get_by_id(transaction_id) {
            Ok(t) => t,
            Err(e) => {
                return Err(e);
            },
        };
        match t.status {
            TransactionStatus::Pending => match t.payment_details.payment_id {
                Some(p) => Ok(StatusCheck::Payment(p)),
                None => Err(AppError::internal_error(text("Payment ID not found"))),
            },
            TransactionStatus::Transferred => match t.transfer_details.transfer_id {
                Some(id) => Ok(StatusCheck::Transfer(id)),
                None => Err(AppError::internal_error(text("Transfer ID not found"))),
            },
            status => Ok(StatusCheck::Settled(status)),
        }
    }
    /// The stage that transaction `transaction_id` runs next.
    pub fn next_stage(&self, transaction_id: &str) -> (r: Result<NextStage, AppError>)
        ensures
            self.transaction_repo@.contains_key(transaction_id@) ==> r == Ok::<NextStage, AppError>(
                next_stage_of(self.transaction_repo@[transaction_id@].status),
            ),
            !self.transaction_repo@.contains_key(transaction_id@) ==> not_found(r),
    {
        let t = match self.transaction_repo.get_by_id(transaction_id) {
            Ok(t) => t,
            Err(e) => {
                return Err(e);
            },
        };
        match t.status {
            TransactionStatus::Pending => Ok(NextStage::AwaitPayment),
            TransactionStatus::Funded => Ok(NextStage::Convert),
            TransactionStatus::Converted => Ok(NextStage::Transfer),
            TransactionStatus::Transferred => Ok(NextStage::AwaitDelivery),
            status => Ok(NextStage::Finished(status)),
        }
    }
}

/// Two confirmations of payment planned on the same Pending record, as two
/// concurrent `process_payment` calls would plan them, cannot both be written:
/// when the first one's conditional write takes effect, the record holds the
/// first confirmation, Funded, and the second one's conditional write,
/// expecting Pending, no longer takes effect and reports a conflict.
pub proof fn lemma_one_payment_wins(
    m: Map<Seq<char>, Transaction>,
    id: Seq<char>,
    first: PaymentDetails,
    second: PaymentDetails,
    first_time: i64,
    second_time: i64,
)
    requires
        records_ok(m),
        m.contains_key(id),
        m[id].status == TransactionStatus::Pending,
    ensures
        ({
            let winner = funded(m[id], first, first_time);
            let loser = funded(m[id], second, second_time);
            let after = m.insert(id, winner);
            &&& swaps(m, TransactionStatus::Pending, winner) ==> {
                &&& after[id] == winner
                &&& after[id].status == TransactionStatus::Funded
                &&& after[id].payment_details == first
                &&& !swaps(after, TransactionStatus::Pending, loser)
            }
        }),
{
}

} // verus!

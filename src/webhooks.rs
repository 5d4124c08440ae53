use vstd::prelude::*;

use crate::errors::{conflicted, not_found, AppError};
use crate::providers::{
    event_payment_details,
    payment_status_of, transfer_status_of, PaymentStatus, TransferStatus, UpiWebhookPayload,
    WiseWebhookPayload,
};
use crate::remittance::{
    after_payment_report, after_transfer_report, payment_failure_label, payment_report_blocked,
    transfer_failure_label, RemittanceService,
};
use crate::repository::{
    owner_of_payment_token, owner_of_transfer_token, payment_token, records_ok, tokens_unique,
    transfer_token,
};
use crate::text::lower_of;
use crate::transaction::{PaymentDetails, Transaction, TransactionStatus};

verus! {

/// The collection-stage report that a collection-provider event stands for.
pub open spec fn payment_event_report(payload: UpiWebhookPayload) -> PaymentStatus {
    payment_status_of(lower_of(payload.status@))
}

/// The transfer-stage report that a transfer-provider event stands for.
pub open spec fn transfer_event_report(payload: WiseWebhookPayload) -> TransferStatus {
    transfer_status_of(lower_of(payload.status@))
}

/// The ledger after a collection-provider event: the record holding the
/// event's reference id, if any, takes the event's report.
pub open spec fn after_payment_event(
    m: Map<Seq<char>, Transaction>,
    payload: UpiWebhookPayload,
    reason: String,
    now: i64,
) -> Map<Seq<char>, Transaction> {
    match owner_of_payment_token(m, payload.reference_id@) {
        Some(id) => after_payment_report(
            m,
            id,
            payment_event_report(payload),
            Some(event_payment_details(payload)),
            reason,
            now,
        ),
        None => m,
    }
}

/// The ledger after a transfer-provider event: the record holding the event's
/// transfer id, if any, takes the event's report.
pub open spec fn after_transfer_event(
    m: Map<Seq<char>, Transaction>,
    payload: WiseWebhookPayload,
    reason: String,
    now: i64,
) -> Map<Seq<char>, Transaction> {
    match owner_of_transfer_token(m, payload.transfer_id@) {
        Some(id) => after_transfer_report(m, id, transfer_event_report(payload), reason, now),
        None => m,
    }
}

/// Handles a collection-provider event: finds the transaction by the event's
/// reference id through the index and applies the event's report through the
/// shared reconciliation primitive. An event for a transaction that has moved
/// on is a no-op answered with its status, so provider retries are harmless.
/// Fails with NotFound when no transaction holds the reference id.
pub fn upi_webhook(service: &mut RemittanceService, payload: UpiWebhookPayload, now: i64) -> (r:
    Result<TransactionStatus, AppError>)
    requires
        old(service).inv(),
    ensures
        final(service).inv(),
        final(service).business_rules == old(service).business_rules,
        final(service).exchange_rate_repo == old(service).exchange_rate_repo,
        final(service).transaction_repo.ids() == old(service).transaction_repo.ids(),
        ({
            let m = old(service).transaction_repo@;
            let after = final(service).transaction_repo@;
            match owner_of_payment_token(m, payload.reference_id@) {
                None => not_found(r) && after == m,
                Some(id) => (exists|reason: String|
                    reason@ == payment_failure_label(payment_event_report(payload)) && after
                        == #[trigger] after_payment_event(m, payload, reason, now)) && if payment_report_blocked(
                    m,
                    id,
                    payment_event_report(payload),
                    Some(event_payment_details(payload)),
                    now,
                ) {
                    conflicted(r)
                } else {
                    r == Ok::<TransactionStatus, AppError>(
                        final(service).transaction_repo@[id].status,
                    )
                },
            }
        }),
{
    let found = service.transaction_repo.find_by_payment_reference(payload.reference_id.as_str());
    let t = match found {
        Some(t) => t,
        None => {
            return Err(
                AppError::not_found(
                    crate::text::text("No transaction holds this payment reference"),
                ),
            );
        },
    };
    proof {
        service.transaction_repo.lemma_inv();
    }
    let report = PaymentStatus::from_status(payload.status.as_str());
    let ghost p = payload;
    let details = PaymentDetails {
        payment_id: Some(payload.payment_id),
        payment_link: None,
        payment_time: Some(payload.payment_time),
        reference_id: Some(payload.reference_id),
    };
    assert(details == event_payment_details(p));
    let ghost m = service.transaction_repo@;
    let r = service.apply_payment_report(t.transaction_id.as_str(), report, Some(details), now);
    proof {
        let reason = choose|reason: String|
            reason@ == payment_failure_label(report) && service.transaction_repo@
                == #[trigger] after_payment_report(
                m,
                t.transaction_id@,
                report,
                Some(event_payment_details(p)),
                reason,
                now,
            );
        assert(service.transaction_repo@ == after_payment_event(m, p, reason, now));
    }
    r
}

/// Handles a transfer-provider event: finds the transaction by the event's
/// transfer id through the index and applies the event's report through the
/// shared reconciliation primitive. An event for a transaction that has moved
/// on is a no-op answered with its status, so provider retries are harmless.
/// Fails with NotFound when no transaction holds the transfer id.
pub fn wise_webhook(service: &mut RemittanceService, payload: WiseWebhookPayload, now: i64) -> (r:
    Result<TransactionStatus, AppError>)
    requires
        old(service).inv(),
    ensures
        final(service).inv(),
        final(service).business_rules == old(service).business_rules,
        final(service).exchange_rate_repo == old(service).exchange_rate_repo,
        final(service).transaction_repo.ids() == old(service).transaction_repo.ids(),
        ({
            let m = old(service).transaction_repo@;
            let after = final(service).transaction_repo@;
            match owner_of_transfer_token(m, payload.transfer_id@) {
                None => not_found(r) && after == m,
                Some(id) => (exists|reason: String|
                    reason@ == transfer_failure_label(transfer_event_report(payload)) && after
                        == #[trigger] after_transfer_event(m, payload, reason, now)) && r == Ok::<
                    TransactionStatus,
                    AppError,
                >(after[id].status),
            }
        }),
{
    let found = service.transaction_repo.find_by_transfer_id(payload.transfer_id.as_str());
    let t = match found {
        Some(t) => t,
        None => {
            return Err(
                AppError::not_found(crate::text::text("No transaction holds this transfer id")),
            );
        },
    };
    proof {
        service.transaction_repo.lemma_inv();
    }
    let report = TransferStatus::from_status(payload.status.as_str());
    let ghost m = service.transaction_repo@;
    let r = service.apply_transfer_report(t.transaction_id.as_str(), report, now);
    proof {
        let reason = choose|reason: String|
            reason@ == transfer_failure_label(report) && service.transaction_repo@
                == #[trigger] after_transfer_report(m, t.transaction_id@, report, reason, now);
        assert(service.transaction_repo@ == after_transfer_event(m, payload, reason, now));
    }
    r
}

/// Under unique collection tokens, the record holding `token` is its owner,
/// and stays so when it is replaced by a record holding the same token.
proof fn lemma_payment_owner(
    m: Map<Seq<char>, Transaction>,
    id: Seq<char>,
    n: Transaction,
    token: Seq<char>,
)
    requires
        tokens_unique(m),
        m.contains_key(id),
        payment_token(m[id]) == Some(token),
        payment_token(n) == Some(token),
    ensures
        owner_of_payment_token(m, token) == Some(id),
        owner_of_payment_token(m.insert(id, n), token) == Some(id),
{
    let c = choose|k: Seq<char>| m.contains_key(k) && payment_token(m[k]) == Some(token);
    assert(payment_token(m[c]) == payment_token(m[id]));
    let m2 = m.insert(id, n);
    assert(m2.contains_key(id) && payment_token(m2[id]) == Some(token));
    let c2 = choose|k: Seq<char>| m2.contains_key(k) && payment_token(m2[k]) == Some(token);
    if c2 != id {
        assert(payment_token(m[c2]) == payment_token(m[id]));
    }
}

/// Under unique transfer tokens, the record holding `token` is its owner,
/// and stays so when it is replaced by a record holding the same token.
proof fn lemma_transfer_owner(
    m: Map<Seq<char>, Transaction>,
    id: Seq<char>,
    n: Transaction,
    token: Seq<char>,
)
    requires
        tokens_unique(m),
        m.contains_key(id),
        transfer_token(m[id]) == Some(token),
        transfer_token(n) == Some(token),
    ensures
        owner_of_transfer_token(m, token) == Some(id),
        owner_of_transfer_token(m.insert(id, n), token) == Some(id),
{
    let c = choose|k: Seq<char>| m.contains_key(k) && transfer_token(m[k]) == Some(token);
    assert(transfer_token(m[c]) == transfer_token(m[id]));
    let m2 = m.insert(id, n);
    assert(m2.contains_key(id) && transfer_token(m2[id]) == Some(token));
    let c2 = choose|k: Seq<char>| m2.contains_key(k) && transfer_token(m2[k]) == Some(token);
    if c2 != id {
        assert(transfer_token(m[c2]) == transfer_token(m[id]));
    }
}

/// A collection-provider event delivered twice has the effect of one
/// delivery: once the event has been applied, applying it again, at any
/// later time, leaves the ledger exactly as the first delivery left it.
pub proof fn lemma_payment_event_replay(
    m: Map<Seq<char>, Transaction>,
    payload: UpiWebhookPayload,
    first_reason: String,
    second_reason: String,
    first: i64,
    second: i64,
)
    requires
        records_ok(m),
        tokens_unique(m),
    ensures
        ({
            let once = after_payment_event(m, payload, first_reason, first);
            after_payment_event(once, payload, second_reason, second) == once
        }),
{
    let token = payload.reference_id@;
    let once = after_payment_event(m, payload, first_reason, first);
    let details = event_payment_details(payload);
    if let Some(id) = owner_of_payment_token(m, token) {
        let c = choose|k: Seq<char>| m.contains_key(k) && payment_token(m[k]) == Some(token);
        assert(c == id);
        let t = m[id];
        if t.status == TransactionStatus::Pending {
            let report = payment_event_report(payload);
            if report == PaymentStatus::Completed {
                let n = crate::transaction::funded(t, details, first);
                assert(payment_token(n) == Some(token));
                lemma_payment_owner(m, id, n, token);
                crate::repository::lemma_own_tokens_free(m, id, n);
                assert(!payment_report_blocked(m, id, report, Some(details), first));
                assert(once == m.insert(id, n));
            } else if report == PaymentStatus::Failed || report == PaymentStatus::Expired {
                let n = crate::transaction::failed(t, first_reason, first);
                lemma_payment_owner(m, id, n, token);
                assert(once == m.insert(id, n));
            }
        }
    }
}

/// A transfer-provider event delivered twice has the effect of one delivery:
/// once the event has been applied, applying it again, at any later time,
/// leaves the ledger exactly as the first delivery left it.
pub proof fn lemma_transfer_event_replay(
    m: Map<Seq<char>, Transaction>,
    payload: WiseWebhookPayload,
    first_reason: String,
    second_reason: String,
    first: i64,
    second: i64,
)
    requires
        records_ok(m),
        tokens_unique(m),
    ensures
        ({
            let once = after_transfer_event(m, payload, first_reason, first);
            after_transfer_event(once, payload, second_reason, second) == once
        }),
{
    let token = payload.transfer_id@;
    let once = after_transfer_event(m, payload, first_reason, first);
    if let Some(id) = owner_of_transfer_token(m, token) {
        let c = choose|k: Seq<char>| m.contains_key(k) && transfer_token(m[k]) == Some(token);
        assert(c == id);
        let t = m[id];
        if t.status == TransactionStatus::Transferred {
            let report = transfer_event_report(payload);
            if report == TransferStatus::Completed {
                let n = crate::transaction::moved(t, TransactionStatus::Completed, first);
                lemma_transfer_owner(m, id, n, token);
                assert(once == m.insert(id, n));
            } else if report == TransferStatus::Failed || report == TransferStatus::Cancelled {
                let n = crate::transaction::failed(t, first_reason, first);
                lemma_transfer_owner(m, id, n, token);
                assert(once == m.insert(id, n));
            }
        }
    }
}

} // verus!

use vstd::hash_map::StringHashMap;
use vstd::prelude::*;

use crate::errors::{conflicted, invalid_input, not_found, AppError};
use crate::text::text;
use crate::transaction::{
    failed, moved, non_terminal_label, rejected, valid_edge, Transaction, TransactionStatus,
};

verus! {

broadcast use vstd::hash_map::axiom_string_hash_map_spec_len;

/// The collection-stage correlation token of a record, if it has one.
pub open spec fn payment_token(t: Transaction) -> Option<Seq<char>> {
    match t.payment_details.reference_id {
        Some(r) => Some(r@),
        None => None,
    }
}

/// The transfer-stage correlation token of a record, if it has one.
pub open spec fn transfer_token(t: Transaction) -> Option<Seq<char>> {
    match t.transfer_details.transfer_id {
        Some(r) => Some(r@),
        None => None,
    }
}

/// Every record is stored under its own identifier and meets its invariant.
pub open spec fn records_ok(m: Map<Seq<char>, Transaction>) -> bool {
    forall|k: Seq<char>| #[trigger]
        m.contains_key(k) ==> m[k].transaction_id@ == k && m[k].wf()
}

/// No two records share a correlation token.
pub open spec fn tokens_unique(m: Map<Seq<char>, Transaction>) -> bool {
    &&& forall|a: Seq<char>, b: Seq<char>|
        m.contains_key(a) && m.contains_key(b) && #[trigger] payment_token(m[a]) is Some
            && payment_token(m[a]) == #[trigger] payment_token(m[b]) ==> a == b
    &&& forall|a: Seq<char>, b: Seq<char>|
        m.contains_key(a) && m.contains_key(b) && #[trigger] transfer_token(m[a]) is Some
            && transfer_token(m[a]) == #[trigger] transfer_token(m[b]) ==> a == b
}

/// `token` is unset, or held by no record but the one stored under `owner`.
pub open spec fn payment_token_free(
    m: Map<Seq<char>, Transaction>,
    token: Option<Seq<char>>,
    owner: Seq<char>,
) -> bool {
    token is None || forall|k: Seq<char>|
        #[trigger] m.contains_key(k) && k != owner ==> payment_token(m[k]) != token
}

/// `token` is unset, or held by no record but the one stored under `owner`.
pub open spec fn transfer_token_free(
    m: Map<Seq<char>, Transaction>,
    token: Option<Seq<char>>,
    owner: Seq<char>,
) -> bool {
    token is None || forall|k: Seq<char>|
        #[trigger] m.contains_key(k) && k != owner ==> transfer_token(m[k]) != token
}

/// The identifier of the record that holds collection token `token`, if any.
pub open spec fn owner_of_payment_token(m: Map<Seq<char>, Transaction>, token: Seq<char>) -> Option<
    Seq<char>,
> {
    if exists|k: Seq<char>| m.contains_key(k) && payment_token(m[k]) == Some(token) {
        Some(choose|k: Seq<char>| m.contains_key(k) && payment_token(m[k]) == Some(token))
    } else {
        None
    }
}

/// The identifier of the record that holds transfer token `token`, if any.
pub open spec fn owner_of_transfer_token(m: Map<Seq<char>, Transaction>, token: Seq<char>) -> Option<
    Seq<char>,
> {
    if exists|k: Seq<char>| m.contains_key(k) && transfer_token(m[k]) == Some(token) {
        Some(choose|k: Seq<char>| m.contains_key(k) && transfer_token(m[k]) == Some(token))
    } else {
        None
    }
}

/// A record's own correlation tokens never block a write of that record.
pub proof fn lemma_own_tokens_free(m: Map<Seq<char>, Transaction>, id: Seq<char>, n: Transaction)
    requires
        tokens_unique(m),
        m.contains_key(id),
    ensures
        payment_token(n) == payment_token(m[id]) ==> payment_token_free(m, payment_token(n), id),
        transfer_token(n) == transfer_token(m[id]) ==> transfer_token_free(
            m,
            transfer_token(n),
            id,
        ),
{
    if payment_token(n) == payment_token(m[id]) && payment_token(n) is Some {
        assert forall|k: Seq<char>| #[trigger] m.contains_key(k) && k != id implies payment_token(
            m[k],
        ) != payment_token(n) by {
            if payment_token(m[k]) == payment_token(n) {
                assert(payment_token(m[id]) == payment_token(m[k]));
            }
        }
    }
    if transfer_token(n) == transfer_token(m[id]) && transfer_token(n) is Some {
        assert forall|k: Seq<char>| #[trigger] m.contains_key(k) && k != id implies transfer_token(
            m[k],
        ) != transfer_token(n) by {
            if transfer_token(m[k]) == transfer_token(n) {
                assert(transfer_token(m[id]) == transfer_token(m[k]));
            }
        }
    }
}

/// The records of `user` among `ids`, newest (last stored) first.
pub open spec fn newest_for_user(
    m: Map<Seq<char>, Transaction>,
    ids: Seq<Seq<char>>,
    user: Seq<char>,
) -> Seq<Transaction>
    decreases ids.len(),
{
    if ids.len() == 0 {
        Seq::empty()
    } else {
        let rest = newest_for_user(m, ids.drop_last(), user);
        if m[ids.last()].user_id@ == user {
            seq![m[ids.last()]] + rest
        } else {
            rest
        }
    }
}

/// The records in `status` among `ids`, newest (last stored) first.
pub open spec fn newest_with_status(
    m: Map<Seq<char>, Transaction>,
    ids: Seq<Seq<char>>,
    status: TransactionStatus,
) -> Seq<Transaction>
    decreases ids.len(),
{
    if ids.len() == 0 {
        Seq::empty()
    } else {
        let rest = newest_with_status(m, ids.drop_last(), status);
        if m[ids.last()].status == status {
            seq![m[ids.last()]] + rest
        } else {
            rest
        }
    }
}

/// The first `n` elements of `s`, or all of them when there are fewer.
pub open spec fn first_n<A>(s: Seq<A>, n: int) -> Seq<A> {
    if s.len() <= n {
        s
    } else {
        s.take(n)
    }
}

/// How many records a query returns at most: 50 unless asked, never over 100.
pub open spec fn query_limit(limit: Option<usize>) -> int {
    match limit {
        Some(l) => if l > 100 {
            100
        } else {
            l as int
        },
        None => 50,
    }
}

/// The status from which a plain status update may move a record to `status`:
/// the moves that need no further data. Conversion and failure carry data of
/// their own and go through their own operations.
pub open spec fn plain_predecessor(status: TransactionStatus) -> Option<TransactionStatus> {
    match status {
        TransactionStatus::Funded => Some(TransactionStatus::Pending),
        TransactionStatus::Transferred => Some(TransactionStatus::Converted),
        TransactionStatus::Completed => Some(TransactionStatus::Transferred),
        _ => None,
    }
}

/// A conditional write of `updated` expecting `expected` takes effect on the
/// ledger `m`: the record is there, still in `expected`, and no other record
/// holds one of `updated`'s correlation tokens.
pub open spec fn swaps(m: Map<Seq<char>, Transaction>, expected: TransactionStatus, updated: Transaction) -> bool {
    let id = updated.transaction_id@;
    &&& m.contains_key(id)
    &&& m[id].status == expected
    &&& payment_token_free(m, payment_token(updated), id)
    &&& transfer_token_free(m, transfer_token(updated), id)
}

/// The store of transaction records, keyed by transaction identifier, with an
/// index on each stage's correlation token. Every status-changing write is
/// conditional on the status it expects to find.
pub struct TransactionRepository {
    records: StringHashMap<Transaction>,
    by_payment_token: StringHashMap<String>,
    by_transfer_token: StringHashMap<String>,
    order: Vec<String>,
}

impl View for TransactionRepository {
    type V = Map<Seq<char>, Transaction>;

    closed spec fn view(&self) -> Map<Seq<char>, Transaction> {
        self.records@
    }
}

impl TransactionRepository {
    /// The identifiers of the stored records, oldest first.
    pub closed spec fn ids(&self) -> Seq<Seq<char>> {
        self.order@.map_values(|s: String| s@)
    }

    /// The indexes agree with the records, and the records meet their invariant.
    pub closed spec fn inv(&self) -> bool {
        &&& records_ok(self.records@)
        &&& self.ids().no_duplicates()
        &&& forall|i: int|
            0 <= i < self.ids().len() ==> self.records@.contains_key(#[trigger] self.ids()[i])
        &&& forall|k: Seq<char>| #[trigger] self.records@.contains_key(k) ==> self.ids().contains(k)
        &&& forall|r: Seq<char>| #[trigger]
            self.by_payment_token@.contains_key(r) ==> {
                let k = self.by_payment_token@[r]@;
                self.records@.contains_key(k) && payment_token(self.records@[k]) == Some(r)
            }
        &&& forall|k: Seq<char>| #[trigger]
            self.records@.contains_key(k) && payment_token(self.records@[k]) is Some ==> {
                let r = payment_token(self.records@[k])->0;
                self.by_payment_token@.contains_key(r) && self.by_payment_token@[r]@ == k
            }
        &&& forall|r: Seq<char>| #[trigger]
            self.by_transfer_token@.contains_key(r) ==> {
                let k = self.by_transfer_token@[r]@;
                self.records@.contains_key(k) && transfer_token(self.records@[k]) == Some(r)
            }
        &&& forall|k: Seq<char>| #[trigger]
            self.records@.contains_key(k) && transfer_token(self.records@[k]) is Some ==> {
                let r = transfer_token(self.records@[k])->0;
                self.by_transfer_token@.contains_key(r) && self.by_transfer_token@[r]@ == k
            }
    }

    /// What the invariant tells of the records themselves.
    pub proof fn lemma_inv(&self)
        requires
            self.inv(),
        ensures
            records_ok(self@),
            tokens_unique(self@),
            self.ids().no_duplicates(),
            forall|i: int| 0 <= i < self.ids().len() ==> self@.contains_key(#[trigger] self.ids()[i]),
            forall|k: Seq<char>| #[trigger] self@.contains_key(k) ==> self.ids().contains(k),
    {
        assert forall|a: Seq<char>, b: Seq<char>|
            self@.contains_key(a) && self@.contains_key(b) && #[trigger] payment_token(self@[a])
                is Some && payment_token(self@[a]) == #[trigger] payment_token(self@[b]) implies a
            == b by {
            let r = payment_token(self.records@[a])->0;
            assert(self.by_payment_token@[r]@ == a);
            assert(self.by_payment_token@[r]@ == b);
        }
        assert forall|a: Seq<char>, b: Seq<char>|
            self@.contains_key(a) && self@.contains_key(b) && #[trigger] transfer_token(self@[a])
                is Some && transfer_token(self@[a]) == #[trigger] transfer_token(self@[b]) implies a
            == b by {
            let r = transfer_token(self.records@[a])->0;
            assert(self.by_transfer_token@[r]@ == a);
            assert(self.by_transfer_token@[r]@ == b);
        }
    }

    /// An empty store.
    pub fn new() -> (r: Self)
        ensures
            r.inv(),
            r@ == Map::<Seq<char>, Transaction>::empty(),
            r.ids() == Seq::<Seq<char>>::empty(),
    {
        let r = TransactionRepository {
            records: StringHashMap::new(),
            by_payment_token: StringHashMap::new(),
            by_transfer_token: StringHashMap::new(),
            order: Vec::new(),
        };
        assert(r.ids() =~= Seq::<Seq<char>>::empty());
        r
    }

    /// The record stored under `transaction_id`.
    pub fn get_by_id(&self, transaction_id: &str) -> (r: Result<Transaction, AppError>)
        ensures
            self@.contains_key(transaction_id@) ==> r == Ok::<Transaction, AppError>(
                self@[transaction_id@],
            ),
            !self@.contains_key(transaction_id@) ==> not_found(r),
    {
        match self.records.get(transaction_id) {
            Some(t) => Ok(t.duplicate()),
            None => Err(AppError::not_found(text("Transaction not found"))),
        }
    }

    /// The identifier of the record whose collection token is `token`, through the index.
    fn payment_token_owner(&self, token: &str) -> (r: Option<String>)
        requires
            self.inv(),
        ensures
            match r {
                Some(k) => self@.contains_key(k@) && payment_token(self@[k@]) == Some(token@),
                None => forall|k: Seq<char>| #[trigger]
                    self@.contains_key(k) ==> payment_token(self@[k]) != Some(token@),
            },
    {
        match self.by_payment_token.get(token) {
            Some(k) => Some(k.clone()),
            None => None,
        }
    }

    /// The identifier of the record whose transfer token is `token`, through the index.
    fn transfer_token_owner(&self, token: &str) -> (r: Option<String>)
        requires
            self.inv(),
        ensures
            match r {
                Some(k) => self@.contains_key(k@) && transfer_token(self@[k@]) == Some(token@),
                None => forall|k: Seq<char>| #[trigger]
                    self@.contains_key(k) ==> transfer_token(self@[k]) != Some(token@),
            },
    {
        match self.by_transfer_token.get(token) {
            Some(k) => Some(k.clone()),
            None => None,
        }
    }

    /// The record whose collection-stage reference id is `token`, found by index.
    pub fn find_by_payment_reference(&self, token: &str) -> (r: Option<Transaction>)
        requires
            self.inv(),
        ensures
            r == match owner_of_payment_token(self@, token@) {
                Some(k) => Some(self@[k]),
                None => None::<Transaction>,
            },
    {
        proof {
            self.lemma_inv();
        }
        match self.payment_token_owner(token) {
            Some(k) => {
                let t = self.records.get(k.as_str()).unwrap().duplicate();
                proof {
                    let c = choose|c: Seq<char>|
                        self@.contains_key(c) && payment_token(self@[c]) == Some(token@);
                    assert(payment_token(self@[c]) == payment_token(self@[k@]));
                }
                Some(t)
            },
            None => None,
        }
    }

    /// The record whose transfer id is `token`, found by index.
    pub fn find_by_transfer_id(&self, token: &str) -> (r: Option<Transaction>)
        requires
            self.inv(),
        ensures
            r == match owner_of_transfer_token(self@, token@) {
                Some(k) => Some(self@[k]),
                None => None::<Transaction>,
            },
    {
        proof {
            self.lemma_inv();
        }
        match self.transfer_token_owner(token) {
            Some(k) => {
                let t = self.records.get(k.as_str()).unwrap().duplicate();
                proof {
                    let c = choose|c: Seq<char>|
                        self@.contains_key(c) && transfer_token(self@[c]) == Some(token@);
                    assert(transfer_token(self@[c]) == transfer_token(self@[k@]));
                }
                Some(t)
            },
            None => None,
        }
    }
    /// Stores `t` under its identifier, replacing any earlier record there and
    /// moving the index entries from the earlier record's tokens to `t`'s.
    fn put(&mut self, t: Transaction)
        requires
            old(self).inv(),
            t.wf(),
            payment_token_free(old(self)@, payment_token(t), t.transaction_id@),
            transfer_token_free(old(self)@, transfer_token(t), t.transaction_id@),
        ensures
            final(self).inv(),
            final(self)@ == old(self)@.insert(t.transaction_id@, t),
            old(self)@.contains_key(t.transaction_id@) ==> final(self).ids() == old(self).ids(),
            !old(self)@.contains_key(t.transaction_id@) ==> final(self).ids() == old(self).ids().push(
                t.transaction_id@,
            ),
    {
        let ghost id = t.transaction_id@;
        let ghost ids0 = self.ids();
        let existed = self.records.contains_key(t.transaction_id.as_str());
        if !existed {
            self.order.push(t.transaction_id.clone());
            proof {
                assert(self.ids() =~= ids0.push(id));
                assert(!ids0.contains(id));
            }
        }
        let (old_payment, old_transfer) = match self.records.get(t.transaction_id.as_str()) {
            Some(s) => (
                crate::text::copy_opt(&s.payment_details.reference_id),
                crate::text::copy_opt(&s.transfer_details.transfer_id),
            ),
            None => (None, None),
        };
        let ghost p0 = self.by_payment_token@;
        let ghost q0 = self.by_transfer_token@;
        let ghost m0 = self.records@;
        if let Some(r) = &old_payment {
            self.by_payment_token.remove(r.as_str());
        }
        if let Some(r) = &old_transfer {
            self.by_transfer_token.remove(r.as_str());
        }
        if let Some(r) = &t.payment_details.reference_id {
            self.by_payment_token.insert(r.clone(), t.transaction_id.clone());
        }
        if let Some(r) = &t.transfer_details.transfer_id {
            self.by_transfer_token.insert(r.clone(), t.transaction_id.clone());
        }
        self.records.insert(t.transaction_id.clone(), t);
        proof {
            let m = self.records@;
            assert forall|k: Seq<char>| #[trigger] m.contains_key(k) implies self.ids().contains(k) by {
                if k == id {
                    if existed {
                        assert(ids0.contains(k));
                    } else {
                        assert(self.ids()[ids0.len() as int] == k);
                    }
                } else {
                    assert(m0.contains_key(k) && ids0.contains(k));
                    let j = choose|j: int| 0 <= j < ids0.len() && ids0[j] == k;
                    assert(self.ids()[j] == k);
                }
            }
            let p = self.by_payment_token@;
            let q = self.by_transfer_token@;
            assert forall|r: Seq<char>| #[trigger] p.contains_key(r) implies m.contains_key(p[r]@)
                && payment_token(m[p[r]@]) == Some(r) by {
                if payment_token(t) != Some(r) {
                    assert(p0.contains_key(r));
                    let k = p0[r]@;
                    if k == id {
                        assert(p0[payment_token(m0[id])->0]@ == id);
                    }
                }
            }
            assert forall|k: Seq<char>| #[trigger]
                m.contains_key(k) && payment_token(m[k]) is Some implies p.contains_key(
                payment_token(m[k])->0,
            ) && p[payment_token(m[k])->0]@ == k by {
                if k != id {
                    let r = payment_token(m0[k])->0;
                    assert(p0.contains_key(r) && p0[r]@ == k);
                    if m0.contains_key(id) && payment_token(m0[id]) == Some(r) {
                        assert(p0[r]@ == id);
                    }
                }
            }
            assert forall|r: Seq<char>| #[trigger] q.contains_key(r) implies m.contains_key(q[r]@)
                && transfer_token(m[q[r]@]) == Some(r) by {
                if transfer_token(t) != Some(r) {
                    assert(q0.contains_key(r));
                    let k = q0[r]@;
                    if k == id {
                        assert(q0[transfer_token(m0[id])->0]@ == id);
                    }
                }
            }
            assert forall|k: Seq<char>| #[trigger]
                m.contains_key(k) && transfer_token(m[k]) is Some implies q.contains_key(
                transfer_token(m[k])->0,
            ) && q[transfer_token(m[k])->0]@ == k by {
                if k != id {
                    let r = transfer_token(m0[k])->0;
                    assert(q0.contains_key(r) && q0[r]@ == k);
                    if m0.contains_key(id) && transfer_token(m0[id]) == Some(r) {
                        assert(q0[r]@ == id);
                    }
                }
            }
        }
    }

    /// Stores a new record. Fails with a conflict, changing nothing, when a
    /// record with its identifier exists or another record holds one of its
    /// correlation tokens.
    pub fn save(&mut self, t: Transaction) -> (r: Result<(), AppError>)
        requires
            old(self).inv(),
            t.wf(),
        ensures
            final(self).inv(),
            ({
                let id = t.transaction_id@;
                if !old(self)@.contains_key(id) && payment_token_free(old(self)@, payment_token(t), id)
                    && transfer_token_free(old(self)@, transfer_token(t), id) {
                    r is Ok && final(self)@ == old(self)@.insert(id, t) && final(self).ids() == old(
                        self,
                    ).ids().push(id)
                } else {
                    conflicted(r) && final(self)@ == old(self)@ && final(self).ids() == old(
                        self,
                    ).ids()
                }
            }),
    {
        if self.records.contains_key(t.transaction_id.as_str()) {
            return Err(AppError::conflict(text("A transaction with this id already exists")));
        }
        if !self.tokens_free_for(&t) {
            return Err(AppError::conflict(text("A correlation token is held by another transaction")));
        }
        self.put(t);
        Ok(())
    }

    /// Whether no record but `t`'s own holds one of `t`'s correlation tokens.
    fn tokens_free_for(&self, t: &Transaction) -> (r: bool)
        requires
            self.inv(),
        ensures
            r == (payment_token_free(self@, payment_token(*t), t.transaction_id@)
                && transfer_token_free(self@, transfer_token(*t), t.transaction_id@)),
    {
        if let Some(tok) = &t.payment_details.reference_id {
            if let Some(owner) = self.payment_token_owner(tok.as_str()) {
                if owner != t.transaction_id {
                    return false;
                }
            }
        }
        if let Some(tok) = &t.transfer_details.transfer_id {
            if let Some(owner) = self.transfer_token_owner(tok.as_str()) {
                if owner != t.transaction_id {
                    return false;
                }
            }
        }
        true
    }

    /// The conditional write under which every status change is made: replaces
    /// the record stored under `updated`'s identifier only if its status is still
    /// `expected`. Fails with NotFound when there is no such record and with a
    /// conflict when the status changed or another record holds one of
    /// `updated`'s correlation tokens; on failure nothing changes. The write
    /// keeps the status or moves it along an edge of the state machine.
    pub fn compare_and_swap(&mut self, expected: TransactionStatus, updated: Transaction) -> (r:
        Result<(), AppError>)
        requires
            old(self).inv(),
            updated.wf(),
            updated.status == expected || valid_edge(expected, updated.status),
        ensures
            final(self).inv(),
            final(self).ids() == old(self).ids(),
            ({
                let id = updated.transaction_id@;
                let m = old(self)@;
                if !m.contains_key(id) {
                    not_found(r) && final(self)@ == m
                } else if swaps(m, expected, updated) {
                    r is Ok && final(self)@ == m.insert(id, updated)
                } else {
                    conflicted(r) && final(self)@ == m
                }
            }),
    {
        let current = match self.records.get(updated.transaction_id.as_str()) {
            Some(s) => s.status,
            None => {
                return Err(AppError::not_found(text("Transaction not found")));
            },
        };
        if current != expected {
            return Err(AppError::conflict(text("Transaction status changed concurrently")));
        }
        if !self.tokens_free_for(&updated) {
            return Err(AppError::conflict(text("A correlation token is held by another transaction")));
        }
        self.put(updated);
        Ok(())
    }
    fn query_bound(limit: Option<usize>) -> (n: usize)
        ensures
            n == query_limit(limit),
    {
        match limit {
            Some(l) => if l > 100 {
                100
            } else {
                l
            },
            None => 50,
        }
    }

    /// The records of `user_id`, newest first, at most `limit` of them
    /// (50 when not given, never more than 100).
    pub fn get_by_user_id(&self, user_id: &str, limit: Option<usize>) -> (r: Vec<Transaction>)
        requires
            self.inv(),
        ensures
            r@ == first_n(newest_for_user(self@, self.ids(), user_id@), query_limit(limit)),
    {
        let n = TransactionRepository::query_bound(limit);
        let user = text(user_id);
        let ghost ids = self.ids();
        let ghost full = newest_for_user(self@, ids, user_id@);
        let mut out: Vec<Transaction> = Vec::new();
        let mut i: usize = self.order.len();
        proof {
            assert(ids.take(i as int) =~= ids);
            assert(out@ + full =~= full);
        }
        while i > 0 && out.len() < n
            invariant
                self.inv(),
                ids == self.ids(),
                i <= ids.len(),
                out.len() <= n,
                user@ == user_id@,
                out@ + newest_for_user(self@, ids.take(i as int), user_id@) == full,
            decreases i,
        {
            proof {
                assert(ids.take(i as int).drop_last() =~= ids.take(i - 1));
                assert(ids.take(i as int).last() == ids[i - 1]);
                assert(self@.contains_key(ids[i - 1]));
            }
            let t = self.records.get(self.order[i - 1].as_str()).unwrap();
            if t.user_id == user {
                let ghost before = out@;
                out.push(t.duplicate());
                proof {
                    assert(out@ + newest_for_user(self@, ids.take(i - 1), user_id@) =~= before + (
                    seq![*t] + newest_for_user(self@, ids.take(i - 1), user_id@)));
                }
            }
            i = i - 1;
        }
        proof {
            if i == 0 {
                assert(ids.take(0) =~= Seq::<Seq<char>>::empty());
                assert(out@ =~= full);
            } else {
                let rest = newest_for_user(self@, ids.take(i as int), user_id@);
                assert((out@ + rest).take(n as int) =~= out@);
            }
        }
        out
    }

    /// The records in `status`, newest first, at most `limit` of them
    /// (50 when not given, never more than 100).
    pub fn get_by_status(&self, status: TransactionStatus, limit: Option<usize>) -> (r: Vec<
        Transaction,
    >)
        requires
            self.inv(),
        ensures
            r@ == first_n(newest_with_status(self@, self.ids(), status), query_limit(limit)),
    {
        let n = TransactionRepository::query_bound(limit);
        let ghost ids = self.ids();
        let ghost full = newest_with_status(self@, ids, status);
        let mut out: Vec<Transaction> = Vec::new();
        let mut i: usize = self.order.len();
        proof {
            assert(ids.take(i as int) =~= ids);
            assert(out@ + full =~= full);
        }
        while i > 0 && out.len() < n
            invariant
                self.inv(),
                ids == self.ids(),
                i <= ids.len(),
                out.len() <= n,
                out@ + newest_with_status(self@, ids.take(i as int), status) == full,
            decreases i,
        {
            proof {
                assert(ids.take(i as int).drop_last() =~= ids.take(i - 1));
                assert(ids.take(i as int).last() == ids[i - 1]);
                assert(self@.contains_key(ids[i - 1]));
            }
            let t = self.records.get(self.order[i - 1].as_str()).unwrap();
            if t.status == status {
                let ghost before = out@;
                out.push(t.duplicate());
                proof {
                    assert(out@ + newest_with_status(self@, ids.take(i - 1), status) =~= before + (
                    seq![*t] + newest_with_status(self@, ids.take(i - 1), status)));
                }
            }
            i = i - 1;
        }
        proof {
            if i == 0 {
                assert(ids.take(0) =~= Seq::<Seq<char>>::empty());
                assert(out@ =~= full);
            } else {
                let rest = newest_with_status(self@, ids.take(i as int), status);
                assert((out@ + rest).take(n as int) =~= out@);
            }
        }
        out
    }
    /// Moves record `transaction_id` to `status` through the conditional
    /// write, for the moves that need no further data (see
    /// `plain_predecessor`). Fails with a validation error for any other
    /// target status, and with an invalid-state error when the record is not
    /// in the status that the move leaves; on failure nothing changes.
    pub fn update_status(&mut self, transaction_id: &str, status: TransactionStatus, now: i64) -> (r:
        Result<Transaction, AppError>)
        requires
            old(self).inv(),
        ensures
            final(self).inv(),
            final(self).ids() == old(self).ids(),
            ({
                let m = old(self)@;
                let id = transaction_id@;
                if !m.contains_key(id) {
                    not_found(r) && final(self)@ == m
                } else if plain_predecessor(status) is None {
                    invalid_input(r) && final(self)@ == m
                } else if m[id].status != plain_predecessor(status)->0 {
                    rejected(r, m[id].status.name(), plain_predecessor(status)->0.name())
                        && final(self)@ == m
                } else {
                    r == Ok::<Transaction, AppError>(moved(m[id], status, now)) && final(self)@
                        == m.insert(id, moved(m[id], status, now))
                }
            }),
    {
        proof {
            self.lemma_inv();
        }
        let mut t = match self.get_by_id(transaction_id) {
            Ok(t) => t,
            Err(e) => {
                return Err(e);
            },
        };
        let from = match status {
            TransactionStatus::Funded => TransactionStatus::Pending,
            TransactionStatus::Transferred => TransactionStatus::Converted,
            TransactionStatus::Completed => TransactionStatus::Transferred,
            _ => {
                return Err(
                    AppError::validation_error(
                        text("This status is reached only through its own operation"),
                    ),
                );
            },
        };
        if t.status != from {
            return Err(crate::transaction::invalid_state_error(t.status, from));
        }
        t.update_status_at(status, now);
        proof {
            lemma_own_tokens_free(self@, transaction_id@, t);
        }
        let copy = t.duplicate();
        match self.compare_and_swap(from, copy) {
            Ok(()) => Ok(t),
            Err(e) => Err(e),
        }
    }

    /// Marks record `transaction_id` Failed for `reason` through the
    /// conditional write. A terminal record is left as it is and reported as
    /// an invalid-state error; nothing changes on failure.
    pub fn mark_as_failed(&mut self, transaction_id: &str, reason: String, now: i64) -> (r: Result<
        Transaction,
        AppError,
    >)
        requires
            old(self).inv(),
        ensures
            final(self).inv(),
            final(self).ids() == old(self).ids(),
            ({
                let m = old(self)@;
                let id = transaction_id@;
                if !m.contains_key(id) {
                    not_found(r) && final(self)@ == m
                } else if m[id].status.terminal() {
                    rejected(r, m[id].status.name(), non_terminal_label()) && final(self)@ == m
                } else {
                    r == Ok::<Transaction, AppError>(failed(m[id], reason, now)) && final(self)@
                        == m.insert(id, failed(m[id], reason, now))
                }
            }),
    {
        proof {
            self.lemma_inv();
        }
        let t = match self.get_by_id(transaction_id) {
            Ok(t) => t,
            Err(e) => {
                return Err(e);
            },
        };
        let next = match t.fail(reason, now) {
            Ok(n) => n,
            Err(e) => {
                return Err(e);
            },
        };
        proof {
            lemma_own_tokens_free(self@, transaction_id@, next);
        }
        let copy = next.duplicate();
        match self.compare_and_swap(t.status, copy) {
            Ok(()) => Ok(next),
            Err(e) => Err(e),
        }
    }
}

} // verus!

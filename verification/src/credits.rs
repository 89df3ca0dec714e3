//! The append-only, balance-chained credit ledger.
//!
//! All transactions live in one log, ordered by `(created_at, id)`; the
//! transactions of one user form a singly linked chain whose head carries the
//! user's current balance.  Appends are serialized per user and reject any
//! change that would drive a balance negative; reads never lock.

use vstd::prelude::*;

use crate::amount::CreditAmount;
use crate::transactions::{clone_description, CreditTransaction, CreditTransactionCreate};
use crate::types::{TransactionId, UserId};

verus! {

/// Why an append was rejected.  A rejected append leaves the ledger
/// completely unchanged.
#[derive(Clone, Copy, Debug, PartialEq, Eq, Structural)]
pub enum LedgerError {
    /// The request's amount was not positive; nothing was validated further.
    AmountNotPositive,
    /// A subtractive transaction would have driven the balance below zero.
    InsufficientBalance,
    /// An additive transaction would have pushed the balance past the
    /// largest representable amount.
    BalanceOverflow,
}

/// The balance change a transaction stands for: its amount, signed by its
/// type's direction.
pub open spec fn signed_delta(t: CreditTransaction) -> int {
    if t.transaction_type.is_additive() {
        t.amount.micros as int
    } else {
        -(t.amount.micros as int)
    }
}

/// The transactions of one user, in the order they were appended.
pub open spec fn txs_of(log: Seq<CreditTransaction>, u: UserId) -> Seq<CreditTransaction>
    decreases log.len(),
{
    if log.len() == 0 {
        Seq::empty()
    } else if log.last().user_id == u {
        txs_of(log.drop_last(), u).push(log.last())
    } else {
        txs_of(log.drop_last(), u)
    }
}

/// The link conditions at position `i` of a user's chain: the first
/// transaction has no predecessor and starts from zero; every later one
/// points at the transaction before it and carries the balance obtained by
/// applying its own signed amount to its predecessor's balance.
pub open spec fn chain_link_ok(c: Seq<CreditTransaction>, i: int) -> bool {
    &&& (i == 0 ==> {
        &&& c[i].previous_transaction_id is None
        &&& c[i].balance_after.micros == signed_delta(c[i])
    })
    &&& (i > 0 ==> {
        &&& c[i].previous_transaction_id == Some(c[i - 1].id)
        &&& c[i].balance_after.micros == c[i - 1].balance_after.micros + signed_delta(c[i])
    })
}

/// Whether a sequence of transactions forms one unbroken chain.
pub open spec fn chain_linked(c: Seq<CreditTransaction>) -> bool {
    forall|i: int| 0 <= i < c.len() ==> #[trigger] chain_link_ok(c, i)
}

/// The current balance of a user in a log: the balance after the last
/// transaction of their chain, or zero when they have none.
pub open spec fn balance_in(log: Seq<CreditTransaction>, u: UserId) -> int {
    if txs_of(log, u).len() == 0 {
        0
    } else {
        txs_of(log, u).last().balance_after.micros as int
    }
}

/// The balance change a request asks for: its amount, signed by its type's
/// direction.
pub open spec fn requested_delta(req: CreditTransactionCreate) -> int {
    if req.transaction_type.is_additive() {
        req.amount.micros as int
    } else {
        -(req.amount.micros as int)
    }
}

/// Whether a log can accept an append request: the amount is positive and
/// applying it to the user's current balance neither goes below zero nor
/// past the largest representable amount.
pub open spec fn append_allowed(log: Seq<CreditTransaction>, req: CreditTransactionCreate) -> bool {
    &&& req.amount.micros > 0
    &&& 0 <= balance_in(log, req.user_id) + requested_delta(req) <= u64::MAX
}

/// The transaction a successful append commits, given the log it extends,
/// the identifier and the timestamp the ledger assigns.
pub open spec fn appended_tx(
    log: Seq<CreditTransaction>,
    req: CreditTransactionCreate,
    id: u64,
    at: u64,
) -> CreditTransaction {
    CreditTransaction {
        id: TransactionId { raw: id },
        user_id: req.user_id,
        transaction_type: req.transaction_type,
        amount: req.amount,
        balance_after: CreditAmount {
            micros: (balance_in(log, req.user_id) + requested_delta(req)) as u64,
        },
        previous_transaction_id: if txs_of(log, req.user_id).len() == 0 {
            None
        } else {
            Some(txs_of(log, req.user_id).last().id)
        },
        description: req.description,
        created_at: at,
    }
}

/// The sum of the signed amounts of a sequence of transactions.
pub open spec fn signed_sum(c: Seq<CreditTransaction>) -> int
    decreases c.len(),
{
    if c.len() == 0 {
        0
    } else {
        signed_sum(c.drop_last()) + signed_delta(c.last())
    }
}

/// The credit ledger: an append-only transaction log with per-user
/// balance chains.
pub struct Credits {
    log: Vec<CreditTransaction>,
    next_id: u64,
    clock: u64,
}

impl Credits {
    /// The transactions committed so far, in commit order.
    pub closed spec fn transactions(&self) -> Seq<CreditTransaction> {
        self.log@
    }

    /// The identifier the next committed transaction will receive.
    pub closed spec fn id_counter(&self) -> u64 {
        self.next_id
    }

    /// The timestamp the next committed transaction will receive.
    pub closed spec fn spec_clock(&self) -> u64 {
        self.clock
    }

    /// Whether an identifier is still available for one more append.
    pub open spec fn ids_remaining(&self) -> bool {
        self.id_counter() < u64::MAX
    }

    /// The ledger's invariant.
    ///
    /// The log is sorted by `(created_at, id)` with strictly increasing
    /// identifiers, every amount is positive, and every user's transactions
    /// form one unbroken balance chain.
    pub closed spec fn wf(&self) -> bool {
        &&& forall|i: int|
            0 <= i < self.log@.len() ==> (#[trigger] self.log@[i]).id.raw < self.next_id
        &&& forall|i: int|
            0 <= i < self.log@.len() ==> (#[trigger] self.log@[i]).created_at <= self.clock
        &&& forall|i: int|
            0 <= i < self.log@.len() ==> (#[trigger] self.log@[i]).amount.micros > 0
        &&& forall|i: int, j: int|
            0 <= i < j < self.log@.len() ==> (#[trigger] self.log@[i]).id.raw
                < (#[trigger] self.log@[j]).id.raw
        &&& forall|i: int, j: int|
            0 <= i < j < self.log@.len() ==> (#[trigger] self.log@[i]).created_at
                <= (#[trigger] self.log@[j]).created_at
        &&& forall|u: UserId| chain_linked(#[trigger] txs_of(self.log@, u))
    }

    /// A fresh, empty ledger.
    pub fn new() -> (l: Credits)
        ensures
            l.wf(),
            l.transactions() == Seq::<CreditTransaction>::empty(),
            l.id_counter() == 0,
            l.spec_clock() == 0,
    {
        let l = Credits { log: Vec::new(), next_id: 0, clock: 0 };
        proof {
            assert forall|u: UserId| chain_linked(#[trigger] txs_of(l.log@, u)) by {
                assert(txs_of(l.log@, u).len() == 0);
            }
        }
        l
    }

    /// Whether the ledger can still assign an identifier to one more
    /// transaction; [`Self::create_transaction`] requires it.
    pub fn can_append(&self) -> (r: bool)
        ensures
            r == self.ids_remaining(),
    {
        self.next_id < u64::MAX
    }

    /// Moves the ledger clock forward to `now`; a value behind the current
    /// clock leaves it unchanged, so the clock never runs backwards.
    pub fn advance_clock(&mut self, now: u64)
        requires
            old(self).wf(),
        ensures
            final(self).wf(),
            final(self).transactions() == old(self).transactions(),
            final(self).id_counter() == old(self).id_counter(),
            final(self).spec_clock() == if now > old(self).spec_clock() {
                now
            } else {
                old(self).spec_clock()
            },
    {
        if now > self.clock {
            self.clock = now;
        }
    }

    /// The position of the head of `u`'s chain in the log, when the chain is
    /// not empty.
    fn head_index(&self, u: UserId) -> (r: Option<usize>)
        ensures
            match r {
                Some(k) => {
                    &&& k < self.transactions().len()
                    &&& txs_of(self.transactions(), u).len() > 0
                    &&& self.transactions()[k as int] == txs_of(self.transactions(), u).last()
                },
                None => txs_of(self.transactions(), u).len() == 0,
            },
    {
        let n = self.log.len();
        let mut head: Option<usize> = None;
        let mut i: usize = 0;
        proof {
            assert(self.log@.take(0) =~= Seq::<CreditTransaction>::empty());
        }
        while i < n
            invariant
                i <= n,
                n == self.log@.len(),
                match head {
                    Some(k) => {
                        &&& k < i
                        &&& txs_of(self.log@.take(i as int), u).len() > 0
                        &&& self.log@[k as int] == txs_of(self.log@.take(i as int), u).last()
                    },
                    None => txs_of(self.log@.take(i as int), u).len() == 0,
                },
            decreases n - i,
        {
            proof {
                lemma_txs_of_take_step(self.log@, i as int, u);
            }
            if self.log[i].user_id == u {
                head = Some(i);
            }
            i += 1;
        }
        proof {
            assert(self.log@.take(n as int) =~= self.log@);
        }
        head
    }

    /// Appends one transaction to `request.user_id`'s chain.
    ///
    /// The whole append is one atomic step: under the per-user serialization
    /// this method stands for, it reads the chain head, computes the new
    /// balance from the head's balance and the signed amount, and commits
    /// exactly one new row referencing the head — or rejects the request and
    /// changes nothing at all.  Existing rows are never touched.
    pub fn create_transaction(&mut self, request: &CreditTransactionCreate) -> (result: Result<
        CreditTransaction,
        LedgerError,
    >)
        requires
            old(self).wf(),
            old(self).ids_remaining(),
        ensures
            final(self).wf(),
            result is Ok <==> append_allowed(old(self).transactions(), *request),
            result matches Ok(tx) ==> {
                &&& tx == appended_tx(
                    old(self).transactions(),
                    *request,
                    old(self).id_counter(),
                    old(self).spec_clock(),
                )
                &&& final(self).transactions() == old(self).transactions().push(tx)
                &&& final(self).id_counter() == old(self).id_counter() + 1
                &&& final(self).spec_clock() == old(self).spec_clock()
            },
            result matches Err(e) ==> {
                &&& *final(self) == *old(self)
                &&& (e == LedgerError::AmountNotPositive <==> request.amount.micros == 0)
                &&& (e == LedgerError::InsufficientBalance <==> request.amount.micros > 0
                    && !request.transaction_type.is_additive() && request.amount.micros as int
                    > balance_in(old(self).transactions(), request.user_id))
                &&& (e == LedgerError::BalanceOverflow <==> request.amount.micros > 0
                    && request.transaction_type.is_additive() && balance_in(
                    old(self).transactions(),
                    request.user_id,
                ) + request.amount.micros > u64::MAX)
            },
    {
        if request.amount.micros == 0 {
            return Err(LedgerError::AmountNotPositive);
        }
        let ghost s0 = self.log@;
        let u = request.user_id;
        let head = self.head_index(u);
        let prev_balance: u64;
        let prev_id: Option<TransactionId>;
        match head {
            Some(k) => {
                prev_balance = self.log[k].balance_after.micros;
                prev_id = Some(self.log[k].id);
            },
            None => {
                prev_balance = 0;
                prev_id = None;
            },
        }
        assert(prev_balance == balance_in(s0, u));
        let new_balance: u64;
        if request.transaction_type.additive() {
            if prev_balance > u64::MAX - request.amount.micros {
                return Err(LedgerError::BalanceOverflow);
            }
            new_balance = prev_balance + request.amount.micros;
        } else {
            if request.amount.micros > prev_balance {
                return Err(LedgerError::InsufficientBalance);
            }
            new_balance = prev_balance - request.amount.micros;
        }
        let tx = CreditTransaction {
            id: TransactionId { raw: self.next_id },
            user_id: u,
            transaction_type: request.transaction_type,
            amount: request.amount,
            balance_after: CreditAmount { micros: new_balance },
            previous_transaction_id: prev_id,
            description: clone_description(&request.description),
            created_at: self.clock,
        };
        let committed = tx.clone();
        let ghost gtx = tx;
        self.log.push(tx);
        self.next_id = self.next_id + 1;
        proof {
            let s1 = s0.push(gtx);
            assert(gtx == appended_tx(s0, *request, old(self).id_counter(), old(self).spec_clock()));
            assert forall|i: int| 0 <= i < s1.len() implies (#[trigger] s1[i]).id.raw
                < self.next_id by {
                if i < s0.len() {
                    assert(s0[i].id.raw < old(self).id_counter());
                }
            }
            assert forall|i: int| 0 <= i < s1.len() implies (#[trigger] s1[i]).created_at
                <= self.clock by {
                if i < s0.len() {
                    assert(s0[i].created_at <= old(self).spec_clock());
                }
            }
            assert forall|i: int, j: int| 0 <= i < j < s1.len() implies (#[trigger] s1[i]).id.raw
                < (#[trigger] s1[j]).id.raw by {
                if j < s0.len() {
                    assert(s0[i].id.raw < s0[j].id.raw);
                } else {
                    assert(s0[i].id.raw < old(self).id_counter());
                }
            }
            assert forall|i: int, j: int|
                0 <= i < j < s1.len() implies (#[trigger] s1[i]).created_at <= (#[trigger] s1[
                j
            ]).created_at by {
                if j < s0.len() {
                    assert(s0[i].created_at <= s0[j].created_at);
                } else {
                    assert(s0[i].created_at <= old(self).spec_clock());
                }
            }
            lemma_push_chains(s0, gtx);
        }
        Ok(committed)
    }

    /// Current balance of a user: the `balance_after` of their chain head,
    /// or zero when they have no transactions.  Read-only; never locks.
    pub fn get_user_balance(&self, user_id: UserId) -> (r: CreditAmount)
        ensures
            r.micros == balance_in(self.transactions(), user_id),
    {
        match self.head_index(user_id) {
            Some(k) => self.log[k].balance_after,
            None => CreditAmount { micros: 0 },
        }
    }

    /// Current balances for many users at once.
    ///
    /// The result holds one entry per requested user that has at least one
    /// transaction, carrying that user's chain-head balance; users with no
    /// transactions are simply absent, and no user appears twice however
    /// often they were requested.  Read-only; never locks.
    pub fn get_users_balances_bulk(&self, user_ids: &Vec<UserId>) -> (r: Vec<
        (UserId, CreditAmount),
    >)
        ensures
            forall|k1: int, k2: int|
                0 <= k1 < k2 < r@.len() ==> (#[trigger] r@[k1]).0 != (#[trigger] r@[k2]).0,
            forall|k: int|
                0 <= k < r@.len() ==> {
                    &&& user_ids@.contains((#[trigger] r@[k]).0)
                    &&& txs_of(self.transactions(), r@[k].0).len() > 0
                    &&& r@[k].1.micros == balance_in(self.transactions(), r@[k].0)
                },
            forall|j: int|
                0 <= j < user_ids@.len() && txs_of(self.transactions(), #[trigger] user_ids@[j]).len()
                    > 0 ==> has_entry_for(r@, user_ids@[j]),
    {
        let mut r: Vec<(UserId, CreditAmount)> = Vec::new();
        let mut idx: usize = 0;
        while idx < user_ids.len()
            invariant
                forall|k1: int, k2: int|
                    0 <= k1 < k2 < r@.len() ==> (#[trigger] r@[k1]).0 != (#[trigger] r@[k2]).0,
                forall|k: int|
                    0 <= k < r@.len() ==> {
                        &&& user_ids@.contains((#[trigger] r@[k]).0)
                        &&& txs_of(self.transactions(), r@[k].0).len() > 0
                        &&& r@[k].1.micros == balance_in(self.transactions(), r@[k].0)
                    },
                forall|j: int|
                    0 <= j < idx && txs_of(self.transactions(), #[trigger] user_ids@[j]).len() > 0
                        ==> has_entry_for(r@, user_ids@[j]),
            decreases user_ids.len() - idx,
        {
            let u = user_ids[idx];
            let mut seen = false;
            let mut k: usize = 0;
            while k < r.len()
                invariant
                    k <= r@.len(),
                    seen <==> exists|k0: int| 0 <= k0 < k && (#[trigger] r@[k0]).0 == u,
                decreases r@.len() - k,
            {
                if r[k].0 == u {
                    seen = true;
                }
                k += 1;
            }
            let ghost r_before = r@;
            if !seen {
                match self.head_index(u) {
                    Some(hk) => {
                        let balance = self.log[hk].balance_after;
                        r.push((u, balance));
                    },
                    None => {},
                }
            }
            proof {
                assert(user_ids@[idx as int] == u);
                assert(user_ids@.contains(u));
                if !seen && r@.len() == r_before.len() + 1 {
                    assert forall|k1: int| 0 <= k1 < r@.len() - 1 implies (#[trigger] r@[k1]).0
                        != u by {
                        assert(r@[k1] == r_before[k1]);
                    }
                }
                assert forall|j: int|
                    0 <= j < idx + 1 && txs_of(self.transactions(), #[trigger] user_ids@[j]).len()
                        > 0 implies has_entry_for(r@, user_ids@[j]) by {
                    if j < idx {
                        let k0 = choose|k0: int|
                            0 <= k0 < r_before.len() && (#[trigger] r_before[k0]).0 == user_ids@[j];
                        assert(r@[k0].0 == user_ids@[j]);
                    } else if seen {
                        let k0 = choose|k0: int|
                            0 <= k0 < r_before.len() && (#[trigger] r_before[k0]).0 == u;
                        assert(r@[k0].0 == u);
                    } else {
                        assert(r@[r@.len() - 1].0 == u);
                    }
                }
            }
            idx += 1;
        }
        r
    }

    /// The transactions of one user, most recent first, paginated.
    ///
    /// Skipping `skip` entries of the most-recent-first ordering, at most
    /// `limit` transactions are returned; a `skip` at or past the chain
    /// length yields an empty result.  Stateless: the same arguments against
    /// the same ledger return the same page.
    pub fn list_user_transactions(&self, user_id: UserId, skip: usize, limit: usize) -> (r: Vec<
        CreditTransaction,
    >)
        ensures
            r@.len() == page_len(
                txs_of(self.transactions(), user_id).len() as int,
                skip as int,
                limit as int,
            ),
            forall|i: int|
                0 <= i < r@.len() ==> r@[i] == txs_of(self.transactions(), user_id)[txs_of(
                    self.transactions(),
                    user_id,
                ).len() - 1 - skip - i],
    {
        let idxs = self.chain_indices(user_id);
        let m = idxs.len();
        let ghost c = txs_of(self.transactions(), user_id);
        let mut r: Vec<CreditTransaction> = Vec::new();
        if skip >= m {
            return r;
        }
        let avail = m - skip;
        let mut j: usize = 0;
        while j < limit && j < avail
            invariant
                skip + avail == m,
                m == c.len(),
                m == idxs@.len(),
                j <= avail,
                j <= limit,
                forall|k: int| 0 <= k < m ==> (#[trigger] idxs@[k]) < self.log@.len(),
                forall|k: int| 0 <= k < m ==> self.log@[idxs@[k] as int] == c[k],
                r@.len() == j,
                forall|i: int| 0 <= i < j ==> r@[i] == c[m - 1 - skip - i],
            decreases avail - j,
        {
            let pos = m - 1 - skip - j;
            r.push(self.log[idxs[pos]].clone());
            j += 1;
        }
        r
    }

    /// All transactions across all users, most recent first, paginated the
    /// same way as [`Self::list_user_transactions`].
    pub fn list_all_transactions(&self, skip: usize, limit: usize) -> (r: Vec<CreditTransaction>)
        ensures
            r@.len() == page_len(self.transactions().len() as int, skip as int, limit as int),
            forall|i: int|
                0 <= i < r@.len() ==> r@[i] == self.transactions()[self.transactions().len() - 1
                    - skip - i],
    {
        let n = self.log.len();
        let mut r: Vec<CreditTransaction> = Vec::new();
        if skip >= n {
            return r;
        }
        let avail = n - skip;
        let mut j: usize = 0;
        while j < limit && j < avail
            invariant
                skip + avail == n,
                n == self.log@.len(),
                j <= avail,
                j <= limit,
                r@.len() == j,
                forall|i: int| 0 <= i < j ==> r@[i] == self.log@[n - 1 - skip - i],
            decreases avail - j,
        {
            let pos = n - 1 - skip - j;
            r.push(self.log[pos].clone());
            j += 1;
        }
        r
    }

    /// Point lookup of a transaction by its identifier.
    pub fn get_transaction_by_id(&self, transaction_id: TransactionId) -> (r: Option<
        CreditTransaction,
    >)
        ensures
            r matches Some(t) ==> exists|i: int|
                0 <= i < self.transactions().len() && #[trigger] self.transactions()[i] == t
                    && t.id == transaction_id,
            r is None ==> forall|i: int|
                0 <= i < self.transactions().len() ==> (#[trigger] self.transactions()[i]).id
                    != transaction_id,
    {
        let n = self.log.len();
        let mut i: usize = 0;
        while i < n
            invariant
                i <= n,
                n == self.log@.len(),
                forall|k: int| 0 <= k < i ==> (#[trigger] self.log@[k]).id != transaction_id,
            decreases n - i,
        {
            if self.log[i].id == transaction_id {
                return Some(self.log[i].clone());
            }
            i += 1;
        }
        None
    }

    /// The log positions of one user's chain, in chain order.
    fn chain_indices(&self, u: UserId) -> (idxs: Vec<usize>)
        ensures
            idxs@.len() == txs_of(self.transactions(), u).len(),
            forall|k: int| 0 <= k < idxs@.len() ==> (#[trigger] idxs@[k]) < self.transactions().len(),
            forall|k: int|
                0 <= k < idxs@.len() ==> self.transactions()[#[trigger] idxs@[k] as int] == txs_of(
                    self.transactions(),
                    u,
                )[k],
    {
        let n = self.log.len();
        let mut idxs: Vec<usize> = Vec::new();
        let mut i: usize = 0;
        proof {
            assert(self.log@.take(0) =~= Seq::<CreditTransaction>::empty());
        }
        while i < n
            invariant
                i <= n,
                n == self.log@.len(),
                idxs@.len() == txs_of(self.log@.take(i as int), u).len(),
                forall|k: int| 0 <= k < idxs@.len() ==> (#[trigger] idxs@[k]) < i,
                forall|k: int|
                    0 <= k < idxs@.len() ==> self.log@[#[trigger] idxs@[k] as int] == txs_of(
                        self.log@.take(i as int),
                        u,
                    )[k],
            decreases n - i,
        {
            proof {
                lemma_txs_of_take_step(self.log@, i as int, u);
            }
            if self.log[i].user_id == u {
                idxs.push(i);
            }
            i += 1;
        }
        proof {
            assert(self.log@.take(n as int) =~= self.log@);
        }
        idxs
    }
}

/// Whether a bulk-balance result holds an entry for user `u`.
pub open spec fn has_entry_for(r: Seq<(UserId, CreditAmount)>, u: UserId) -> bool {
    exists|k: int| 0 <= k < r.len() && (#[trigger] r[k]).0 == u
}

/// How many entries a page with the given `skip` and `limit` holds out of
/// `total` available entries.
pub open spec fn page_len(total: int, skip: int, limit: int) -> int {
    if skip >= total {
        0
    } else if limit <= total - skip {
        limit
    } else {
        total - skip
    }
}

/// Appending one transaction to the log appends it to its owner's chain and
/// leaves every other user's chain untouched.
pub proof fn lemma_txs_of_push(s: Seq<CreditTransaction>, t: CreditTransaction, u: UserId)
    ensures
        txs_of(s.push(t), u) == if t.user_id == u {
            txs_of(s, u).push(t)
        } else {
            txs_of(s, u)
        },
{
    assert(s.push(t).drop_last() =~= s);
    assert(s.push(t).last() == t);
}

/// A pushed transaction that links correctly onto its own chain's head
/// keeps every user's chain unbroken.
proof fn lemma_push_chains(s0: Seq<CreditTransaction>, tx: CreditTransaction)
    requires
        forall|v: UserId| chain_linked(#[trigger] txs_of(s0, v)),
        chain_link_ok(txs_of(s0, tx.user_id).push(tx), txs_of(s0, tx.user_id).len() as int),
    ensures
        forall|v: UserId| chain_linked(#[trigger] txs_of(s0.push(tx), v)),
{
    assert forall|v: UserId| chain_linked(#[trigger] txs_of(s0.push(tx), v)) by {
        lemma_txs_of_push(s0, tx, v);
        if v == tx.user_id {
            let c0 = txs_of(s0, v);
            let c1 = c0.push(tx);
            assert forall|i: int| 0 <= i < c1.len() implies #[trigger] chain_link_ok(c1, i) by {
                if i < c0.len() {
                    assert(chain_link_ok(c0, i));
                }
            }
        }
    }
}

/// Every transaction of a user's chain stands somewhere in the log.
proof fn lemma_txs_of_member(s: Seq<CreditTransaction>, u: UserId)
    ensures
        forall|k: int|
            0 <= k < txs_of(s, u).len() ==> exists|i: int|
                0 <= i < s.len() && #[trigger] s[i] == #[trigger] txs_of(s, u)[k],
    decreases s.len(),
{
    if s.len() > 0 {
        let c = txs_of(s, u);
        let s0 = s.drop_last();
        let c0 = txs_of(s0, u);
        lemma_txs_of_member(s0, u);
        assert forall|k: int| 0 <= k < c.len() implies exists|i: int|
            0 <= i < s.len() && #[trigger] s[i] == #[trigger] c[k] by {
            if k < c0.len() {
                let i = choose|i: int| 0 <= i < s0.len() && #[trigger] s0[i] == c0[k];
                assert(s[i] == c[k]);
            } else {
                assert(s[s.len() - 1] == c[k]);
            }
        }
    }
}

/// In a log whose identifiers strictly increase, the identifiers along any
/// user's chain strictly increase as well.
proof fn lemma_chain_ids_increasing(s: Seq<CreditTransaction>, u: UserId)
    requires
        forall|i: int, j: int|
            0 <= i < j < s.len() ==> (#[trigger] s[i]).id.raw < (#[trigger] s[j]).id.raw,
    ensures
        forall|k1: int, k2: int|
            0 <= k1 < k2 < txs_of(s, u).len() ==> (#[trigger] txs_of(s, u)[k1]).id.raw
                < (#[trigger] txs_of(s, u)[k2]).id.raw,
    decreases s.len(),
{
    if s.len() > 0 {
        let c = txs_of(s, u);
        let s0 = s.drop_last();
        let c0 = txs_of(s0, u);
        lemma_chain_ids_increasing(s0, u);
        lemma_txs_of_member(s0, u);
        assert forall|k1: int, k2: int| 0 <= k1 < k2 < c.len() implies (#[trigger] c[k1]).id.raw
            < (#[trigger] c[k2]).id.raw by {
            if k2 < c0.len() {
                assert(c0[k1].id.raw < c0[k2].id.raw);
            } else {
                let i = choose|i: int| 0 <= i < s0.len() && #[trigger] s0[i] == c0[k1];
                assert(s[i].id.raw < s[s.len() - 1].id.raw);
            }
        }
    }
}

/// Every transaction of a user's chain carries that user's id.
proof fn lemma_txs_of_owner(s: Seq<CreditTransaction>, u: UserId)
    ensures
        forall|k: int| 0 <= k < txs_of(s, u).len() ==> (#[trigger] txs_of(s, u)[k]).user_id == u,
    decreases s.len(),
{
    if s.len() > 0 {
        lemma_txs_of_owner(s.drop_last(), u);
    }
}

/// Every transaction of the log stands somewhere in its owner's chain.
proof fn lemma_log_tx_in_own_chain(s: Seq<CreditTransaction>)
    ensures
        forall|i: int|
            0 <= i < s.len() ==> exists|k: int|
                0 <= k < txs_of(s, (#[trigger] s[i]).user_id).len() && txs_of(
                    s,
                    s[i].user_id,
                )[k] == s[i],
    decreases s.len(),
{
    if s.len() > 0 {
        let s0 = s.drop_last();
        lemma_log_tx_in_own_chain(s0);
        assert(s0.push(s.last()) =~= s);
        assert forall|i: int| 0 <= i < s.len() implies exists|k: int|
            0 <= k < txs_of(s, (#[trigger] s[i]).user_id).len() && txs_of(s, s[i].user_id)[k]
                == s[i] by {
            let v = s[i].user_id;
            lemma_txs_of_push(s0, s.last(), v);
            if i < s0.len() {
                let k = choose|k: int|
                    0 <= k < txs_of(s0, (#[trigger] s0[i]).user_id).len() && txs_of(
                        s0,
                        s0[i].user_id,
                    )[k] == s0[i];
                assert(txs_of(s, v)[k] == s[i]);
            } else {
                assert(txs_of(s, v)[txs_of(s, v).len() - 1] == s[i]);
            }
        }
    }
}

/// A transaction that references a predecessor stands right behind it in
/// its own chain: the referenced id is its chain predecessor's.
proof fn lemma_reference_is_chain_predecessor(s: Seq<CreditTransaction>, i: int)
    requires
        forall|v: UserId| chain_linked(#[trigger] txs_of(s, v)),
        0 <= i < s.len(),
        s[i].previous_transaction_id is Some,
    ensures
        exists|k: int|
            1 <= k < txs_of(s, s[i].user_id).len() && #[trigger] txs_of(s, s[i].user_id)[k] == s[i]
                && Some(txs_of(s, s[i].user_id)[k - 1].id) == s[i].previous_transaction_id,
{
    lemma_log_tx_in_own_chain(s);
    let v = s[i].user_id;
    let c = txs_of(s, v);
    let k = choose|k: int| 0 <= k < c.len() && txs_of(s, (s[i]).user_id)[k] == s[i];
    assert(chain_link_ok(c, k));
}

/// Two log positions holding the same identifier are the same position.
proof fn lemma_log_ids_injective(s: Seq<CreditTransaction>, a: int, b: int)
    requires
        forall|i: int, j: int|
            0 <= i < j < s.len() ==> (#[trigger] s[i]).id.raw < (#[trigger] s[j]).id.raw,
        0 <= a < s.len(),
        0 <= b < s.len(),
        s[a].id == s[b].id,
    ensures
        a == b,
{
    if a < b {
        assert(s[a].id.raw < s[b].id.raw);
    } else if b < a {
        assert(s[b].id.raw < s[a].id.raw);
    }
}

/// No branching: two distinct committed transactions never reference the
/// same predecessor, so every transaction has at most one successor.
pub proof fn lemma_at_most_one_successor(l: Credits, i: int, j: int)
    requires
        l.wf(),
        0 <= i < l.transactions().len(),
        0 <= j < l.transactions().len(),
        i != j,
        l.transactions()[i].previous_transaction_id is Some,
    ensures
        l.transactions()[i].previous_transaction_id != l.transactions()[
            j
        ].previous_transaction_id,
{
    let s = l.transactions();
    if s[i].previous_transaction_id == s[j].previous_transaction_id {
        lemma_reference_is_chain_predecessor(s, i);
        lemma_reference_is_chain_predecessor(s, j);
        let ci = txs_of(s, s[i].user_id);
        let cj = txs_of(s, s[j].user_id);
        let ki = choose|k: int|
            1 <= k < ci.len() && #[trigger] ci[k] == s[i] && Some(ci[k - 1].id)
                == s[i].previous_transaction_id;
        let kj = choose|k: int|
            1 <= k < cj.len() && #[trigger] cj[k] == s[j] && Some(cj[k - 1].id)
                == s[j].previous_transaction_id;
        lemma_txs_of_member(s, s[i].user_id);
        lemma_txs_of_member(s, s[j].user_id);
        let a = choose|a: int| 0 <= a < s.len() && #[trigger] s[a] == ci[ki - 1];
        let b = choose|b: int| 0 <= b < s.len() && #[trigger] s[b] == cj[kj - 1];
        lemma_log_ids_injective(s, a, b);
        lemma_txs_of_owner(s, s[i].user_id);
        lemma_txs_of_owner(s, s[j].user_id);
        assert(s[i].user_id == s[j].user_id);
        lemma_chain_ids_increasing(s, s[i].user_id);
        assert(ki == kj);
        let ii = choose|ii: int| 0 <= ii < s.len() && #[trigger] s[ii] == ci[ki];
        lemma_log_ids_injective(s, i, ii);
        lemma_log_ids_injective(s, j, ii);
    }
}

/// The chain head is the transaction nobody references: no committed
/// transaction carries the head's id as its `previous_transaction_id`.
pub proof fn lemma_head_unreferenced(l: Credits, u: UserId, i: int)
    requires
        l.wf(),
        txs_of(l.transactions(), u).len() > 0,
        0 <= i < l.transactions().len(),
    ensures
        l.transactions()[i].previous_transaction_id != Some(
            txs_of(l.transactions(), u).last().id,
        ),
{
    let s = l.transactions();
    let cu = txs_of(s, u);
    let head = cu.last();
    if s[i].previous_transaction_id == Some(head.id) {
        lemma_reference_is_chain_predecessor(s, i);
        let cv = txs_of(s, s[i].user_id);
        let k = choose|k: int|
            1 <= k < cv.len() && #[trigger] cv[k] == s[i] && Some(cv[k - 1].id)
                == s[i].previous_transaction_id;
        lemma_txs_of_member(s, s[i].user_id);
        lemma_txs_of_member(s, u);
        let a = choose|a: int| 0 <= a < s.len() && #[trigger] s[a] == cv[k - 1];
        let b = choose|b: int| 0 <= b < s.len() && #[trigger] s[b] == cu[cu.len() - 1];
        lemma_log_ids_injective(s, a, b);
        lemma_txs_of_owner(s, s[i].user_id);
        lemma_txs_of_owner(s, u);
        assert(s[i].user_id == u);
        lemma_chain_ids_increasing(s, u);
        assert(k - 1 == cu.len() - 1);
    }
}

/// Along an unbroken chain, the head's balance is the sum of all signed
/// amounts applied in chain order.
proof fn lemma_linked_sum(c: Seq<CreditTransaction>)
    requires
        chain_linked(c),
    ensures
        c.len() > 0 ==> c.last().balance_after.micros == signed_sum(c),
    decreases c.len(),
{
    if c.len() > 0 {
        let c0 = c.drop_last();
        assert(chain_link_ok(c, c.len() - 1));
        assert forall|i: int| 0 <= i < c0.len() implies #[trigger] chain_link_ok(c0, i) by {
            assert(chain_link_ok(c, i));
        }
        lemma_linked_sum(c0);
        assert(signed_sum(c) == signed_sum(c0) + signed_delta(c.last()));
        if c0.len() > 0 {
            assert(c0.last() == c[c.len() - 2]);
            assert(c.last().balance_after.micros == c0.last().balance_after.micros + signed_delta(
                c.last(),
            ));
        } else {
            assert(c.last().balance_after.micros == signed_delta(c.last()));
        }
    }
}

/// Chain integrity: for any user of a well-formed ledger, the transaction
/// chain is unbroken — the first transaction has no predecessor and starts
/// from zero, every later one references the transaction before it and
/// carries the balance obtained from its predecessor's balance and its own
/// signed amount — and no two links share an identifier, so walking the
/// chain head-to-tail terminates and visits each transaction exactly once.
pub proof fn lemma_chain_integrity(l: Credits, u: UserId)
    requires
        l.wf(),
    ensures
        chain_linked(txs_of(l.transactions(), u)),
        forall|k1: int, k2: int|
            0 <= k1 < k2 < txs_of(l.transactions(), u).len() ==> (#[trigger] txs_of(
                l.transactions(),
                u,
            )[k1]).id != (#[trigger] txs_of(l.transactions(), u)[k2]).id,
{
    lemma_chain_ids_increasing(l.transactions(), u);
    let c = txs_of(l.transactions(), u);
    assert forall|k1: int, k2: int| 0 <= k1 < k2 < c.len() implies (#[trigger] c[k1]).id
        != (#[trigger] c[k2]).id by {
        assert(c[k1].id.raw < c[k2].id.raw);
    }
}

/// No negative balances: every committed balance is non-negative, and so is
/// every user's current balance.  Amounts are represented as unsigned
/// quantities, so this holds by construction; an append that would have gone
/// below zero is rejected without committing anything, which is stated in
/// [`Credits::create_transaction`]'s contract.
pub proof fn lemma_no_negative_balances(l: Credits, u: UserId)
    ensures
        balance_in(l.transactions(), u) >= 0,
        forall|k: int|
            0 <= k < txs_of(l.transactions(), u).len() ==> #[trigger] txs_of(
                l.transactions(),
                u,
            )[k].balance_after.micros >= 0,
{
}

/// Idempotence of reads: two balance reads of the same user against the
/// same ledger state return the same value.  Reads take the ledger immutably
/// and [`Credits::get_user_balance`] pins its result to the state, so
/// repeated calls between writes cannot differ.
pub proof fn lemma_reads_idempotent(l: Credits, u: UserId, first: CreditAmount, second: CreditAmount)
    requires
        first.micros == balance_in(l.transactions(), u),
        second.micros == balance_in(l.transactions(), u),
    ensures
        first == second,
{
}

/// Serialized appends lose no update: in a well-formed ledger every user's
/// current balance equals the arithmetic sum of all their signed amounts in
/// commit order, however the committing writers were interleaved.
pub proof fn lemma_balance_is_signed_sum(l: Credits, u: UserId)
    requires
        l.wf(),
    ensures
        balance_in(l.transactions(), u) == signed_sum(txs_of(l.transactions(), u)),
{
    lemma_linked_sum(txs_of(l.transactions(), u));
}

/// Isolation across users: an append for one user leaves every other user's
/// chain, and therefore their balance, exactly as it was.
pub proof fn lemma_append_isolated(
    log: Seq<CreditTransaction>,
    tx: CreditTransaction,
    other: UserId,
)
    requires
        tx.user_id != other,
    ensures
        txs_of(log.push(tx), other) == txs_of(log, other),
        balance_in(log.push(tx), other) == balance_in(log, other),
{
    lemma_txs_of_push(log, tx, other);
}

/// An append moves its own user's balance to exactly the committed
/// transaction's `balance_after`.
pub proof fn lemma_append_updates_balance(log: Seq<CreditTransaction>, tx: CreditTransaction)
    ensures
        balance_in(log.push(tx), tx.user_id) == tx.balance_after.micros,
{
    lemma_txs_of_push(log, tx, tx.user_id);
}

/// How one scan step extends a user's chain: taking one more transaction
/// from the log appends it to the chain exactly when it belongs to the user.
proof fn lemma_txs_of_take_step(log: Seq<CreditTransaction>, i: int, u: UserId)
    requires
        0 <= i < log.len(),
    ensures
        txs_of(log.take(i + 1), u) == if log[i].user_id == u {
            txs_of(log.take(i), u).push(log[i])
        } else {
            txs_of(log.take(i), u)
        },
{
    assert(log.take(i + 1).drop_last() =~= log.take(i));
    assert(log.take(i + 1).last() == log[i]);
}

} // verus!

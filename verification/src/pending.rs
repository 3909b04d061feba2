use vstd::prelude::*;
use vstd::pervasive::VecAdditionalExecFns;

verus! {

/// Status of a pending transaction, ordered
/// `Building < Broadcasting < {Broadcast, Failed}`.
#[derive(Clone, Copy, Debug, PartialEq, Eq, Structural)]
pub enum PendingTxStatus {
    /// The transaction is being built (proof generation).
    Building,
    /// The transaction is being broadcast.
    Broadcasting,
    /// The transaction was broadcast successfully; terminal.
    Broadcast,
    /// The transaction failed; terminal.
    Failed,
}

/// Position of a status along the lifecycle order.
pub open spec fn status_rank(s: PendingTxStatus) -> int {
    match s {
        PendingTxStatus::Building => 0,
        PendingTxStatus::Broadcasting => 1,
        PendingTxStatus::Broadcast => 2,
        PendingTxStatus::Failed => 2,
    }
}

/// Whether a status is terminal: a record with a terminal status never
/// changes again.
pub open spec fn is_terminal(s: PendingTxStatus) -> bool {
    s is Broadcast || s is Failed
}

/// A transaction being processed in the background. The tracker map owns
/// all records; callers receive copies, never references.
#[derive(Debug)]
pub struct PendingTransaction {
    /// Tracking id, issued by the coordinator before a txid is known.
    pub id: u64,
    /// Transaction id, available once the transaction is broadcast.
    pub txid: Option<String>,
    /// Recipient address.
    pub to_address: String,
    /// Amount in zatoshis.
    pub amount: u64,
    /// Optional memo text; handed to the engine as bytes at send time.
    pub memo: Option<String>,
    /// Current lifecycle status.
    pub status: PendingTxStatus,
    /// Error message if the transaction failed.
    pub error: Option<String>,
    /// Timestamp (seconds) when the transaction was initiated.
    pub created_at: u64,
}

/// Copy of an optional string, equal to the original.
pub fn clone_opt_string(o: &Option<String>) -> (r: Option<String>)
    ensures
        r == *o,
{
    match o {
        Some(s) => Some(s.clone()),
        None => None,
    }
}

impl Clone for PendingTransaction {
    /// An exact copy: callers get snapshots of tracked records.
    fn clone(&self) -> (r: Self)
        ensures
            r == *self,
    {
        PendingTransaction {
            id: self.id,
            txid: clone_opt_string(&self.txid),
            to_address: self.to_address.clone(),
            amount: self.amount,
            memo: clone_opt_string(&self.memo),
            status: self.status,
            error: clone_opt_string(&self.error),
            created_at: self.created_at,
        }
    }
}

/// First record with the given id, if any.
pub open spec fn spec_lookup(s: Seq<PendingTransaction>, id: u64) -> Option<PendingTransaction>
    decreases s.len(),
{
    if s.len() == 0 {
        None
    } else if s[0].id == id {
        Some(s[0])
    } else {
        spec_lookup(s.drop_first(), id)
    }
}

/// Whether some record in the sequence carries the given id.
pub open spec fn contains_id(s: Seq<PendingTransaction>, id: u64) -> bool {
    exists|i: int| 0 <= i < s.len() && s[i].id == id
}

/// `spec_lookup` finds a record exactly when the id occurs, and, when the
/// ids of the sequence are distinct, it finds the record at the (unique)
/// position carrying the id.
pub proof fn lemma_lookup_properties(s: Seq<PendingTransaction>, id: u64)
    ensures
        contains_id(s, id) <==> spec_lookup(s, id) is Some,
        spec_lookup(s, id) is Some ==> exists|i: int|
            0 <= i < s.len() && s[i].id == id && spec_lookup(s, id) == Some(s[i]),
        (forall|i: int, j: int| 0 <= i < j < s.len() ==> s[i].id != s[j].id) ==>
            forall|i: int| 0 <= i < s.len() && s[i].id == id ==> spec_lookup(s, id) == Some(s[i]),
    decreases s.len(),
{
    if s.len() == 0 {
    } else if s[0].id == id {
        assert(contains_id(s, id));
    } else {
        lemma_lookup_properties(s.drop_first(), id);
        let tail = s.drop_first();
        assert forall|i: int| 0 <= i < s.len() && s[i].id == id implies i >= 1 by {}
        if contains_id(s, id) {
            let i = choose|i: int| 0 <= i < s.len() && s[i].id == id;
            assert(tail[i - 1] == s[i]);
            assert(contains_id(tail, id));
        }
        if contains_id(tail, id) {
            let i = choose|i: int| 0 <= i < tail.len() && tail[i].id == id;
            assert(s[i + 1] == tail[i]);
            assert(contains_id(s, id));
        }
        if (forall|i: int, j: int| 0 <= i < j < s.len() ==> s[i].id != s[j].id) {
            assert forall|i: int, j: int| 0 <= i < j < tail.len() implies tail[i].id != tail[j].id by {
                assert(tail[i] == s[i + 1]);
                assert(tail[j] == s[j + 1]);
            }
            assert forall|i: int| 0 <= i < s.len() && s[i].id == id
                implies spec_lookup(s, id) == Some(s[i]) by {
                assert(tail[i - 1] == s[i]);
            }
        }
    }
}

/// The record as it stands after an `update_status(_, status, txid, error)`
/// call reaches it. A terminal record is frozen; a regression along the
/// status order is ignored; otherwise the status and error are overwritten
/// and the txid is set only when one is provided, never cleared.
pub open spec fn apply_update(
    r: PendingTransaction,
    status: PendingTxStatus,
    txid: Option<String>,
    error: Option<String>,
) -> PendingTransaction {
    if is_terminal(r.status) {
        r
    } else if status_rank(status) >= status_rank(r.status) {
        PendingTransaction {
            status: status,
            txid: if txid is Some { txid } else { r.txid },
            error: error,
            ..r
        }
    } else {
        r
    }
}

/// Observed status ranks never decrease, terminal records never change,
/// and a recorded txid is never cleared; the identity of the record (id,
/// recipient, amount, memo, creation time) is immutable.
pub proof fn lemma_status_monotonic(
    r: PendingTransaction,
    status: PendingTxStatus,
    txid: Option<String>,
    error: Option<String>,
)
    ensures
        status_rank(apply_update(r, status, txid, error).status) >= status_rank(r.status),
        is_terminal(r.status) ==> apply_update(r, status, txid, error) == r,
        r.txid is Some ==> apply_update(r, status, txid, error).txid is Some,
        apply_update(r, status, txid, error).id == r.id,
        apply_update(r, status, txid, error).to_address == r.to_address,
        apply_update(r, status, txid, error).amount == r.amount,
        apply_update(r, status, txid, error).memo == r.memo,
        apply_update(r, status, txid, error).created_at == r.created_at,
{
}

/// The whole tracker sequence after an update reaches the record with the
/// given id: that record (if present) becomes `apply_update` of itself, and
/// every other record is untouched.
pub open spec fn spec_update_all(
    s: Seq<PendingTransaction>,
    id: u64,
    status: PendingTxStatus,
    txid: Option<String>,
    error: Option<String>,
) -> Seq<PendingTransaction> {
    Seq::new(
        s.len(),
        |i: int|
            if s[i].id == id {
                apply_update(s[i], status, txid, error)
            } else {
                s[i]
            },
    )
}

/// Monotonicity over the whole tracker: an update call leaves every
/// record's identity in place and never lowers any record's status rank,
/// so observed status sequences are non-decreasing over time.
pub proof fn lemma_tracker_status_monotonic(
    s: Seq<PendingTransaction>,
    id: u64,
    status: PendingTxStatus,
    txid: Option<String>,
    error: Option<String>,
)
    ensures
        spec_update_all(s, id, status, txid, error).len() == s.len(),
        forall|i: int| 0 <= i < s.len() ==> status_rank(
            #[trigger] spec_update_all(s, id, status, txid, error)[i].status,
        ) >= status_rank(s[i].status),
        forall|i: int| 0 <= i < s.len() ==> #[trigger] spec_update_all(
            s, id, status, txid, error,
        )[i].id == s[i].id,
{
    assert forall|i: int| 0 <= i < s.len() implies status_rank(
        #[trigger] spec_update_all(s, id, status, txid, error)[i].status,
    ) >= status_rank(s[i].status) && spec_update_all(s, id, status, txid, error)[i].id
        == s[i].id by {
        lemma_status_monotonic(s[i], status, txid, error);
    }
}

/// Relation between the tracker sequences before and after a `remove(id)`:
/// the record with the given id (if present) is gone, and everything else
/// is untouched, in order.
pub open spec fn spec_removed(
    s0: Seq<PendingTransaction>,
    s1: Seq<PendingTransaction>,
    id: u64,
) -> bool {
    &&& !contains_id(s1, id)
    &&& contains_id(s0, id) ==> exists|j: int|
        0 <= j < s0.len() && s0[j].id == id && s1 == s0.remove(j)
    &&& !contains_id(s0, id) ==> s1 == s0
}

/// Tracker of pending transactions, a map from tracking id to record.
/// Ids are issued by the tracker itself and never reused.
#[derive(Debug)]
pub struct PendingTxState {
    transactions: Vec<PendingTransaction>,
    next_id: u64,
}

impl View for PendingTxState {
    type V = Seq<PendingTransaction>;

    closed spec fn view(&self) -> Seq<PendingTransaction> {
        self.transactions@
    }
}

impl PendingTxState {
    /// Upper bound on every id the tracker has issued or stored.
    pub closed spec fn issued(&self) -> u64 {
        self.next_id
    }

    /// Well-formed: stored ids are distinct and below the issue watermark.
    pub open spec fn wf(&self) -> bool {
        &&& forall|i: int, j: int| 0 <= i < j < self@.len() ==> self@[i].id != self@[j].id
        &&& forall|i: int| 0 <= i < self@.len() ==> #[trigger] self@[i].id < self.issued()
    }

    /// An empty tracker.
    pub fn new() -> (t: Self)
        ensures
            t.wf(),
            t@ == Seq::<PendingTransaction>::empty(),
            t.issued() == 0,
    {
        PendingTxState { transactions: Vec::new(), next_id: 0 }
    }

    /// The id the next inserted record will receive.
    pub fn watermark(&self) -> (r: u64)
        ensures
            r == self.issued(),
    {
        self.next_id
    }

    /// Position of the record with the given id, if present.
    fn find_index(&self, id: u64) -> (r: Option<usize>)
        ensures
            match r {
                Some(i) => i < self@.len() && self@[i as int].id == id,
                None => !contains_id(self@, id),
            },
    {
        let mut i: usize = 0;
        while i < self.transactions.len()
            invariant
                i <= self@.len(),
                forall|k: int| 0 <= k < i ==> self@[k].id != id,
            decreases self@.len() - i,
        {
            if self.transactions[i].id == id {
                return Some(i);
            }
            i = i + 1;
        }
        None
    }

    /// Insert a record, replacing any record that already carries its id,
    /// and advance the issue watermark past it.
    pub fn add(&mut self, tx: PendingTransaction)
        requires
            old(self).wf(),
            tx.id < u64::MAX,
        ensures
            final(self).wf(),
            final(self).issued() >= old(self).issued(),
            final(self).issued() > tx.id,
            contains_id(old(self)@, tx.id) ==> {
                &&& final(self)@.len() == old(self)@.len()
                &&& forall|i: int| 0 <= i < final(self)@.len() ==>
                    final(self)@[i] == (if old(self)@[i].id == tx.id { tx } else { old(self)@[i] })
            },
            !contains_id(old(self)@, tx.id) ==> final(self)@ == old(self)@.push(tx),
    {
        let ghost tx_g = tx;
        if tx.id >= self.next_id {
            self.next_id = tx.id + 1;
        }
        match self.find_index(tx.id) {
            Some(i) => {
                self.transactions.set(i, tx);
                proof {
                    assert(contains_id(old(self)@, tx_g.id));
                    assert forall|k: int| 0 <= k < final(self)@.len()
                        implies final(self)@[k]
                            == (if old(self)@[k].id == tx_g.id { tx_g } else { old(self)@[k] }) by {
                        if k != i {
                            assert(final(self)@[k] == old(self)@[k]);
                        }
                    }
                }
            },
            None => {
                self.transactions.push(tx);
            },
        }
    }

    /// Overwrite the status of the record with the given id, also setting
    /// its txid when one is provided and replacing its error text. A missing
    /// id is a no-op (the record was already dismissed); so is an update
    /// that would regress the status order or alter a terminal record.
    pub fn update_status(
        &mut self,
        id: u64,
        status: PendingTxStatus,
        txid: Option<String>,
        error: Option<String>,
    )
        requires
            old(self).wf(),
        ensures
            final(self).wf(),
            final(self).issued() == old(self).issued(),
            final(self)@ == spec_update_all(old(self)@, id, status, txid, error),
    {
        let ghost txid_g = txid;
        let ghost error_g = error;
        match self.find_index(id) {
            Some(i) => {
                let r = &self.transactions[i];
                let terminal = match r.status {
                    PendingTxStatus::Broadcast => true,
                    PendingTxStatus::Failed => true,
                    _ => false,
                };
                let old_rank: u8 = match r.status {
                    PendingTxStatus::Building => 0,
                    PendingTxStatus::Broadcasting => 1,
                    PendingTxStatus::Broadcast => 2,
                    PendingTxStatus::Failed => 2,
                };
                let new_rank: u8 = match status {
                    PendingTxStatus::Building => 0,
                    PendingTxStatus::Broadcasting => 1,
                    PendingTxStatus::Broadcast => 2,
                    PendingTxStatus::Failed => 2,
                };
                if !terminal && new_rank >= old_rank {
                    let updated = PendingTransaction {
                        id: r.id,
                        txid: match txid {
                            Some(t) => Some(t),
                            None => clone_opt_string(&r.txid),
                        },
                        to_address: r.to_address.clone(),
                        amount: r.amount,
                        memo: clone_opt_string(&r.memo),
                        status: status,
                        error: error,
                        created_at: r.created_at,
                    };
                    proof {
                        assert(updated == apply_update(old(self)@[i as int], status, txid_g, error_g));
                    }
                    self.transactions.set(i, updated);
                    proof {
                        assert forall|k: int| 0 <= k < final(self)@.len()
                            implies final(self)@[k] == (if old(self)@[k].id == id {
                                apply_update(old(self)@[k], status, txid_g, error_g)
                            } else {
                                old(self)@[k]
                            }) by {
                            if k != i {
                                assert(final(self)@[k] == old(self)@[k]);
                                assert(old(self)@[k].id != id);
                            }
                        }
                        assert(final(self)@ =~= spec_update_all(old(self)@, id, status, txid_g, error_g));
                    }
                } else {
                    proof {
                        assert(apply_update(old(self)@[i as int], status, txid_g, error_g)
                            == old(self)@[i as int]);
                        assert forall|k: int| 0 <= k < old(self)@.len() && old(self)@[k].id == id
                            implies apply_update(old(self)@[k], status, txid_g, error_g)
                                == old(self)@[k] by {
                            assert(k == i);
                        }
                        assert(final(self)@ =~= spec_update_all(old(self)@, id, status, txid_g, error_g));
                    }
                }
            },
            None => {
                proof {
                    assert(final(self)@ =~= spec_update_all(old(self)@, id, status, txid_g, error_g));
                }
            },
        }
    }

    /// Delete the record with the given id; a missing id is a no-op.
    /// Removal is caller-driven acknowledgment, never automatic.
    pub fn remove(&mut self, id: u64)
        requires
            old(self).wf(),
        ensures
            final(self).wf(),
            final(self).issued() == old(self).issued(),
            spec_removed(old(self)@, final(self)@, id),
    {
        match self.find_index(id) {
            Some(i) => {
                self.transactions.remove(i);
                proof {
                    let oldv = old(self)@;
                    let newv = final(self)@;
                    assert(newv == oldv.remove(i as int));
                    assert forall|k: int| 0 <= k < newv.len() implies newv[k].id != id by {
                        if k < i {
                            assert(newv[k] == oldv[k]);
                        } else {
                            assert(newv[k] == oldv[k + 1]);
                        }
                    }
                }
            },
            None => {},
        }
    }

    /// Snapshots of all tracked records.
    pub fn get_all(&self) -> (r: Vec<PendingTransaction>)
        ensures
            r@ == self@,
    {
        let mut r: Vec<PendingTransaction> = Vec::new();
        let mut i: usize = 0;
        while i < self.transactions.len()
            invariant
                i <= self@.len(),
                r@ == self@.take(i as int),
            decreases self@.len() - i,
        {
            r.push(self.transactions[i].clone());
            i = i + 1;
            proof {
                assert(r@ =~= self@.take(i as int));
            }
        }
        proof {
            assert(r@ =~= self@);
        }
        r
    }

    /// Snapshot of the record with the given id, if present.
    pub fn get(&self, id: u64) -> (r: Option<PendingTransaction>)
        requires
            self.wf(),
        ensures
            r == spec_lookup(self@, id),
    {
        proof {
            lemma_lookup_properties(self@, id);
        }
        match self.find_index(id) {
            Some(i) => Some(self.transactions[i].clone()),
            None => None,
        }
    }
}

} // verus!

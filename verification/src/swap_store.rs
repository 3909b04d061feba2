use vstd::prelude::*;
use vstd::pervasive::VecAdditionalExecFns;
use crate::pending::clone_opt_string;
use crate::swap::{EphemeralAddress, SwapRecord, is_terminal_status, spec_is_terminal_status};

verus! {

/// Records ordered newest-first by creation time.
pub open spec fn sorted_desc(s: Seq<SwapRecord>) -> bool {
    forall|i: int, j: int| 0 <= i < j < s.len() ==> s[i].created_at >= s[j].created_at
}

/// Whether some record carries the given id.
pub open spec fn contains_swap_id(s: Seq<SwapRecord>, id: Seq<char>) -> bool {
    exists|i: int| 0 <= i < s.len() && s[i].id@ == id
}

/// Whether some ephemeral-address row carries the given address.
pub open spec fn contains_address(s: Seq<EphemeralAddress>, a: Seq<char>) -> bool {
    exists|i: int| 0 <= i < s.len() && s[i].address@ == a
}

/// The records whose status is not terminal, in their original order.
pub open spec fn spec_active(s: Seq<SwapRecord>) -> Seq<SwapRecord>
    decreases s.len(),
{
    if s.len() == 0 {
        Seq::empty()
    } else if spec_is_terminal_status(s.last().status@) {
        spec_active(s.drop_last())
    } else {
        spec_active(s.drop_last()).push(s.last())
    }
}

/// The active view contains exactly the non-terminal records of the
/// underlying sequence: every active record comes from the sequence and is
/// non-terminal, and every non-terminal record of the sequence is active.
pub proof fn lemma_active_membership(s: Seq<SwapRecord>)
    ensures
        forall|k: int| 0 <= k < spec_active(s).len() ==> s.contains(#[trigger] spec_active(s)[k])
            && !spec_is_terminal_status(spec_active(s)[k].status@),
        forall|i: int| 0 <= i < s.len() && !spec_is_terminal_status(s[i].status@)
            ==> spec_active(s).contains(#[trigger] s[i]),
    decreases s.len(),
{
    if s.len() == 0 {
    } else {
        let d = s.drop_last();
        let a = spec_active(s);
        lemma_active_membership(d);
        assert forall|k: int| 0 <= k < a.len() implies s.contains(#[trigger] a[k])
            && !spec_is_terminal_status(a[k].status@) by {
            if spec_is_terminal_status(s.last().status@) || k < spec_active(d).len() {
                assert(a[k] == spec_active(d)[k]);
                assert(d.contains(a[k]));
                let m = choose|m: int| 0 <= m < d.len() && d[m] == a[k];
                assert(s[m] == d[m]);
            } else {
                assert(a[k] == s.last());
                assert(s[s.len() - 1] == s.last());
            }
        }
        assert forall|i: int| 0 <= i < s.len() && !spec_is_terminal_status(s[i].status@)
            implies a.contains(#[trigger] s[i]) by {
            if i < s.len() - 1 {
                assert(d[i] == s[i]);
                assert(spec_active(d).contains(s[i]));
                let m = choose|m: int| 0 <= m < spec_active(d).len() && spec_active(d)[m] == s[i];
                if !spec_is_terminal_status(s.last().status@) {
                    assert(a[m] == spec_active(d)[m]);
                }
            } else {
                assert(s[i] == s.last());
                assert(a[a.len() - 1] == s.last());
            }
        }
    }
}

/// Filtering to the active records preserves the newest-first order.
pub proof fn lemma_active_sorted(s: Seq<SwapRecord>)
    requires
        sorted_desc(s),
    ensures
        sorted_desc(spec_active(s)),
    decreases s.len(),
{
    if s.len() == 0 {
    } else {
        let d = s.drop_last();
        assert(sorted_desc(d)) by {
            assert forall|i: int, j: int| 0 <= i < j < d.len()
                implies d[i].created_at >= d[j].created_at by {
                assert(d[i] == s[i]);
                assert(d[j] == s[j]);
            }
        }
        lemma_active_sorted(d);
        if !spec_is_terminal_status(s.last().status@) {
            lemma_active_membership(d);
            let a = spec_active(d);
            let w = a.push(s.last());
            assert forall|i: int, j: int| 0 <= i < j < w.len()
                implies w[i].created_at >= w[j].created_at by {
                if j < a.len() {
                    assert(w[i] == a[i]);
                    assert(w[j] == a[j]);
                } else {
                    assert(w[i] == a[i]);
                    assert(w[j] == s.last());
                    assert(d.contains(a[i]));
                    let m = choose|m: int| 0 <= m < d.len() && d[m] == a[i];
                    assert(s[m] == d[m]);
                    assert(s[m].created_at >= s[s.len() - 1].created_at);
                }
            }
        }
    }
}

/// A record as it stands after `update_swap_status(_, status, intent_hash,
/// txid)` reaches it: the status is overwritten; each correlation field is
/// overwritten only when a new value is supplied and is kept otherwise
/// (coalesce-on-null); every other field is unchanged.
pub open spec fn coalesce_update(
    r: SwapRecord,
    status: String,
    intent_hash: Option<String>,
    txid: Option<String>,
) -> SwapRecord {
    SwapRecord {
        status: status,
        intent_hash: if intent_hash is Some { intent_hash } else { r.intent_hash },
        zcash_txid: if txid is Some { txid } else { r.zcash_txid },
        ..r
    }
}

/// Coalesce semantics: an update that supplies no correlation values
/// preserves the stored `intent_hash` and `zcash_txid`, and no update
/// touches the identity or bookkeeping fields of the record.
pub proof fn lemma_update_preserves_hashes(
    r: SwapRecord,
    status: String,
    intent_hash: Option<String>,
    txid: Option<String>,
)
    ensures
        intent_hash is None ==> coalesce_update(r, status, intent_hash, txid).intent_hash == r.intent_hash,
        txid is None ==> coalesce_update(r, status, intent_hash, txid).zcash_txid == r.zcash_txid,
        coalesce_update(r, status, intent_hash, txid).status == status,
        coalesce_update(r, status, intent_hash, txid).id == r.id,
        coalesce_update(r, status, intent_hash, txid).quote_hash == r.quote_hash,
        coalesce_update(r, status, intent_hash, txid).created_at == r.created_at,
        coalesce_update(r, status, intent_hash, txid).expires_at == r.expires_at,
        coalesce_update(r, status, intent_hash, txid).completed_at == r.completed_at,
{
}

/// Relation between the swap tables before and after an upsert of `r`,
/// keyed by id: `r` is stored, it is the only record with its id, every
/// record with a different id is kept, nothing else appears, and the table
/// grows only when the id was new.
pub open spec fn spec_upserted(s0: Seq<SwapRecord>, s1: Seq<SwapRecord>, r: SwapRecord) -> bool {
    &&& s1.contains(r)
    &&& forall|j: int| 0 <= j < s1.len() && (#[trigger] s1[j]).id@ == r.id@ ==> s1[j] == r
    &&& forall|i: int| 0 <= i < s0.len() && (#[trigger] s0[i]).id@ != r.id@ ==> s1.contains(s0[i])
    &&& forall|j: int| 0 <= j < s1.len() ==> #[trigger] s1[j] == r || s0.contains(s1[j])
    &&& contains_swap_id(s0, r.id@) ==> s1.len() == s0.len()
    &&& !contains_swap_id(s0, r.id@) ==> s1.len() == s0.len() + 1
}

/// The swap table after `update_swap_status` reaches the record with the
/// given id: that record (if present) becomes `coalesce_update` of itself,
/// in place, and every other record is untouched.
pub open spec fn spec_swaps_updated(
    s: Seq<SwapRecord>,
    id: Seq<char>,
    status: String,
    intent_hash: Option<String>,
    txid: Option<String>,
) -> Seq<SwapRecord> {
    Seq::new(
        s.len(),
        |i: int|
            if s[i].id@ == id {
                coalesce_update(s[i], status, intent_hash, txid)
            } else {
                s[i]
            },
    )
}

/// Relation between the ephemeral-address tables before and after a row
/// for `address` is recorded, keyed by address: the row is stored with the
/// given index, swap link and creation time, it is the only row with its
/// address, every row with a different address is kept, and the table grows
/// only when the address was new.
pub open spec fn spec_ephemeral_upserted(
    s0: Seq<EphemeralAddress>,
    s1: Seq<EphemeralAddress>,
    address: Seq<char>,
    index: u32,
    swap_id: Option<String>,
    created_at: i64,
) -> bool {
    &&& contains_address(s1, address)
    &&& forall|j: int| 0 <= j < s1.len() && (#[trigger] s1[j]).address@ == address ==> {
        &&& s1[j].derivation_index == index
        &&& s1[j].swap_id == swap_id
        &&& s1[j].created_at == created_at
    }
    &&& forall|i: int| 0 <= i < s0.len() && (#[trigger] s0[i]).address@ != address
        ==> s1.contains(s0[i])
    &&& !contains_address(s0, address) ==> s1.len() == s0.len() + 1
    &&& contains_address(s0, address) ==> s1.len() == s0.len()
}

/// In-memory model of the persistent swap store: the swap table (kept
/// newest-first), the ephemeral-address table, and the high-water mark of
/// the ephemeral derivation indices. The persistent store is the source of
/// truth; callers receive snapshots, never references.
#[derive(Debug)]
pub struct SwapStore {
    swaps: Vec<SwapRecord>,
    ephemeral: Vec<EphemeralAddress>,
    next_ephemeral: u32,
}

impl SwapStore {
    /// The stored swap records, newest-first.
    pub closed spec fn swap_records(&self) -> Seq<SwapRecord> {
        self.swaps@
    }

    /// The stored ephemeral-address rows.
    pub closed spec fn ephemeral_rows(&self) -> Seq<EphemeralAddress> {
        self.ephemeral@
    }

    /// The next derivation index to hand out; indices below it are spent.
    pub closed spec fn next_index(&self) -> u32 {
        self.next_ephemeral
    }

    /// Well-formed: swap ids are unique and the table is newest-first;
    /// ephemeral addresses are unique and every stored index is below the
    /// high-water mark.
    pub open spec fn wf(&self) -> bool {
        &&& forall|i: int, j: int| 0 <= i < j < self.swap_records().len()
            ==> self.swap_records()[i].id@ != self.swap_records()[j].id@
        &&& sorted_desc(self.swap_records())
        &&& forall|i: int, j: int| 0 <= i < j < self.ephemeral_rows().len()
            ==> self.ephemeral_rows()[i].address@ != self.ephemeral_rows()[j].address@
        &&& forall|i: int| 0 <= i < self.ephemeral_rows().len()
            ==> (#[trigger] self.ephemeral_rows()[i]).derivation_index < self.next_index()
    }

    /// An empty store.
    pub fn new() -> (s: Self)
        ensures
            s.wf(),
            s.swap_records() == Seq::<SwapRecord>::empty(),
            s.ephemeral_rows() == Seq::<EphemeralAddress>::empty(),
            s.next_index() == 0,
    {
        SwapStore { swaps: Vec::new(), ephemeral: Vec::new(), next_ephemeral: 0 }
    }

    /// Position of the record with the given id, if present.
    fn find_swap_index(&self, id: &String) -> (r: Option<usize>)
        ensures
            match r {
                Some(i) => i < self.swap_records().len() && self.swap_records()[i as int].id@ == id@,
                None => !contains_swap_id(self.swap_records(), id@),
            },
    {
        let mut i: usize = 0;
        while i < self.swaps.len()
            invariant
                i <= self.swap_records().len(),
                forall|k: int| 0 <= k < i ==> self.swap_records()[k].id@ != id@,
            decreases self.swap_records().len() - i,
        {
            if self.swaps[i].id == *id {
                return Some(i);
            }
            i = i + 1;
        }
        None
    }

    /// First position whose record is not newer than the given creation
    /// time; inserting there keeps the table newest-first.
    fn find_insert_pos(&self, created_at: i64) -> (k: usize)
        ensures
            k <= self.swap_records().len(),
            forall|j: int| 0 <= j < k ==> self.swap_records()[j].created_at > created_at,
            k < self.swap_records().len() ==> self.swap_records()[k as int].created_at <= created_at,
    {
        let mut k: usize = 0;
        while k < self.swaps.len()
            invariant
                k <= self.swap_records().len(),
                forall|j: int| 0 <= j < k ==> self.swap_records()[j].created_at > created_at,
            decreases self.swap_records().len() - k,
        {
            if self.swaps[k].created_at <= created_at {
                return k;
            }
            k = k + 1;
        }
        k
    }

    /// Idempotent upsert keyed by `id`: the given record replaces any stored
    /// record with the same id and is placed so that the table stays
    /// newest-first; every record with a different id is kept.
    #[verifier::rlimit(60)]
    pub fn save_swap(&mut self, swap: SwapRecord)
        requires
            old(self).wf(),
        ensures
            final(self).wf(),
            final(self).ephemeral_rows() == old(self).ephemeral_rows(),
            final(self).next_index() == old(self).next_index(),
            spec_upserted(old(self).swap_records(), final(self).swap_records(), swap),
    {
        let ghost oldv = self.swaps@;
        let ghost sid = swap.id@;
        match self.find_swap_index(&swap.id) {
            Some(i) => {
                self.swaps.remove(i);
                proof {
                    oldv.remove_ensures(i as int);
                    let m = self.swaps@;
                    assert(m == oldv.remove(i as int));
                    assert forall|j: int| 0 <= j < m.len() implies (#[trigger] m[j]).id@ != sid by {
                        if j < i {
                            assert(m[j] == oldv[j]);
                        } else {
                            assert(m[j] == oldv[j + 1]);
                        }
                    }
                    assert forall|a: int| 0 <= a < oldv.len() && (#[trigger] oldv[a]).id@ != sid
                        implies m.contains(oldv[a]) by {
                        if a < i {
                            assert(m[a] == oldv[a]);
                        } else {
                            assert(a > i);
                            assert(m[a - 1] == oldv[a]);
                        }
                    }
                    assert forall|j: int| 0 <= j < m.len() implies oldv.contains(#[trigger] m[j]) by {
                        if j < i {
                            assert(m[j] == oldv[j]);
                        } else {
                            assert(m[j] == oldv[j + 1]);
                        }
                    }
                    assert forall|a: int, b: int| 0 <= a < b < m.len()
                        implies m[a].id@ != m[b].id@ && m[a].created_at >= m[b].created_at by {
                        let a0: int = if a < i { a } else { a + 1 };
                        let b0: int = if b < i { b } else { b + 1 };
                        assert(m[a] == oldv[a0]);
                        assert(m[b] == oldv[b0]);
                    }
                }
            },
            None => {},
        }
        let ghost mid = self.swaps@;
        proof {
            assert(!contains_swap_id(mid, sid));
            assert(forall|a: int| 0 <= a < oldv.len() && (#[trigger] oldv[a]).id@ != sid
                ==> mid.contains(oldv[a]));
            assert(forall|j: int| 0 <= j < mid.len() ==> oldv.contains(#[trigger] mid[j]));
            assert(forall|a: int, b: int| 0 <= a < b < mid.len() ==> mid[a].id@ != mid[b].id@);
            assert(sorted_desc(mid));
        }
        let k = self.find_insert_pos(swap.created_at);
        self.swaps.insert(k, swap);
        proof {
            mid.insert_ensures(k as int, swap);
            let w = self.swaps@;
            assert(w == mid.insert(k as int, swap));
            assert(w[k as int] == swap);
            assert(w.contains(swap));
            assert forall|j: int| 0 <= j < w.len() implies #[trigger] w[j] == swap
                || (mid.contains(w[j]) && w[j].id@ != sid) by {
                if j < k {
                    assert(w[j] == mid[j]);
                } else if j > k {
                    assert(w[j] == mid[j - 1]);
                }
            }
            assert forall|a: int| 0 <= a < mid.len() implies w.contains(#[trigger] mid[a]) by {
                if a < k {
                    assert(w[a] == mid[a]);
                } else {
                    assert(w[a + 1] == mid[a]);
                }
            }
            assert forall|a: int, b: int| 0 <= a < b < w.len()
                implies w[a].id@ != w[b].id@ && w[a].created_at >= w[b].created_at by {
                if a == k {
                    assert(w[a] == swap);
                    assert(w[b] == mid[b - 1]);
                    assert(b - 1 >= k);
                    assert(mid[k as int].created_at <= swap.created_at);
                    if b - 1 > k {
                        assert(mid[k as int].created_at >= mid[b - 1].created_at);
                    }
                } else if b == k {
                    assert(w[b] == swap);
                    assert(w[a] == mid[a]);
                    assert(mid[a].created_at > swap.created_at);
                } else {
                    let a0: int = if a < k { a } else { a - 1 };
                    let b0: int = if b < k { b } else { b - 1 };
                    assert(w[a] == mid[a0]);
                    assert(w[b] == mid[b0]);
                }
            }
            if contains_swap_id(oldv, sid) {
                assert(w.len() == oldv.len());
            }
        }
    }

    /// Update the status of the record with the given id, overwriting the
    /// stored correlation hashes only where a new value is supplied
    /// (coalesce-on-null). A missing id is a no-op, as in the underlying
    /// row update.
    pub fn update_swap_status(
        &mut self,
        swap_id: &String,
        status: String,
        intent_hash: Option<String>,
        txid: Option<String>,
    )
        requires
            old(self).wf(),
        ensures
            final(self).wf(),
            final(self).ephemeral_rows() == old(self).ephemeral_rows(),
            final(self).next_index() == old(self).next_index(),
            final(self).swap_records()
                == spec_swaps_updated(old(self).swap_records(), swap_id@, status, intent_hash, txid),
    {
        let ghost status_g = status;
        let ghost intent_g = intent_hash;
        let ghost txid_g = txid;
        match self.find_swap_index(swap_id) {
            Some(i) => {
                let r = &self.swaps[i];
                let updated = SwapRecord {
                    id: r.id.clone(),
                    direction: r.direction,
                    status: status,
                    from_asset: r.from_asset.clone(),
                    from_amount: r.from_amount.clone(),
                    to_asset: r.to_asset.clone(),
                    to_amount: r.to_amount.clone(),
                    receiving_address: clone_opt_string(&r.receiving_address),
                    ephemeral_address: clone_opt_string(&r.ephemeral_address),
                    refund_address: clone_opt_string(&r.refund_address),
                    recipient_address: clone_opt_string(&r.recipient_address),
                    quote_hash: clone_opt_string(&r.quote_hash),
                    intent_hash: match intent_hash {
                        Some(h) => Some(h),
                        None => clone_opt_string(&r.intent_hash),
                    },
                    zcash_txid: match txid {
                        Some(t) => Some(t),
                        None => clone_opt_string(&r.zcash_txid),
                    },
                    fulfillment_txid: clone_opt_string(&r.fulfillment_txid),
                    created_at: r.created_at,
                    expires_at: r.expires_at,
                    completed_at: r.completed_at,
                };
                proof {
                    assert(updated == coalesce_update(
                        old(self).swap_records()[i as int], status_g, intent_g, txid_g));
                }
                self.swaps.set(i, updated);
                proof {
                    assert forall|j: int| 0 <= j < final(self).swap_records().len()
                        implies #[trigger] final(self).swap_records()[j]
                            == (if old(self).swap_records()[j].id@ == swap_id@ {
                                coalesce_update(old(self).swap_records()[j], status_g, intent_g, txid_g)
                            } else {
                                old(self).swap_records()[j]
                            }) by {
                        if j != i {
                            assert(final(self).swap_records()[j] == old(self).swap_records()[j]);
                            assert(old(self).swap_records()[j].id@ != swap_id@);
                        }
                    }
                    assert(final(self).swap_records() =~= spec_swaps_updated(
                        old(self).swap_records(), swap_id@, status_g, intent_g, txid_g));
                }
            },
            None => {
                proof {
                    assert(final(self).swap_records() =~= spec_swaps_updated(
                        old(self).swap_records(), swap_id@, status_g, intent_g, txid_g));
                }
            },
        }
    }

    /// Snapshots of all stored records, newest-first.
    pub fn get_swap_history(&self) -> (r: Vec<SwapRecord>)
        requires
            self.wf(),
        ensures
            r@ == self.swap_records(),
            sorted_desc(r@),
    {
        let mut r: Vec<SwapRecord> = Vec::new();
        let mut i: usize = 0;
        while i < self.swaps.len()
            invariant
                i <= self.swap_records().len(),
                r@ == self.swap_records().take(i as int),
            decreases self.swap_records().len() - i,
        {
            r.push(self.swaps[i].clone());
            i = i + 1;
            proof {
                assert(r@ =~= self.swap_records().take(i as int));
            }
        }
        proof {
            assert(r@ =~= self.swap_records());
        }
        r
    }

    /// Snapshots of the records whose status is not terminal
    /// (`completed`, `failed`, `refunded`), newest-first.
    pub fn get_active_swaps(&self) -> (r: Vec<SwapRecord>)
        requires
            self.wf(),
        ensures
            r@ == spec_active(self.swap_records()),
            sorted_desc(r@),
            forall|k: int| 0 <= k < r@.len()
                ==> !spec_is_terminal_status((#[trigger] r@[k]).status@),
    {
        let ghost s = self.swap_records();
        let mut r: Vec<SwapRecord> = Vec::new();
        let mut i: usize = 0;
        while i < self.swaps.len()
            invariant
                i <= s.len(),
                s == self.swap_records(),
                r@ == spec_active(s.take(i as int)),
            decreases s.len() - i,
        {
            let keep = !is_terminal_status(&self.swaps[i].status);
            if keep {
                r.push(self.swaps[i].clone());
            }
            i = i + 1;
            proof {
                let t = s.take(i as int);
                assert(t.drop_last() =~= s.take(i as int - 1));
                assert(t.last() == s[i as int - 1]);
            }
        }
        proof {
            assert(s.take(s.len() as int) =~= s);
            lemma_active_sorted(s);
            lemma_active_membership(s);
        }
        r
    }

    /// The next unused derivation index (the high-water mark).
    pub fn next_ephemeral_index(&self) -> (r: u32)
        ensures
            r == self.next_index(),
    {
        self.next_ephemeral
    }

    /// Atomically reserve the next derivation index: the returned index is
    /// the previous high-water mark and can never be handed out again. The
    /// reservation and the advance of the mark are one step, so no two
    /// allocations ever receive the same index.
    pub fn allocate_ephemeral_index(&mut self) -> (idx: u32)
        requires
            old(self).wf(),
            old(self).next_index() < u32::MAX,
        ensures
            final(self).wf(),
            idx == old(self).next_index(),
            final(self).next_index() == idx + 1,
            final(self).swap_records() == old(self).swap_records(),
            final(self).ephemeral_rows() == old(self).ephemeral_rows(),
    {
        let idx = self.next_ephemeral;
        self.next_ephemeral = self.next_ephemeral + 1;
        idx
    }

    /// Position of the ephemeral row with the given address, if present.
    fn find_ephemeral_index(&self, address: &String) -> (r: Option<usize>)
        ensures
            match r {
                Some(i) => i < self.ephemeral_rows().len()
                    && self.ephemeral_rows()[i as int].address@ == address@,
                None => !contains_address(self.ephemeral_rows(), address@),
            },
    {
        let mut i: usize = 0;
        while i < self.ephemeral.len()
            invariant
                i <= self.ephemeral_rows().len(),
                forall|k: int| 0 <= k < i ==> self.ephemeral_rows()[k].address@ != address@,
            decreases self.ephemeral_rows().len() - i,
    {
            if self.ephemeral[i].address == *address {
                return Some(i);
            }
            i = i + 1;
        }
        None
    }

    /// Record a derived ephemeral address, upserting by address (the
    /// table's key) and advancing the high-water mark past its index, so a
    /// row hydrated from the persistent store also spends its index.
    pub fn save_ephemeral_address(
        &mut self,
        address: String,
        index: u32,
        swap_id: Option<String>,
        created_at: i64,
    )
        requires
            old(self).wf(),
            index < u32::MAX,
        ensures
            final(self).wf(),
            final(self).swap_records() == old(self).swap_records(),
            final(self).next_index()
                == (if index >= old(self).next_index() { index + 1 } else { old(self).next_index() as int }),
            spec_ephemeral_upserted(
                old(self).ephemeral_rows(), final(self).ephemeral_rows(),
                address@, index, swap_id, created_at,
            ),
    {
        let ghost addr_g = address@;
        let ghost swap_id_g = swap_id;
        if index >= self.next_ephemeral {
            self.next_ephemeral = index + 1;
        }
        let row = EphemeralAddress {
            address: address,
            derivation_index: index,
            swap_id: swap_id,
            created_at: created_at,
            used_at: None,
        };
        match self.find_ephemeral_index(&row.address) {
            Some(i) => {
                self.ephemeral.set(i, row);
                proof {
                    assert(final(self).ephemeral_rows()[i as int].address@ == addr_g);
                    assert(contains_address(final(self).ephemeral_rows(), addr_g));
                    assert forall|j: int| 0 <= j < final(self).ephemeral_rows().len() && j != i
                        implies final(self).ephemeral_rows()[j].address@ != addr_g by {
                        assert(final(self).ephemeral_rows()[j] == old(self).ephemeral_rows()[j]);
                        assert(old(self).ephemeral_rows()[i as int].address@ == addr_g);
                    }
                    assert forall|a: int, b: int| 0 <= a < b < final(self).ephemeral_rows().len()
                        implies final(self).ephemeral_rows()[a].address@
                            != final(self).ephemeral_rows()[b].address@ by {
                        if a != i && b != i {
                            assert(final(self).ephemeral_rows()[a] == old(self).ephemeral_rows()[a]);
                            assert(final(self).ephemeral_rows()[b] == old(self).ephemeral_rows()[b]);
                        }
                    }
                    assert forall|a: int| 0 <= a < old(self).ephemeral_rows().len()
                        && (#[trigger] old(self).ephemeral_rows()[a]).address@ != addr_g
                        implies final(self).ephemeral_rows().contains(old(self).ephemeral_rows()[a]) by {
                        assert(final(self).ephemeral_rows()[a] == old(self).ephemeral_rows()[a]);
                    }
                }
            },
            None => {
                self.ephemeral.push(row);
                proof {
                    assert forall|a: int| 0 <= a < old(self).ephemeral_rows().len()
                        && (#[trigger] old(self).ephemeral_rows()[a]).address@ != addr_g
                        implies final(self).ephemeral_rows().contains(old(self).ephemeral_rows()[a]) by {
                        assert(final(self).ephemeral_rows()[a] == old(self).ephemeral_rows()[a]);
                    }
                    let n = final(self).ephemeral_rows().len() - 1;
                    assert(final(self).ephemeral_rows()[n].address@ == addr_g);
                    assert(contains_address(final(self).ephemeral_rows(), addr_g));
                    assert forall|j: int| 0 <= j < final(self).ephemeral_rows().len() && j != n
                        implies final(self).ephemeral_rows()[j].address@ != addr_g by {
                        assert(final(self).ephemeral_rows()[j] == old(self).ephemeral_rows()[j]);
                        assert(!contains_address(old(self).ephemeral_rows(), addr_g));
                    }
                }
            },
        }
    }
}

/// Two allocations never return the same index: each returns the store's
/// high-water mark and advances it, so the indices of consecutive
/// reservations (the transition of `allocate_ephemeral_index`, under any
/// interleaving of other work that keeps the mark) are strictly increasing
/// and start at the previous mark.
pub proof fn lemma_allocations_distinct(s0: SwapStore, s1: SwapStore, i1: u32, i2: u32)
    requires
        i1 == s0.next_index(),
        s1.next_index() == i1 + 1,
        i2 == s1.next_index(),
    ensures
        i1 < i2,
        i1 != i2,
        i1 == s0.next_index(),
        i2 == s0.next_index() + 1,
{
}

/// The derivation indices handed out by a run of allocations starting at a
/// given high-water mark: consecutive, strictly increasing, and therefore
/// free of duplicates.
pub open spec fn allocated_indices(start: int, n: nat) -> Seq<int> {
    Seq::new(n, |i: int| start + i)
}

/// Any number of allocations yields distinct, strictly increasing indices
/// beginning at the previous high-water mark: each allocation returns the
/// current mark and advances it by one, so the k-th allocation returns
/// `start + k` and no index is ever returned twice.
pub proof fn lemma_allocated_indices_distinct(start: int, n: nat)
    ensures
        allocated_indices(start, n).len() == n,
        forall|i: int| 0 <= i < n ==> allocated_indices(start, n)[i] == start + i,
        forall|i: int, j: int| 0 <= i < j < n
            ==> allocated_indices(start, n)[i] < allocated_indices(start, n)[j],
        forall|i: int, j: int| 0 <= i < n && 0 <= j < n && i != j
            ==> allocated_indices(start, n)[i] != allocated_indices(start, n)[j],
{
}

} // verus!

use vstd::prelude::*;

use crate::types::Transaction;

verus! {

/// The transactions of one completed proposal together with the id of the
/// build or validate attempt that produced them.
pub struct ProposalRecord {
    pub transactions: Vec<Transaction>,
    pub proposal_id: u64,
}

struct StoreEntry {
    height: u64,
    content_id: u64,
    record: ProposalRecord,
}

/// The mathematical model of the store: a map from (height, content id) to
/// (transaction sequence, proposal id).
pub type StoreModel = Map<(u64, u64), (Seq<Transaction>, u64)>;

spec fn entry_key(e: StoreEntry) -> (u64, u64) {
    (e.height, e.content_id)
}

spec fn entry_val(e: StoreEntry) -> (Seq<Transaction>, u64) {
    (e.record.transactions@, e.record.proposal_id)
}

spec fn has_key(s: Seq<StoreEntry>, k: (u64, u64)) -> bool {
    exists|i: int| 0 <= i < s.len() && entry_key(s[i]) == k
}

spec fn val_of(s: Seq<StoreEntry>, k: (u64, u64)) -> (Seq<Transaction>, u64) {
    let i = choose|i: int| 0 <= i < s.len() && entry_key(s[i]) == k;
    entry_val(s[i])
}

spec fn unique_keys(s: Seq<StoreEntry>) -> bool {
    forall|i: int, j: int| 0 <= i < j < s.len() ==> entry_key(s[i]) != entry_key(s[j])
}

/// What pruning at `height` leaves of a store model: exactly the entries at
/// strictly greater heights, each unchanged.
pub open spec fn prune_model(m: StoreModel, height: u64) -> StoreModel {
    Map::new(|k: (u64, u64)| m.dom().contains(k) && k.0 > height, |k: (u64, u64)| m[k])
}

/// Law: once a completed pipeline has registered its streamed transactions
/// under (height, content id), the store holds a record for that key and a
/// lookup — as repropose performs it — returns exactly those transactions.
pub proof fn lemma_completion_then_repropose(
    m: StoreModel,
    height: u64,
    content_id: u64,
    streamed: Seq<Transaction>,
    proposal_id: u64,
)
    ensures
        m.insert((height, content_id), (streamed, proposal_id)).dom().contains(
            (height, content_id),
        ),
        m.insert((height, content_id), (streamed, proposal_id))[(height, content_id)].0
            == streamed,
{
}

/// Law: pruning at a decided height removes every record at that height or
/// below, and keeps every record above it with its content intact.
pub proof fn lemma_decision_prunes(m: StoreModel, height: u64)
    ensures
        forall|k: (u64, u64)| k.0 <= height ==> !prune_model(m, height).dom().contains(k),
        forall|k: (u64, u64)|
            m.dom().contains(k) && k.0 > height ==> #[trigger] prune_model(m, height).dom().contains(
                k,
            ) && prune_model(m, height)[k] == m[k],
{
}

/// Law: two attempts that complete with the same content id at the same
/// height collapse into a single stored record — the store gains one key,
/// and the transactions of the later completion stay retrievable under it.
pub proof fn lemma_same_content_collapses(
    m: StoreModel,
    height: u64,
    content_id: u64,
    first: (Seq<Transaction>, u64),
    second: (Seq<Transaction>, u64),
)
    ensures
        ({
            let m2 = m.insert((height, content_id), first).insert((height, content_id), second);
            &&& m2.dom() == m.dom().insert((height, content_id))
            &&& m2[(height, content_id)] == second
        }),
{
    let m2 = m.insert((height, content_id), first).insert((height, content_id), second);
    assert(m2.dom() =~= m.dom().insert((height, content_id)));
}

/// Shared record of completed proposals, addressed by height and content
/// commitment. At most one record is kept per (height, content id) pair: a
/// later completion with the same key replaces the earlier record, since the
/// content, not the attempt id, identifies a proposal.
pub struct ProposalStore {
    entries: Vec<StoreEntry>,
}

proof fn lemma_val_at(s: Seq<StoreEntry>, i: int)
    requires
        unique_keys(s),
        0 <= i < s.len(),
    ensures
        has_key(s, entry_key(s[i])),
        val_of(s, entry_key(s[i])) == entry_val(s[i]),
{
    let k = entry_key(s[i]);
    assert(has_key(s, k));
    let j = choose|j: int| 0 <= j < s.len() && entry_key(s[j]) == k;
    if j < i {
        assert(entry_key(s[j]) != entry_key(s[i]));
    } else if i < j {
        assert(entry_key(s[i]) != entry_key(s[j]));
    }
}

proof fn lemma_push_entry(s: Seq<StoreEntry>, e: StoreEntry)
    requires
        unique_keys(s),
        !has_key(s, entry_key(e)),
    ensures
        unique_keys(s.push(e)),
        forall|k: (u64, u64)| #[trigger] has_key(s.push(e), k) <==> (has_key(s, k) || k
            == entry_key(e)),
        forall|k: (u64, u64)| #[trigger] has_key(s, k) ==> val_of(s.push(e), k) == val_of(s, k),
        val_of(s.push(e), entry_key(e)) == entry_val(e),
{
    let s1 = s.push(e);
    assert forall|a: int, b: int| 0 <= a < b < s1.len() implies entry_key(s1[a]) != entry_key(
        s1[b],
    ) by {
        if b < s.len() {
            assert(s1[a] == s[a] && s1[b] == s[b]);
        } else {
            assert(s1[b] == e);
            assert(s1[a] == s[a]);
            if entry_key(s[a]) == entry_key(e) {
                assert(has_key(s, entry_key(e)));
            }
        }
    }
    assert forall|k: (u64, u64)| #[trigger] has_key(s1, k) implies (has_key(s, k) || k
        == entry_key(e)) by {
        let i = choose|i: int| 0 <= i < s1.len() && entry_key(s1[i]) == k;
        if i < s.len() {
            assert(s1[i] == s[i]);
            assert(has_key(s, k));
        } else {
            assert(s1[i] == e);
        }
    }
    assert forall|k: (u64, u64)| has_key(s, k) || k == entry_key(e) implies #[trigger] has_key(
        s1,
        k,
    ) by {
        if has_key(s, k) {
            let i = choose|i: int| 0 <= i < s.len() && entry_key(s[i]) == k;
            assert(s1[i] == s[i]);
        } else {
            assert(entry_key(s1[s.len() as int]) == k);
        }
    }
    assert forall|k: (u64, u64)| #[trigger] has_key(s, k) implies val_of(s1, k) == val_of(
        s,
        k,
    ) by {
        let i = choose|i: int| 0 <= i < s.len() && entry_key(s[i]) == k;
        lemma_val_at(s, i);
        assert(s1[i] == s[i]);
        lemma_val_at(s1, i);
    }
    assert(entry_key(s1[s.len() as int]) == entry_key(e));
    lemma_val_at(s1, s.len() as int);
}

proof fn lemma_update_entry(s: Seq<StoreEntry>, i: int, e: StoreEntry)
    requires
        unique_keys(s),
        0 <= i < s.len(),
        entry_key(e) == entry_key(s[i]),
    ensures
        unique_keys(s.update(i, e)),
        forall|k: (u64, u64)| #[trigger] has_key(s.update(i, e), k) <==> has_key(s, k),
        forall|k: (u64, u64)|
            #[trigger] has_key(s, k) && k != entry_key(e) ==> val_of(s.update(i, e), k) == val_of(
                s,
                k,
            ),
        val_of(s.update(i, e), entry_key(e)) == entry_val(e),
{
    let s1 = s.update(i, e);
    assert forall|a: int| 0 <= a < s1.len() implies entry_key(s1[a]) == entry_key(s[a]) by {
        if a != i {
            assert(s1[a] == s[a]);
        }
    }
    assert forall|k: (u64, u64)| #[trigger] has_key(s1, k) <==> has_key(s, k) by {
        if has_key(s1, k) {
            let a = choose|a: int| 0 <= a < s1.len() && entry_key(s1[a]) == k;
            assert(entry_key(s[a]) == k);
        }
        if has_key(s, k) {
            let a = choose|a: int| 0 <= a < s.len() && entry_key(s[a]) == k;
            assert(entry_key(s1[a]) == k);
        }
    }
    assert forall|k: (u64, u64)| #[trigger] has_key(s, k) && k != entry_key(e) implies val_of(
        s1,
        k,
    ) == val_of(s, k) by {
        let a = choose|a: int| 0 <= a < s.len() && entry_key(s[a]) == k;
        lemma_val_at(s, a);
        assert(a != i);
        assert(s1[a] == s[a]);
        lemma_val_at(s1, a);
    }
    assert(entry_key(s1[i]) == entry_key(e));
    lemma_val_at(s1, i);
}

pub(crate) fn copy_transactions(v: &Vec<Transaction>) -> (r: Vec<Transaction>)
    ensures
        r@ == v@,
{
    let mut r: Vec<Transaction> = Vec::new();
    let mut i: usize = 0;
    while i < v.len()
        invariant
            0 <= i <= v.len(),
            r@ == v@.subrange(0, i as int),
        decreases v.len() - i,
    {
        r.push(v[i]);
        proof {
            assert(v@.subrange(0, i + 1 as int) =~= v@.subrange(0, i as int).push(v@[i as int]));
        }
        i += 1;
    }
    proof {
        assert(r@ =~= v@);
    }
    r
}

impl ProposalStore {
    /// The store as a map from (height, content id) to the stored
    /// transaction sequence and proposal id.
    pub closed spec fn view(&self) -> StoreModel {
        Map::new(
            |k: (u64, u64)| has_key(self.entries@, k),
            |k: (u64, u64)| val_of(self.entries@, k),
        )
    }

    /// Well-formedness: at most one entry per (height, content id) key.
    /// Constructors establish it and every method preserves it.
    pub closed spec fn wf(&self) -> bool {
        unique_keys(self.entries@)
    }

    /// An empty store: no proposal has completed yet.
    pub fn new() -> (s: Self)
        ensures
            s.wf(),
            s@ == StoreModel::empty(),
    {
        let s = ProposalStore { entries: Vec::new() };
        proof {
            assert(s@ =~= StoreModel::empty());
        }
        s
    }

    fn find_index(&self, height: u64, content_id: u64) -> (r: Option<usize>)
        ensures
            match r {
                Some(i) => i < self.entries@.len() && entry_key(self.entries@[i as int]) == (
                    height,
                    content_id,
                ),
                None => !has_key(self.entries@, (height, content_id)),
            },
    {
        let n = self.entries.len();
        let mut i: usize = 0;
        while i < n
            invariant
                0 <= i <= n,
                n == self.entries@.len(),
                forall|j: int| 0 <= j < i ==> entry_key(self.entries@[j]) != (height, content_id),
            decreases n - i,
        {
            let e = &self.entries[i];
            if e.height == height && e.content_id == content_id {
                return Some(i);
            }
            i += 1;
        }
        None
    }

    /// Records the result of a completed pipeline. A second completion under
    /// the same (height, content id) replaces the record, so distinct
    /// attempts that converge on the same content collapse into one entry.
    pub fn insert(
        &mut self,
        height: u64,
        content_id: u64,
        transactions: Vec<Transaction>,
        proposal_id: u64,
    )
        requires
            old(self).wf(),
        ensures
            final(self).wf(),
            final(self)@ == old(self)@.insert((height, content_id), (transactions@, proposal_id)),
    {
        let ghost s0 = self.entries@;
        let ghost k = (height, content_id);
        let ghost v = (transactions@, proposal_id);
        let e = StoreEntry { height, content_id, record: ProposalRecord { transactions, proposal_id } };
        match self.find_index(height, content_id) {
            Some(i) => {
                proof {
                    lemma_update_entry(s0, i as int, e);
                    lemma_val_at(s0, i as int);
                }
                self.entries[i] = e;
                proof {
                    assert(self@ =~= old(self)@.insert(k, v));
                }
            },
            None => {
                proof {
                    lemma_push_entry(s0, e);
                }
                self.entries.push(e);
                proof {
                    assert(self@ =~= old(self)@.insert(k, v));
                }
            },
        }
    }

    /// Looks up the record stored for (height, content id), handing back a
    /// copy of the stored transactions and the proposal id, or `None` when no
    /// pipeline has completed under that key.
    pub fn get(&self, height: u64, content_id: u64) -> (r: Option<ProposalRecord>)
        requires
            self.wf(),
        ensures
            match r {
                Some(rec) => self@.dom().contains((height, content_id)) && rec.transactions@
                    == self@[(height, content_id)].0 && rec.proposal_id == self@[
                    (height, content_id)
                ].1,
                None => !self@.dom().contains((height, content_id)),
            },
    {
        match self.find_index(height, content_id) {
            Some(i) => {
                proof {
                    lemma_val_at(self.entries@, i as int);
                }
                let e = &self.entries[i];
                let transactions = copy_transactions(&e.record.transactions);
                Some(ProposalRecord { transactions, proposal_id: e.record.proposal_id })
            },
            None => None,
        }
    }

    /// Drops every record at `height` or below; records at strictly greater
    /// heights survive unchanged. This is the sole garbage collection of the
    /// store, sound because consensus never revisits a decided height.
    pub fn prune_up_to(&mut self, height: u64)
        requires
            old(self).wf(),
        ensures
            final(self).wf(),
            final(self)@ == prune_model(old(self)@, height),
    {
        let ghost s0 = self.entries@;
        let mut kept: Vec<StoreEntry> = Vec::new();
        let n = self.entries.len();
        let mut i: usize = 0;
        while i < n
            invariant
                0 <= i <= n,
                n == self.entries@.len(),
                self.entries@ == s0,
                unique_keys(s0),
                unique_keys(kept@),
                forall|k: (u64, u64)|
                    #[trigger] has_key(kept@, k) ==> k.0 > height && exists|j: int|
                        0 <= j < i && entry_key(s0[j]) == k,
                forall|k: (u64, u64)|
                    #[trigger] has_key(kept@, k) ==> val_of(kept@, k) == val_of(s0, k),
                forall|j: int|
                    0 <= j < i && s0[j].height > height ==> has_key(kept@, entry_key(s0[j])),
            decreases n - i,
        {
            let e = &self.entries[i];
            if e.height > height {
                let ghost k = entry_key(s0[i as int]);
                proof {
                    if has_key(kept@, k) {
                        let j = choose|j: int| 0 <= j < i && entry_key(s0[j]) == k;
                        assert(entry_key(s0[j]) != entry_key(s0[i as int]));
                    }
                    lemma_val_at(s0, i as int);
                }
                let transactions = copy_transactions(&e.record.transactions);
                let kept_entry = StoreEntry {
                    height: e.height,
                    content_id: e.content_id,
                    record: ProposalRecord { transactions, proposal_id: e.record.proposal_id },
                };
                proof {
                    lemma_push_entry(kept@, kept_entry);
                    assert(entry_key(kept_entry) == k);
                    assert(entry_val(kept_entry) == entry_val(s0[i as int]));
                }
                kept.push(kept_entry);
            }
            i += 1;
        }
        proof {
            assert forall|k: (u64, u64)| has_key(s0, k) && k.0 > height implies #[trigger] has_key(
                kept@,
                k,
            ) by {
                let j = choose|j: int| 0 <= j < s0.len() && entry_key(s0[j]) == k;
                assert(s0[j].height == k.0);
            }
        }
        self.entries = kept;
        proof {
            assert(self@ =~= prune_model(old(self)@, height));
        }
    }
}

} // verus!

//! The liveness ledger: for each `(session, validator index)` at most one
//! proof that the validator was online.
use vstd::prelude::*;

verus! {

/// Self-reported network details of a node: its peer id and the addresses at
/// which it can be reached. Carried for diagnostics only.
#[derive(Clone, Debug, PartialEq, Eq)]
pub struct OpaqueNetworkState {
    pub peer_id: Vec<u8>,
    pub external_addresses: Vec<Vec<u8>>,
}

/// A liveness proof, signed by the authority key registered for
/// `authority_index` in `session_index`.
#[derive(Clone, Debug, PartialEq, Eq)]
pub struct Heartbeat {
    pub block_number: u64,
    pub network_state: OpaqueNetworkState,
    pub session_index: u32,
    pub authority_index: u32,
}

/// Why a validator counts as online.
#[derive(Clone, Debug, PartialEq, Eq)]
pub enum LivenessEntry {
    /// An accepted heartbeat.
    Received(Heartbeat),
    /// The validator authored a block or an uncle; no proof payload.
    Authored,
}

/// One ledger entry.
#[derive(Clone, Debug, PartialEq, Eq)]
pub struct LedgerRecord {
    pub session: u32,
    pub index: u32,
    pub entry: LivenessEntry,
}

/// Whether `s` holds an entry for `(session, index)`.
pub open spec fn seq_has(s: Seq<LedgerRecord>, session: u32, index: u32) -> bool {
    exists|j: int| 0 <= j < s.len() && #[trigger] s[j].session == session && s[j].index == index
}

/// No two entries of `s` share a `(session, index)` key.
pub open spec fn keys_unique(s: Seq<LedgerRecord>) -> bool {
    forall|j: int, k: int|
        0 <= j < s.len() && 0 <= k < s.len() && j != k ==> !(#[trigger] s[j].session == #[trigger] s[k].session
            && s[j].index == s[k].index)
}

/// Liveness entries keyed by `(session, validator index)`.
pub struct Ledger {
    records: Vec<LedgerRecord>,
}

impl View for Ledger {
    type V = Seq<LedgerRecord>;

    closed spec fn view(&self) -> Seq<LedgerRecord> {
        self.records@
    }
}

impl Ledger {
    /// Each key appears at most once.
    pub open spec fn wf(&self) -> bool {
        keys_unique(self@)
    }

    /// Whether an entry exists for `(session, index)`.
    pub open spec fn has(&self, session: u32, index: u32) -> bool {
        seq_has(self@, session, index)
    }

    /// An empty ledger.
    pub fn new() -> (r: Ledger)
        ensures
            r.wf(),
            r@ == Seq::<LedgerRecord>::empty(),
    {
        Ledger { records: Vec::new() }
    }

    /// Whether an entry exists for `(session, index)`.
    pub fn contains(&self, session: u32, index: u32) -> (r: bool)
        ensures
            r == self.has(session, index),
    {
        let mut j: usize = 0;
        while j < self.records.len()
            invariant
                j <= self@.len(),
                self@ == self.records@,
                forall|m: int| 0 <= m < j ==> !(#[trigger] self@[m].session == session && self@[m].index == index),
            decreases self.records.len() - j,
        {
            if self.records[j].session == session && self.records[j].index == index {
                return true;
            }
            j += 1;
        }
        false
    }

    /// The entry for `(session, index)`, if any.
    pub fn get(&self, session: u32, index: u32) -> (r: Option<&LivenessEntry>)
        requires
            self.wf(),
        ensures
            r.is_some() == self.has(session, index),
            r matches Some(e) ==> exists|j: int|
                0 <= j < self@.len() && #[trigger] self@[j].session == session && self@[j].index == index
                    && self@[j].entry == *e,
    {
        let mut j: usize = 0;
        while j < self.records.len()
            invariant
                j <= self@.len(),
                self@ == self.records@,
                forall|m: int| 0 <= m < j ==> !(#[trigger] self@[m].session == session && self@[m].index == index),
            decreases self.records.len() - j,
        {
            if self.records[j].session == session && self.records[j].index == index {
                return Some(&self.records[j].entry);
            }
            j += 1;
        }
        None
    }

    /// Inserts `entry` for `(session, index)` if no entry exists for that key
    /// yet; an existing entry is never overwritten.
    pub fn record_if_absent(&mut self, session: u32, index: u32, entry: LivenessEntry) -> (r: bool)
        requires
            old(self).wf(),
        ensures
            final(self).wf(),
            r == !old(self).has(session, index),
            r ==> final(self)@ == old(self)@.push(LedgerRecord { session, index, entry }),
            !r ==> final(self)@ == old(self)@,
    {
        if self.contains(session, index) {
            return false;
        }
        let ghost before = self@;
        self.records.push(LedgerRecord { session, index, entry });
        assert(keys_unique(self@)) by {
            assert forall|j: int, k: int|
                0 <= j < self@.len() && 0 <= k < self@.len() && j != k implies !(#[trigger] self@[j].session
                    == #[trigger] self@[k].session && self@[j].index == self@[k].index) by {
                if j < before.len() && k < before.len() {
                    assert(before[j] == self@[j] && before[k] == self@[k]);
                }
            }
        }
        true
    }

    /// Removes every entry of `session`; entries of other sessions stay.
    pub fn prune(&mut self, session: u32)
        requires
            old(self).wf(),
        ensures
            final(self).wf(),
            forall|rec: LedgerRecord|
                #[trigger] final(self)@.contains(rec) <==> (old(self)@.contains(rec) && rec.session != session),
            forall|s: u32, i: u32| #[trigger] final(self).has(s, i) <==> (s != session && old(self).has(s, i)),
    {
        let ghost orig = self@;
        let mut i: usize = 0;
        while i < self.records.len()
            invariant
                i <= self@.len(),
                keys_unique(self@),
                forall|j: int| 0 <= j < i ==> (#[trigger] self@[j]).session != session,
                forall|rec: LedgerRecord| #[trigger] self@.contains(rec) ==> orig.contains(rec),
                forall|rec: LedgerRecord|
                    #[trigger] orig.contains(rec) && rec.session != session ==> self@.contains(rec),
            decreases self.records.len() - i,
        {
            if self.records[i].session == session {
                let ghost before = self@;
                self.records.remove(i);
                assert forall|rec: LedgerRecord| #[trigger] self@.contains(rec) implies orig.contains(rec) by {
                    let j = choose|j: int| 0 <= j < self@.len() && self@[j] == rec;
                    if j < i {
                        assert(before[j] == rec);
                    } else {
                        assert(before[j + 1] == rec);
                    }
                    assert(before.contains(rec));
                }
                assert forall|rec: LedgerRecord|
                    #[trigger] orig.contains(rec) && rec.session != session implies self@.contains(rec) by {
                    assert(before.contains(rec));
                    let j = choose|j: int| 0 <= j < before.len() && before[j] == rec;
                    if j < i {
                        assert(self@[j] == rec);
                    } else {
                        assert(j != i);
                        assert(self@[j - 1] == rec);
                    }
                }
                assert(keys_unique(self@)) by {
                    assert forall|j: int, k: int|
                        0 <= j < self@.len() && 0 <= k < self@.len() && j != k implies !(
                        #[trigger] self@[j].session == #[trigger] self@[k].session && self@[j].index
                            == self@[k].index) by {
                        let jj = if j < i { j } else { j + 1 };
                        let kk = if k < i { k } else { k + 1 };
                        assert(self@[j] == before[jj] && self@[k] == before[kk]);
                    }
                }
            } else {
                i += 1;
            }
        }
        assert forall|s: u32, idx: u32| #[trigger] self.has(s, idx) <==> (s != session && seq_has(orig, s, idx)) by {
            if self.has(s, idx) {
                let j = choose|j: int| 0 <= j < self@.len() && #[trigger] self@[j].session == s && self@[j].index == idx;
                assert(self@.contains(self@[j]));
                let m = choose|m: int| 0 <= m < orig.len() && orig[m] == self@[j];
                assert(orig[m].session == s);
            }
            if s != session && seq_has(orig, s, idx) {
                let m = choose|m: int| 0 <= m < orig.len() && #[trigger] orig[m].session == s && orig[m].index == idx;
                assert(orig.contains(orig[m]));
                let j = choose|j: int| 0 <= j < self@.len() && self@[j] == orig[m];
                assert(self@[j].session == s);
            }
        }
    }
}

} // verus!

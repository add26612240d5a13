//! The per-session liveness state machine: heartbeat admission, authorship
//! evidence, heartbeat planning for local keys and the session boundary.
use vstd::prelude::*;
use crate::offence::UnresponsivenessOffence;
use crate::ledger::{Heartbeat, Ledger, LedgerRecord, LivenessEntry, keys_unique, seq_has};

verus! {

/// A member of a session's validator set.
#[derive(Clone, Copy, Debug, PartialEq, Eq, Structural)]
pub struct Authority {
    /// The validator's global id.
    pub validator_id: u64,
    /// The identification handed to the offence collector.
    pub full_identification: u64,
    /// The authority key that signs the validator's heartbeats.
    pub key: u64,
}

/// Why a heartbeat is refused.
#[derive(Clone, Copy, Debug, PartialEq, Eq, Structural)]
pub enum HeartbeatError {
    /// The heartbeat claims a session other than the current one.
    Stale,
    /// The signature does not verify against the key registered for the
    /// claimed index, or no key is registered for it.
    BadSignature,
    /// The validator is already online in this session.
    DuplicateIndex,
}

impl HeartbeatError {
    /// The message under which the transaction layer reports the error.
    pub fn message(&self) -> (r: &'static str) {
        match self {
            HeartbeatError::Stale => "Transaction is outdated",
            HeartbeatError::BadSignature => "Transaction has a bad signature",
            HeartbeatError::DuplicateIndex => "Duplicated heartbeat",
        }
    }
}

/// The liveness state of the current session.
pub struct ImOnline {
    current_session: u32,
    authorities: Vec<Authority>,
    ledger: Ledger,
}

/// The outcome of the first admission phase for a heartbeat claiming
/// `session` and `index`, when the state is in session `current` with the
/// validator set `validators` and the ledger `ledger`.
pub open spec fn admission(
    current: u32,
    validators: Seq<Authority>,
    ledger: Seq<LedgerRecord>,
    session: u32,
    index: u32,
    signature_valid: bool,
) -> Result<(), HeartbeatError> {
    if session != current {
        Err(HeartbeatError::Stale)
    } else if index >= validators.len() || !signature_valid {
        Err(HeartbeatError::BadSignature)
    } else if seq_has(ledger, current, index) {
        Err(HeartbeatError::DuplicateIndex)
    } else {
        Ok(())
    }
}

/// A heartbeat that claims any session but the current one, earlier or
/// later, is refused as stale, whatever its signature and index.
pub proof fn lemma_other_session_is_stale(
    current: u32,
    validators: Seq<Authority>,
    entries: Seq<LedgerRecord>,
    session: u32,
    index: u32,
    signature_valid: bool,
)
    requires
        session != current,
    ensures
        admission(current, validators, entries, session, index, signature_valid) == Err::<(), HeartbeatError>(
            HeartbeatError::Stale,
        ),
{
}

/// Recording the same key twice never gives two entries: once a heartbeat
/// for `(current, index)` is admitted and recorded, the ledger keys stay
/// unique and a second validly signed heartbeat for that key is refused as
/// a duplicate.
pub proof fn lemma_second_heartbeat_is_duplicate(
    current: u32,
    validators: Seq<Authority>,
    entries: Seq<LedgerRecord>,
    index: u32,
    entry: LivenessEntry,
)
    requires
        keys_unique(entries),
        admission(current, validators, entries, current, index, true) is Ok,
    ensures
        keys_unique(entries.push(LedgerRecord { session: current, index, entry })),
        admission(
            current,
            validators,
            entries.push(LedgerRecord { session: current, index, entry }),
            current,
            index,
            true,
        ) == Err::<(), HeartbeatError>(HeartbeatError::DuplicateIndex),
{
    let after = entries.push(LedgerRecord { session: current, index, entry });
    assert(after[entries.len() as int].session == current);
    assert forall|j: int, k: int|
        0 <= j < after.len() && 0 <= k < after.len() && j != k implies !(#[trigger] after[j].session
            == #[trigger] after[k].session && after[j].index == after[k].index) by {
        if j < entries.len() && k < entries.len() {
            assert(after[j] == entries[j] && after[k] == entries[k]);
        } else if j < entries.len() {
            assert(after[j] == entries[j]);
        } else if k < entries.len() {
            assert(after[k] == entries[k]);
        }
    }
}

/// `validators[j]` is the first validator of `validators` with id `id`.
pub open spec fn first_with_id(validators: Seq<Authority>, id: u64, j: int) -> bool {
    &&& 0 <= j < validators.len()
    &&& validators[j].validator_id == id
    &&& forall|m: int| 0 <= m < j ==> (#[trigger] validators[m]).validator_id != id
}

/// What the ledger holds after `(session, index)` is marked as authored.
pub open spec fn mark_authored(entries: Seq<LedgerRecord>, session: u32, index: u32) -> Seq<LedgerRecord> {
    if seq_has(entries, session, index) {
        entries
    } else {
        entries.push(LedgerRecord { session, index, entry: LivenessEntry::Authored })
    }
}

/// A heartbeat that a local key is to sign and submit.
#[derive(Clone, Copy, Debug, PartialEq, Eq, Structural)]
pub struct HeartbeatRequest {
    pub block_number: u64,
    pub session_index: u32,
    pub authority_index: u32,
    /// The local authority key to sign with.
    pub key: u64,
}

/// Why no heartbeat went out for a local key.
#[derive(Clone, Copy, Debug, PartialEq, Eq, Structural)]
pub enum OffchainErr {
    /// The validator with this index is already online in the session.
    AlreadyOnline(u32),
    /// The local key failed to sign the heartbeat.
    FailedSigning,
    /// The transaction pool refused the heartbeat.
    SubmitTransaction,
}

/// The heartbeat duties of the first `n` validators of a session, for the
/// local keys `local`: one per validator whose key is local, in index order.
pub open spec fn planned(
    validators: Seq<Authority>,
    entries: Seq<LedgerRecord>,
    session: u32,
    block_number: u64,
    local: Seq<u64>,
    n: nat,
) -> Seq<Result<HeartbeatRequest, OffchainErr>>
    decreases n,
{
    if n == 0 {
        Seq::empty()
    } else {
        let prev = planned(validators, entries, session, block_number, local, (n - 1) as nat);
        let j = (n - 1) as u32;
        if local.contains(validators[n - 1].key) {
            if seq_has(entries, session, j) {
                prev.push(Err(OffchainErr::AlreadyOnline(j)))
            } else {
                prev.push(
                    Ok(
                        HeartbeatRequest {
                            block_number,
                            session_index: session,
                            authority_index: j,
                            key: validators[n - 1].key,
                        },
                    ),
                )
            }
        } else {
            prev
        }
    }
}

/// The offenders among the first `n` validators of a session: those not
/// online, as `(validator id, full identification)`, in index order.
pub open spec fn offenders_among(
    validators: Seq<Authority>,
    entries: Seq<LedgerRecord>,
    session: u32,
    n: nat,
) -> Seq<(u64, u64)>
    decreases n,
{
    if n == 0 {
        Seq::empty()
    } else {
        let prev = offenders_among(validators, entries, session, (n - 1) as nat);
        if seq_has(entries, session, (n - 1) as u32) {
            prev
        } else {
            prev.push((validators[n - 1].validator_id, validators[n - 1].full_identification))
        }
    }
}

/// Whether `keys` holds `key`.
fn holds_key(keys: &Vec<u64>, key: u64) -> (r: bool)
    ensures
        r == keys@.contains(key),
{
    let mut j: usize = 0;
    while j < keys.len()
        invariant
            j <= keys@.len(),
            forall|m: int| 0 <= m < j ==> keys@[m] != key,
        decreases keys.len() - j,
    {
        if keys[j] == key {
            assert(keys@[j as int] == key);
            return true;
        }
        j += 1;
    }
    false
}

/// The outcome for one local key once its heartbeat was handed to the
/// signer and, if signed, to the transaction pool.
pub fn submission_outcome(signed: bool, submitted: bool) -> (r: Result<(), OffchainErr>)
    ensures
        !signed ==> r == Err::<(), OffchainErr>(OffchainErr::FailedSigning),
        signed && !submitted ==> r == Err::<(), OffchainErr>(OffchainErr::SubmitTransaction),
        signed && submitted ==> r is Ok,
{
    if !signed {
        Err(OffchainErr::FailedSigning)
    } else if !submitted {
        Err(OffchainErr::SubmitTransaction)
    } else {
        Ok(())
    }
}

impl HeartbeatRequest {
    /// The heartbeat that this request asks for, with the node's network
    /// state.
    pub fn into_heartbeat(self, network_state: crate::ledger::OpaqueNetworkState) -> (r: Heartbeat)
        ensures
            r.block_number == self.block_number,
            r.session_index == self.session_index,
            r.authority_index == self.authority_index,
            r.network_state == network_state,
    {
        Heartbeat {
            block_number: self.block_number,
            network_state,
            session_index: self.session_index,
            authority_index: self.authority_index,
        }
    }
}

impl ImOnline {
    /// The current session.
    pub closed spec fn current(&self) -> u32 {
        self.current_session
    }

    /// The validator set of the current session, by index.
    pub closed spec fn validators(&self) -> Seq<Authority> {
        self.authorities@
    }

    /// The ledger's entries.
    pub closed spec fn entries(&self) -> Seq<LedgerRecord> {
        self.ledger@
    }

    /// The ledger keys are unique, and every entry belongs to the current
    /// session and to an index of its validator set.
    pub closed spec fn wf(&self) -> bool {
        &&& self.ledger.wf()
        &&& self.authorities@.len() <= u32::MAX
        &&& forall|j: int|
            0 <= j < self.ledger@.len() ==> (#[trigger] self.ledger@[j]).session == self.current_session
                && self.ledger@[j].index < self.authorities@.len()
    }

    /// Whether validator `index` proved liveness in the current session.
    pub open spec fn online(&self, index: u32) -> bool {
        seq_has(self.entries(), self.current(), index)
    }

    /// A state in session `session_index` with the validator set
    /// `authorities` and an empty ledger.
    pub fn new(session_index: u32, authorities: Vec<Authority>) -> (r: ImOnline)
        requires
            authorities@.len() <= u32::MAX,
        ensures
            r.wf(),
            r.current() == session_index,
            r.validators() == authorities@,
            r.entries() == Seq::<LedgerRecord>::empty(),
    {
        ImOnline { current_session: session_index, authorities, ledger: Ledger::new() }
    }

    /// The current session.
    pub fn current_index(&self) -> (r: u32)
        ensures
            r == self.current(),
    {
        self.current_session
    }

    /// The validator set of the current session.
    pub fn authorities(&self) -> (r: &Vec<Authority>)
        ensures
            r@ == self.validators(),
    {
        &self.authorities
    }

    /// Whether validator `index` proved liveness in the current session.
    pub fn is_online(&self, index: u32) -> (r: bool)
        ensures
            r == self.online(index),
    {
        self.ledger.contains(self.current_session, index)
    }

    /// The entry recorded for `index` in `session`, if any.
    pub fn received_heartbeats(&self, session: u32, index: u32) -> (r: Option<&LivenessEntry>)
        requires
            self.wf(),
        ensures
            r.is_some() == seq_has(self.entries(), session, index),
    {
        self.ledger.get(session, index)
    }

    /// First admission phase, without side effects. `signature_valid` is
    /// whether the heartbeat's signature verifies against the key of
    /// `heartbeat.authority_index` in the current validator set.
    pub fn validate_heartbeat(&self, heartbeat: &Heartbeat, signature_valid: bool) -> (r: Result<(), HeartbeatError>)
        ensures
            r == admission(
                self.current(),
                self.validators(),
                self.entries(),
                heartbeat.session_index,
                heartbeat.authority_index,
                signature_valid,
            ),
    {
        if heartbeat.session_index != self.current_session {
            Err(HeartbeatError::Stale)
        } else if heartbeat.authority_index as usize >= self.authorities.len() || !signature_valid {
            Err(HeartbeatError::BadSignature)
        } else if self.ledger.contains(self.current_session, heartbeat.authority_index) {
            Err(HeartbeatError::DuplicateIndex)
        } else {
            Ok(())
        }
    }

    /// Second admission phase: records a heartbeat that passed the first
    /// phase, checking again that its session is current and that its index
    /// is not yet online.
    pub fn heartbeat(&mut self, heartbeat: Heartbeat) -> (r: Result<(), HeartbeatError>)
        requires
            old(self).wf(),
        ensures
            final(self).wf(),
            final(self).current() == old(self).current(),
            final(self).validators() == old(self).validators(),
            r == admission(
                old(self).current(),
                old(self).validators(),
                old(self).entries(),
                heartbeat.session_index,
                heartbeat.authority_index,
                true,
            ),
            r is Ok ==> final(self).entries() == old(self).entries().push(
                LedgerRecord {
                    session: heartbeat.session_index,
                    index: heartbeat.authority_index,
                    entry: LivenessEntry::Received(heartbeat),
                },
            ),
            r is Err ==> final(self).entries() == old(self).entries(),
    {
        if heartbeat.session_index != self.current_session {
            return Err(HeartbeatError::Stale);
        }
        if heartbeat.authority_index as usize >= self.authorities.len() {
            return Err(HeartbeatError::BadSignature);
        }
        let session = heartbeat.session_index;
        let index = heartbeat.authority_index;
        let ghost before = self.ledger@;
        if self.ledger.record_if_absent(session, index, LivenessEntry::Received(heartbeat)) {
            assert forall|j: int| 0 <= j < self.ledger@.len() implies (#[trigger] self.ledger@[j]).session
                == self.current_session && self.ledger@[j].index < self.authorities@.len() by {
                if j < before.len() {
                    assert(self.ledger@[j] == before[j]);
                }
            }
            Ok(())
        } else {
            Err(HeartbeatError::DuplicateIndex)
        }
    }

    /// Marks the first validator with id `author` as online, unless it is
    /// already; no effect when no validator has that id.
    fn note_authored(&mut self, author: u64)
        requires
            old(self).wf(),
        ensures
            final(self).wf(),
            final(self).current() == old(self).current(),
            final(self).validators() == old(self).validators(),
            (forall|j: int| 0 <= j < old(self).validators().len() ==> (#[trigger] old(self).validators()[j]).validator_id
                != author) ==> final(self).entries() == old(self).entries(),
            forall|j: int| #[trigger] first_with_id(old(self).validators(), author, j) ==> final(self).entries()
                == mark_authored(old(self).entries(), old(self).current(), j as u32),
    {
        let mut j: usize = 0;
        while j < self.authorities.len()
            invariant
                j <= self.authorities@.len(),
                self.wf(),
                self.current_session == old(self).current_session,
                self.authorities@ == old(self).authorities@,
                self.ledger@ == old(self).ledger@,
                forall|m: int| 0 <= m < j ==> (#[trigger] self.authorities@[m]).validator_id != author,
            decreases self.authorities.len() - j,
        {
            if self.authorities[j].validator_id == author {
                let ghost before = self.ledger@;
                let session = self.current_session;
                self.ledger.record_if_absent(session, j as u32, LivenessEntry::Authored);
                assert forall|k: int| 0 <= k < self.ledger@.len() implies (#[trigger] self.ledger@[k]).session
                    == self.current_session && self.ledger@[k].index < self.authorities@.len() by {
                    if k < before.len() {
                        assert(self.ledger@[k] == before[k]);
                    }
                }
                assert forall|i: int| #[trigger] first_with_id(self.authorities@, author, i) implies i == j by {
                    if i < j {
                    } else if i > j {
                        assert(self.authorities@[j as int].validator_id == author);
                    }
                }
                assert(old(self).validators()[j as int].validator_id == author);
                return;
            }
            j += 1;
        }
    }

    /// Authorship evidence: the validator with id `author` authored a block.
    pub fn note_author(&mut self, author: u64)
        requires
            old(self).wf(),
        ensures
            final(self).wf(),
            final(self).current() == old(self).current(),
            final(self).validators() == old(self).validators(),
            (forall|j: int| 0 <= j < old(self).validators().len() ==> (#[trigger] old(self).validators()[j]).validator_id
                != author) ==> final(self).entries() == old(self).entries(),
            forall|j: int| #[trigger] first_with_id(old(self).validators(), author, j) ==> final(self).entries()
                == mark_authored(old(self).entries(), old(self).current(), j as u32),
    {
        self.note_authored(author);
    }

    /// Authorship evidence: the validator with id `author` authored an uncle
    /// `age` blocks back. The age plays no part here.
    pub fn note_uncle(&mut self, author: u64, age: u64)
        requires
            old(self).wf(),
        ensures
            final(self).wf(),
            final(self).current() == old(self).current(),
            final(self).validators() == old(self).validators(),
            (forall|j: int| 0 <= j < old(self).validators().len() ==> (#[trigger] old(self).validators()[j]).validator_id
                != author) ==> final(self).entries() == old(self).entries(),
            forall|j: int| #[trigger] first_with_id(old(self).validators(), author, j) ==> final(self).entries()
                == mark_authored(old(self).entries(), old(self).current(), j as u32),
    {
        self.note_authored(author);
    }

    /// The heartbeat duties at block `block_number` for the local keys
    /// `local_keys`: for each validator of the session whose key is local,
    /// in index order, either a heartbeat to sign and submit or
    /// `AlreadyOnline` when the validator has proved liveness already.
    pub fn send_heartbeats(&self, block_number: u64, local_keys: &Vec<u64>) -> (r: Vec<
        Result<HeartbeatRequest, OffchainErr>,
    >)
        requires
            self.wf(),
        ensures
            r@ == planned(
                self.validators(),
                self.entries(),
                self.current(),
                block_number,
                local_keys@,
                self.validators().len(),
            ),
    {
        let mut out: Vec<Result<HeartbeatRequest, OffchainErr>> = Vec::new();
        let mut j: usize = 0;
        while j < self.authorities.len()
            invariant
                self.wf(),
                j <= self.authorities@.len(),
                out@ == planned(
                    self.authorities@,
                    self.ledger@,
                    self.current_session,
                    block_number,
                    local_keys@,
                    j as nat,
                ),
            decreases self.authorities.len() - j,
        {
            let key = self.authorities[j].key;
            if holds_key(local_keys, key) {
                let index = j as u32;
                if self.ledger.contains(self.current_session, index) {
                    out.push(Err(OffchainErr::AlreadyOnline(index)));
                } else {
                    out.push(
                        Ok(
                            HeartbeatRequest {
                                block_number,
                                session_index: self.current_session,
                                authority_index: index,
                                key,
                            },
                        ),
                    );
                }
            }
            j += 1;
        }
        out
    }

    /// The session is about to end: the offence for every validator of the
    /// set that proved no liveness, or `None` when every one of them did.
    /// The ledger is left as it is.
    pub fn on_before_session_ending(&self) -> (r: Option<UnresponsivenessOffence>)
        requires
            self.wf(),
        ensures
            r is None <==> offenders_among(self.validators(), self.entries(), self.current(), self.validators().len()).len()
                == 0,
            r matches Some(o) ==> {
                &&& o.session_index == self.current()
                &&& o.validator_set_count == self.validators().len()
                &&& o.offenders@ == offenders_among(
                    self.validators(),
                    self.entries(),
                    self.current(),
                    self.validators().len(),
                )
            },
    {
        let mut offenders: Vec<(u64, u64)> = Vec::new();
        let mut j: usize = 0;
        while j < self.authorities.len()
            invariant
                self.wf(),
                j <= self.authorities@.len(),
                offenders@ == offenders_among(self.authorities@, self.ledger@, self.current_session, j as nat),
            decreases self.authorities.len() - j,
        {
            if !self.ledger.contains(self.current_session, j as u32) {
                let a = self.authorities[j];
                offenders.push((a.validator_id, a.full_identification));
            }
            j += 1;
        }
        if offenders.len() == 0 {
            None
        } else {
            Some(
                UnresponsivenessOffence {
                    session_index: self.current_session,
                    validator_set_count: self.authorities.len() as u32,
                    offenders,
                },
            )
        }
    }

    /// The session has ended: its entries are pruned, and the state moves
    /// to session `session_index` with the validator set `authorities`.
    pub fn on_new_session(&mut self, session_index: u32, authorities: Vec<Authority>)
        requires
            old(self).wf(),
            authorities@.len() <= u32::MAX,
        ensures
            final(self).wf(),
            final(self).current() == session_index,
            final(self).validators() == authorities@,
            final(self).entries() == Seq::<LedgerRecord>::empty(),
    {
        let ended = self.current_session;
        self.ledger.prune(ended);
        proof {
            assert(self.ledger@.len() == 0) by {
                if self.ledger@.len() > 0 {
                    assert(self.ledger@.contains(self.ledger@[0]));
                }
            }
        }
        self.current_session = session_index;
        self.authorities = authorities;
    }
}

} // verus!

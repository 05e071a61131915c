use vstd::prelude::*;
use crate::address::{normalize, trim_of};
use crate::record::{plan_updates, patch_views, stale_patches, DnsRecord, PatchView, RecordUpdate};

verus! {

/// Where a run stands.
#[derive(Clone, Copy, Debug, PartialEq, Eq, Structural)]
pub enum Phase {
    /// Created, not started.
    Idle,
    /// Waiting for the current address to be stored.
    Saving,
    /// Waiting for the provider's record list.
    Listing,
    /// Waiting for the result of one record update.
    Updating,
    /// Finished; nothing more is asked.
    Done,
}

/// How a run ended.
#[derive(Clone, Copy, Debug, PartialEq, Eq, Structural)]
pub enum Outcome {
    /// The address did not change: nothing was stored or sent.
    Unchanged,
    /// The new address was stored; no credential, so the provider was not contacted.
    LocalOnly,
    /// The new address was stored and every stale record was attempted.
    Propagated,
    /// Storing the new address failed.
    StorageFailed,
    /// The provider's record list could not be had.
    ListFailed,
}

/// What the caller has to do next.
#[derive(Clone, Copy, Debug, PartialEq, Eq, Structural)]
pub enum Action {
    /// Store `Reconciler::address` as the last known address.
    Save,
    /// Fetch the domain's records from the provider.
    ListRecords,
    /// Send the pending update with this index (`Reconciler::pending`).
    Update(usize),
    /// The run is over.
    Finish(Outcome),
}

/// Mathematical state of a run.
pub ghost struct RunView {
    pub current: Seq<char>,
    pub previous: Seq<char>,
    pub credential: bool,
    pub phase: Phase,
    pub queue: Seq<PatchView>,
    pub next: nat,
    pub updated: Seq<u64>,
    pub failed: Seq<u64>,
}

/// The state a run starts from: both addresses trimmed.
pub open spec fn initial_run(current: Seq<char>, previous: Seq<char>, credential: bool) -> RunView {
    RunView {
        current: trim_of(current),
        previous: trim_of(previous),
        credential,
        phase: Phase::Idle,
        queue: Seq::empty(),
        next: 0,
        updated: Seq::empty(),
        failed: Seq::empty(),
    }
}

impl RunView {
    /// Both addresses are trimmed, and an update is in flight only while
    /// one is pending.
    pub open spec fn well_formed(self) -> bool {
        &&& trim_of(self.current) == self.current
        &&& trim_of(self.previous) == self.previous
        &&& self.next <= self.queue.len()
        &&& self.phase == Phase::Updating ==> self.next < self.queue.len()
    }

    /// End the run with the given outcome.
    pub open spec fn finish(self, o: Outcome) -> (RunView, Action) {
        (RunView { phase: Phase::Done, ..self }, Action::Finish(o))
    }

    /// Compare the addresses: equal ends the run, different asks to store.
    pub open spec fn on_start(self) -> (RunView, Action) {
        if self.current == self.previous {
            self.finish(Outcome::Unchanged)
        } else {
            (RunView { phase: Phase::Saving, ..self }, Action::Save)
        }
    }

    /// After the store: a failure ends the run, no credential ends it
    /// locally, else the records are asked for.
    pub open spec fn on_saved(self, ok: bool) -> (RunView, Action) {
        if !ok {
            self.finish(Outcome::StorageFailed)
        } else if !self.credential {
            self.finish(Outcome::LocalOnly)
        } else {
            (RunView { phase: Phase::Listing, ..self }, Action::ListRecords)
        }
    }

    /// Send the next pending update, or finish when none is left.
    pub open spec fn advance(self) -> (RunView, Action) {
        if self.next < self.queue.len() {
            (RunView { phase: Phase::Updating, ..self }, Action::Update(self.next as usize))
        } else {
            self.finish(Outcome::Propagated)
        }
    }

    /// The listed records give the queue of updates.
    pub open spec fn on_listed(self, records: Seq<DnsRecord>) -> (RunView, Action) {
        RunView {
            queue: stale_patches(records, self.previous, self.current),
            next: 0,
            ..self
        }.advance()
    }

    /// The record list could not be had: the run ends.
    pub open spec fn on_list_failed(self) -> (RunView, Action) {
        self.finish(Outcome::ListFailed)
    }

    /// Record the result of the update in flight, then go on whatever it was.
    pub open spec fn on_updated(self, ok: bool) -> (RunView, Action) {
        let id = self.queue[self.next as int].id;
        if ok {
            RunView { updated: self.updated.push(id), next: self.next + 1, ..self }.advance()
        } else {
            RunView { failed: self.failed.push(id), next: self.next + 1, ..self }.advance()
        }
    }
}

/// Drives one reconciliation run: it decides, the caller performs the I/O
/// that each returned `Action` asks for and reports back.
pub struct Reconciler {
    current: String,
    previous: String,
    credential: bool,
    phase: Phase,
    queue: Vec<RecordUpdate>,
    next: usize,
    updated: Vec<u64>,
    failed: Vec<u64>,
}

impl View for Reconciler {
    type V = RunView;

    closed spec fn view(&self) -> RunView {
        RunView {
            current: self.current@,
            previous: self.previous@,
            credential: self.credential,
            phase: self.phase,
            queue: patch_views(self.queue@),
            next: self.next as nat,
            updated: self.updated@,
            failed: self.failed@,
        }
    }
}

impl Reconciler {
    /// A run for the discovered address `current`, the stored address
    /// `previous`, and whether a provider credential is available.
    pub fn new(current: &str, previous: &str, credential: bool) -> (r: Reconciler)
        ensures
            r@ == initial_run(current@, previous@, credential),
            r@.well_formed(),
    {
        let r = Reconciler {
            current: normalize(current),
            previous: normalize(previous),
            credential,
            phase: Phase::Idle,
            queue: Vec::new(),
            next: 0,
            updated: Vec::new(),
            failed: Vec::new(),
        };
        assert(patch_views(r.queue@) =~= Seq::empty());
        r
    }

    fn finish(&mut self, o: Outcome) -> (a: Action)
        ensures
            (final(self)@, a) == old(self)@.finish(o),
    {
        self.phase = Phase::Done;
        Action::Finish(o)
    }

    fn advance(&mut self) -> (a: Action)
        requires
            old(self)@.next <= old(self)@.queue.len(),
        ensures
            (final(self)@, a) == old(self)@.advance(),
    {
        if self.next < self.queue.len() {
            self.phase = Phase::Updating;
            Action::Update(self.next)
        } else {
            self.finish(Outcome::Propagated)
        }
    }

    /// Begins the run by comparing the two addresses.
    pub fn start(&mut self) -> (a: Action)
        requires
            old(self)@.well_formed(),
            old(self)@.phase == Phase::Idle,
        ensures
            (final(self)@, a) == old(self)@.on_start(),
            final(self)@.well_formed(),
    {
        if self.current == self.previous {
            self.finish(Outcome::Unchanged)
        } else {
            self.phase = Phase::Saving;
            Action::Save
        }
    }

    /// Reports whether storing the address succeeded.
    pub fn saved(&mut self, ok: bool) -> (a: Action)
        requires
            old(self)@.well_formed(),
            old(self)@.phase == Phase::Saving,
        ensures
            (final(self)@, a) == old(self)@.on_saved(ok),
            final(self)@.well_formed(),
    {
        if !ok {
            self.finish(Outcome::StorageFailed)
        } else if !self.credential {
            self.finish(Outcome::LocalOnly)
        } else {
            self.phase = Phase::Listing;
            Action::ListRecords
        }
    }

    /// Hands over the provider's records.
    pub fn listed(&mut self, records: &Vec<DnsRecord>) -> (a: Action)
        requires
            old(self)@.well_formed(),
            old(self)@.phase == Phase::Listing,
        ensures
            (final(self)@, a) == old(self)@.on_listed(records@),
            final(self)@.well_formed(),
    {
        self.queue = plan_updates(records, self.previous.as_str(), self.current.as_str());
        self.next = 0;
        self.advance()
    }

    /// Reports that the provider's records could not be had.
    pub fn list_failed(&mut self) -> (a: Action)
        requires
            old(self)@.well_formed(),
            old(self)@.phase == Phase::Listing,
        ensures
            (final(self)@, a) == old(self)@.on_list_failed(),
            final(self)@.well_formed(),
    {
        self.finish(Outcome::ListFailed)
    }

    /// Reports whether the update in flight succeeded.
    pub fn updated(&mut self, ok: bool) -> (a: Action)
        requires
            old(self)@.well_formed(),
            old(self)@.phase == Phase::Updating,
        ensures
            (final(self)@, a) == old(self)@.on_updated(ok),
            final(self)@.well_formed(),
    {
        let len = self.queue.len();
        assert(self.next < len);
        let id = self.queue[self.next].id;
        if ok {
            self.updated.push(id);
        } else {
            self.failed.push(id);
        }
        self.next = self.next + 1;
        self.advance()
    }

    /// The current address, trimmed: what `Action::Save` asks to store.
    pub fn address(&self) -> (r: &str)
        ensures
            r@ == self@.current,
    {
        self.current.as_str()
    }

    /// The update with index `i` among those planned from the listed records.
    pub fn pending(&self, i: usize) -> (r: &RecordUpdate)
        requires
            i < self@.queue.len(),
        ensures
            r@ == self@.queue[i as int],
    {
        &self.queue[i]
    }

    /// How many updates were planned.
    pub fn pending_count(&self) -> (r: usize)
        ensures
            r == self@.queue.len(),
    {
        self.queue.len()
    }

    /// Where the run stands.
    pub fn phase(&self) -> (r: Phase)
        ensures
            r == self@.phase,
    {
        self.phase
    }

    /// Ids of the records whose update succeeded, in the order sent.
    pub fn updated_ids(&self) -> (r: &Vec<u64>)
        ensures
            r@ == self@.updated,
    {
        &self.updated
    }

    /// Ids of the records whose update failed, in the order sent.
    pub fn failed_ids(&self) -> (r: &Vec<u64>)
        ensures
            r@ == self@.failed,
    {
        &self.failed
    }
}

} // verus!

//! The orchestrator: which work unit is admitted next and when, which tasks
//! are in flight, and what follows each completion.
//!
//! A work unit is known by its position in the input. The driver keeps the
//! credentials and connections and hands over positions and outcomes only.

use crate::error::{RegistryError, StartupError};
use crate::pool::{pool_fault, EndpointPool};
use crate::throttle::AdmissionThrottle;
use vstd::prelude::*;

verus! {

/// Where a work unit stands.
#[derive(Clone, Copy, Debug, PartialEq, Eq, Structural)]
pub enum UnitStatus {
    /// Not admitted yet.
    Pending,
    /// One task for it is in flight.
    Live,
    /// A task for it has succeeded; nothing more is owed.
    Succeeded,
}

/// What the run has recorded of one work unit.
#[derive(Clone, Copy, Debug, PartialEq, Eq, Structural)]
pub struct UnitRecord {
    pub status: UnitStatus,
    /// The endpoint of its latest task.
    pub endpoint: usize,
    /// Tasks started for it.
    pub attempts: u64,
    /// Tasks of it that failed.
    pub failures: u64,
    /// Tasks of it that succeeded.
    pub successes: u64,
}

/// One execution of the workflow: a work unit bound to an endpoint.
#[derive(Clone, Copy, Debug, PartialEq, Eq, Structural)]
pub struct Task {
    pub unit: usize,
    pub endpoint: usize,
}

/// What the driver does next.
#[derive(Clone, Copy, Debug, PartialEq, Eq, Structural)]
pub enum Action {
    /// Ask the throttle how long to pause before the next admission, and
    /// pause.
    WaitTurn,
    /// Admit this work unit: start its first task.
    Admit { unit: usize },
    /// Every unit is admitted and tasks are in flight: wait for one to end.
    AwaitCompletion,
    /// Nothing is in flight and nothing is left to admit.
    Stop,
}

impl UnitRecord {
    /// A work unit before its first admission.
    pub open spec fn pending() -> UnitRecord {
        UnitRecord {
            status: UnitStatus::Pending,
            endpoint: 0,
            attempts: 0,
            failures: 0,
            successes: 0,
        }
    }

    /// A work unit after its first admission, on the given endpoint.
    pub open spec fn admitted(endpoint: usize) -> UnitRecord {
        UnitRecord {
            status: UnitStatus::Live,
            endpoint,
            attempts: 1,
            failures: 0,
            successes: 0,
        }
    }

    /// The record after its task in flight has succeeded.
    pub open spec fn succeeded(self) -> UnitRecord {
        UnitRecord { status: UnitStatus::Succeeded, successes: 1, ..self }
    }

    /// The record after its task in flight has failed and a new one was
    /// started on the given endpoint.
    pub open spec fn resubmitted(self, endpoint: usize) -> UnitRecord {
        UnitRecord {
            status: UnitStatus::Live,
            endpoint,
            attempts: (self.attempts + 1) as u64,
            failures: (self.failures + 1) as u64,
            successes: self.successes,
        }
    }

    /// Tasks of this work unit that were started and have not ended.
    pub open spec fn in_flight(self) -> int {
        self.attempts - self.failures - self.successes
    }

    /// What holds of every record of a run. `admitted` says whether the
    /// admission cursor has passed the work unit.
    pub open spec fn consistent(self, admitted: bool, pool_len: nat) -> bool {
        match self.status {
            UnitStatus::Pending => !admitted && self == UnitRecord::pending(),
            UnitStatus::Live => {
                &&& admitted
                &&& self.endpoint < pool_len
                &&& self.attempts == self.failures + 1
                &&& self.successes == 0
            },
            UnitStatus::Succeeded => {
                &&& admitted
                &&& self.endpoint < pool_len
                &&& self.attempts == self.failures + 1
                &&& self.successes == 1
            },
        }
    }
}

/// 1 for a record of the given status, else 0.
pub open spec fn status_weight(record: UnitRecord, status: UnitStatus) -> nat {
    if record.status == status {
        1
    } else {
        0
    }
}

/// The number of records of the given status.
pub open spec fn count_with(records: Seq<UnitRecord>, status: UnitStatus) -> nat
    decreases records.len(),
{
    if records.len() == 0 {
        0
    } else {
        count_with(records.drop_last(), status) + status_weight(records.last(), status)
    }
}

/// 1 for a record with a task in flight, else 0.
pub open spec fn live_weight(record: UnitRecord) -> nat {
    status_weight(record, UnitStatus::Live)
}

/// The number of records with a task in flight: the size of the registry.
pub open spec fn count_live(records: Seq<UnitRecord>) -> nat {
    count_with(records, UnitStatus::Live)
}

/// The number of records of work units that have succeeded.
pub open spec fn count_succeeded(records: Seq<UnitRecord>) -> nat {
    count_with(records, UnitStatus::Succeeded)
}

/// The record of a work unit that was admitted on `first` and then failed once
/// for each entry of `retries`, each time restarted on that entry.
pub open spec fn replay(first: usize, retries: Seq<usize>) -> UnitRecord
    decreases retries.len(),
{
    if retries.len() == 0 {
        UnitRecord::admitted(first)
    } else {
        replay(first, retries.drop_last()).resubmitted(retries.last())
    }
}

/// The fault, if any, in the inputs of a run: the endpoints are looked at
/// first.
pub open spec fn startup_fault(urls: Seq<String>, identities: nat, recipients: nat) -> Option<
    StartupError,
> {
    if pool_fault(urls) is Some {
        pool_fault(urls)
    } else if identities != recipients {
        Some(StartupError::CountMismatch)
    } else {
        None
    }
}

proof fn lemma_count_bound(records: Seq<UnitRecord>, status: UnitStatus)
    ensures
        count_with(records, status) <= records.len(),
    decreases records.len(),
{
    if records.len() > 0 {
        lemma_count_bound(records.drop_last(), status);
    }
}

proof fn lemma_count_push(records: Seq<UnitRecord>, record: UnitRecord, status: UnitStatus)
    ensures
        count_with(records.push(record), status) == count_with(records, status) + status_weight(
            record,
            status,
        ),
{
    assert(records.push(record).drop_last() =~= records);
}

proof fn lemma_count_update(
    records: Seq<UnitRecord>,
    i: int,
    record: UnitRecord,
    status: UnitStatus,
)
    requires
        0 <= i < records.len(),
    ensures
        count_with(records.update(i, record), status) == count_with(records, status)
            - status_weight(records[i], status) + status_weight(record, status),
    decreases records.len(),
{
    let updated = records.update(i, record);
    if i == records.len() - 1 {
        assert(updated.drop_last() =~= records.drop_last());
    } else {
        lemma_count_update(records.drop_last(), i, record, status);
        assert(updated.drop_last() =~= records.drop_last().update(i, record));
    }
}

proof fn lemma_count_live_zero(records: Seq<UnitRecord>)
    requires
        count_live(records) == 0,
    ensures
        forall|i: int| 0 <= i < records.len() ==> (#[trigger] records[i]).status != UnitStatus::Live,
    decreases records.len(),
{
    if records.len() > 0 {
        let front = records.drop_last();
        lemma_count_live_zero(front);
        assert forall|i: int| 0 <= i < records.len() implies (#[trigger] records[i]).status
            != UnitStatus::Live by {
            if i < records.len() - 1 {
                assert(front[i] == records[i]);
            }
        }
    }
}

/// The state of one run.
#[derive(Clone, Debug)]
pub struct Orchestrator {
    pool: EndpointPool,
    records: Vec<UnitRecord>,
    cursor: usize,
    live: usize,
    succeeded: usize,
    throttle: AdmissionThrottle,
    turn_granted: bool,
    releases: Vec<u64>,
}

impl Orchestrator {
    /// The endpoints of the run.
    pub closed spec fn pool(&self) -> EndpointPool {
        self.pool
    }

    /// The record of each work unit, by position.
    pub closed spec fn records(&self) -> Seq<UnitRecord> {
        self.records@
    }

    /// The number of work units that have had their first admission. They are
    /// admitted in input order, so these are the first `cursor()` of them.
    pub closed spec fn cursor(&self) -> nat {
        self.cursor as nat
    }

    /// The number of tasks in flight.
    pub closed spec fn live(&self) -> nat {
        self.live as nat
    }

    /// The number of work units that have succeeded.
    pub closed spec fn succeeded(&self) -> nat {
        self.succeeded as nat
    }

    /// The throttle that paces first admissions.
    pub closed spec fn throttle(&self) -> AdmissionThrottle {
        self.throttle
    }

    /// Whether the next work unit has waited its turn and may be admitted.
    pub closed spec fn turn_granted(&self) -> bool {
        self.turn_granted
    }

    /// The moments at which the throttle released a work unit for its first
    /// admission, in input order, in milliseconds on the driver's clock.
    pub closed spec fn releases(&self) -> Seq<u64> {
        self.releases@
    }

    /// The invariant of a run.
    pub open spec fn wf(&self) -> bool {
        &&& self.pool().wf()
        &&& self.cursor() <= self.records().len()
        &&& self.live() == count_live(self.records())
        &&& self.succeeded() == count_succeeded(self.records())
        &&& self.turn_granted() ==> self.cursor() < self.records().len()
        &&& self.releases().len() == self.cursor() + if self.turn_granted() {
            1nat
        } else {
            0nat
        }
        &&& self.throttle().last_release() == if self.releases().len() == 0 {
            None::<u64>
        } else {
            Some(self.releases().last())
        }
        &&& forall|i: int|
            0 <= i && i + 1 < self.releases().len() ==> (#[trigger] self.releases()[i + 1])
                - self.releases()[i] >= self.throttle().delay()
        &&& forall|i: int|
            0 <= i < self.records().len() ==> (#[trigger] self.records()[i]).consistent(
                i < self.cursor(),
                self.pool().spec_len(),
            )
    }

    /// Two states that agree in everything.
    pub open spec fn same_as(&self, other: &Orchestrator) -> bool {
        &&& self.pool() == other.pool()
        &&& self.records() == other.records()
        &&& self.cursor() == other.cursor()
        &&& self.live() == other.live()
        &&& self.succeeded() == other.succeeded()
        &&& self.throttle() == other.throttle()
        &&& self.turn_granted() == other.turn_granted()
        &&& self.releases() == other.releases()
    }

    /// What the driver does next: while a unit is pending, wait for the
    /// throttle and admit it; then wait for completions while tasks are in
    /// flight; then stop.
    pub open spec fn next(&self) -> Action {
        if self.cursor() < self.records().len() {
            if self.turn_granted() {
                Action::Admit { unit: self.cursor() as usize }
            } else {
                Action::WaitTurn
            }
        } else if self.live() > 0 {
            Action::AwaitCompletion
        } else {
            Action::Stop
        }
    }

    /// Why the throttle cannot be asked, if that is so.
    pub open spec fn turn_fault(&self) -> Option<RegistryError> {
        if self.cursor() >= self.records().len() {
            Some(RegistryError::NothingToAdmit)
        } else if self.turn_granted() {
            Some(RegistryError::TurnAlreadyGranted)
        } else {
            None
        }
    }

    /// Why no work unit can be admitted, whatever the endpoint, if that is so.
    pub open spec fn pending_fault(&self) -> Option<RegistryError> {
        if self.cursor() >= self.records().len() {
            Some(RegistryError::NothingToAdmit)
        } else if !self.turn_granted() {
            Some(RegistryError::TurnNotAwaited)
        } else {
            None
        }
    }

    /// Why no work unit can be admitted on this endpoint, if that is so.
    pub open spec fn admit_fault(&self, endpoint: usize) -> Option<RegistryError> {
        if self.pending_fault() is Some {
            self.pending_fault()
        } else if endpoint >= self.pool().spec_len() {
            Some(RegistryError::UnknownEndpoint)
        } else {
            None
        }
    }

    /// Why this work unit cannot have completed a task, if that is so.
    pub open spec fn unit_fault(&self, unit: usize) -> Option<RegistryError> {
        if unit >= self.records().len() {
            Some(RegistryError::UnknownUnit)
        } else if self.records()[unit as int].status != UnitStatus::Live {
            Some(RegistryError::NoLiveTask)
        } else {
            None
        }
    }

    /// Why this completion cannot be recorded, if that is so. The endpoint is
    /// looked at only where a new task is to be started on it.
    pub open spec fn complete_fault(&self, unit: usize, success: bool, endpoint: usize) -> Option<
        RegistryError,
    > {
        if self.unit_fault(unit) is Some {
            self.unit_fault(unit)
        } else if !success && endpoint >= self.pool().spec_len() {
            Some(RegistryError::UnknownEndpoint)
        } else {
            None
        }
    }

    /// Sets up a run over the configured endpoints for as many work units as
    /// there are identities, with first admissions paced by `delay_ms`. Nothing
    /// is admitted yet. An empty endpoint list is refused, an endpoint that is
    /// no URL, and identities and recipients that differ in number.
    pub fn new(
        urls: &Vec<String>,
        delay_ms: u64,
        identity_count: usize,
        recipient_count: usize,
    ) -> (made: Result<Orchestrator, StartupError>)
        ensures
            made is Err <==> startup_fault(
                urls@,
                identity_count as nat,
                recipient_count as nat,
            ) is Some,
            made is Err ==> Some(made->Err_0) == startup_fault(
                urls@,
                identity_count as nat,
                recipient_count as nat,
            ),
            made is Ok ==> {
                let run = made->Ok_0;
                &&& run.wf()
                &&& run.pool().endpoints().len() == urls@.len()
                &&& forall|i: int|
                    0 <= i < urls@.len() ==> (#[trigger] run.pool().endpoints()[i]).url == urls@[i]
                &&& run.records() == Seq::new(
                    identity_count as nat,
                    |i: int| UnitRecord::pending(),
                )
                &&& run.cursor() == 0
                &&& run.live() == 0
                &&& run.succeeded() == 0
                &&& run.throttle().delay() == delay_ms
                &&& run.throttle().last_release() is None
                &&& !run.turn_granted()
                &&& run.releases().len() == 0
            },
    {
        let pool = match EndpointPool::new(urls) {
            Ok(pool) => pool,
            Err(e) => {
                return Err(e);
            },
        };
        if identity_count != recipient_count {
            return Err(StartupError::CountMismatch);
        }
        let mut records: Vec<UnitRecord> = Vec::new();
        let mut i: usize = 0;
        while i < identity_count
            invariant
                i <= identity_count,
                records@ =~= Seq::new(i as nat, |k: int| UnitRecord::pending()),
                count_live(records@) == 0,
                count_succeeded(records@) == 0,
            decreases identity_count - i,
        {
            let fresh = UnitRecord {
                status: UnitStatus::Pending,
                endpoint: 0,
                attempts: 0,
                failures: 0,
                successes: 0,
            };
            proof {
                lemma_count_push(records@, fresh, UnitStatus::Live);
                lemma_count_push(records@, fresh, UnitStatus::Succeeded);
            }
            records.push(fresh);
            i = i + 1;
        }
        Ok(
            Orchestrator {
                pool,
                records,
                cursor: 0,
                live: 0,
                succeeded: 0,
                throttle: AdmissionThrottle::new(delay_ms),
                turn_granted: false,
                releases: Vec::new(),
            },
        )
    }

    /// The number of work units.
    pub fn unit_count(&self) -> (n: usize)
        ensures
            n == self.records().len(),
    {
        self.records.len()
    }

    /// The number of work units that have had their first admission.
    pub fn admitted_count(&self) -> (n: usize)
        ensures
            n == self.cursor(),
    {
        self.cursor
    }

    /// The number of tasks in flight.
    pub fn live_tasks(&self) -> (n: usize)
        ensures
            n == self.live(),
    {
        self.live
    }

    /// The number of work units that have succeeded.
    pub fn succeeded_units(&self) -> (n: usize)
        ensures
            n == self.succeeded(),
    {
        self.succeeded
    }

    /// When the throttle released a work unit for its first admission, if it
    /// has.
    pub fn released_at(&self, unit: usize) -> (at: Option<u64>)
        ensures
            unit >= self.releases().len() ==> at is None,
            unit < self.releases().len() ==> at == Some(self.releases()[unit as int]),
    {
        if unit < self.releases.len() {
            Some(self.releases[unit])
        } else {
            None
        }
    }

    /// The endpoints of the run.
    pub fn endpoints(&self) -> (pool: &EndpointPool)
        ensures
            *pool == self.pool(),
    {
        &self.pool
    }

    /// The record of a work unit, if there is one at this position.
    pub fn record(&self, unit: usize) -> (found: Option<UnitRecord>)
        ensures
            unit >= self.records().len() ==> found is None,
            unit < self.records().len() ==> found == Some(self.records()[unit as int]),
    {
        if unit < self.records.len() {
            Some(self.records[unit])
        } else {
            None
        }
    }

    /// What the driver does next.
    pub fn next_action(&self) -> (action: Action)
        ensures
            action == self.next(),
    {
        if self.cursor < self.records.len() {
            if self.turn_granted {
                Action::Admit { unit: self.cursor }
            } else {
                Action::WaitTurn
            }
        } else if self.live > 0 {
            Action::AwaitCompletion
        } else {
            Action::Stop
        }
    }

    /// Whether the run is over: every unit admitted, nothing in flight.
    pub fn is_finished(&self) -> (done: bool)
        ensures
            done == (self.next() == Action::Stop),
    {
        self.cursor >= self.records.len() && self.live == 0
    }

    /// Whether the release of a work unit that arrives at the throttle at
    /// `now_ms` is a moment that 64 bits hold.
    pub fn turn_fits(&self, now_ms: u64) -> (ok: bool)
        ensures
            ok == (self.throttle().release(now_ms) <= u64::MAX),
    {
        self.throttle.fits(now_ms)
    }

    /// Asks the throttle on behalf of the next pending work unit, at `now_ms`
    /// on the driver's clock, and returns how long the driver is to sleep
    /// before it admits the unit. The moment of release is recorded; it is at
    /// least the configured delay after the release of the unit before.
    pub fn wait_turn(&mut self, now_ms: u64) -> (turn: Result<u64, RegistryError>)
        requires
            old(self).wf(),
            old(self).turn_fault() is None ==> old(self).throttle().release(now_ms) <= u64::MAX,
        ensures
            final(self).wf(),
            turn is Err <==> old(self).turn_fault() is Some,
            turn is Err ==> Some(turn->Err_0) == old(self).turn_fault(),
            turn is Err ==> final(self).same_as(old(self)),
            turn is Ok ==> {
                &&& turn->Ok_0 == old(self).throttle().hold(now_ms)
                &&& final(self).releases() == old(self).releases().push(
                    (now_ms + turn->Ok_0) as u64,
                )
                &&& final(self).turn_granted()
                &&& final(self).throttle().delay() == old(self).throttle().delay()
                &&& final(self).pool() == old(self).pool()
                &&& final(self).records() == old(self).records()
                &&& final(self).cursor() == old(self).cursor()
                &&& final(self).live() == old(self).live()
                &&& final(self).succeeded() == old(self).succeeded()
            },
    {
        if self.cursor >= self.records.len() {
            return Err(RegistryError::NothingToAdmit);
        }
        if self.turn_granted {
            return Err(RegistryError::TurnAlreadyGranted);
        }
        let sleep_ms = self.throttle.wait_turn(now_ms);
        self.releases.push(now_ms + sleep_ms);
        self.turn_granted = true;
        Ok(sleep_ms)
    }

    /// Admits the next pending work unit, which has waited its turn, on the
    /// given endpoint and returns the task to start. Admission goes in input
    /// order and waits for no completion.
    pub fn admit_on(&mut self, endpoint: usize) -> (admitted: Result<Task, RegistryError>)
        requires
            old(self).wf(),
        ensures
            final(self).wf(),
            final(self).pool() == old(self).pool(),
            admitted is Err <==> old(self).admit_fault(endpoint) is Some,
            admitted is Err ==> Some(admitted->Err_0) == old(self).admit_fault(endpoint),
            admitted is Err ==> final(self).same_as(old(self)),
            admitted is Ok ==> {
                &&& admitted->Ok_0 == (Task { unit: old(self).cursor() as usize, endpoint })
                &&& final(self).records() == old(self).records().update(
                    old(self).cursor() as int,
                    UnitRecord::admitted(endpoint),
                )
                &&& final(self).cursor() == old(self).cursor() + 1
                &&& final(self).live() == old(self).live() + 1
                &&& final(self).succeeded() == old(self).succeeded()
                &&& final(self).releases() == old(self).releases()
                &&& final(self).throttle() == old(self).throttle()
                &&& !final(self).turn_granted()
            },
    {
        if self.cursor >= self.records.len() {
            return Err(RegistryError::NothingToAdmit);
        }
        if !self.turn_granted {
            return Err(RegistryError::TurnNotAwaited);
        }
        if endpoint >= self.pool.len() {
            return Err(RegistryError::UnknownEndpoint);
        }
        let unit = self.cursor;
        let first = UnitRecord {
            status: UnitStatus::Live,
            endpoint,
            attempts: 1,
            failures: 0,
            successes: 0,
        };
        proof {
            let before = self.records@;
            assert(before[unit as int].consistent(false, self.pool.spec_len()));
            lemma_count_update(before, unit as int, first, UnitStatus::Live);
            lemma_count_update(before, unit as int, first, UnitStatus::Succeeded);
            lemma_count_bound(before.update(unit as int, first), UnitStatus::Live);
        }
        self.records.set(unit, first);
        self.cursor = unit + 1;
        self.live = self.live + 1;
        self.turn_granted = false;
        Ok(Task { unit, endpoint })
    }

    /// Admits the next pending work unit, which has waited its turn, on an
    /// endpoint picked at random.
    /// Whatever the pick, the task is for the first pending unit and its
    /// endpoint is in the pool.
    pub fn admit_next(&mut self) -> (admitted: Result<Task, RegistryError>)
        requires
            old(self).wf(),
        ensures
            final(self).wf(),
            final(self).pool() == old(self).pool(),
            admitted is Err <==> old(self).pending_fault() is Some,
            admitted is Err ==> Some(admitted->Err_0) == old(self).pending_fault(),
            admitted is Err ==> final(self).same_as(old(self)),
            admitted is Ok ==> {
                let task = admitted->Ok_0;
                &&& task.unit == old(self).cursor()
                &&& task.endpoint < old(self).pool().spec_len()
                &&& final(self).records() == old(self).records().update(
                    task.unit as int,
                    UnitRecord::admitted(task.endpoint),
                )
                &&& final(self).cursor() == old(self).cursor() + 1
                &&& final(self).live() == old(self).live() + 1
                &&& final(self).succeeded() == old(self).succeeded()
                &&& final(self).releases() == old(self).releases()
                &&& final(self).throttle() == old(self).throttle()
                &&& !final(self).turn_granted()
            },
    {
        let endpoint = self.pool.select().index;
        self.admit_on(endpoint)
    }

    /// Records that the task in flight of a work unit has ended. After a
    /// success nothing more is started for the unit. After a failure a new
    /// task for the same unit is started at once on the given endpoint and
    /// returned, however often the unit has failed before.
    pub fn complete_on(&mut self, unit: usize, success: bool, endpoint: usize) -> (next: Result<
        Option<Task>,
        RegistryError,
    >)
        requires
            old(self).wf(),
            unit < old(self).records().len() && !success ==> old(self).records()[unit as int].attempts
                < u64::MAX,
        ensures
            final(self).wf(),
            final(self).pool() == old(self).pool(),
            final(self).cursor() == old(self).cursor(),
            final(self).throttle() == old(self).throttle(),
            final(self).turn_granted() == old(self).turn_granted(),
            final(self).releases() == old(self).releases(),
            next is Err <==> old(self).complete_fault(unit, success, endpoint) is Some,
            next is Err ==> Some(next->Err_0) == old(self).complete_fault(unit, success, endpoint),
            next is Err ==> final(self).same_as(old(self)),
            next is Ok && success ==> {
                &&& next->Ok_0 is None
                &&& final(self).records() == old(self).records().update(
                    unit as int,
                    old(self).records()[unit as int].succeeded(),
                )
                &&& final(self).live() == old(self).live() - 1
                &&& final(self).succeeded() == old(self).succeeded() + 1
            },
            next is Ok && !success ==> {
                &&& next->Ok_0 == Some(Task { unit, endpoint })
                &&& final(self).records() == old(self).records().update(
                    unit as int,
                    old(self).records()[unit as int].resubmitted(endpoint),
                )
                &&& final(self).live() == old(self).live()
                &&& final(self).succeeded() == old(self).succeeded()
            },
    {
        if unit >= self.records.len() {
            return Err(RegistryError::UnknownUnit);
        }
        let record = self.records[unit];
        match record.status {
            UnitStatus::Live => {},
            _ => {
                return Err(RegistryError::NoLiveTask);
            },
        }
        proof {
            assert(self.records@[unit as int].consistent(
                (unit as int) < self.cursor(),
                self.pool.spec_len(),
            ));
        }
        if success {
            let done = UnitRecord {
                status: UnitStatus::Succeeded,
                endpoint: record.endpoint,
                attempts: record.attempts,
                failures: record.failures,
                successes: 1,
            };
            proof {
                lemma_count_update(self.records@, unit as int, done, UnitStatus::Live);
                lemma_count_update(self.records@, unit as int, done, UnitStatus::Succeeded);
                lemma_count_bound(self.records@.update(unit as int, done), UnitStatus::Succeeded);
            }
            self.records.set(unit, done);
            self.live = self.live - 1;
            self.succeeded = self.succeeded + 1;
            Ok(None)
        } else {
            if endpoint >= self.pool.len() {
                return Err(RegistryError::UnknownEndpoint);
            }
            let again = UnitRecord {
                status: UnitStatus::Live,
                endpoint,
                attempts: record.attempts + 1,
                failures: record.failures + 1,
                successes: record.successes,
            };
            proof {
                lemma_count_update(self.records@, unit as int, again, UnitStatus::Live);
                lemma_count_update(self.records@, unit as int, again, UnitStatus::Succeeded);
            }
            self.records.set(unit, again);
            Ok(Some(Task { unit, endpoint }))
        }
    }

    /// Records that the task in flight of a work unit has ended, and after a
    /// failure starts a new one at once on an endpoint picked anew at random,
    /// which may or may not be the one that failed. Whatever the pick, the new
    /// task is for the same unit and its endpoint is in the pool.
    pub fn complete(&mut self, unit: usize, success: bool) -> (next: Result<
        Option<Task>,
        RegistryError,
    >)
        requires
            old(self).wf(),
            unit < old(self).records().len() && !success ==> old(self).records()[unit as int].attempts
                < u64::MAX,
        ensures
            final(self).wf(),
            final(self).pool() == old(self).pool(),
            final(self).cursor() == old(self).cursor(),
            final(self).throttle() == old(self).throttle(),
            final(self).turn_granted() == old(self).turn_granted(),
            final(self).releases() == old(self).releases(),
            next is Err <==> old(self).unit_fault(unit) is Some,
            next is Err ==> Some(next->Err_0) == old(self).unit_fault(unit),
            next is Err ==> final(self).same_as(old(self)),
            next is Ok && success ==> {
                &&& next->Ok_0 is None
                &&& final(self).records() == old(self).records().update(
                    unit as int,
                    old(self).records()[unit as int].succeeded(),
                )
                &&& final(self).live() == old(self).live() - 1
                &&& final(self).succeeded() == old(self).succeeded() + 1
            },
            next is Ok && !success ==> {
                &&& next->Ok_0 is Some
                &&& next->Ok_0->0.unit == unit
                &&& next->Ok_0->0.endpoint < old(self).pool().spec_len()
                &&& final(self).records() == old(self).records().update(
                    unit as int,
                    old(self).records()[unit as int].resubmitted(next->Ok_0->0.endpoint),
                )
                &&& final(self).live() == old(self).live()
                &&& final(self).succeeded() == old(self).succeeded()
            },
    {
        let endpoint = self.pool.select().index;
        self.complete_on(unit, success, endpoint)
    }
}

/// When the driver is told to stop, every work unit has succeeded exactly once
/// and no task is in flight.
pub proof fn lemma_stop_means_all_succeeded_once(run: Orchestrator)
    requires
        run.wf(),
        run.next() == Action::Stop,
    ensures
        run.live() == 0,
        run.cursor() == run.records().len(),
        run.succeeded() == run.records().len(),
        forall|i: int|
            0 <= i < run.records().len() ==> {
                &&& (#[trigger] run.records()[i]).status == UnitStatus::Succeeded
                &&& run.records()[i].successes == 1
                &&& run.records()[i].in_flight() == 0
            },
{
    lemma_count_live_zero(run.records());
    lemma_admitted_are_live_or_succeeded(run.records(), run.cursor(), run.pool().spec_len());
    assert forall|i: int| 0 <= i < run.records().len() implies {
        &&& (#[trigger] run.records()[i]).status == UnitStatus::Succeeded
        &&& run.records()[i].successes == 1
        &&& run.records()[i].in_flight() == 0
    } by {
        assert(run.records()[i].consistent(i < run.cursor(), run.pool().spec_len()));
    }
}

/// The first admissions of a run are spaced: between the releases of two work
/// units that follow each other in the input lies at least the configured
/// delay. Every admitted unit has such a release.
pub proof fn lemma_admissions_are_spaced(run: Orchestrator, unit: int)
    requires
        run.wf(),
        0 <= unit,
        unit + 1 < run.releases().len(),
    ensures
        run.releases()[unit + 1] - run.releases()[unit] >= run.throttle().delay(),
        run.cursor() <= run.releases().len(),
{
}

/// While work is left the driver is never told to stop: a unit that is
/// pending or in flight keeps the run going.
pub proof fn lemma_unfinished_unit_keeps_running(run: Orchestrator, unit: int)
    requires
        run.wf(),
        0 <= unit < run.records().len(),
        run.records()[unit].status != UnitStatus::Succeeded,
    ensures
        run.next() != Action::Stop,
{
    if run.next() == Action::Stop {
        lemma_stop_means_all_succeeded_once(run);
    }
}

/// At every moment of a run each work unit has at most one task in flight: one
/// if it is live, none if it is pending or has succeeded. The registry's size
/// counts exactly the live units, and no success is ever recorded twice.
pub proof fn lemma_one_task_per_unit(run: Orchestrator, unit: int)
    requires
        run.wf(),
        0 <= unit < run.records().len(),
    ensures
        run.records()[unit].in_flight() == live_weight(run.records()[unit]),
        run.records()[unit].in_flight() <= 1,
        run.records()[unit].successes <= 1,
        run.records()[unit].status == UnitStatus::Succeeded ==> run.records()[unit].in_flight()
            == 0,
        run.live() == count_live(run.records()),
        run.live() <= run.cursor(),
{
    assert(run.records()[unit].consistent(unit < run.cursor(), run.pool().spec_len()));
    lemma_admitted_are_live_or_succeeded(run.records(), run.cursor(), run.pool().spec_len());
}

/// At every moment of a run the work units that have been admitted are those
/// in flight and those that have succeeded: none is lost, none counted twice.
pub proof fn lemma_admitted_units_are_accounted_for(run: Orchestrator)
    requires
        run.wf(),
    ensures
        run.live() + run.succeeded() == run.cursor(),
        run.succeeded() <= run.records().len(),
{
    lemma_admitted_are_live_or_succeeded(run.records(), run.cursor(), run.pool().spec_len());
}

/// A work unit that has succeeded after `k` failures has had `k + 1` tasks.
pub proof fn lemma_succeeded_unit_task_count(run: Orchestrator, unit: int)
    requires
        run.wf(),
        0 <= unit < run.records().len(),
        run.records()[unit].status == UnitStatus::Succeeded,
    ensures
        run.records()[unit].attempts == run.records()[unit].failures + 1,
        run.records()[unit].successes == 1,
{
    assert(run.records()[unit].consistent(unit < run.cursor(), run.pool().spec_len()));
}

/// A work unit that is admitted, fails `k` times, each time restarted on
/// whatever endpoint, and then succeeds, has had exactly `k + 1` tasks, `k`
/// failures and one success, and none is left in flight.
pub proof fn lemma_k_failures_then_success(first: usize, retries: Seq<usize>)
    requires
        retries.len() < u64::MAX,
    ensures
        replay(first, retries).status == UnitStatus::Live,
        replay(first, retries).in_flight() == 1,
        replay(first, retries).succeeded().status == UnitStatus::Succeeded,
        replay(first, retries).succeeded().attempts == retries.len() + 1,
        replay(first, retries).succeeded().failures == retries.len(),
        replay(first, retries).succeeded().successes == 1,
        replay(first, retries).succeeded().in_flight() == 0,
    decreases retries.len(),
{
    if retries.len() > 0 {
        lemma_k_failures_then_success(first, retries.drop_last());
    }
}

proof fn lemma_admitted_are_live_or_succeeded(
    records: Seq<UnitRecord>,
    cursor: nat,
    pool_len: nat,
)
    requires
        cursor <= records.len(),
        forall|i: int|
            0 <= i < records.len() ==> (#[trigger] records[i]).consistent(i < cursor, pool_len),
    ensures
        count_live(records) + count_succeeded(records) == cursor,
    decreases records.len(),
{
    if records.len() > 0 {
        let front = records.drop_last();
        let shorter: nat = if records.len() > cursor {
            cursor
        } else {
            (cursor - 1) as nat
        };
        assert forall|i: int| 0 <= i < front.len() implies (#[trigger] front[i]).consistent(
            i < shorter,
            pool_len,
        ) by {
            assert(front[i] == records[i]);
        }
        lemma_admitted_are_live_or_succeeded(front, shorter, pool_len);
        assert(records.last().consistent(records.len() - 1 < cursor, pool_len));
    }
}

} // verus!

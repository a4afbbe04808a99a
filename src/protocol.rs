//! The order in which an operation talks to the store, as a state machine.
//!
//! A driver holds a `Protocol`, asks it for the next `StoreAction`, performs
//! it against the database, and reports with `advance` whether it succeeded.
//! The machine decides what comes next, which error a failure reports, and
//! that a commit is asked for only after every write has succeeded.

use vstd::prelude::*;
use crate::store::{apply_write, Failure, StoreError, StoreModel, StoreWrite};

verus! {

/// A write with the failure it reports.
pub struct PlannedWrite {
    pub write: StoreWrite,
    pub on_failure: Failure,
    /// Run only when the lookup did not find the conversation.
    pub only_if_absent: bool,
}

/// What an operation does against the store.
pub struct Plan {
    /// All writes run in one transaction, committed together or not at all.
    pub in_transaction: bool,
    /// A conversation id to look up once the store is open.
    pub lookup: Option<String>,
    pub writes: Vec<PlannedWrite>,
    pub begin_failure: Failure,
    pub commit_failure: Failure,
}

#[derive(Clone, Copy, Debug, PartialEq, Eq, Structural)]
pub enum Stage {
    Acquire,
    Begin,
    Lookup,
    Write,
    Commit,
    Done,
}

/// What the driver does next.
#[derive(Clone, Copy, Debug, PartialEq, Eq, Structural)]
pub enum StoreAction {
    /// Take the connection guard.
    Acquire,
    /// Open a transaction.
    Begin,
    /// Ask whether the plan's lookup id names a conversation; report `true`
    /// only when a row was found.
    Lookup,
    /// Run the plan's write at this index.
    Execute(usize),
    /// Commit the transaction.
    Commit,
    /// Stop. A transaction not committed is rolled back.
    Finish,
}

/// Where a run of a plan stands.
pub struct Progress {
    pub stage: Stage,
    pub next: int,
    pub found: bool,
    pub outcome: Option<Failure>,
}

/// A plan and how far its run has gone.
pub struct Protocol {
    pub plan: Plan,
    pub stage: Stage,
    pub next: usize,
    pub found: bool,
    /// At `Done`: the failure that ended the run, or none on success.
    pub outcome: Option<Failure>,
}

pub open spec fn skips(p: Plan, i: int, found: bool) -> bool {
    p.writes@[i].only_if_absent && found
}

/// The first write at or after `from` that runs.
pub open spec fn next_write(p: Plan, from: int, found: bool) -> int
    decreases p.writes@.len() - from,
{
    if from < 0 || from >= p.writes@.len() {
        p.writes@.len() as int
    } else if !skips(p, from, found) {
        from
    } else {
        next_write(p, from + 1, found)
    }
}

pub open spec fn enter_writes(p: Plan, from: int, found: bool) -> Progress {
    let i = next_write(p, from, found);
    if i < p.writes@.len() {
        Progress { stage: Stage::Write, next: i, found, outcome: None }
    } else if p.in_transaction {
        Progress { stage: Stage::Commit, next: i, found, outcome: None }
    } else {
        Progress { stage: Stage::Done, next: i, found, outcome: None }
    }
}

/// Once the connection, and the transaction if any, are open.
pub open spec fn after_open(p: Plan) -> Progress {
    if p.lookup is Some {
        Progress { stage: Stage::Lookup, next: 0, found: false, outcome: None }
    } else {
        enter_writes(p, 0, false)
    }
}

pub open spec fn failed(pr: Progress, f: Failure) -> Progress {
    Progress { stage: Stage::Done, next: pr.next, found: pr.found, outcome: Some(f) }
}

/// The next progress, once the current action succeeded (`ok`) or failed.
pub open spec fn step(p: Plan, pr: Progress, ok: bool) -> Progress {
    match pr.stage {
        Stage::Acquire => if !ok {
            failed(pr, Failure::Unavailable)
        } else if p.in_transaction {
            Progress { stage: Stage::Begin, next: 0, found: false, outcome: None }
        } else {
            after_open(p)
        },
        Stage::Begin => if !ok {
            failed(pr, p.begin_failure)
        } else {
            after_open(p)
        },
        Stage::Lookup => enter_writes(p, 0, ok),
        Stage::Write => if !ok {
            failed(pr, p.writes@[pr.next].on_failure)
        } else {
            enter_writes(p, pr.next + 1, pr.found)
        },
        Stage::Commit => if !ok {
            failed(pr, p.commit_failure)
        } else {
            Progress { stage: Stage::Done, next: pr.next, found: pr.found, outcome: None }
        },
        Stage::Done => pr,
    }
}

pub open spec fn start() -> Progress {
    Progress { stage: Stage::Acquire, next: 0, found: false, outcome: None }
}

pub open spec fn action_of(pr: Progress) -> StoreAction {
    match pr.stage {
        Stage::Acquire => StoreAction::Acquire,
        Stage::Begin => StoreAction::Begin,
        Stage::Lookup => StoreAction::Lookup,
        Stage::Write => StoreAction::Execute(pr.next as usize),
        Stage::Commit => StoreAction::Commit,
        Stage::Done => StoreAction::Finish,
    }
}

impl Protocol {
    pub open spec fn progress(&self) -> Progress {
        Progress {
            stage: self.stage,
            next: self.next as int,
            found: self.found,
            outcome: self.outcome,
        }
    }

    pub open spec fn wf(&self) -> bool {
        &&& self.next <= self.plan.writes@.len()
        &&& self.stage == Stage::Write ==> self.next < self.plan.writes@.len()
    }

    /// A run of `plan` that has not begun.
    pub fn new(plan: Plan) -> (r: Protocol)
        ensures
            r.plan == plan,
            r.progress() == start(),
            r.wf(),
    {
        Protocol { plan, stage: Stage::Acquire, next: 0, found: false, outcome: None }
    }

    /// What the driver does next.
    pub fn action(&self) -> (r: StoreAction)
        ensures
            r == action_of(self.progress()),
    {
        match self.stage {
            Stage::Acquire => StoreAction::Acquire,
            Stage::Begin => StoreAction::Begin,
            Stage::Lookup => StoreAction::Lookup,
            Stage::Write => StoreAction::Execute(self.next),
            Stage::Commit => StoreAction::Commit,
            Stage::Done => StoreAction::Finish,
        }
    }

    /// The result of a finished run: success, or the error of the step
    /// that failed.
    pub fn finish(&self) -> (r: Result<(), StoreError>)
        requires
            self.stage == Stage::Done,
        ensures
            match self.outcome {
                None => r is Ok,
                Some(f) => r matches Err(e) && e.reports(f),
            },
    {
        match self.outcome {
            None => Ok(()),
            Some(f) => Err(f.to_error()),
        }
    }

    fn first_write_from(&self, from: usize, found: bool) -> (r: usize)
        requires
            from <= self.plan.writes@.len(),
        ensures
            r as int == next_write(self.plan, from as int, found),
            r <= self.plan.writes@.len(),
    {
        let n = self.plan.writes.len();
        let mut i = from;
        while i < n && self.plan.writes[i].only_if_absent && found
            invariant
                n == self.plan.writes@.len(),
                from <= i <= n,
                next_write(self.plan, from as int, found) == next_write(
                    self.plan,
                    i as int,
                    found,
                ),
            decreases n - i,
        {
            i = i + 1;
        }
        i
    }

    fn enter_writes(&mut self, from: usize, found: bool)
        requires
            from <= old(self).plan.writes@.len(),
        ensures
            final(self).plan == old(self).plan,
            final(self).progress() == enter_writes(old(self).plan, from as int, found),
            final(self).wf(),
    {
        let i = self.first_write_from(from, found);
        self.next = i;
        self.found = found;
        self.outcome = None;
        if i < self.plan.writes.len() {
            self.stage = Stage::Write;
        } else if self.plan.in_transaction {
            self.stage = Stage::Commit;
        } else {
            self.stage = Stage::Done;
        }
    }

    fn after_open(&mut self)
        ensures
            final(self).plan == old(self).plan,
            final(self).progress() == after_open(old(self).plan),
            final(self).wf(),
    {
        if self.plan.lookup.is_some() {
            self.stage = Stage::Lookup;
            self.next = 0;
            self.found = false;
            self.outcome = None;
        } else {
            self.enter_writes(0, false);
        }
    }

    fn fail(&mut self, f: Failure)
        requires
            old(self).next <= old(self).plan.writes@.len(),
        ensures
            final(self).plan == old(self).plan,
            final(self).progress() == failed(old(self).progress(), f),
            final(self).wf(),
    {
        self.stage = Stage::Done;
        self.outcome = Some(f);
    }

    /// Records whether the action last asked for succeeded.
    pub fn advance(&mut self, ok: bool)
        requires
            old(self).wf(),
        ensures
            final(self).plan == old(self).plan,
            final(self).progress() == step(old(self).plan, old(self).progress(), ok),
            final(self).wf(),
    {
        match self.stage {
            Stage::Acquire => {
                if !ok {
                    self.fail(Failure::Unavailable);
                } else if self.plan.in_transaction {
                    self.stage = Stage::Begin;
                    self.next = 0;
                    self.found = false;
                    self.outcome = None;
                } else {
                    self.after_open();
                }
            },
            Stage::Begin => {
                if !ok {
                    let f = self.plan.begin_failure;
                    self.fail(f);
                } else {
                    self.after_open();
                }
            },
            Stage::Lookup => {
                self.enter_writes(0, ok);
            },
            Stage::Write => {
                if !ok {
                    let f = self.plan.writes[self.next].on_failure;
                    self.fail(f);
                } else {
                    let n = self.plan.writes.len();
                    assert(self.next < n);
                    let from = self.next + 1;
                    let found = self.found;
                    self.enter_writes(from, found);
                }
            },
            Stage::Commit => {
                if !ok {
                    let f = self.plan.commit_failure;
                    self.fail(f);
                } else {
                    self.stage = Stage::Done;
                    self.outcome = None;
                }
            },
            Stage::Done => {},
        }
    }
}

// ---------------------------------------------------------------------------
// What a run does to the store.
// ---------------------------------------------------------------------------
/// The store as committed, and as the open transaction sees it.
pub struct Held {
    pub committed: StoreModel,
    pub staged: StoreModel,
}

/// The store after the current action succeeded (`ok`) or failed. A failed
/// statement changes nothing; outside a transaction a write is committed at
/// once; a commit publishes what the transaction staged.
pub open spec fn effect(p: Plan, pr: Progress, h: Held, ok: bool) -> Held {
    if !ok {
        h
    } else {
        match pr.stage {
            Stage::Begin => Held { committed: h.committed, staged: h.committed },
            Stage::Write => {
                let w = p.writes@[pr.next].write;
                if p.in_transaction {
                    Held { committed: h.committed, staged: apply_write(h.staged, w) }
                } else {
                    Held { committed: apply_write(h.committed, w), staged: h.staged }
                }
            },
            Stage::Commit => Held { committed: h.staged, staged: h.staged },
            _ => h,
        }
    }
}

/// Where a run stands, and the store, after the driver reports `events`.
pub open spec fn run(p: Plan, pr: Progress, h: Held, events: Seq<bool>) -> (Progress, Held)
    decreases events.len(),
{
    if events.len() == 0 {
        (pr, h)
    } else {
        run(p, step(p, pr, events[0]), effect(p, pr, h, events[0]), events.skip(1))
    }
}

pub open spec fn committed_ok(pr: Progress) -> bool {
    pr.stage == Stage::Done && pr.outcome is None
}

proof fn lemma_uncommitted_step(p: Plan, pr: Progress, h: Held, ok: bool, m: StoreModel)
    requires
        p.in_transaction,
        0 <= pr.next,
        pr.stage == Stage::Write ==> pr.next < p.writes@.len(),
        committed_ok(pr) || h.committed == m,
    ensures
        committed_ok(step(p, pr, ok)) || effect(p, pr, h, ok).committed == m,
        0 <= step(p, pr, ok).next,
        step(p, pr, ok).stage == Stage::Write ==> step(p, pr, ok).next < p.writes@.len(),
{
    lemma_next_write_bounds(p, 0, ok);
    lemma_next_write_bounds(p, 0, false);
    lemma_next_write_bounds(p, pr.next + 1, pr.found);
}

proof fn lemma_next_write_bounds(p: Plan, from: int, found: bool)
    requires
        0 <= from,
    ensures
        0 <= next_write(p, from, found) <= p.writes@.len(),
    decreases p.writes@.len() - from,
{
    if from < p.writes@.len() && skips(p, from, found) {
        lemma_next_write_bounds(p, from + 1, found);
    }
}

/// In a transaction, nothing reaches the store unless the run commits: a run
/// that fails at any step, or has not finished, leaves the committed store
/// as it found it.
pub proof fn lemma_transaction_all_or_nothing(
    p: Plan,
    pr: Progress,
    h: Held,
    events: Seq<bool>,
)
    requires
        p.in_transaction,
        0 <= pr.next,
        pr.stage == Stage::Write ==> pr.next < p.writes@.len(),
        !committed_ok(pr),
    ensures
        !committed_ok(run(p, pr, h, events).0) ==> run(p, pr, h, events).1.committed
            == h.committed,
    decreases events.len(),
{
    if events.len() > 0 {
        let pr1 = step(p, pr, events[0]);
        let h1 = effect(p, pr, h, events[0]);
        lemma_uncommitted_step(p, pr, h, events[0], h.committed);
        if !committed_ok(pr1) {
            lemma_transaction_all_or_nothing(p, pr1, h1, events.skip(1));
        } else {
            lemma_done_stays(p, pr1, h1, events.skip(1));
        }
    }
}

proof fn lemma_done_stays(p: Plan, pr: Progress, h: Held, events: Seq<bool>)
    requires
        pr.stage == Stage::Done,
    ensures
        run(p, pr, h, events) == (pr, h),
    decreases events.len(),
{
    if events.len() > 0 {
        lemma_done_stays(p, pr, h, events.skip(1));
    }
}

} // verus!

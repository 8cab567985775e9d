//! Imports that run side by side, and the lock that keeps them apart.
//!
//! The model below takes two things for granted of the lock, both of which
//! tokio's mutex documents: an attempt to take it succeeds exactly where no guard
//! of it is alive, and a guard that is dropped frees it. What each import does
//! with the outcome is what [`crate::handler`] does.

use vstd::prelude::*;

use crate::error::ProxyErrorModel;
use crate::handler::{HeadModel, ImportModel, ParamsModel};
use crate::stream::FetchOutcome;

verus! {

/// The imports that are under way, and which of them has the lock's guard.
pub struct Imports {
    pub running: Map<nat, ImportModel>,
    pub holder: Option<nat>,
}

/// Something that happens to one of the imports, which the number tells.
pub enum Event {
    /// A request arrives.
    Arrives(nat, ParamsModel),
    /// The probe that it waited for is over.
    Probed(nat, HeadModel),
    /// It tries to take the lock.
    TriesLock(nat),
    /// The upstream's answer that it waited for is there, or will not come.
    Fetched(nat, FetchOutcome),
    /// It is over: its answer is written, its transfer complete, its caller gone
    /// or its future cancelled. Whatever it owned is dropped.
    Ends(nat),
}

impl Event {
    /// The import that it happens to.
    pub open spec fn subject(self) -> nat {
        match self {
            Event::Arrives(id, _) => id,
            Event::Probed(id, _) => id,
            Event::TriesLock(id) => id,
            Event::Fetched(id, _) => id,
            Event::Ends(id) => id,
        }
    }
}

impl Imports {
    /// Nothing is under way.
    pub open spec fn idle() -> Imports {
        Imports { running: Map::empty(), holder: None }
    }

    /// Whether an import is under way and owns the guard of the lock.
    pub open spec fn holds(self, id: nat) -> bool {
        self.running.dom().contains(id) && self.running[id].holds_lock()
    }

    /// Whether the guard is where the imports that own one are.
    pub open spec fn consistent(self) -> bool {
        forall|id: nat| #[trigger] self.holds(id) <==> self.holder == Some(id)
    }

    /// Whether an event can happen here.
    pub open spec fn admits(self, event: Event) -> bool {
        match event {
            Event::Arrives(id, _) => !self.running.dom().contains(id),
            Event::Probed(id, _) => self.running.dom().contains(id) && self.running[id] is Probing,
            Event::TriesLock(id) => self.running.dom().contains(id) && self.running[id] is Locking,
            Event::Fetched(id, _) => self.running.dom().contains(id)
                && self.running[id] is Fetching,
            Event::Ends(id) => self.running.dom().contains(id),
        }
    }

    /// An import goes on to `next`; a guard that it owned and `next` does not own
    /// is dropped.
    pub open spec fn goes_on(self, id: nat, next: ImportModel) -> Imports {
        Imports {
            running: self.running.insert(id, next),
            holder: if self.holder == Some(id) && !next.holds_lock() {
                None
            } else {
                self.holder
            },
        }
    }

    /// What an event leads to.
    pub open spec fn after(self, event: Event) -> Imports {
        match event {
            Event::Arrives(id, params) => self.goes_on(id, crate::handler::begin(params)),
            Event::Probed(id, outcome) => match self.running[id] {
                ImportModel::Probing(job) => self.goes_on(
                    id,
                    crate::handler::after_probe(job, outcome),
                ),
                _ => self,
            },
            Event::TriesLock(id) => match self.running[id] {
                ImportModel::Locking(job, format) => {
                    let granted = self.holder is None;
                    Imports {
                        running: self.running.insert(
                            id,
                            crate::handler::after_lock(job, format, granted),
                        ),
                        holder: if granted {
                            Some(id)
                        } else {
                            self.holder
                        },
                    }
                },
                _ => self,
            },
            Event::Fetched(id, outcome) => match self.running[id] {
                ImportModel::Fetching(job, format) => self.goes_on(
                    id,
                    crate::handler::after_fetch(job, format, outcome),
                ),
                _ => self,
            },
            Event::Ends(id) => Imports {
                running: self.running.remove(id),
                holder: if self.holder == Some(id) {
                    None
                } else {
                    self.holder
                },
            },
        }
    }
}

/// Where a run of events leads to.
pub open spec fn run(events: Seq<Event>) -> Imports
    decreases events.len(),
{
    if events.len() == 0 {
        Imports::idle()
    } else {
        run(events.drop_last()).after(events.last())
    }
}

/// Whether a run of events can happen, one after the other.
pub open spec fn can_happen(events: Seq<Event>) -> bool
    decreases events.len(),
{
    events.len() > 0 ==> {
        &&& can_happen(events.drop_last())
        &&& run(events.drop_last()).admits(events.last())
    }
}

/// Every event keeps the guard where the imports that own one are.
proof fn lemma_event_keeps_consistent(s: Imports, event: Event)
    requires
        s.consistent(),
        s.admits(event),
    ensures
        s.after(event).consistent(),
{
    let t = s.after(event);
    assert(s.holds(event.subject()) <==> s.holder == Some(event.subject()));
    assert forall|id: nat| #[trigger] t.holds(id) <==> t.holder == Some(id) by {
        assert(s.holds(id) <==> s.holder == Some(id));
    }
}

/// Whatever happens, and in whatever order, at most one import at a time fetches
/// or streams an image, and the lock is taken exactly while one does.
pub proof fn law_one_import_at_a_time(events: Seq<Event>)
    requires
        can_happen(events),
    ensures
        run(events).consistent(),
        forall|a: nat, b: nat| run(events).holds(a) && run(events).holds(b) ==> a == b,
        run(events).holder is None <==> forall|id: nat| !#[trigger] run(events).holds(id),
    decreases events.len(),
{
    if events.len() > 0 {
        law_one_import_at_a_time(events.drop_last());
        lemma_event_keeps_consistent(run(events.drop_last()), events.last());
    }
    let s = run(events);
    assert(s.consistent());
    assert forall|a: nat, b: nat| s.holds(a) && s.holds(b) implies a == b by {
        assert(s.holder == Some(a));
        assert(s.holder == Some(b));
    }
    if let Some(id) = s.holder {
        assert(s.holds(id));
    }
}

/// An import that wants to start while another one runs is refused at once with
/// 409, and the one that runs is not disturbed.
pub proof fn law_second_import_is_refused(s: Imports, first: nat, second: nat)
    requires
        s.consistent(),
        s.holds(first),
        s.admits(Event::TriesLock(second)),
    ensures
        s.after(Event::TriesLock(second)).running[second] == ImportModel::Refused(
            ProxyErrorModel::ImportInProgress,
        ),
        ProxyErrorModel::ImportInProgress.status() == 409,
        s.after(Event::TriesLock(second)).running[first] == s.running[first],
        s.after(Event::TriesLock(second)).holds(first),
{
}

/// Once the import that runs has ended, however it ended, the next one gets the
/// lock.
pub proof fn law_lock_is_released(s: Imports, first: nat, second: nat)
    requires
        s.consistent(),
        s.holds(first),
        s.admits(Event::TriesLock(second)),
    ensures
        s.after(Event::Ends(first)).holder is None,
        s.after(Event::Ends(first)).admits(Event::TriesLock(second)),
        s.after(Event::Ends(first)).after(Event::TriesLock(second)).holds(second),
{
}

/// An import whose fetch fails gives the lock back; one whose fetch succeeds
/// keeps it for its stream.
pub proof fn law_failed_fetch_releases_the_lock(s: Imports, id: nat, outcome: FetchOutcome)
    requires
        s.consistent(),
        s.admits(Event::Fetched(id, outcome)),
    ensures
        s.after(Event::Fetched(id, outcome)).holder == match outcome {
            FetchOutcome::ConnectFailed => None::<nat>,
            FetchOutcome::Answered(status) => if 400 <= status < 600 {
                None
            } else {
                Some(id)
            },
        },
{
    assert(s.holds(id));
}

/// An import never takes the lock unless its parameters and its format are
/// settled: whoever waits for a probe, or is refused, does not hold it.
pub proof fn law_lock_is_taken_last(s: Imports, id: nat)
    requires
        s.consistent(),
        s.running.dom().contains(id),
        s.running[id] is Probing || s.running[id] is Locking || s.running[id] is Refused,
    ensures
        s.holder != Some(id),
{
    assert(!s.holds(id));
}

} // verus!

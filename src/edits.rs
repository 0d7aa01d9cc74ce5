//! The edit gate: a per-actor cooldown between accepted edits, and a session
//! clock that is set once.

use vstd::prelude::*;

use ic_cdk::export::Principal;

verus! {

/// The identity of an actor, as the hosting platform verified it.
#[verifier::external_type_specification]
#[verifier::external_body]
pub struct ExPrincipal(ic_cdk::export::Principal);

/// Relies on the derived `PartialEq` of ic_cdk's `Principal`, which compares
/// its length and its whole byte buffer: equal exactly when the values are.
#[verifier::external_body]
fn same_principal(a: &Principal, b: &Principal) -> (r: bool)
    ensures
        r == (*a == *b),
{
    a == b
}

/// Relies on `ic_cdk::api::time`: the platform's current time, in nanoseconds.
/// Nothing is known of the value. ic_cdk answers it inside a canister only;
/// built for another target, the call panics.
#[verifier::external_body]
fn platform_time() -> (r: u64) {
    ic_cdk::api::time()
}

/// Minimum time between two accepted edits of one actor: thirty seconds, in
/// nanoseconds. An edit is accepted only once strictly more has elapsed.
pub const COOLDOWN_NS: u64 = 30 * 1_000_000_000;

/// Why the edit gate refused a request.
#[derive(Clone, Copy, Debug, PartialEq, Eq, Structural)]
pub enum EditError {
    /// The actor's last accepted edit is too recent.
    Cooldown,
    /// The session clock was set already.
    AlreadyStarted,
}

/// Whether an edit of `actor` at `now` is admitted, given the time of each
/// actor's last accepted edit.
pub open spec fn admits(records: Map<Principal, u64>, actor: Principal, now: u64) -> bool {
    !records.contains_key(actor) || now as int - records[actor] as int > COOLDOWN_NS as int
}

/// The records once an edit of `actor` at `now` has been decided.
pub open spec fn records_after(records: Map<Principal, u64>, actor: Principal, now: u64) -> Map<
    Principal,
    u64,
> {
    if admits(records, actor, now) {
        records.insert(actor, now)
    } else {
        records
    }
}

/// The session clock after a start at `now`, and whether the start succeeded.
pub open spec fn start_step(session: Option<u64>, now: u64) -> (bool, Option<u64>) {
    match session {
        Some(t) => (false, Some(t)),
        None => (true, Some(now)),
    }
}

/// An actor with no record is admitted at `t0`; an edit of it twenty-nine seconds
/// later is refused and changes nothing; one thirty-one seconds later is admitted.
pub proof fn cooldown_window(records: Map<Principal, u64>, actor: Principal, t0: u64)
    requires
        !records.contains_key(actor),
        t0 + 31 * 1_000_000_000 <= u64::MAX,
    ensures
        admits(records, actor, t0),
        ({
            let after = records_after(records, actor, t0);
            &&& !admits(after, actor, (t0 + 29 * 1_000_000_000) as u64)
            &&& records_after(after, actor, (t0 + 29 * 1_000_000_000) as u64) == after
            &&& admits(after, actor, (t0 + 31 * 1_000_000_000) as u64)
        }),
{
}

/// Whether an edit of one actor is admitted does not depend on an earlier edit
/// of another actor, and that earlier edit leaves the first actor's record alone.
pub proof fn actors_are_independent(
    records: Map<Principal, u64>,
    first: Principal,
    other: Principal,
    t1: u64,
    t2: u64,
)
    requires
        first != other,
    ensures
        admits(records_after(records, other, t1), first, t2) == admits(records, first, t2),
        records_after(records_after(records, other, t1), first, t2).contains_key(first)
            == records_after(records, first, t2).contains_key(first),
        records_after(records_after(records, other, t1), first, t2)[first]
            == records_after(records, first, t2)[first],
{
}

/// A start succeeds when the session is not open; after a successful start every
/// later start fails and keeps the recorded time.
pub proof fn start_succeeds_once(session: Option<u64>, t1: u64, t2: u64)
    ensures
        start_step(session, t1).0 <==> session is None,
        start_step(session, t1).0 ==> start_step(start_step(session, t1).1, t2) == (
        false,
        Some(t1),
        ),
{
}

/// The last accepted edit of every actor, and when the session was opened.
#[derive(Clone)]
pub struct EditsState {
    start: Option<u64>,
    edits: Vec<(Principal, u64)>,
    records: Ghost<Map<Principal, u64>>,
}

impl EditsState {
    /// The time of each actor's last accepted edit.
    pub closed spec fn records(&self) -> Map<Principal, u64> {
        self.records@
    }

    /// When the session was opened, if it was.
    pub closed spec fn session(&self) -> Option<u64> {
        self.start
    }

    /// The entries hold each actor once, and are exactly the records.
    pub closed spec fn wf(&self) -> bool {
        &&& forall|i: int|
            0 <= i < self.edits@.len() ==> #[trigger] self.records@.contains_key(self.edits@[i].0)
                && self.records@[self.edits@[i].0] == self.edits@[i].1
        &&& forall|p: Principal|
            #[trigger] self.records@.contains_key(p) ==> exists|i: int|
                0 <= i < self.edits@.len() && self.edits@[i].0 == p
        &&& forall|i: int, j: int|
            0 <= i < j < self.edits@.len() ==> self.edits@[i].0 != self.edits@[j].0
    }

    /// A gate with no records and no session.
    pub fn new() -> (r: Self)
        ensures
            r.wf(),
            r.records() == Map::<Principal, u64>::empty(),
            r.session() == None::<u64>,
    {
        EditsState { start: None, edits: Vec::new(), records: Ghost(Map::empty()) }
    }

    /// The position of `actor`'s entry, if it has one.
    fn find(&self, actor: &Principal) -> (r: Option<usize>)
        requires
            self.wf(),
        ensures
            r matches Some(i) ==> i < self.edits@.len() && self.edits@[i as int].0 == *actor,
            r is None ==> !self.records().contains_key(*actor),
    {
        let mut i: usize = 0;
        while i < self.edits.len()
            invariant
                i <= self.edits@.len(),
                forall|k: int| 0 <= k < i ==> self.edits@[k].0 != *actor,
            decreases self.edits@.len() - i,
        {
            if same_principal(&self.edits[i].0, actor) {
                return Some(i);
            }
            i += 1;
        }
        None
    }

    /// Admits an edit of `principal` at `current_time` (nanoseconds) if the actor
    /// has no accepted edit yet, or if strictly more than the cooldown has elapsed
    /// since its last one; the time is then recorded. Otherwise it is refused with
    /// `Cooldown`, and nothing changes.
    pub fn register_edit(&mut self, principal: Principal, current_time: u64) -> (r: Result<(), EditError>)
        requires
            old(self).wf(),
        ensures
            final(self).wf(),
            r is Ok <==> admits(old(self).records(), principal, current_time),
            r is Err ==> r == Err::<(), EditError>(EditError::Cooldown),
            final(self).records() == records_after(old(self).records(), principal, current_time),
            final(self).session() == old(self).session(),
    {
        let ghost before = *self;
        match self.find(&principal) {
            None => {
                proof {
                    assert forall|k: int| 0 <= k < before.edits@.len() implies before.edits@[k].0
                        != principal by {
                        assert(before.records@.contains_key(before.edits@[k].0));
                    }
                }
                self.edits.push((principal, current_time));
                proof {
                    self.records@ = self.records@.insert(principal, current_time);
                    let n = before.edits@.len() as int;
                    assert(self.edits@[n].0 == principal);
                    assert forall|q: Principal| #[trigger] self.records@.contains_key(q) implies exists|
                        k: int,
                    | 0 <= k < self.edits@.len() && self.edits@[k].0 == q by {
                        if q == principal {
                            assert(self.edits@[n].0 == q);
                        } else {
                            assert(before.records@.contains_key(q));
                            let k = choose|k: int| 0 <= k < before.edits@.len() && before.edits@[k].0 == q;
                            assert(self.edits@[k] == before.edits@[k]);
                        }
                    }
                }
                Ok(())
            },
            Some(i) => {
                let last = self.edits[i].1;
                proof {
                    assert(before.records@.contains_key(before.edits@[i as int].0));
                }
                if current_time > last && current_time - last > COOLDOWN_NS {
                    self.edits.set(i, (principal, current_time));
                    proof {
                        self.records@ = self.records@.insert(principal, current_time);
                        assert forall|q: Principal| #[trigger] self.records@.contains_key(q) implies exists|
                            k: int,
                        | 0 <= k < self.edits@.len() && self.edits@[k].0 == q by {
                            if q == principal {
                                assert(self.edits@[i as int].0 == q);
                            } else {
                                assert(before.records@.contains_key(q));
                                let k = choose|k: int|
                                    0 <= k < before.edits@.len() && before.edits@[k].0 == q;
                                assert(self.edits@[k] == before.edits@[k]);
                            }
                        }
                    }
                    Ok(())
                } else {
                    Err(EditError::Cooldown)
                }
            },
        }
    }

    /// When the session was opened, if it was.
    pub fn started_at(&self) -> (r: Option<u64>)
        ensures
            r == self.session(),
    {
        self.start
    }

    /// Opens the session at `now`, unless it is open already: then it is refused
    /// with `AlreadyStarted`, and the recorded time stays.
    pub fn start_at(&mut self, now: u64) -> (r: Result<(), EditError>)
        requires
            old(self).wf(),
        ensures
            final(self).wf(),
            r is Ok == start_step(old(self).session(), now).0,
            r is Err ==> r == Err::<(), EditError>(EditError::AlreadyStarted),
            final(self).session() == start_step(old(self).session(), now).1,
            final(self).records() == old(self).records(),
    {
        if self.start.is_some() {
            Err(EditError::AlreadyStarted)
        } else {
            let ghost before = *self;
            self.start = Some(now);
            assert(self.edits@ == before.edits@);
            assert(self.records@ == before.records@);
            Ok(())
        }
    }

    /// Opens the session at the platform's current time, unless it is open
    /// already: then it is refused with `AlreadyStarted`, and nothing changes.
    pub fn start(&mut self) -> (r: Result<(), EditError>)
        requires
            old(self).wf(),
        ensures
            final(self).wf(),
            old(self).session() is Some ==> r == Err::<(), EditError>(EditError::AlreadyStarted)
                && final(self).session() == old(self).session(),
            old(self).session() is None ==> r is Ok && final(self).session() is Some,
            final(self).records() == old(self).records(),
    {
        if self.start.is_some() {
            return Err(EditError::AlreadyStarted);
        }
        let now = platform_time();
        self.start_at(now)
    }
}

impl Default for EditsState {
    fn default() -> (r: Self)
        ensures
            r.wf(),
            r.records() == Map::<Principal, u64>::empty(),
            r.session() == None::<u64>,
    {
        Self::new()
    }
}

} // verus!

//! What the Redis-backed task manager computes: the key under which a task is stored, and the
//! cutoff time of a cleanup of old tasks.
use vstd::prelude::*;
use crate::clock::{calendar_reaches, days_back_in_range, days_before, now};
use crate::ids::{uuid_text, uuid_to_string};
use crate::types::Timestamp;

verus! {

/// The key under which task `task_id` is stored: `task:` and the id's text.
pub open spec fn task_key_text(task_id: u128) -> Seq<char> {
    "task:"@ + uuid_text(task_id)
}

/// The key under which task `task_id` is stored.
pub fn task_key(task_id: u128) -> (r: String)
    ensures
        r@ == task_key_text(task_id),
{
    let mut r = "task:".to_string();
    let id = uuid_to_string(task_id);
    r.append(id.as_str());
    r
}

/// The pattern that matches the keys of all stored tasks.
pub fn task_key_pattern() -> (r: &'static str)
    ensures
        r@ == "task:*"@,
{
    "task:*"
}

/// The cutoff of a cleanup at time `now` that removes tasks older than `max_age_days` days:
/// the instant that many days before `now`, or `None` where the calendar cannot go that far.
/// A task is old when it was created strictly before the cutoff (`Timestamp::before`).
pub fn cleanup_cutoff_at(now: Timestamp, max_age_days: i64) -> (r: Option<Timestamp>)
    ensures
        r is Some <==> days_back_in_range(now.secs, now.nanos, max_age_days),
        now.nanos < 1_000_000_000 ==> (r is Some <==> calendar_reaches(now.secs as int)
            && calendar_reaches(now.secs - max_age_days * 86400)),
        r matches Some(c) ==> (now.nanos < 1_000_000_000 ==> c.secs == now.secs - max_age_days
            * 86400 && c.nanos == now.nanos),
{
    days_before(now, max_age_days)
}

/// The cutoff of a cleanup that starts now: for the current time `t` (never before the Unix
/// epoch), present exactly when `t`
/// and the instant `max_age_days` days before it lie within the calendar's range, and then that
/// instant.
pub fn cleanup_cutoff(max_age_days: i64) -> (r: Option<Timestamp>)
    ensures
        exists|t: Timestamp|
            #![trigger days_back_in_range(t.secs, t.nanos, max_age_days)]
            {
                &&& t.secs >= 0
                &&& t.nanos < 1_000_000_000
                &&& (r is Some <==> days_back_in_range(t.secs, t.nanos, max_age_days))
                &&& (r is Some <==> calendar_reaches(t.secs as int) && calendar_reaches(
                    t.secs - max_age_days * 86400,
                ))
                &&& (r matches Some(c) ==> c.secs == t.secs - max_age_days * 86400 && c.nanos
                    == t.nanos)
            },
{
    let t = now();
    cleanup_cutoff_at(t, max_age_days)
}

/// Whether cleanup deletes a stored task whose creation time could be read (`Some`) or not
/// (`None`): it deletes a readable task created strictly before the cutoff, and skips the rest.
pub open spec fn expired(created_at: Option<Timestamp>, cutoff: Timestamp) -> bool {
    created_at matches Some(c) && c.is_before(cutoff)
}

/// How many of the stored tasks cleanup deletes.
pub open spec fn expired_count(created: Seq<Option<Timestamp>>, cutoff: Timestamp) -> nat
    decreases created.len(),
{
    if created.len() == 0 {
        0
    } else {
        expired_count(created.drop_last(), cutoff) + if expired(created.last(), cutoff) {
            1nat
        } else {
            0nat
        }
    }
}

/// The progress of a cleanup of old tasks: its cutoff, and how many tasks it has deleted.
pub struct Cleanup {
    cutoff: Timestamp,
    deleted: usize,
    seen: Ghost<Seq<Option<Timestamp>>>,
}

pub struct CleanupView {
    pub cutoff: Timestamp,
    /// The creation times of the tasks considered so far, in order; `None` for one that could
    /// not be read.
    pub seen: Seq<Option<Timestamp>>,
    pub deleted: nat,
}

impl View for Cleanup {
    type V = CleanupView;

    closed spec fn view(&self) -> CleanupView {
        CleanupView { cutoff: self.cutoff, seen: self.seen@, deleted: self.deleted as nat }
    }
}

impl Cleanup {
    #[verifier::type_invariant]
    spec fn counts_expired(self) -> bool {
        self.deleted == expired_count(self.seen@, self.cutoff)
    }

    /// A cleanup with the given cutoff that has considered no task yet.
    pub fn new(cutoff: Timestamp) -> (r: Self)
        ensures
            r@ == (CleanupView { cutoff, seen: Seq::empty(), deleted: 0 }),
    {
        Cleanup { cutoff, deleted: 0, seen: Ghost(Seq::empty()) }
    }

    /// How many tasks the cleanup has deleted: those considered so far that were readable and
    /// created before the cutoff.
    pub fn deleted(&self) -> (r: usize)
        ensures
            r == self@.deleted,
            r == expired_count(self@.seen, self@.cutoff),
    {
        proof {
            use_type_invariant(self);
        }
        self.deleted
    }

    /// Considers the next stored task, with its creation time where it could be read: says
    /// whether to delete it, and counts it if so.
    pub fn consider(&mut self, created_at: Option<Timestamp>) -> (r: bool)
        requires
            old(self)@.deleted < usize::MAX,
        ensures
            r == expired(created_at, old(self)@.cutoff),
            final(self)@ == (CleanupView {
                cutoff: old(self)@.cutoff,
                seen: old(self)@.seen.push(created_at),
                deleted: old(self)@.deleted + if r {
                    1nat
                } else {
                    0nat
                },
            }),
            final(self)@.deleted == expired_count(final(self)@.seen, final(self)@.cutoff),
    {
        proof {
            use_type_invariant(&*self);
        }
        let delete = match created_at {
            Some(c) => c.before(&self.cutoff),
            None => false,
        };
        let ghost seen = self.seen@.push(created_at);
        assert(seen.drop_last() =~= self.seen@);
        let count = if delete {
            self.deleted + 1
        } else {
            self.deleted
        };
        *self = Cleanup { cutoff: self.cutoff, deleted: count, seen: Ghost(seen) };
        delete
    }
}

} // verus!

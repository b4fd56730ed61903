//! The task loop of the benchmark and test programs that drive a ring: a count
//! of tasks, each of which queues one entry.

use vstd::prelude::*;
use crate::squeue::{Entry, SubmissionQueue};

verus! {

/// A count of tasks still to be queued.
pub struct TaskQueue(pub usize);

impl TaskQueue {
    /// Whether any task is left.
    pub fn want(&self) -> (r: bool)
        ensures
            r == (self.0 != 0),
    {
        self.0 != 0
    }

    /// Take one task.
    pub fn pop(&mut self)
        requires
            old(self).0 > 0,
        ensures
            final(self).0 == old(self).0 - 1,
    {
        self.0 = self.0 - 1;
    }
}

/// The smaller of two counts.
pub open spec fn min_count(a: int, b: int) -> int {
    if a <= b { a } else { b }
}

/// `min_count` is the smaller of its two arguments.
pub proof fn lemma_min_count(a: int, b: int)
    ensures
        min_count(a, b) <= a,
        min_count(a, b) <= b,
        min_count(a, b) == a || min_count(a, b) == b,
{
}

/// Queue one copy of `entry` per remaining task until no task is left or the
/// submission queue is full, taking a task for each entry queued; returns how
/// many were queued.
pub fn queue_tasks(tasks: &mut TaskQueue, sq: &mut SubmissionQueue<Entry>, entry: &Entry) -> (r: usize)
    requires
        old(sq).wf(),
    ensures
        final(sq).wf(),
        r == min_count(old(tasks).0 as int, old(sq).spec_capacity() - old(sq).view().len()),
        final(tasks).0 == old(tasks).0 - r,
        final(sq).view() == old(sq).view() + Seq::new(r as nat, |_i: int| *entry),
        final(sq).spec_capacity() == old(sq).spec_capacity(),
{
    let ghost start = sq.view();
    let mut n: usize = 0;
    while tasks.want()
        invariant_except_break
            sq.wf(),
            sq.spec_capacity() == old(sq).spec_capacity(),
            n <= old(tasks).0,
            tasks.0 == old(tasks).0 - n,
            start == old(sq).view(),
            start.len() + n <= sq.spec_capacity(),
            sq.view() == start + Seq::new(n as nat, |_i: int| *entry),
        ensures
            sq.wf(),
            sq.spec_capacity() == old(sq).spec_capacity(),
            n == min_count(old(tasks).0 as int, old(sq).spec_capacity() - old(sq).view().len()),
            tasks.0 == old(tasks).0 - n,
            sq.view() == old(sq).view() + Seq::new(n as nat, |_i: int| *entry),
        decreases tasks.0,
    {
        match sq.push(entry) {
            Ok(()) => {
                tasks.pop();
                assert(sq.view() =~= start + Seq::new((n + 1) as nat, |_i: int| *entry));
                n = n + 1;
            },
            Err(_) => {
                break;
            },
        }
    }
    n
}

} // verus!

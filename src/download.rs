use vstd::prelude::*;

verus! {

/// Number of transfers that may run at once until it is changed.
pub const DEFAULT_NUM_THREADS: usize = 4;

/// A file to fetch: where from, and where to write it.
#[derive(Clone, Debug)]
pub struct DownloadFile {
    pub url: String,
    pub file: String,
}

/// A task as the queue knows it: the file and the number it was given when
/// it was queued, which tells apart two tasks with the same file.
#[derive(Debug)]
pub struct Ticket {
    pub id: u64,
    pub task: DownloadFile,
}

/// The numbers of a sequence of tickets.
pub open spec fn ids_of(s: Seq<Ticket>) -> Seq<u64> {
    s.map_values(|t: Ticket| t.id)
}

/// Whether no number occurs in both sequences.
pub open spec fn disjoint(a: Seq<u64>, b: Seq<u64>) -> bool {
    forall|x: u64| a.contains(x) ==> !b.contains(x)
}

/// The pending tasks (first in, first out), the tasks handed out and not yet
/// reported, the failed tasks in the order they failed, and the number of
/// transfers that may run at once.
pub struct DownloadQueue {
    next_id: u64,
    pending: Vec<Ticket>,
    running: Vec<u64>,
    failed: Vec<Ticket>,
    num_threads: usize,
}

proof fn lemma_push_distinct(s: Seq<u64>, x: u64)
    requires
        s.no_duplicates(),
        !s.contains(x),
    ensures
        s.push(x).no_duplicates(),
        forall|y: u64| s.push(x).contains(y) <==> (y == x || s.contains(y)),
{
    assert forall|y: u64| s.push(x).contains(y) implies (y == x || s.contains(y)) by {
        let k = choose|k: int| 0 <= k < s.push(x).len() && s.push(x)[k] == y;
        if k < s.len() {
            assert(s[k] == y);
        }
    }
    assert forall|y: u64| s.contains(y) implies s.push(x).contains(y) by {
        let k = choose|k: int| 0 <= k < s.len() && s[k] == y;
        assert(s.push(x)[k] == y);
    }
    assert(s.push(x)[s.len() as int] == x);
}

proof fn lemma_drop_first_distinct(s: Seq<u64>)
    requires
        s.no_duplicates(),
        s.len() > 0,
    ensures
        s.drop_first().no_duplicates(),
        forall|y: u64| s.drop_first().contains(y) <==> (s.contains(y) && y != s[0]),
{
    assert forall|y: u64| s.drop_first().contains(y) implies (s.contains(y) && y != s[0]) by {
        let k = choose|k: int| 0 <= k < s.drop_first().len() && s.drop_first()[k] == y;
        assert(s[k + 1] == y);
    }
    assert forall|y: u64| s.contains(y) && y != s[0] implies s.drop_first().contains(y) by {
        let k = choose|k: int| 0 <= k < s.len() && s[k] == y;
        assert(s.drop_first()[k - 1] == y);
    }
}

proof fn lemma_remove_distinct(s: Seq<u64>, k: int)
    requires
        s.no_duplicates(),
        0 <= k < s.len(),
    ensures
        s.remove(k).no_duplicates(),
        forall|y: u64| s.remove(k).contains(y) <==> (s.contains(y) && y != s[k]),
{
    let r = s.remove(k);
    assert forall|i: int, j: int| 0 <= i < j < r.len() implies r[i] != r[j] by {
        let i2 = if i < k { i } else { i + 1 };
        let j2 = if j < k { j } else { j + 1 };
        assert(r[i] == s[i2] && r[j] == s[j2]);
    }
    assert forall|y: u64| r.contains(y) implies (s.contains(y) && y != s[k]) by {
        let m = choose|m: int| 0 <= m < r.len() && r[m] == y;
        let m2 = if m < k { m } else { m + 1 };
        assert(s[m2] == y);
    }
    assert forall|y: u64| s.contains(y) && y != s[k] implies r.contains(y) by {
        let m = choose|m: int| 0 <= m < s.len() && s[m] == y;
        if m < k {
            assert(r[m] == y);
        } else {
            assert(r[m - 1] == y);
        }
    }
}

proof fn lemma_concat_distinct(a: Seq<u64>, b: Seq<u64>)
    requires
        a.no_duplicates(),
        b.no_duplicates(),
        disjoint(a, b),
    ensures
        (a + b).no_duplicates(),
        forall|y: u64| (a + b).contains(y) <==> (a.contains(y) || b.contains(y)),
{
    let c = a + b;
    assert forall|i: int, j: int| 0 <= i < j < c.len() implies c[i] != c[j] by {
        if i < a.len() && j >= a.len() {
            assert(a.contains(c[i]));
            assert(b[j - a.len()] == c[j]);
            assert(b.contains(c[j]));
        }
    }
    assert forall|y: u64| c.contains(y) implies (a.contains(y) || b.contains(y)) by {
        let m = choose|m: int| 0 <= m < c.len() && c[m] == y;
        if m < a.len() {
            assert(a[m] == y);
        } else {
            assert(b[m - a.len()] == y);
        }
    }
    assert forall|y: u64| a.contains(y) || b.contains(y) implies c.contains(y) by {
        if a.contains(y) {
            let m = choose|m: int| 0 <= m < a.len() && a[m] == y;
            assert(c[m] == y);
        } else {
            let m = choose|m: int| 0 <= m < b.len() && b[m] == y;
            assert(c[m + a.len()] == y);
        }
    }
}

impl DownloadFile {
    pub fn new(url: &str, file: &str) -> (r: Self)
        ensures
            r.url@ == url@,
            r.file@ == file@,
    {
        DownloadFile { url: url.to_owned(), file: file.to_owned() }
    }

    /// Puts the task at the back of the queue. Refused, with the queue left as
    /// it was, only once every task number has been used.
    pub fn run(self, queue: &mut DownloadQueue) -> (accepted: bool)
        requires
            old(queue).wf(),
        ensures
            final(queue).wf(),
            accepted == old(queue).can_accept(),
            accepted ==> final(queue).pending() == old(queue).pending().push(
                Ticket { id: old(queue).next_number(), task: self },
            ),
            !accepted ==> final(queue).pending() == old(queue).pending(),
            final(queue).running() == old(queue).running(),
            final(queue).failed() == old(queue).failed(),
            final(queue).num_threads() == old(queue).num_threads(),
    {
        queue.enqueue(self)
    }
}

impl DownloadQueue {
    pub closed spec fn pending(&self) -> Seq<Ticket> {
        self.pending@
    }

    pub closed spec fn running(&self) -> Seq<u64> {
        self.running@
    }

    pub closed spec fn failed(&self) -> Seq<Ticket> {
        self.failed@
    }

    pub closed spec fn num_threads(&self) -> nat {
        self.num_threads as nat
    }

    /// The number the next queued task gets.
    pub closed spec fn next_number(&self) -> u64 {
        self.next_id
    }

    /// Whether a task number is left for another task.
    pub open spec fn can_accept(&self) -> bool {
        self.next_number() < u64::MAX
    }

    /// Each task is in one place at most: every number is below the next one
    /// to give, occurs once in its list, and in no two of pending, running
    /// and failed. At least one transfer may run.
    pub closed spec fn wf(&self) -> bool {
        &&& self.num_threads >= 1
        &&& ids_of(self.pending@).no_duplicates()
        &&& self.running@.no_duplicates()
        &&& ids_of(self.failed@).no_duplicates()
        &&& disjoint(ids_of(self.pending@), self.running@)
        &&& disjoint(ids_of(self.pending@), ids_of(self.failed@))
        &&& disjoint(self.running@, ids_of(self.failed@))
        &&& forall|x: u64| ids_of(self.pending@).contains(x) ==> x < self.next_id
        &&& forall|x: u64| self.running@.contains(x) ==> x < self.next_id
        &&& forall|x: u64| ids_of(self.failed@).contains(x) ==> x < self.next_id
    }

    /// An empty queue that runs `DEFAULT_NUM_THREADS` transfers at once.
    pub fn new() -> (r: Self)
        ensures
            r.wf(),
            r.pending().len() == 0,
            r.running().len() == 0,
            r.failed().len() == 0,
            r.num_threads() == DEFAULT_NUM_THREADS,
    {
        let r = DownloadQueue {
            next_id: 0,
            pending: Vec::new(),
            running: Vec::new(),
            failed: Vec::new(),
            num_threads: DEFAULT_NUM_THREADS,
        };
        assert(ids_of(r.pending@) =~= Seq::<u64>::empty());
        assert(ids_of(r.failed@) =~= Seq::<u64>::empty());
        r
    }

    fn enqueue(&mut self, task: DownloadFile) -> (accepted: bool)
        requires
            old(self).wf(),
        ensures
            final(self).wf(),
            accepted == old(self).can_accept(),
            accepted ==> final(self).pending() == old(self).pending().push(
                Ticket { id: old(self).next_number(), task },
            ),
            !accepted ==> final(self).pending() == old(self).pending(),
            final(self).running() == old(self).running(),
            final(self).failed() == old(self).failed(),
            final(self).num_threads() == old(self).num_threads(),
    {
        if self.next_id == u64::MAX {
            return false;
        }
        let id = self.next_id;
        let ghost old_pending = self.pending@;
        proof {
            assert(!ids_of(old_pending).contains(id));
            lemma_push_distinct(ids_of(old_pending), id);
        }
        self.pending.push(Ticket { id, task });
        self.next_id = id + 1;
        assert(ids_of(self.pending@) =~= ids_of(old_pending).push(id));
        assert forall|x: u64| ids_of(self.pending@).contains(x) implies x < self.next_id by {
            assert(ids_of(old_pending).push(id).contains(x));
            if x != id {
                assert(ids_of(old_pending).contains(x));
                assert(x < id);
            }
        }
        true
    }

    /// Hands out the oldest pending task when a transfer slot is free: the
    /// task leaves the pending list and is counted as running. `None` when
    /// nothing is pending or every slot is taken.
    pub fn dispatch(&mut self) -> (r: Option<Ticket>)
        requires
            old(self).wf(),
        ensures
            final(self).wf(),
            r is Some <==> old(self).pending().len() > 0
                && old(self).running().len() < old(self).num_threads(),
            r matches Some(t) ==> {
                &&& t == old(self).pending()[0]
                &&& !old(self).running().contains(t.id)
                &&& final(self).pending() == old(self).pending().drop_first()
                &&& final(self).running() == old(self).running().push(t.id)
                &&& !ids_of(final(self).pending()).contains(t.id)
            },
            r is None ==> final(self).pending() == old(self).pending()
                && final(self).running() == old(self).running(),
            final(self).failed() == old(self).failed(),
            final(self).num_threads() == old(self).num_threads(),
    {
        if self.pending.len() == 0 || self.running.len() >= self.num_threads {
            return None;
        }
        let ghost old_pending = self.pending@;
        let ghost old_running = self.running@;
        let t = self.pending.remove(0);
        proof {
            assert(ids_of(old_pending)[0] == t.id);
            assert(ids_of(old_pending).contains(t.id));
            lemma_drop_first_distinct(ids_of(old_pending));
            assert(ids_of(self.pending@) =~= ids_of(old_pending).drop_first());
            lemma_push_distinct(old_running, t.id);
        }
        self.running.push(t.id);
        assert(self.running@ == old_running.push(t.id));
        assert forall|x: u64| ids_of(self.pending@).contains(x) implies !self.running@.contains(x)
            && x < self.next_id by {
            assert(ids_of(old_pending).drop_first().contains(x));
            assert(ids_of(old_pending).contains(x));
            assert(!old_running.contains(x));
            assert(x != t.id);
            assert(!old_running.push(t.id).contains(x));
        }
        assert forall|x: u64| self.running@.contains(x) implies x < self.next_id
            && !ids_of(self.failed@).contains(x) by {
            assert(old_running.push(t.id).contains(x));
            if x == t.id {
                assert(ids_of(old_pending).contains(x));
            } else {
                assert(old_running.contains(x));
            }
        }
        assert(self.pending@ == old_pending.drop_first());
        Some(t)
    }

    /// Position of `id` among the running tasks, if it is running.
    fn find_running(&self, id: u64) -> (r: Option<usize>)
        ensures
            match r {
                Some(k) => k < self.running@.len() && self.running@[k as int] == id,
                None => !self.running@.contains(id),
            },
    {
        let mut k: usize = 0;
        while k < self.running.len()
            invariant
                k <= self.running@.len(),
                forall|j: int| 0 <= j < k ==> self.running@[j] != id,
            decreases self.running@.len() - k,
        {
            if self.running[k] == id {
                return Some(k);
            }
            k = k + 1;
        }
        None
    }

    /// Records that the running task `id` finished: its slot is free again.
    /// Returns whether `id` was running; if not, nothing changes.
    pub fn report_success(&mut self, id: u64) -> (was_running: bool)
        requires
            old(self).wf(),
        ensures
            final(self).wf(),
            was_running == old(self).running().contains(id),
            was_running ==> final(self).running().len() + 1 == old(self).running().len(),
            forall|x: u64| final(self).running().contains(x) <==> (old(self).running().contains(x) && x != id),
            final(self).pending() == old(self).pending(),
            final(self).failed() == old(self).failed(),
            final(self).num_threads() == old(self).num_threads(),
    {
        match self.find_running(id) {
            Some(k) => {
                let ghost old_running = self.running@;
                proof {
                    lemma_remove_distinct(old_running, k as int);
                }
                self.running.remove(k);
                assert(self.running@ == old_running.remove(k as int));
                assert forall|x: u64| self.running@.contains(x) implies x < self.next_id
                    && !ids_of(self.pending@).contains(x) && !ids_of(self.failed@).contains(x) by {
                    assert(old_running.remove(k as int).contains(x));
                    assert(old_running.contains(x));
                }
                true
            },
            None => false,
        }
    }

    /// Records that a running task failed: its slot is free again and the
    /// task goes to the back of the failed list. Returns whether the ticket
    /// was running; if not, nothing changes and the ticket is dropped.
    pub fn report_failure(&mut self, ticket: Ticket) -> (was_running: bool)
        requires
            old(self).wf(),
        ensures
            final(self).wf(),
            was_running == old(self).running().contains(ticket.id),
            was_running ==> final(self).failed() == old(self).failed().push(ticket)
                && final(self).running().len() + 1 == old(self).running().len(),
            !was_running ==> final(self).failed() == old(self).failed(),
            forall|x: u64| final(self).running().contains(x) <==> (old(self).running().contains(x) && x != ticket.id),
            final(self).pending() == old(self).pending(),
            final(self).num_threads() == old(self).num_threads(),
    {
        match self.find_running(ticket.id) {
            Some(k) => {
                let ghost old_running = self.running@;
                let ghost old_failed = self.failed@;
                let id = ticket.id;
                proof {
                    lemma_remove_distinct(old_running, k as int);
                    assert(old_running.contains(id));
                    assert(!ids_of(old_failed).contains(id));
                    lemma_push_distinct(ids_of(old_failed), id);
                }
                self.running.remove(k);
                self.failed.push(ticket);
                assert(self.running@ == old_running.remove(k as int));
                assert(ids_of(self.failed@) =~= ids_of(old_failed).push(id));
                assert forall|x: u64| ids_of(self.failed@).contains(x) implies x < self.next_id
                    && !self.running@.contains(x) && !ids_of(self.pending@).contains(x) by {
                    assert(ids_of(old_failed).push(id).contains(x));
                    if x != id {
                        assert(ids_of(old_failed).contains(x));
                    }
                }
                assert forall|x: u64| self.running@.contains(x) implies x < self.next_id
                    && !ids_of(self.pending@).contains(x) by {
                    assert(old_running.remove(k as int).contains(x));
                    assert(old_running.contains(x));
                }
                true
            },
            None => false,
        }
    }

    /// Moves every failed task to the back of the pending list, in the order
    /// they failed, and empties the failed list.
    pub fn retry(&mut self)
        requires
            old(self).wf(),
        ensures
            final(self).wf(),
            final(self).pending() == old(self).pending() + old(self).failed(),
            final(self).failed().len() == 0,
            final(self).running() == old(self).running(),
            final(self).num_threads() == old(self).num_threads(),
    {
        let ghost old_pending = self.pending@;
        let ghost old_failed = self.failed@;
        proof {
            lemma_concat_distinct(ids_of(old_pending), ids_of(old_failed));
        }
        self.pending.append(&mut self.failed);
        assert(ids_of(self.pending@) =~= ids_of(old_pending) + ids_of(old_failed));
        assert(ids_of(self.failed@) =~= Seq::<u64>::empty());
        assert forall|x: u64| ids_of(self.pending@).contains(x) implies x < self.next_id
            && !self.running@.contains(x) by {
            assert((ids_of(old_pending) + ids_of(old_failed)).contains(x));
            if ids_of(old_pending).contains(x) {
                assert(x < self.next_id);
            } else {
                assert(ids_of(old_failed).contains(x));
                assert(x < self.next_id);
            }
        }
    }

    /// Sets how many transfers may run at once. Running tasks are not
    /// touched; the new number only gates later dispatches.
    pub fn set_capacity(&mut self, num_threads: usize)
        requires
            old(self).wf(),
            num_threads >= 1,
        ensures
            final(self).wf(),
            final(self).num_threads() == num_threads,
            final(self).pending() == old(self).pending(),
            final(self).running() == old(self).running(),
            final(self).failed() == old(self).failed(),
            final(self).next_number() == old(self).next_number(),
    {
        self.num_threads = num_threads;
    }

    pub fn get_num_threads(&self) -> (r: usize)
        ensures
            r == self.num_threads(),
    {
        self.num_threads
    }

    /// Number of tasks handed out and not yet reported.
    pub fn in_flight(&self) -> (r: usize)
        ensures
            r == self.running().len(),
    {
        self.running.len()
    }

    /// Numbers of the pending tasks, oldest first.
    pub fn pending_ids(&self) -> (r: Vec<u64>)
        ensures
            r@ == ids_of(self.pending()),
    {
        let mut r: Vec<u64> = Vec::new();
        let mut i: usize = 0;
        while i < self.pending.len()
            invariant
                i <= self.pending@.len(),
                r@ == ids_of(self.pending@).subrange(0, i as int),
            decreases self.pending@.len() - i,
        {
            r.push(self.pending[i].id);
            i = i + 1;
            assert(r@ =~= ids_of(self.pending@).subrange(0, i as int));
        }
        assert(ids_of(self.pending@).subrange(0, i as int) =~= ids_of(self.pending@));
        r
    }

    /// Numbers of the failed tasks, in the order they failed.
    pub fn failed_ids(&self) -> (r: Vec<u64>)
        ensures
            r@ == ids_of(self.failed()),
    {
        let mut r: Vec<u64> = Vec::new();
        let mut i: usize = 0;
        while i < self.failed.len()
            invariant
                i <= self.failed@.len(),
                r@ == ids_of(self.failed@).subrange(0, i as int),
            decreases self.failed@.len() - i,
        {
            r.push(self.failed[i].id);
            i = i + 1;
            assert(r@ =~= ids_of(self.failed@).subrange(0, i as int));
        }
        assert(ids_of(self.failed@).subrange(0, i as int) =~= ids_of(self.failed@));
        r
    }
}

/// A queued task is handed out at most once before it is reported: no task
/// number is pending twice, and a task that is running is neither pending nor
/// failed, so no later dispatch can hand it out again until it has failed and
/// been queued again by a retry.
pub proof fn lemma_dispatched_at_most_once(q: &DownloadQueue, id: u64)
    requires
        q.wf(),
    ensures
        ids_of(q.pending()).no_duplicates(),
        q.running().no_duplicates(),
        q.running().contains(id) ==> !ids_of(q.pending()).contains(id) && !ids_of(q.failed()).contains(id),
{
}

/// Sets how many transfers may run at once; see `DownloadQueue::set_capacity`.
pub fn set_num_threads(queue: &mut DownloadQueue, num_threads: usize)
    requires
        old(queue).wf(),
        num_threads >= 1,
    ensures
        final(queue).wf(),
        final(queue).num_threads() == num_threads,
        final(queue).pending() == old(queue).pending(),
        final(queue).running() == old(queue).running(),
        final(queue).failed() == old(queue).failed(),
        final(queue).next_number() == old(queue).next_number(),
{
    queue.set_capacity(num_threads);
}

/// Queues every failed task again behind the pending ones, in the order they
/// failed. With nothing failed the queue is left as it was.
pub fn retry_error_tasks(queue: &mut DownloadQueue)
    requires
        old(queue).wf(),
    ensures
        final(queue).wf(),
        final(queue).pending() == old(queue).pending() + old(queue).failed(),
        final(queue).failed().len() == 0,
        final(queue).running() == old(queue).running(),
        final(queue).num_threads() == old(queue).num_threads(),
        old(queue).failed().len() == 0 ==> final(queue).pending() == old(queue).pending(),
{
    queue.retry();
    assert(old(queue).failed().len() == 0 ==> old(queue).pending() + old(queue).failed() =~= old(queue).pending());
}

} // verus!

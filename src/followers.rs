//! The log multiplexer's state: the registry of active followers (at most
//! one per container) and each follower's bounded queue of pending lines.

use vstd::prelude::*;

use crate::runtime::texts;

verus! {

/// The registry of active log followers, keyed by container id.
pub struct FollowerSet {
    ids: Vec<String>,
}

/// The followers after a start for `id`: unchanged when one is already there.
pub open spec fn started(s: Set<Seq<char>>, id: Seq<char>) -> Set<Seq<char>> {
    s.insert(id)
}

/// The followers after a stop for `id`.
pub open spec fn stopped(s: Set<Seq<char>>, id: Seq<char>) -> Set<Seq<char>> {
    s.remove(id)
}

impl FollowerSet {
    /// The container ids that have a follower, in the order they started.
    pub closed spec fn handles(&self) -> Seq<Seq<char>> {
        texts(self.ids@)
    }

    /// The set of container ids that have a follower.
    pub open spec fn active(&self) -> Set<Seq<char>> {
        self.handles().to_set()
    }

    /// No container has more than one follower.
    pub open spec fn wf(&self) -> bool {
        self.handles().no_duplicates()
    }

    pub fn new() -> (r: Self)
        ensures
            r.wf(),
            r.handles() == Seq::<Seq<char>>::empty(),
            r.active() == Set::<Seq<char>>::empty(),
    {
        let r = FollowerSet { ids: Vec::new() };
        assert(r.handles() =~= Seq::<Seq<char>>::empty());
        assert(r.active() =~= Set::<Seq<char>>::empty());
        r
    }

    /// The number of active followers.
    pub fn len(&self) -> (r: usize)
        ensures
            r == self.handles().len(),
    {
        self.ids.len()
    }

    fn position(&self, id: &String) -> (r: Option<usize>)
        ensures
            r matches Some(i) ==> i < self.handles().len() && self.handles()[i as int] == id@,
            r is None ==> !self.handles().contains(id@),
    {
        let mut i: usize = 0;
        while i < self.ids.len()
            invariant
                i <= self.ids@.len(),
                forall|j: int| 0 <= j < i ==> self.handles()[j] != id@,
            decreases self.ids.len() - i,
        {
            if self.ids[i] == *id {
                return Some(i);
            }
            i = i + 1;
        }
        None
    }

    /// Whether `id` has a follower.
    pub fn contains(&self, id: &String) -> (r: bool)
        ensures
            r == self.active().contains(id@),
    {
        self.position(id).is_some()
    }

    /// Whether a line read from `id`'s follower may still be forwarded: only
    /// while the follower is registered.
    pub fn accepts_line(&self, id: &String) -> (r: bool)
        ensures
            r == self.active().contains(id@),
    {
        self.contains(id)
    }

    /// Registers a follower for `id`. Returns false, changing nothing, when
    /// `id` already has one: a second start is a no-op.
    pub fn start(&mut self, id: String) -> (r: bool)
        requires
            old(self).wf(),
        ensures
            final(self).wf(),
            r == !old(self).active().contains(id@),
            final(self).active() == started(old(self).active(), id@),
            r ==> final(self).handles() == old(self).handles().push(id@),
            !r ==> final(self).handles() == old(self).handles(),
    {
        match self.position(&id) {
            Some(_) => {
                assert(self.active() =~= started(self.active(), id@));
                false
            },
            None => {
                let ghost before = self.handles();
                self.ids.push(id);
                assert(self.handles() =~= before.push(id@));
                assert(self.active() =~= before.to_set().insert(id@)) by {
                    assert forall|x: Seq<char>| #[trigger] self.active().contains(x) <==> before.to_set().insert(id@).contains(x) by {
                        if x == id@ {
                            assert(self.handles()[before.len() as int] == x);
                        }
                        if before.contains(x) {
                            let k = choose|k: int| 0 <= k < before.len() && before[k] == x;
                            assert(self.handles()[k] == x);
                        }
                    }
                }
                true
            },
        }
    }

    /// Drops the follower of `id`. Returns whether there was one.
    pub fn stop(&mut self, id: &String) -> (r: bool)
        requires
            old(self).wf(),
        ensures
            final(self).wf(),
            r == old(self).active().contains(id@),
            final(self).active() == stopped(old(self).active(), id@),
            !final(self).active().contains(id@),
            final(self).handles().len() == old(self).handles().len() - (if r { 1int } else { 0 }),
    {
        match self.position(id) {
            None => {
                assert(self.active() =~= stopped(self.active(), id@));
                false
            },
            Some(p) => {
                let ghost before = self.handles();
                self.ids.remove(p);
                let ghost after = self.handles();
                assert(after =~= before.remove(p as int));
                assert forall|i: int, j: int|
                    0 <= i < after.len() && 0 <= j < after.len() && i != j implies after[i]
                    != after[j] by {
                    let bi = if i < p { i } else { i + 1 };
                    let bj = if j < p { j } else { j + 1 };
                    assert(after[i] == before[bi]);
                    assert(after[j] == before[bj]);
                }
                assert(self.active() =~= stopped(before.to_set(), id@)) by {
                    assert forall|x: Seq<char>| #[trigger] self.active().contains(x) <==> stopped(before.to_set(), id@).contains(x) by {
                        if after.contains(x) {
                            let k = choose|k: int| 0 <= k < after.len() && after[k] == x;
                            let bk = if k < p { k } else { k + 1 };
                            assert(before[bk] == x);
                            assert(bk != p);
                        }
                        if before.contains(x) && x != id@ {
                            let k = choose|k: int| 0 <= k < before.len() && before[k] == x;
                            assert(k != p);
                            let ak = if k < p { k } else { k - 1 };
                            assert(after[ak] == x);
                        }
                    }
                }
                true
            },
        }
    }

    /// Removes every follower (channel teardown) and hands back their ids,
    /// so that each child can be killed and reaped.
    pub fn drain(&mut self) -> (r: Vec<String>)
        requires
            old(self).wf(),
        ensures
            final(self).wf(),
            final(self).handles() == Seq::<Seq<char>>::empty(),
            texts(r@) == old(self).handles(),
    {
        let mut taken: Vec<String> = Vec::new();
        std::mem::swap(&mut taken, &mut self.ids);
        assert(self.handles() =~= Seq::<Seq<char>>::empty());
        taken
    }
}

/// Which of a container's output streams a line came from.
#[derive(Clone, Copy, Debug, PartialEq, Eq, Structural)]
pub enum LogStream {
    Stdout,
    Stderr,
}

/// One line of a container's output.
#[derive(Debug)]
pub struct LogLine {
    pub stream: LogStream,
    pub text: String,
}

/// A follower's lines waiting for the channel. When it is full the oldest
/// line makes room for the newest and is counted as dropped.
pub struct LineBuffer {
    lines: Vec<LogLine>,
    capacity: usize,
    dropped: u64,
}

impl LineBuffer {
    /// The lines waiting, oldest first.
    pub closed spec fn pending(&self) -> Seq<LogLine> {
        self.lines@
    }

    /// How many lines the buffer holds at most.
    pub closed spec fn cap(&self) -> nat {
        self.capacity as nat
    }

    /// How many lines were dropped since the count was last taken.
    pub closed spec fn dropped_count(&self) -> nat {
        self.dropped as nat
    }

    pub open spec fn wf(&self) -> bool {
        0 < self.cap() && self.pending().len() <= self.cap()
    }

    pub fn new(capacity: usize) -> (r: Self)
        requires
            capacity > 0,
        ensures
            r.wf(),
            r.pending() == Seq::<LogLine>::empty(),
            r.cap() == capacity,
            r.dropped_count() == 0,
    {
        LineBuffer { lines: Vec::new(), capacity, dropped: 0 }
    }

    /// Queues `line`; when the buffer is full its oldest line is dropped first
    /// and counted (the count saturates at `u64::MAX`).
    pub fn offer(&mut self, line: LogLine)
        requires
            old(self).wf(),
        ensures
            final(self).wf(),
            final(self).cap() == old(self).cap(),
            old(self).pending().len() < old(self).cap() ==> {
                &&& final(self).pending() == old(self).pending().push(line)
                &&& final(self).dropped_count() == old(self).dropped_count()
            },
            old(self).pending().len() == old(self).cap() ==> {
                &&& final(self).pending() == old(self).pending().drop_first().push(line)
                &&& final(self).dropped_count() == (if old(self).dropped_count() < u64::MAX {
                    old(self).dropped_count() + 1
                } else {
                    old(self).dropped_count()
                })
            },
    {
        if self.lines.len() == self.capacity {
            let ghost before = self.lines@;
            let _oldest = self.lines.remove(0);
            assert(self.lines@ =~= before.drop_first());
            if self.dropped < u64::MAX {
                self.dropped = self.dropped + 1;
            }
        }
        self.lines.push(line);
    }

    /// Takes the oldest waiting line, if any.
    pub fn next_line(&mut self) -> (r: Option<LogLine>)
        requires
            old(self).wf(),
        ensures
            final(self).wf(),
            final(self).cap() == old(self).cap(),
            final(self).dropped_count() == old(self).dropped_count(),
            old(self).pending().len() == 0 ==> r is None && final(self).pending() == old(self).pending(),
            old(self).pending().len() > 0 ==> {
                &&& r == Some(old(self).pending()[0])
                &&& final(self).pending() == old(self).pending().drop_first()
            },
    {
        if self.lines.len() == 0 {
            None
        } else {
            let ghost before = self.lines@;
            let first = self.lines.remove(0);
            assert(self.lines@ =~= before.drop_first());
            Some(first)
        }
    }

    /// Counts one line as dropped: the oldest line, already taken, could not
    /// be handed to the channel in time. The count saturates at `u64::MAX`.
    pub fn record_drop(&mut self)
        requires
            old(self).wf(),
        ensures
            final(self).wf(),
            final(self).pending() == old(self).pending(),
            final(self).cap() == old(self).cap(),
            final(self).dropped_count() == (if old(self).dropped_count() < u64::MAX {
                old(self).dropped_count() + 1
            } else {
                old(self).dropped_count()
            }),
    {
        if self.dropped < u64::MAX {
            self.dropped = self.dropped + 1;
        }
    }

    /// Takes the dropped-line count for a `log.dropped` report, resetting it.
    pub fn take_dropped(&mut self) -> (r: u64)
        requires
            old(self).wf(),
        ensures
            final(self).wf(),
            r == old(self).dropped_count(),
            final(self).dropped_count() == 0,
            final(self).pending() == old(self).pending(),
            final(self).cap() == old(self).cap(),
    {
        let r = self.dropped;
        self.dropped = 0;
        r
    }
}

/// No container has two followers: any two handles with the same id are the
/// same handle.
pub proof fn lemma_one_follower_per_container(f: &FollowerSet, c: Seq<char>)
    requires
        f.wf(),
    ensures
        forall|i: int, j: int|
            0 <= i < f.handles().len() && 0 <= j < f.handles().len() && f.handles()[i] == c
                && f.handles()[j] == c ==> i == j,
{
}

/// Starting a follower twice for one id leaves one follower for it, and one
/// stop removes it.
pub proof fn lemma_start_twice_stop_once(s: Set<Seq<char>>, id: Seq<char>)
    ensures
        started(started(s, id), id) == started(s, id),
        started(s, id).contains(id),
        !stopped(started(started(s, id), id), id).contains(id),
        stopped(started(started(s, id), id), id) == s.remove(id),
{
    assert(started(started(s, id), id) =~= started(s, id));
    assert(stopped(started(started(s, id), id), id) =~= s.remove(id));
}

/// Once a stop for `id` is acknowledged, no line read from `id`'s follower
/// is accepted any more, whatever else was running.
pub proof fn lemma_no_lines_after_stop(f: &FollowerSet, after: &FollowerSet, id: Seq<char>)
    requires
        after.active() == stopped(f.active(), id),
    ensures
        !after.active().contains(id),
{
}

} // verus!

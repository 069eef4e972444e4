//! One local capability service: a named producer with a subscriber set and a
//! worker execution context.
//!
//! A service starts producing when it gains its first subscriber and goes
//! idle when it loses its last one. Its worker runs until the registry asks
//! it to stop (the cooperative `ok` flag) and is joined exactly once during
//! registry teardown; joining before the stop request would block forever,
//! so `join` demands that the stop was requested first.

use vstd::prelude::*;

use crate::service_name::ServiceName;

verus! {

/// The lifecycle of a service's worker execution context.
#[derive(Clone, Copy, Debug, PartialEq, Eq, Structural)]
pub enum WorkerStatus {
    /// No subscriber: the worker is parked and produces nothing.
    Idle,
    /// At least one subscriber arrived: the worker produces frames.
    Running,
    /// The worker observed the stop request and exited; terminal.
    Joined,
}

/// A named local capability with its subscriber set, worker state and
/// best-effort runtime options.
pub struct Service {
    /// Stable registry key.
    pub name: ServiceName,
    /// Identifiers of the connections currently receiving this service's
    /// output. No identifier occurs twice.
    pub subscribers: Vec<i32>,
    /// State of the worker execution context.
    pub worker: WorkerStatus,
    /// The cooperative keep-running flag the worker polls between safe
    /// points. Cleared by the registry to ask the worker to exit.
    pub ok: bool,
    /// Runtime reconfiguration log, newest last; the live value of a key is
    /// its last entry.
    pub options: Vec<(String, String)>,
}

/// Removing the position holding `id` from a duplicate-free sequence removes
/// exactly `id`: every other element keeps its membership, no duplicate
/// appears, and the length drops by one.
proof fn lemma_nodup_remove(pre: Seq<i32>, j: int, id: i32)
    requires
        0 <= j < pre.len(),
        pre[j] == id,
        forall|a: int, b: int| 0 <= a < b < pre.len() ==> pre[a] != pre[b],
    ensures
        pre.remove(j).len() == pre.len() - 1,
        !pre.remove(j).contains(id),
        forall|c: i32| c != id ==> pre.remove(j).contains(c) == pre.contains(c),
        forall|a: int, b: int|
            0 <= a < b < pre.remove(j).len() ==> pre.remove(j)[a] != pre.remove(j)[b],
{
    pre.remove_ensures(j);
    let post = pre.remove(j);
    assert forall|k: int| 0 <= k < post.len() implies post[k] != id by {
        if k < j {
            assert(post[k] == pre[k]);
        } else {
            assert(post[k] == pre[k + 1]);
        }
    }
    assert forall|c: i32| c != id implies post.contains(c) == pre.contains(c) by {
        if post.contains(c) {
            let k = choose|k: int| 0 <= k < post.len() && post[k] == c;
            if k < j {
                assert(pre[k] == c);
            } else {
                assert(pre[k + 1] == c);
            }
            assert(pre.contains(c));
        }
        if pre.contains(c) {
            let k = choose|k: int| 0 <= k < pre.len() && pre[k] == c;
            if k < j {
                assert(post[k] == c);
            } else if k == j {
                assert(false);
            } else {
                assert(post[k - 1] == c);
            }
            assert(post.contains(c));
        }
    }
    assert forall|a: int, b: int| 0 <= a < b < post.len() implies post[a] != post[b] by {
        let a1: int = if a < j { a } else { a + 1 };
        let b1: int = if b < j { b } else { b + 1 };
        assert(post[a] == pre[a1]);
        assert(post[b] == pre[b1]);
    }
}

impl Service {
    /// The subscriber list holds no duplicate identifier.
    pub open spec fn wf(&self) -> bool {
        forall|j: int, k: int|
            0 <= j < k < self.subscribers@.len() ==> self.subscribers@[j] != self.subscribers@[k]
    }

    /// Whether the connection `id` currently receives this service's output.
    pub open spec fn is_subscribed(&self, id: i32) -> bool {
        self.subscribers@.contains(id)
    }

    /// The options log, abstracted to character sequences.
    pub open spec fn options_view(&self) -> Seq<(Seq<char>, Seq<char>)> {
        Seq::new(self.options@.len(), |i: int| (self.options@[i].0@, self.options@[i].1@))
    }

    /// A fresh, idle service with no subscribers.
    pub fn new(name: ServiceName) -> (s: Service)
        ensures
            s.wf(),
            s.name == name,
            s.subscribers@.len() == 0,
            s.worker == WorkerStatus::Idle,
            s.ok,
            s.options@.len() == 0,
    {
        Service {
            name,
            subscribers: Vec::new(),
            worker: WorkerStatus::Idle,
            ok: true,
            options: Vec::new(),
        }
    }

    /// Whether `id` is subscribed.
    pub fn is_subed(&self, id: i32) -> (r: bool)
        ensures
            r == self.is_subscribed(id),
    {
        let mut j: usize = 0;
        while j < self.subscribers.len()
            invariant
                j <= self.subscribers@.len(),
                forall|k: int| 0 <= k < j ==> self.subscribers@[k] != id,
            decreases self.subscribers@.len() - j,
        {
            if self.subscribers[j] == id {
                return true;
            }
            j += 1;
        }
        false
    }

    /// Add `id` to the subscriber set. A repeated subscription is a silent
    /// no-op; the first subscriber wakes an idle worker.
    pub fn on_subscribe(&mut self, id: i32)
        requires
            old(self).wf(),
        ensures
            final(self).wf(),
            final(self).name == old(self).name,
            final(self).ok == old(self).ok,
            final(self).options == old(self).options,
            old(self).is_subscribed(id) ==> *final(self) == *old(self),
            !old(self).is_subscribed(id) ==> {
                &&& final(self).subscribers@ == old(self).subscribers@.push(id)
                &&& final(self).worker == (if old(self).subscribers@.len() == 0 {
                    WorkerStatus::Running
                } else {
                    old(self).worker
                })
            },
            final(self).is_subscribed(id),
            forall|c: i32| c != id ==> final(self).is_subscribed(c) == old(self).is_subscribed(c),
    {
        if self.is_subed(id) {
            return;
        }
        if self.subscribers.len() == 0 {
            self.worker = WorkerStatus::Running;
        }
        self.subscribers.push(id);
        proof {
            let pre = old(self).subscribers@;
            let post = self.subscribers@;
            assert(post.last() == id);
            assert forall|c: i32| post.contains(c) implies c == id || pre.contains(c) by {
                let k = choose|k: int| 0 <= k < post.len() && post[k] == c;
                if k < pre.len() {
                    assert(pre[k] == c);
                }
            }
            assert forall|c: i32| pre.contains(c) implies post.contains(c) by {
                let k = choose|k: int| 0 <= k < pre.len() && pre[k] == c;
                assert(post[k] == c);
            }
        }
    }

    /// Remove `id` from the subscriber set. Removing an absent subscriber is
    /// a silent no-op; losing the last subscriber parks a running worker.
    pub fn on_unsubscribe(&mut self, id: i32)
        requires
            old(self).wf(),
        ensures
            final(self).wf(),
            final(self).name == old(self).name,
            final(self).ok == old(self).ok,
            final(self).options == old(self).options,
            !old(self).is_subscribed(id) ==> *final(self) == *old(self),
            old(self).is_subscribed(id) ==> {
                &&& final(self).subscribers@.len() == old(self).subscribers@.len() - 1
                &&& final(self).worker == (if old(self).subscribers@.len() == 1 {
                    WorkerStatus::Idle
                } else {
                    old(self).worker
                })
            },
            !final(self).is_subscribed(id),
            forall|c: i32| c != id ==> final(self).is_subscribed(c) == old(self).is_subscribed(c),
    {
        let mut j: usize = 0;
        while j < self.subscribers.len()
            invariant
                old(self).wf(),
                j <= self.subscribers@.len(),
                forall|k: int| 0 <= k < j ==> self.subscribers@[k] != id,
                *self == *old(self),
            decreases self.subscribers@.len() - j,
        {
            if self.subscribers[j] == id {
                let ghost pre = self.subscribers@;
                self.subscribers.remove(j);
                proof {
                    assert forall|a: int, b: int|
                        0 <= a < b < pre.len() implies pre[a] != pre[b] by {
                        assert(old(self).subscribers@[a] != old(self).subscribers@[b]);
                    }
                    lemma_nodup_remove(pre, j as int, id);
                }
                if self.subscribers.len() == 0 {
                    self.worker = WorkerStatus::Idle;
                }
                return;
            }
            j += 1;
        }
        assert(!self.is_subscribed(id));
    }

    /// Record a best-effort runtime option for this service, newest last.
    pub fn set_option(&mut self, key: String, value: String)
        requires
            old(self).wf(),
        ensures
            final(self).wf(),
            final(self).name == old(self).name,
            final(self).ok == old(self).ok,
            final(self).worker == old(self).worker,
            final(self).subscribers == old(self).subscribers,
            final(self).options_view() == old(self).options_view().push((key@, value@)),
    {
        let ghost k = key@;
        let ghost v = value@;
        self.options.push((key, value));
        proof {
            assert(final(self).options_view() =~= old(self).options_view().push((k, v)));
        }
    }

    /// Ask the worker to exit at its next safe point.
    pub fn request_stop(&mut self)
        ensures
            *final(self) == (Service { ok: false, ..*old(self) }),
    {
        self.ok = false;
    }

    /// Wait until the worker has exited. Demands that the stop was already
    /// requested: a worker whose keep-running flag is still set would never
    /// return, and this call would block forever.
    pub fn join(&mut self)
        requires
            !old(self).ok,
        ensures
            *final(self) == (Service { worker: WorkerStatus::Joined, ..*old(self) }),
    {
        self.worker = WorkerStatus::Joined;
    }
}

} // verus!

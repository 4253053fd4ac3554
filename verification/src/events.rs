//! The notification hub: a registry of subscribers, each owning a dedicated
//! unbounded queue. `notify` fans a message out to every registered
//! subscriber and silently drops the ones whose receiving end is gone, so a
//! dead subscriber can neither fail nor slow a publication. The registry is
//! only ever thinned by a notification — never reordered, never grown — which
//! is stated here as: the surviving ids form a subsequence of the old ones.

use vstd::prelude::*;

use tokio::sync::mpsc::{unbounded_channel, UnboundedReceiver, UnboundedSender};

verus! {

#[verifier::external_type_specification]
#[verifier::external_body]
#[verifier::reject_recursive_types(T)]
pub struct ExUnboundedSender<T>(UnboundedSender<T>);

#[verifier::external_type_specification]
#[verifier::external_body]
#[verifier::reject_recursive_types(T)]
pub struct ExUnboundedReceiver<T>(UnboundedReceiver<T>);

/// Relies on tokio::sync::mpsc::unbounded_channel: creates a fresh queue
/// pair; what is sent through the sender, and nothing else, comes out of the
/// receiver, in send order. The pair is fresh state, so nothing is stated of
/// the returned values.
#[verifier::external_body]
fn open_channel() -> (pair: (UnboundedSender<String>, UnboundedReceiver<String>)) {
    unbounded_channel()
}

/// Relies on tokio::sync::mpsc::UnboundedSender::send: appends the message
/// to the subscriber's queue and returns Ok, or returns Err exactly when the
/// receiving end has been dropped or closed. Whether that end is still alive
/// is state outside this crate, so nothing is promised of the result; the
/// callers state what holds either way.
#[verifier::external_body]
fn send_message(tx: &UnboundedSender<String>, msg: String) -> (ok: bool) {
    tx.send(msg).is_ok()
}

/// `a` is `b` with zero or more elements left out: the order and the
/// multiplicity of what remains are kept.
pub open spec fn is_subsequence<A>(a: Seq<A>, b: Seq<A>) -> bool
    decreases a.len() + b.len(),
{
    if a.len() == 0 {
        true
    } else if b.len() == 0 {
        false
    } else {
        (a[0] == b[0] && is_subsequence(a.drop_first(), b.drop_first())) || is_subsequence(
            a,
            b.drop_first(),
        )
    }
}

/// Every sequence is a subsequence of itself.
pub proof fn lemma_subsequence_refl<A>(s: Seq<A>)
    ensures
        is_subsequence(s, s),
    decreases s.len(),
{
    if s.len() > 0 {
        lemma_subsequence_refl(s.drop_first());
    }
}

/// Dropping one element leaves a subsequence.
pub proof fn lemma_subsequence_remove<A>(s: Seq<A>, i: int)
    requires
        0 <= i < s.len(),
    ensures
        is_subsequence(s.remove(i), s),
    decreases i,
{
    if i == 0 {
        assert(s.remove(0) =~= s.drop_first());
        lemma_subsequence_refl(s.drop_first());
    } else {
        lemma_subsequence_remove(s.drop_first(), i - 1);
        assert(s.remove(i).drop_first() =~= s.drop_first().remove(i - 1));
        assert(s.remove(i)[0] == s[0]);
    }
}

/// Being a subsequence is transitive.
pub proof fn lemma_subsequence_trans<A>(a: Seq<A>, b: Seq<A>, c: Seq<A>)
    requires
        is_subsequence(a, b),
        is_subsequence(b, c),
    ensures
        is_subsequence(a, c),
    decreases a.len() + b.len() + c.len(),
{
    if a.len() == 0 {
    } else {
        if b[0] == c[0] && is_subsequence(b.drop_first(), c.drop_first()) {
            if a[0] == b[0] && is_subsequence(a.drop_first(), b.drop_first()) {
                lemma_subsequence_trans(a.drop_first(), b.drop_first(), c.drop_first());
            } else {
                lemma_subsequence_trans(a, b.drop_first(), c.drop_first());
            }
        } else {
            lemma_subsequence_trans(a, b, c.drop_first());
        }
    }
}

/// Mapping a function over a sequence commutes with removing one element.
pub proof fn lemma_map_values_remove<A, B>(s: Seq<A>, f: spec_fn(A) -> B, i: int)
    requires
        0 <= i < s.len(),
    ensures
        s.remove(i).map_values(f) == s.map_values(f).remove(i),
{
    assert forall|j: int| 0 <= j < s.len() - 1 implies s.remove(i).map_values(f)[j]
        == s.map_values(f).remove(i)[j] by {
        if j < i {
            assert(s.remove(i)[j] == s[j]);
        } else {
            assert(s.remove(i)[j] == s[j + 1]);
        }
    }
    assert(s.remove(i).map_values(f) =~= s.map_values(f).remove(i));
}

/// One registered subscriber: its id and the sending half of its queue.
struct Client {
    pub id: u64,
    pub tx: UnboundedSender<String>,
}

/// The hub. It exclusively owns the subscriber registry; subscribers only
/// ever hold the receiving half of their own queue.
pub struct Events {
    clients: Vec<Client>,
    last_id: u64,
}

impl Events {
    /// The ids of the registered subscribers, in registration order.
    pub closed spec fn spec_ids(&self) -> Seq<u64> {
        self.clients@.map_values(|c: Client| c.id)
    }

    /// The id the next subscriber will get; every id handed out so far is
    /// below it.
    pub closed spec fn spec_last_id(&self) -> u64 {
        self.last_id
    }

    /// A hub with no subscribers.
    pub fn new() -> (r: Self)
        ensures
            r.wf(),
            r.spec_ids() == Seq::<u64>::empty(),
            r.spec_last_id() == 0,
    {
        let r = Self { clients: Vec::new(), last_id: 0 };
        proof {
            assert(r.spec_ids() =~= Seq::<u64>::empty());
        }
        r
    }

    /// How many subscribers are registered.
    pub fn client_count(&self) -> (n: usize)
        ensures
            n == self.spec_ids().len(),
    {
        self.clients.len()
    }

    /// The id counter's current value.
    pub fn last_id(&self) -> (n: u64)
        ensures
            n == self.spec_last_id(),
    {
        self.last_id
    }

    /// Registers a new subscriber under the next id — one no subscriber has
    /// carried before, so ids are unique and strictly increasing — and hands
    /// back the receiving half of its own fresh queue. Every message
    /// published after this call is delivered to that queue, independently
    /// of every other subscriber, until the receiver is dropped.
    pub fn subscribe(&mut self) -> (rx: UnboundedReceiver<String>)
        requires
            old(self).wf(),
            old(self).spec_last_id() < u64::MAX,
        ensures
            final(self).wf(),
            final(self).spec_ids() == old(self).spec_ids().push(old(self).spec_last_id()),
            !old(self).spec_ids().contains(old(self).spec_last_id()),
            final(self).spec_last_id() == old(self).spec_last_id() + 1,
    {
        let pair = open_channel();
        let id = self.last_id;
        self.last_id = self.last_id + 1;
        self.clients.push(Client { id, tx: pair.0 });
        proof {
            assert(self.spec_ids() =~= old(self).spec_ids().push(id));
            assert forall|k: int|
                0 <= k < old(self).spec_ids().len() implies old(self).spec_ids()[k] != id by {
                assert(old(self).clients@[k].id < id);
            }
            assert forall|p: int, q: int|
                0 <= p < q < self.clients@.len() implies self.clients@[p].id
                != self.clients@[q].id by {
                if q < self.clients@.len() - 1 {
                    assert(old(self).clients@[p].id != old(self).clients@[q].id);
                } else {
                    assert(old(self).clients@[p].id < id);
                }
            }
        }
        pair.1
    }

    /// One delivery settled: on a successful send the subscriber stays; on
    /// a failed one — its receiving end is gone — it is removed, silently,
    /// and nothing else changes.
    fn apply_send_result(&mut self, i: usize, delivered: bool)
        requires
            i < old(self).clients@.len(),
        ensures
            final(self).clients@ == if delivered {
                old(self).clients@
            } else {
                old(self).clients@.remove(i as int)
            },
            final(self).spec_ids() == if delivered {
                old(self).spec_ids()
            } else {
                old(self).spec_ids().remove(i as int)
            },
            final(self).spec_last_id() == old(self).spec_last_id(),
    {
        if !delivered {
            self.clients.remove(i);
            proof {
                lemma_map_values_remove(old(self).clients@, |c: Client| c.id, i as int);
            }
        }
    }

    /// Delivers `msg` to every registered subscriber's queue, in registry
    /// order. Delivery is fire-and-forget: a subscriber whose receiving end
    /// is gone is silently removed, no error surfaces, and the id counter is
    /// untouched. The surviving registry is a subsequence of the old one:
    /// nothing is added, nothing is reordered.
    pub fn notify(&mut self, msg: String)
        requires
            old(self).wf(),
        ensures
            final(self).wf(),
            final(self).spec_last_id() == old(self).spec_last_id(),
            is_subsequence(final(self).spec_ids(), old(self).spec_ids()),
    {
        let ghost orig: Seq<u64> = self.spec_ids();
        let ghost last0: u64 = self.last_id;
        proof {
            lemma_subsequence_refl(orig);
        }
        let mut i: usize = 0;
        while i < self.clients.len()
            invariant
                i <= self.clients@.len(),
                self.last_id == last0,
                is_subsequence(self.clients@.map_values(|c: Client| c.id), orig),
                forall|k: int|
                    0 <= k < self.clients@.len() ==> (#[trigger] self.clients@[k]).id < last0,
                forall|p: int, q: int|
                    0 <= p < q < self.clients@.len() ==> self.clients@[p].id
                        != self.clients@[q].id,
            decreases self.clients@.len() - i,
        {
            let ok = send_message(&self.clients[i].tx, msg.clone());
            let ghost pre: Seq<Client> = self.clients@;
            self.apply_send_result(i, ok);
            if ok {
                i = i + 1;
            } else {
                proof {
                    lemma_subsequence_remove(pre.map_values(|c: Client| c.id), i as int);
                    lemma_subsequence_trans(
                        pre.map_values(|c: Client| c.id).remove(i as int),
                        pre.map_values(|c: Client| c.id),
                        orig,
                    );
                    assert forall|p: int, q: int|
                        0 <= p < q < self.clients@.len() implies self.clients@[p].id
                        != self.clients@[q].id by {
                        let op: int = if p < i {
                            p
                        } else {
                            p + 1
                        };
                        let oq: int = if q < i {
                            q
                        } else {
                            q + 1
                        };
                        assert(self.clients@[p] == pre[op]);
                        assert(self.clients@[q] == pre[oq]);
                    }
                    assert forall|k: int|
                        0 <= k < self.clients@.len() implies (#[trigger] self.clients@[k]).id
                        < last0 by {
                        let ok2: int = if k < i {
                            k
                        } else {
                            k + 1
                        };
                        assert(self.clients@[k] == pre[ok2]);
                    }
                }
            }
        }
    }
}

/// The notification-capability contract: something observers can subscribe
/// to and publishers can push through, with fire-and-forget delivery.
pub trait EventTrait: Sized {
    /// The hub's internal consistency: registered ids pairwise distinct,
    /// none of them one the hub could still hand out.
    spec fn wf(&self) -> bool;

    /// The registered subscriber ids, in registration order.
    spec fn subscriber_ids(&self) -> Seq<u64>;

    /// Whether one more subscriber can still be registered.
    spec fn can_subscribe(&self) -> bool;

    /// Registers a new subscriber under a previously unused id and hands
    /// back its message stream.
    fn subscribe(&mut self) -> (rx: UnboundedReceiver<String>)
        requires
            old(self).wf(),
            old(self).can_subscribe(),
        ensures
            final(self).wf(),
            (exists|id: u64|
                final(self).subscriber_ids() == old(self).subscriber_ids().push(id)
                    && !old(self).subscriber_ids().contains(id)),
    ;

    /// Publishes a message to every live subscriber; never fails from the
    /// caller's perspective, and only ever thins the registry.
    fn notify(&mut self, msg: String)
        requires
            old(self).wf(),
        ensures
            final(self).wf(),
            is_subsequence(final(self).subscriber_ids(), old(self).subscriber_ids()),
    ;
}

impl EventTrait for Events {
    closed spec fn wf(&self) -> bool {
        &&& forall|i: int|
            0 <= i < self.clients@.len() ==> (#[trigger] self.clients@[i]).id < self.last_id
        &&& forall|i: int, j: int|
            0 <= i < j < self.clients@.len() ==> self.clients@[i].id != self.clients@[j].id
    }

    open spec fn subscriber_ids(&self) -> Seq<u64> {
        self.spec_ids()
    }

    open spec fn can_subscribe(&self) -> bool {
        self.spec_last_id() < u64::MAX
    }

    fn subscribe(&mut self) -> (rx: UnboundedReceiver<String>) {
        let ghost fresh: u64 = self.spec_last_id();
        let rx = self.subscribe();
        proof {
            assert(self.subscriber_ids() == old(self).subscriber_ids().push(fresh) && !old(
                self,
            ).subscriber_ids().contains(fresh));
        }
        rx
    }

    fn notify(&mut self, msg: String) {
        self.notify(msg)
    }
}

} // verus!

//! The topic router: which hubs exist, and who is attached to each.
//!
//! A hub is the state of one topic: the subscribers attached to it, in the
//! order in which they attached, and the number of publishers attached to
//! it. A hub exists exactly while a subscriber or a publisher is attached.
//! The router decides; sending is the caller's work. For each message the
//! caller takes the list of subscribers as it stands at that moment, sends
//! to each outside any lock, and reports each send's outcome.

use vstd::prelude::*;
use crate::error::ErrorKind;
use crate::frame::Frame;
use crate::topic::same_topic;

verus! {

/// One topic's state as a mathematical value.
pub struct HubView {
    /// The keys of the attached subscribers, in the order of attachment.
    pub subscribers: Seq<u64>,
    /// The number of attached publishers.
    pub publishers: nat,
}

/// The hubs that exist, by topic path.
pub type Registry = Map<Seq<char>, HubView>;

/// A hub to which nobody is attached: the state of a topic that has no hub.
pub open spec fn vacant() -> HubView {
    HubView { subscribers: Seq::<u64>::empty(), publishers: 0 }
}

/// Whether anybody is attached.
pub open spec fn occupied(hub: HubView) -> bool {
    hub.subscribers.len() > 0 || hub.publishers > 0
}

/// The state of a topic: its hub if it has one, else the vacant hub.
pub open spec fn hub_at(reg: Registry, topic: Seq<char>) -> HubView {
    if reg.contains_key(topic) {
        reg[topic]
    } else {
        vacant()
    }
}

/// The registry with the topic's state replaced; a hub that has become
/// vacant is removed.
pub open spec fn store(reg: Registry, topic: Seq<char>, hub: HubView) -> Registry {
    if occupied(hub) {
        reg.insert(topic, hub)
    } else {
        reg.remove(topic)
    }
}

/// What holds of every registry that the router reaches: each hub has
/// somebody attached, and no subscriber is attached to a hub twice.
pub open spec fn registry_inv(reg: Registry) -> bool {
    forall|topic: Seq<char>| #[trigger]
        reg.contains_key(topic) ==> occupied(reg[topic]) && reg[topic].subscribers.no_duplicates()
}

/// The subscribers of a topic, in the order of attachment.
pub open spec fn subscribers_of(reg: Registry, topic: Seq<char>) -> Seq<u64> {
    hub_at(reg, topic).subscribers
}

/// The number of publishers of a topic.
pub open spec fn publishers_of(reg: Registry, topic: Seq<char>) -> nat {
    hub_at(reg, topic).publishers
}

/// The registry after a publisher has attached to a topic: the topic's hub,
/// created if need be, counts one publisher more.
pub open spec fn attach_publisher_spec(reg: Registry, topic: Seq<char>) -> Registry {
    let hub = hub_at(reg, topic);
    store(reg, topic, HubView { publishers: hub.publishers + 1, ..hub })
}

/// The registry after a publisher has left a topic: the hub counts one
/// publisher fewer, and is removed if nobody is left. A topic without
/// publishers is left as it is.
pub open spec fn detach_publisher_spec(reg: Registry, topic: Seq<char>) -> Registry {
    let hub = hub_at(reg, topic);
    if hub.publishers == 0 {
        reg
    } else {
        store(reg, topic, HubView { publishers: (hub.publishers - 1) as nat, ..hub })
    }
}

/// The registry after a subscriber has attached to a topic: it is the last
/// of the hub's subscribers, unless it was attached already.
pub open spec fn attach_subscriber_spec(reg: Registry, topic: Seq<char>, id: u64) -> Registry {
    let hub = hub_at(reg, topic);
    if hub.subscribers.contains(id) {
        reg
    } else {
        store(reg, topic, HubView { subscribers: hub.subscribers.push(id), ..hub })
    }
}

/// The test that every key but `id` passes.
pub open spec fn is_other(id: u64) -> spec_fn(u64) -> bool {
    |s: u64| s != id
}

/// The subscribers other than `id`, in their order.
pub open spec fn others(subscribers: Seq<u64>, id: u64) -> Seq<u64> {
    subscribers.filter(is_other(id))
}

/// The registry after a subscriber has left a topic: the others stay in
/// their order, and the hub is removed if nobody is left. A subscriber that
/// was not attached changes nothing.
pub open spec fn detach_subscriber_spec(reg: Registry, topic: Seq<char>, id: u64) -> Registry {
    let hub = hub_at(reg, topic);
    if hub.subscribers.contains(id) {
        store(reg, topic, HubView { subscribers: others(hub.subscribers, id), ..hub })
    } else {
        reg
    }
}

/// What `others` keeps and what it drops: the given subscriber is gone,
/// every other stays, nobody appears twice who did not before, and a list
/// that did not hold the subscriber is unchanged.
pub proof fn lemma_others(subscribers: Seq<u64>, id: u64)
    ensures
        !others(subscribers, id).contains(id),
        forall|s: u64| s != id ==> others(subscribers, id).contains(s) == subscribers.contains(s),
        subscribers.no_duplicates() ==> others(subscribers, id).no_duplicates(),
        !subscribers.contains(id) ==> others(subscribers, id) == subscribers,
        others(subscribers, id).len() <= subscribers.len(),
    decreases subscribers.len(),
{
    let keep = is_other(id);
    if subscribers.len() == 0 {
        subscribers.lemma_filter_len(keep);
    } else {
        let front = subscribers.drop_last();
        let last = subscribers.last();
        assert(subscribers =~= front.push(last));
        front.lemma_filter_push(last, keep);
        lemma_others(front, id);
        assert forall|s: u64| front.contains(s) implies subscribers.contains(s) by {
            let k = choose|k: int| 0 <= k < front.len() && front[k] == s;
        }
        if subscribers.no_duplicates() && front.contains(last) {
            let k = choose|k: int| 0 <= k < front.len() && front[k] == last;
        }
    }
}

/// Whether `list` holds `id`.
fn holds(list: &Vec<u64>, id: u64) -> (found: bool)
    ensures
        found == list@.contains(id),
{
    let mut i: usize = 0;
    while i < list.len()
        invariant
            i <= list@.len(),
            forall|j: int| 0 <= j < i ==> list@[j] != id,
        decreases list@.len() - i,
    {
        if list[i] == id {
            return true;
        }
        i += 1;
    }
    false
}

/// The members of `list` other than `id`, in their order.
fn without(list: &Vec<u64>, id: u64) -> (out: Vec<u64>)
    ensures
        out@ == others(list@, id),
{
    let ghost keep = is_other(id);
    let mut out: Vec<u64> = Vec::new();
    let mut i: usize = 0;
    proof {
        list@.take(0).lemma_filter_len(keep);
    }
    while i < list.len()
        invariant
            i <= list@.len(),
            keep == is_other(id),
            out@ == list@.take(i as int).filter(keep),
        decreases list@.len() - i,
    {
        proof {
            assert(list@.take(i + 1) =~= list@.take(i as int).push(list@[i as int]));
            list@.take(i as int).lemma_filter_push(list@[i as int], keep);
        }
        if list[i] != id {
            out.push(list[i]);
        }
        i += 1;
    }
    assert(list@.take(list@.len() as int) =~= list@);
    out
}

/// A copy of `list`.
fn copy_ids(list: &Vec<u64>) -> (out: Vec<u64>)
    ensures
        out@ == list@,
{
    let mut out: Vec<u64> = Vec::new();
    let mut i: usize = 0;
    while i < list.len()
        invariant
            i <= list@.len(),
            out@ == list@.take(i as int),
        decreases list@.len() - i,
    {
        out.push(list[i]);
        i += 1;
    }
    out
}

/// How an attempt to send one frame to one subscriber ended.
#[derive(Clone, Copy, Debug, PartialEq, Eq, Structural)]
pub enum SendOutcome {
    /// The subscriber took the frame.
    Delivered,
    /// The send failed.
    Failed,
    /// The send did not complete within the send timeout.
    TimedOut,
}

/// The send timeout that applies unless the router is configured otherwise:
/// five seconds, in milliseconds.
pub const DEFAULT_SEND_TIMEOUT_MS: u64 = 5000;

/// The reason with which a slow subscriber's stream is closed.
pub open spec fn slow_subscriber_reason() -> Seq<u8> {
    vstd::utf8::encode_utf8(ErrorKind::SlowSubscriber.text())
}

/// One topic's state.
struct Hub {
    topic: String,
    subscribers: Vec<u64>,
    publishers: u64,
}

impl Hub {
    spec fn model(&self) -> HubView {
        HubView { subscribers: self.subscribers@, publishers: self.publishers as nat }
    }
}

/// The registry of hubs. Its view is the map from topic path to hub.
pub struct Router {
    hubs: Vec<Hub>,
    registry: Ghost<Registry>,
}

impl View for Router {
    type V = Registry;

    closed spec fn view(&self) -> Registry {
        self.registry@
    }
}

impl Router {
    /// The router's own consistency: its hubs are those of its view, one
    /// per topic, and the view is a registry that `registry_inv` accepts.
    pub closed spec fn wf(&self) -> bool {
        &&& forall|i: int, j: int|
            0 <= i < j < self.hubs@.len() ==> (#[trigger] self.hubs@[i]).topic@
                != (#[trigger] self.hubs@[j]).topic@
        &&& forall|i: int|
            0 <= i < self.hubs@.len() ==> self.registry@.contains_key(
                (#[trigger] self.hubs@[i]).topic@,
            ) && self.registry@[self.hubs@[i].topic@] == self.hubs@[i].model()
        &&& forall|topic: Seq<char>| #[trigger]
            self.registry@.contains_key(topic) ==> exists|i: int|
                0 <= i < self.hubs@.len() && (#[trigger] self.hubs@[i]).topic@ == topic
        &&& registry_inv(self.registry@)
    }

    /// A consistent router holds a registry in which every hub has somebody
    /// attached and no subscriber twice.
    pub proof fn lemma_wf_inv(&self)
        requires
            self.wf(),
        ensures
            registry_inv(self@),
    {
    }

    /// A router without hubs.
    pub fn new() -> (router: Router)
        ensures
            router.wf(),
            router@ == Map::<Seq<char>, HubView>::empty(),
    {
        Router { hubs: Vec::new(), registry: Ghost(Map::empty()) }
    }

    /// Where the hub of a topic stands, if it has one.
    fn find(&self, topic: &str) -> (r: Option<usize>)
        requires
            self.wf(),
        ensures
            match r {
                Some(i) => i < self.hubs@.len() && self.hubs@[i as int].topic@ == topic@
                    && self@.contains_key(topic@),
                None => !self@.contains_key(topic@),
            },
    {
        let mut i: usize = 0;
        while i < self.hubs.len()
            invariant
                self.wf(),
                i <= self.hubs@.len(),
                forall|j: int| 0 <= j < i ==> (#[trigger] self.hubs@[j]).topic@ != topic@,
            decreases self.hubs@.len() - i,
        {
            if same_topic(self.hubs[i].topic.as_str(), topic) {
                return Some(i);
            }
            i += 1;
        }
        None
    }

    /// Takes the hub at `i` out of the router.
    fn take(&mut self, i: usize) -> (hub: Hub)
        requires
            old(self).wf(),
            i < old(self).hubs@.len(),
        ensures
            final(self).wf(),
            hub.topic@ == old(self).hubs@[i as int].topic@,
            old(self)@.contains_key(hub.topic@),
            hub.model() == old(self)@[hub.topic@],
            final(self)@ == old(self)@.remove(hub.topic@),
    {
        let hub = self.hubs.swap_remove(i);
        self.registry = Ghost(self.registry@.remove(hub.topic@));
        proof {
            let before = old(self).hubs@;
            let after = self.hubs@;
            let last = before.len() - 1;
            assert forall|topic: Seq<char>| #[trigger]
                self.registry@.contains_key(topic) implies exists|k: int|
                0 <= k < after.len() && (#[trigger] after[k]).topic@ == topic by {
                let j = choose|j: int| 0 <= j < before.len() && (#[trigger] before[j]).topic@ == topic;
                if j == last {
                    assert(after[i as int].topic@ == topic);
                } else {
                    assert(after[j].topic@ == topic);
                }
            }
        }
        hub
    }

    /// Puts a hub into a router that has none for its topic.
    fn put(&mut self, hub: Hub)
        requires
            old(self).wf(),
            !old(self)@.contains_key(hub.topic@),
            occupied(hub.model()),
            hub.subscribers@.no_duplicates(),
        ensures
            final(self).wf(),
            final(self)@ == old(self)@.insert(hub.topic@, hub.model()),
    {
        let ghost topic = hub.topic@;
        let ghost model = hub.model();
        self.registry = Ghost(self.registry@.insert(topic, model));
        self.hubs.push(hub);
        proof {
            let before = old(self).hubs@;
            let after = self.hubs@;
            assert forall|t: Seq<char>| #[trigger]
                self.registry@.contains_key(t) implies exists|k: int|
                0 <= k < after.len() && (#[trigger] after[k]).topic@ == t by {
                if t == topic {
                    assert(after[before.len() as int].topic@ == t);
                } else {
                    let j = choose|j: int| 0 <= j < before.len() && (#[trigger] before[j]).topic@ == t;
                    assert(after[j].topic@ == t);
                }
            }
        }
    }

    /// Attaches a publisher to a topic, creating the hub if need be.
    pub fn attach_publisher(&mut self, topic: &str)
        requires
            old(self).wf(),
            publishers_of(old(self)@, topic@) < u64::MAX,
        ensures
            final(self).wf(),
            final(self)@ == attach_publisher_spec(old(self)@, topic@),
    {
        let mut hub = match self.find(topic) {
            Some(i) => self.take(i),
            None => Hub { topic: topic.to_owned(), subscribers: Vec::new(), publishers: 0 },
        };
        hub.publishers = hub.publishers + 1;
        self.put(hub);
    }

    /// Detaches a publisher from a topic, removing the hub if nobody is
    /// left. A topic without publishers is left as it is.
    pub fn detach_publisher(&mut self, topic: &str)
        requires
            old(self).wf(),
        ensures
            final(self).wf(),
            final(self)@ == detach_publisher_spec(old(self)@, topic@),
    {
        match self.find(topic) {
            Some(i) => {
                let mut hub = self.take(i);
                if hub.publishers > 0 {
                    hub.publishers = hub.publishers - 1;
                }
                if hub.publishers > 0 || hub.subscribers.len() > 0 {
                    self.put(hub);
                }
            },
            None => {},
        }
    }

    /// Attaches a subscriber to a topic under a key, creating the hub if
    /// need be. The subscriber receives what is routed from now on. The key
    /// tells the subscriber's stream from every other stream that
    /// subscribes to the topic; a key that is attached to the topic already
    /// stays where it is.
    pub fn attach_subscriber(&mut self, topic: &str, id: u64)
        requires
            old(self).wf(),
        ensures
            final(self).wf(),
            final(self)@ == attach_subscriber_spec(old(self)@, topic@, id),
    {
        let mut hub = match self.find(topic) {
            Some(i) => self.take(i),
            None => Hub { topic: topic.to_owned(), subscribers: Vec::new(), publishers: 0 },
        };
        if !holds(&hub.subscribers, id) {
            hub.subscribers.push(id);
        }
        self.put(hub);
    }

    /// Detaches a subscriber from a topic, removing the hub if nobody is
    /// left, and says whether the subscriber was attached.
    pub fn detach_subscriber(&mut self, topic: &str, id: u64) -> (was_attached: bool)
        requires
            old(self).wf(),
        ensures
            final(self).wf(),
            final(self)@ == detach_subscriber_spec(old(self)@, topic@, id),
            was_attached == subscribers_of(old(self)@, topic@).contains(id),
    {
        let was_attached = match self.find(topic) {
            Some(i) => {
                let mut hub = self.take(i);
                let found = holds(&hub.subscribers, id);
                proof {
                    lemma_others(hub.subscribers@, id);
                }
                hub.subscribers = without(&hub.subscribers, id);
                if hub.publishers > 0 || hub.subscribers.len() > 0 {
                    self.put(hub);
                }
                found
            },
            None => false,
        };
        was_attached
    }

    /// The subscribers of a topic as they stand now, in the order of
    /// attachment: those to which a message routed now is to be sent.
    pub fn subscribers(&self, topic: &str) -> (list: Vec<u64>)
        requires
            self.wf(),
        ensures
            list@ == subscribers_of(self@, topic@),
            list@.no_duplicates(),
    {
        match self.find(topic) {
            Some(i) => copy_ids(&self.hubs[i].subscribers),
            None => Vec::new(),
        }
    }

    /// Whether a subscriber is attached to a topic under this key.
    pub fn is_subscribed(&self, topic: &str, id: u64) -> (attached: bool)
        requires
            self.wf(),
        ensures
            attached == subscribers_of(self@, topic@).contains(id),
    {
        match self.find(topic) {
            Some(i) => holds(&self.hubs[i].subscribers, id),
            None => false,
        }
    }

    /// The number of subscribers of a topic.
    pub fn subscriber_count(&self, topic: &str) -> (n: usize)
        requires
            self.wf(),
        ensures
            n == subscribers_of(self@, topic@).len(),
    {
        match self.find(topic) {
            Some(i) => self.hubs[i].subscribers.len(),
            None => 0,
        }
    }

    /// The number of publishers of a topic.
    pub fn publisher_count(&self, topic: &str) -> (n: u64)
        requires
            self.wf(),
        ensures
            n == publishers_of(self@, topic@),
    {
        match self.find(topic) {
            Some(i) => self.hubs[i].publishers,
            None => 0,
        }
    }

    /// Whether a topic has a hub: whether anybody is attached to it.
    pub fn has_hub(&self, topic: &str) -> (exists: bool)
        requires
            self.wf(),
        ensures
            exists == self@.contains_key(topic@),
            exists == (subscribers_of(self@, topic@).len() > 0 || publishers_of(self@, topic@)
                > 0),
    {
        self.find(topic).is_some()
    }

    /// Whether no topic has a hub.
    pub fn is_idle(&self) -> (idle: bool)
        requires
            self.wf(),
        ensures
            idle == (self@ == Map::<Seq<char>, HubView>::empty()),
    {
        let idle = self.hubs.len() == 0;
        proof {
            if idle {
                assert(self@ =~= Map::<Seq<char>, HubView>::empty());
            } else {
                assert(self@.contains_key(self.hubs@[0].topic@));
            }
        }
        idle
    }

    /// Takes note of how a send to a subscriber ended. A subscriber that
    /// took the frame stays attached. One whose send failed or timed out is
    /// slow: it is detached, and if it was attached the frame with which
    /// its stream is to be closed is returned.
    pub fn settle(&mut self, topic: &str, id: u64, outcome: SendOutcome) -> (close_with: Option<
        Frame,
    >)
        requires
            old(self).wf(),
        ensures
            final(self).wf(),
            outcome == SendOutcome::Delivered ==> final(self)@ == old(self)@ && close_with is None,
            outcome != SendOutcome::Delivered ==> final(self)@ == detach_subscriber_spec(
                old(self)@,
                topic@,
                id,
            ) && (close_with is Some <==> subscribers_of(old(self)@, topic@).contains(id)),
            close_with is Some ==> close_with->Some_0@ == (crate::frame::FrameView::Error {
                reason: slow_subscriber_reason(),
            }),
    {
        match outcome {
            SendOutcome::Delivered => None,
            _ => {
                if self.detach_subscriber(topic, id) {
                    Some(Frame::error(ErrorKind::SlowSubscriber.describe()))
                } else {
                    None
                }
            },
        }
    }
}

} // verus!

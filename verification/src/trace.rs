//! What a run of the router delivers.
//!
//! The router serialises what happens to its registry. A run is the sequence
//! of those events, and this module says, for a subscriber, which messages
//! a run hands to it and in which order. The statements are over the same
//! functions by which the router's operations are specified.

use vstd::prelude::*;
use crate::router::{
    attach_publisher_spec, attach_subscriber_spec, detach_publisher_spec, detach_subscriber_spec,
    hub_at, lemma_others, others, publishers_of, registry_inv, subscribers_of, Registry,
};

verus! {

/// One thing that happens to the registry, or passes through it.
pub enum Event {
    /// A publisher attaches to a topic.
    AttachPublisher { topic: Seq<char> },
    /// A publisher leaves a topic: its stream ended or failed.
    DetachPublisher { topic: Seq<char> },
    /// A subscriber attaches to a topic under a key.
    AttachSubscriber { topic: Seq<char>, id: u64 },
    /// A subscriber leaves a topic: it closed, a send to it failed, or it
    /// was found slow.
    DetachSubscriber { topic: Seq<char>, id: u64 },
    /// A message of a publisher is routed on a topic.
    Route { topic: Seq<char>, publisher: u64, body: Seq<u8> },
}

/// A message as a subscriber gets it: whose it is, and its bytes.
pub struct Delivery {
    pub publisher: u64,
    pub body: Seq<u8>,
}

/// The registry after one event. Routing a message changes nothing.
pub open spec fn step(reg: Registry, event: Event) -> Registry {
    match event {
        Event::AttachPublisher { topic } => attach_publisher_spec(reg, topic),
        Event::DetachPublisher { topic } => detach_publisher_spec(reg, topic),
        Event::AttachSubscriber { topic, id } => attach_subscriber_spec(reg, topic, id),
        Event::DetachSubscriber { topic, id } => detach_subscriber_spec(reg, topic, id),
        Event::Route { .. } => reg,
    }
}

/// The registry after a run that starts from `reg`.
pub open spec fn run(reg: Registry, events: Seq<Event>) -> Registry
    decreases events.len(),
{
    if events.len() == 0 {
        reg
    } else {
        step(run(reg, events.drop_last()), events.last())
    }
}

/// What a run that starts from `reg` hands to the subscriber `id` of
/// `topic`, in order: each message routed on the topic at a moment at which
/// the subscriber is attached to it.
pub open spec fn delivered(reg: Registry, events: Seq<Event>, topic: Seq<char>, id: u64) -> Seq<
    Delivery,
>
    decreases events.len(),
{
    if events.len() == 0 {
        Seq::<Delivery>::empty()
    } else {
        let before = delivered(reg, events.drop_last(), topic, id);
        match events.last() {
            Event::Route { topic: on, publisher, body } => if on == topic && subscribers_of(
                run(reg, events.drop_last()),
                topic,
            ).contains(id) {
                before.push(Delivery { publisher, body })
            } else {
                before
            },
            _ => before,
        }
    }
}

/// The messages that a run routes on a topic, in order.
pub open spec fn routed(events: Seq<Event>, topic: Seq<char>) -> Seq<Delivery>
    decreases events.len(),
{
    if events.len() == 0 {
        Seq::<Delivery>::empty()
    } else {
        let before = routed(events.drop_last(), topic);
        match events.last() {
            Event::Route { topic: on, publisher, body } => if on == topic {
                before.push(Delivery { publisher, body })
            } else {
                before
            },
            _ => before,
        }
    }
}

/// The test that the messages of one publisher pass.
pub open spec fn from_publisher(publisher: u64) -> spec_fn(Delivery) -> bool {
    |d: Delivery| d.publisher == publisher
}

/// Whether the subscriber `id` of `topic` is never detached during a run.
pub open spec fn never_detached(events: Seq<Event>, topic: Seq<char>, id: u64) -> bool {
    forall|i: int|
        0 <= i < events.len() ==> #[trigger] events[i] != (Event::DetachSubscriber { topic, id })
}

/// Whether the subscriber `id` of `topic` is never attached during a run.
pub open spec fn never_attached(events: Seq<Event>, topic: Seq<char>, id: u64) -> bool {
    forall|i: int|
        0 <= i < events.len() ==> #[trigger] events[i] != (Event::AttachSubscriber { topic, id })
}

/// Whether a run routes no message of `publisher` on `topic`.
pub open spec fn silent(events: Seq<Event>, topic: Seq<char>, publisher: u64) -> bool {
    forall|i: int|
        0 <= i < events.len() ==> match #[trigger] events[i] {
            Event::Route { topic: on, publisher: by, .. } => !(on == topic && by == publisher),
            _ => true,
        }
}

/// A hub exists exactly while somebody is attached: in a registry that
/// `registry_inv` accepts, a topic has a hub if and only if it has a
/// subscriber or a publisher.
pub proof fn lemma_hub_exists_iff_attached(reg: Registry, topic: Seq<char>)
    requires
        registry_inv(reg),
    ensures
        reg.contains_key(topic) <==> (subscribers_of(reg, topic).len() > 0 || publishers_of(
            reg,
            topic,
        ) > 0),
{
}

/// No event leads out of the registries that `registry_inv` accepts.
pub proof fn lemma_step_inv(reg: Registry, event: Event)
    requires
        registry_inv(reg),
    ensures
        registry_inv(step(reg, event)),
{
    match event {
        Event::DetachSubscriber { topic, id } => {
            lemma_others(hub_at(reg, topic).subscribers, id);
        },
        _ => {},
    }
}

/// Every registry that a run reaches from the empty registry, or from any
/// that `registry_inv` accepts, is accepted by `registry_inv`: at every
/// moment a hub exists exactly while somebody is attached to it.
pub proof fn lemma_run_inv(reg: Registry, events: Seq<Event>)
    requires
        registry_inv(reg),
    ensures
        registry_inv(run(reg, events)),
    decreases events.len(),
{
    if events.len() > 0 {
        lemma_run_inv(reg, events.drop_last());
        lemma_step_inv(run(reg, events.drop_last()), events.last());
    }
}

/// An event other than the subscriber's own detachment leaves an attached
/// subscriber attached.
pub proof fn lemma_step_keeps_subscriber(reg: Registry, event: Event, topic: Seq<char>, id: u64)
    requires
        subscribers_of(reg, topic).contains(id),
        event != (Event::DetachSubscriber { topic, id }),
    ensures
        subscribers_of(step(reg, event), topic).contains(id),
{
    let subs = subscribers_of(reg, topic);
    let k = choose|k: int| 0 <= k < subs.len() && subs[k] == id;
    match event {
        Event::AttachSubscriber { topic: on, id: other } => {
            if on == topic && !subs.contains(other) {
                assert(subs.push(other)[k] == id);
            }
        },
        Event::DetachSubscriber { topic: on, id: other } => {
            if on == topic {
                lemma_others(subs, other);
            }
        },
        _ => {},
    }
}

/// An event other than the subscriber's own attachment leaves a subscriber
/// that is not attached unattached.
pub proof fn lemma_step_keeps_stranger(reg: Registry, event: Event, topic: Seq<char>, id: u64)
    requires
        !subscribers_of(reg, topic).contains(id),
        event != (Event::AttachSubscriber { topic, id }),
    ensures
        !subscribers_of(step(reg, event), topic).contains(id),
{
    let subs = subscribers_of(reg, topic);
    let after = subscribers_of(step(reg, event), topic);
    match event {
        Event::AttachSubscriber { topic: on, id: other } => {
            if on == topic && !subs.contains(other) && after.contains(id) {
                let k = choose|k: int| 0 <= k < after.len() && after[k] == id;
            }
        },
        Event::DetachSubscriber { topic: on, id: other } => {
            if on == topic {
                lemma_others(subs, other);
            }
        },
        _ => {},
    }
}

/// A run in two parts: the registry after the whole is the registry after
/// the second part, started where the first ended; and what the whole hands
/// to a subscriber is what the first part hands to it, followed by what the
/// second does. So nothing that happens later takes back or reorders what
/// was delivered.
pub proof fn lemma_run_concat(
    reg: Registry,
    first: Seq<Event>,
    second: Seq<Event>,
    topic: Seq<char>,
    id: u64,
)
    ensures
        run(reg, first + second) == run(run(reg, first), second),
        delivered(reg, first + second, topic, id) == delivered(reg, first, topic, id) + delivered(
            run(reg, first),
            second,
            topic,
            id,
        ),
        routed(first + second, topic) == routed(first, topic) + routed(second, topic),
    decreases second.len(),
{
    if second.len() > 0 {
        assert((first + second).drop_last() =~= first + second.drop_last());
        lemma_run_concat(reg, first, second.drop_last(), topic, id);
    }
}

/// Delivery to a subscriber that stays: a subscriber that is attached to a
/// topic when a run starts, and is not detached during it, is still attached
/// when it ends, and is handed every message that the run routes on the
/// topic, each once, in the order in which they are routed.
pub proof fn lemma_attached_gets_all_in_order(
    reg: Registry,
    events: Seq<Event>,
    topic: Seq<char>,
    id: u64,
)
    requires
        subscribers_of(reg, topic).contains(id),
        never_detached(events, topic, id),
    ensures
        subscribers_of(run(reg, events), topic).contains(id),
        delivered(reg, events, topic, id) == routed(events, topic),
    decreases events.len(),
{
    if events.len() > 0 {
        let front = events.drop_last();
        lemma_attached_gets_all_in_order(reg, front, topic, id);
        lemma_step_keeps_subscriber(run(reg, front), events.last(), topic, id);
    }
}

/// Order per publisher: for a subscriber that stays attached during a run,
/// the messages of any one publisher that it is handed are the messages of
/// that publisher that the run routes on the topic, in the same order.
pub proof fn lemma_publisher_order(
    reg: Registry,
    events: Seq<Event>,
    topic: Seq<char>,
    id: u64,
    publisher: u64,
)
    requires
        subscribers_of(reg, topic).contains(id),
        never_detached(events, topic, id),
    ensures
        delivered(reg, events, topic, id).filter(from_publisher(publisher)) == routed(
            events,
            topic,
        ).filter(from_publisher(publisher)),
{
    lemma_attached_gets_all_in_order(reg, events, topic, id);
}

/// A subscriber that is not attached gets nothing: while a subscriber is
/// not attached to a topic, and does not attach, a run hands it none of the
/// messages routed on the topic, however many there are.
pub proof fn lemma_unattached_gets_nothing(
    reg: Registry,
    events: Seq<Event>,
    topic: Seq<char>,
    id: u64,
)
    requires
        !subscribers_of(reg, topic).contains(id),
        never_attached(events, topic, id),
    ensures
        !subscribers_of(run(reg, events), topic).contains(id),
        delivered(reg, events, topic, id) == Seq::<Delivery>::empty(),
    decreases events.len(),
{
    if events.len() > 0 {
        let front = events.drop_last();
        lemma_unattached_gets_nothing(reg, front, topic, id);
        lemma_step_keeps_stranger(run(reg, front), events.last(), topic, id);
    }
}

/// A late subscriber sees only what follows: a subscriber that attaches to
/// a topic after a run, during which it was not attached, and then stays
/// for a second run, is handed exactly the messages routed on the topic
/// during the second run, and none of the first.
pub proof fn lemma_late_subscriber(
    reg: Registry,
    earlier: Seq<Event>,
    later: Seq<Event>,
    topic: Seq<char>,
    id: u64,
)
    requires
        !subscribers_of(reg, topic).contains(id),
        never_attached(earlier, topic, id),
        never_detached(later, topic, id),
    ensures
        delivered(
            reg,
            earlier.push(Event::AttachSubscriber { topic, id }) + later,
            topic,
            id,
        ) == routed(later, topic),
{
    let attach = Event::AttachSubscriber { topic, id };
    let arrived = earlier.push(attach);
    lemma_unattached_gets_nothing(reg, earlier, topic, id);
    assert(arrived.drop_last() =~= earlier);
    let at_arrival = run(reg, arrived);
    let subs = subscribers_of(run(reg, earlier), topic);
    assert(subs.push(id)[subs.len() as int] == id);
    lemma_run_concat(reg, arrived, later, topic, id);
    lemma_attached_gets_all_in_order(at_arrival, later, topic, id);
}

/// A run that routes nothing of a publisher on a topic routes, of that
/// publisher, nothing.
pub proof fn lemma_silent(events: Seq<Event>, topic: Seq<char>, publisher: u64)
    requires
        silent(events, topic, publisher),
    ensures
        routed(events, topic).filter(from_publisher(publisher)) == Seq::<Delivery>::empty(),
    decreases events.len(),
{
    let own = from_publisher(publisher);
    if events.len() == 0 {
        routed(events, topic).lemma_filter_len(own);
    } else {
        let front = events.drop_last();
        lemma_silent(front, topic, publisher);
        match events.last() {
            Event::Route { topic: on, publisher: by, body } => {
                if on == topic {
                    routed(front, topic).lemma_filter_push(Delivery { publisher: by, body }, own);
                }
            },
            _ => {},
        }
    }
}

/// A publisher that finishes: when a publisher leaves a topic, a subscriber
/// that stays attached has been, or is still, handed every message of that
/// publisher that was routed before, in order; and as long as nothing more
/// of that publisher is routed, it is handed no further message of it,
/// whatever else happens.
pub proof fn lemma_publisher_finished(
    reg: Registry,
    before: Seq<Event>,
    after: Seq<Event>,
    topic: Seq<char>,
    id: u64,
    publisher: u64,
)
    requires
        subscribers_of(reg, topic).contains(id),
        never_detached(before, topic, id),
        never_detached(after, topic, id),
        silent(after, topic, publisher),
    ensures
        delivered(
            reg,
            before.push(Event::DetachPublisher { topic }) + after,
            topic,
            id,
        ).filter(from_publisher(publisher)) == routed(before, topic).filter(
            from_publisher(publisher),
        ),
{
    let own = from_publisher(publisher);
    let leave = Event::DetachPublisher { topic };
    let first = before.push(leave);
    let whole = first + after;
    lemma_attached_gets_all_in_order(reg, whole, topic, id);
    lemma_run_concat(reg, first, after, topic, id);
    assert(first.drop_last() =~= before);
    lemma_silent(after, topic, publisher);
    Seq::filter_distributes_over_add(routed(first, topic), routed(after, topic), own);
}

} // verus!

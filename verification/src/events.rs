use vstd::prelude::*;

verus! {

/// An intent raised by a leaf widget: a tagged button press, or the
/// selection of a row by index.
#[derive(Clone, Copy, Debug, PartialEq, Eq, Structural)]
pub enum Action {
    Button(u32),
    Selected(usize),
}

/// A single UI event; wraps exactly one `Action`.
#[derive(Clone, Copy, Debug, PartialEq, Eq, Structural)]
pub struct Event {
    pub action: Action,
}

impl Event {
    pub fn new(action: Action) -> (e: Event)
        ensures
            e == (Event { action }),
    {
        Event { action }
    }
}

/// Capability of anything that wants to hear the events a `Notifier`
/// broadcasts.
pub trait EventListener {
    fn on_event(&mut self, event: Event);
}

/// Capability of a handler that an `EventQueue` tells about each event it
/// stores.
pub trait EventDelegate {
    fn handle_event(&mut self, event: Event);
}

/// One pending hand-off: `event` is owed to the subscriber identified by
/// the non-owning handle `target`.
#[derive(Clone, Copy, Debug, PartialEq, Eq, Structural)]
pub struct Delivery {
    pub target: u32,
    pub event: Event,
}

/// The deliveries that address one event to each handle in `ls`, in order.
pub open spec fn deliveries_for(ls: Seq<u32>, event: Event) -> Seq<Delivery>
    decreases ls.len(),
{
    if ls.len() == 0 {
        Seq::empty()
    } else {
        deliveries_for(ls.drop_last(), event).push(Delivery { target: ls.last(), event })
    }
}

/// Transient fan-out dispatcher. Listeners are kept as non-owning
/// subscription handles, so registering creates no ownership cycle between
/// a widget and the stack that owns it.
pub struct Notifier {
    pub listeners: Vec<u32>,
}

impl Notifier {
    pub fn new() -> (n: Notifier)
        ensures
            n.listeners@ == Seq::<u32>::empty(),
    {
        Notifier { listeners: Vec::new() }
    }

    /// Appends a subscription handle; later broadcasts address it too.
    pub fn register(&mut self, listener: u32)
        ensures
            final(self).listeners@ == old(self).listeners@.push(listener),
    {
        self.listeners.push(listener);
    }

    /// Pairs `event` with every registered listener, once each, in
    /// registration order. The broadcast addresses a snapshot of the
    /// listener list, so a re-entrant broadcast cannot disturb an
    /// in-flight one.
    pub fn notify(&self, event: Event) -> (ds: Vec<Delivery>)
        ensures
            ds@ == deliveries_for(self.listeners@, event),
    {
        let mut ds: Vec<Delivery> = Vec::new();
        let mut i: usize = 0;
        while i < self.listeners.len()
            invariant
                i <= self.listeners.len(),
                ds@ == deliveries_for(self.listeners@.take(i as int), event),
            decreases self.listeners.len() - i,
        {
            ds.push(Delivery { target: self.listeners[i], event });
            i = i + 1;
            proof {
                assert(self.listeners@.take(i as int).drop_last() =~= self.listeners@.take(
                    i as int - 1,
                ));
            }
        }
        proof {
            assert(self.listeners@.take(self.listeners@.len() as int) =~= self.listeners@);
        }
        ds
    }
}

/// What one `store` call owes the queue's delegate and handlers: the
/// delegate (if set) hears the event first, then every handler, in the
/// order they were added.
pub open spec fn store_dispatch(delegate: Option<u32>, handlers: Seq<u32>, event: Event) -> Seq<
    Delivery,
> {
    (match delegate {
        Option::Some(d) => seq![Delivery { target: d, event }],
        Option::None => Seq::empty(),
    }) + deliveries_for(handlers, event)
}

/// The events among `ds` that address the subscriber `id`, in batch order.
pub open spec fn events_for(ds: Seq<Delivery>, id: u32) -> Seq<Event>
    decreases ds.len(),
{
    if ds.len() == 0 {
        Seq::empty()
    } else {
        let rest = events_for(ds.drop_last(), id);
        if ds.last().target == id {
            rest.push(ds.last().event)
        } else {
            rest
        }
    }
}

/// Ordered accumulator of events, oldest first. Broadcasters reach it
/// through the non-owning handle `id`, never through an owning reference
/// back to the controller that owns the queue.
pub struct EventQueue {
    /// Subscription handle under which deliveries address this queue.
    pub id: u32,
    /// Handle of the single delegate told about each stored event, if any.
    pub delegate: Option<u32>,
    /// Handles of further handlers told about each stored event.
    pub handlers: Vec<u32>,
    /// The pending events, in arrival order.
    pub events: Vec<Event>,
}

/// The mathematical value of an `EventQueue`.
#[verifier::ext_equal]
pub struct QueueView {
    pub id: u32,
    pub delegate: Option<u32>,
    pub handlers: Seq<u32>,
    pub events: Seq<Event>,
}

impl View for EventQueue {
    type V = QueueView;

    open spec fn view(&self) -> QueueView {
        QueueView {
            id: self.id,
            delegate: self.delegate,
            handlers: self.handlers@,
            events: self.events@,
        }
    }
}

/// One queue after one event is stored at its tail.
pub open spec fn spec_store(q: QueueView, event: Event) -> QueueView {
    QueueView { events: q.events.push(event), ..q }
}

/// One queue after the events `es` are stored at its tail, one after
/// another, in order.
pub open spec fn spec_store_all(q: QueueView, es: Seq<Event>) -> QueueView
    decreases es.len(),
{
    if es.len() == 0 {
        q
    } else {
        spec_store(spec_store_all(q, es.drop_last()), es.last())
    }
}

impl EventQueue {
    /// A fresh, empty queue reachable under the subscription handle `id`.
    pub fn new(id: u32) -> (q: EventQueue)
        ensures
            q@ == (QueueView {
                id,
                delegate: Option::None,
                handlers: Seq::<u32>::empty(),
                events: Seq::<Event>::empty(),
            }),
    {
        let q = EventQueue { id, delegate: None, handlers: Vec::new(), events: Vec::new() };
        proof {
            assert(q@ =~= (QueueView {
                id,
                delegate: Option::None,
                handlers: Seq::<u32>::empty(),
                events: Seq::<Event>::empty(),
            }));
        }
        q
    }

    /// Subscribes this queue to a notifier by handing over its handle, not
    /// an owning reference.
    pub fn register_to(&self, notifier: &mut Notifier)
        ensures
            final(notifier).listeners@ == old(notifier).listeners@.push(self.id),
    {
        notifier.register(self.id);
    }

    /// Appends `evt` at the tail, and returns the deliveries owed to the
    /// delegate and the handlers, each of which is to hear this same event
    /// once, synchronously, delegate first.
    pub fn store(&mut self, evt: Event) -> (ds: Vec<Delivery>)
        ensures
            final(self)@ == spec_store(old(self)@, evt),
            ds@ == store_dispatch(old(self)@.delegate, old(self)@.handlers, evt),
    {
        self.events.push(evt);
        let mut ds: Vec<Delivery> = Vec::new();
        if let Some(d) = self.delegate {
            ds.push(Delivery { target: d, event: evt });
        }
        let ghost head = ds@;
        proof {
            assert(ds@ =~= head + deliveries_for(self.handlers@.take(0), evt));
        }
        let mut i: usize = 0;
        while i < self.handlers.len()
            invariant
                i <= self.handlers.len(),
                ds@ == head + deliveries_for(self.handlers@.take(i as int), evt),
            decreases self.handlers.len() - i,
        {
            ds.push(Delivery { target: self.handlers[i], event: evt });
            i = i + 1;
            proof {
                assert(self.handlers@.take(i as int).drop_last() =~= self.handlers@.take(
                    i as int - 1,
                ));
                assert(ds@ =~= head + deliveries_for(self.handlers@.take(i as int), evt));
            }
        }
        proof {
            assert(self.handlers@.take(self.handlers@.len() as int) =~= self.handlers@);
            assert(self@ =~= spec_store(old(self)@, evt));
            assert(head + deliveries_for(self.handlers@, evt) =~= store_dispatch(
                old(self)@.delegate,
                old(self)@.handlers,
                evt,
            ));
        }
        ds
    }

    /// Exposes the pending events, oldest first, for the owner to drain.
    pub fn queue(&self) -> (events: &Vec<Event>)
        ensures
            events@ == self@.events,
    {
        &self.events
    }

    /// Empties the pending events.
    pub fn clear(&mut self)
        ensures
            final(self)@ == (QueueView { events: Seq::<Event>::empty(), ..old(self)@ }),
    {
        self.events.clear();
        proof {
            assert(self@ =~= (QueueView { events: Seq::<Event>::empty(), ..old(self)@ }));
        }
    }

    /// Points the single delegate slot at the given handle.
    pub fn set_delegate(&mut self, delegate: u32)
        ensures
            final(self)@ == (QueueView { delegate: Option::Some(delegate), ..old(self)@ }),
    {
        self.delegate = Some(delegate);
        proof {
            assert(self@ =~= (QueueView { delegate: Option::Some(delegate), ..old(self)@ }));
        }
    }

    /// Adds one more handler handle to be told about each stored event.
    pub fn add_handler(&mut self, handler: u32)
        ensures
            final(self)@ == (QueueView { handlers: old(self)@.handlers.push(handler), ..old(self)@ }),
    {
        self.handlers.push(handler);
        proof {
            assert(self@ =~= (QueueView {
                handlers: old(self)@.handlers.push(handler),
                ..old(self)@
            }));
        }
    }
}

impl EventListener for EventQueue {
    /// A queue hearing a broadcast accumulates the event at its tail, as
    /// one `store` call would. The listener capability returns nothing, so
    /// the deliveries that `store` owes the delegate and the handlers are
    /// dropped at this door; a caller that must serve them calls `store`
    /// itself.
    fn on_event(&mut self, event: Event)
        ensures
            final(self)@ == spec_store(old(self)@, event),
    {
        let _ = self.store(event);
    }
}

/// Routes a batch of deliveries into one queue: every delivery addressed
/// to `queue.id` is stored there, in batch order; deliveries addressed
/// elsewhere are left to their own subscribers. This is the receiving end
/// of a broadcast: a notifier pairs the event with each handle, and each
/// queue keeps exactly the deliveries that bear its handle.
pub fn dispatch_to(queue: &mut EventQueue, deliveries: &Vec<Delivery>)
    ensures
        final(queue)@ == (QueueView {
            events: old(queue)@.events + events_for(deliveries@, old(queue)@.id),
            ..old(queue)@
        }),
{
    proof {
        assert(queue@ =~= (QueueView {
            events: old(queue)@.events + events_for(deliveries@.take(0), old(queue)@.id),
            ..old(queue)@
        }));
    }
    let mut i: usize = 0;
    while i < deliveries.len()
        invariant
            i <= deliveries.len(),
            queue@ == (QueueView {
                events: old(queue)@.events + events_for(
                    deliveries@.take(i as int),
                    old(queue)@.id,
                ),
                ..old(queue)@
            }),
        decreases deliveries.len() - i,
    {
        let d = deliveries[i];
        if d.target == queue.id {
            let _ = queue.store(d.event);
        }
        i = i + 1;
        proof {
            assert(deliveries@.take(i as int).drop_last() =~= deliveries@.take(i as int - 1));
            assert(queue@ =~= (QueueView {
                events: old(queue)@.events + events_for(
                    deliveries@.take(i as int),
                    old(queue)@.id,
                ),
                ..old(queue)@
            }));
        }
    }
    proof {
        assert(deliveries@.take(deliveries@.len() as int) =~= deliveries@);
        assert(queue@ =~= (QueueView {
            events: old(queue)@.events + events_for(deliveries@, old(queue)@.id),
            ..old(queue)@
        }));
    }
}

/// Storing events one after another keeps them in arrival order: after the
/// events `es` are stored at the tail of a queue whose pending sequence is
/// `q.events`, the pending sequence is exactly `q.events` followed by
/// `es`. Together with `clear`, which leaves the queue empty, this is the
/// first-in-first-out discipline of the channel.
pub proof fn lemma_store_keeps_fifo_order(q: QueueView, es: Seq<Event>)
    ensures
        spec_store_all(q, es).events == q.events + es,
        spec_store_all(q, es).id == q.id,
        spec_store_all(q, es).delegate == q.delegate,
        spec_store_all(q, es).handlers == q.handlers,
    decreases es.len(),
{
    if es.len() == 0 {
        assert(q.events + es =~= q.events);
    } else {
        lemma_store_keeps_fifo_order(q, es.drop_last());
        assert((q.events + es.drop_last()).push(es.last()) =~= q.events + es);
    }
}

} // verus!

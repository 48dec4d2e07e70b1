//! The reactor's subscriber registry: each device, and the machine itself,
//! registers once; a second registration of the same subscriber is refused.

use vstd::prelude::*;

verus! {

/// What kind of component a subscriber is.
#[derive(Clone, Copy, Debug, PartialEq, Eq, Structural)]
pub enum SubscriberKind {
    Serial,
    Balloon,
    Console,
    Fs,
    Vsock,
    Machine,
}

/// Why the reactor refused a subscriber.
#[derive(Clone, Copy, Debug, PartialEq, Eq, Structural)]
pub enum EventManagerError {
    /// The subscriber is already registered.
    AlreadyRegistered,
}

impl EventManagerError {
    pub open spec fn spec_message(self) -> Seq<char> {
        "AlreadyRegistered"@
    }

    pub fn message(&self) -> (r: String)
        ensures
            r@ == self.spec_message(),
    {
        String::from_str("AlreadyRegistered")
    }
}

/// A registered subscriber.
pub struct Subscriber {
    pub kind: SubscriberKind,
    pub id: String,
}

/// The reactor's registry of subscribers, in order of registration.
pub struct EventManager {
    subscribers: Vec<Subscriber>,
}

pub open spec fn sub_view(s: Subscriber) -> (SubscriberKind, Seq<char>) {
    (s.kind, s.id@)
}

impl View for EventManager {
    type V = Seq<(SubscriberKind, Seq<char>)>;

    closed spec fn view(&self) -> Seq<(SubscriberKind, Seq<char>)> {
        self.subscribers@.map_values(|s: Subscriber| sub_view(s))
    }
}

impl EventManager {
    pub fn new() -> (r: EventManager)
        ensures
            r@ == Seq::<(SubscriberKind, Seq<char>)>::empty(),
    {
        let r = EventManager { subscribers: Vec::new() };
        assert(r@ =~= Seq::<(SubscriberKind, Seq<char>)>::empty());
        r
    }

    pub fn len(&self) -> (r: usize)
        ensures
            r == self@.len(),
    {
        self.subscribers.len()
    }

    /// Whether the subscriber `(kind, id)` is registered.
    pub fn is_registered(&self, kind: SubscriberKind, id: &String) -> (r: bool)
        ensures
            r == self@.contains((kind, id@)),
    {
        let mut i: usize = 0;
        while i < self.subscribers.len()
            invariant
                i <= self.subscribers@.len(),
                forall|j: int| 0 <= j < i ==> #[trigger] self@[j] != (kind, id@),
            decreases self.subscribers@.len() - i,
        {
            let s = &self.subscribers[i];
            if s.kind == kind && s.id == *id {
                assert(self@[i as int] == (kind, id@));
                return true;
            }
            i += 1;
        }
        false
    }

    /// Registers the subscriber `(kind, id)`.
    pub fn add_subscriber(&mut self, kind: SubscriberKind, id: String) -> (r: Result<(), EventManagerError>)
        ensures
            old(self)@.contains((kind, id@)) ==> r == Err::<(), EventManagerError>(
                EventManagerError::AlreadyRegistered,
            ) && final(self)@ == old(self)@,
            !old(self)@.contains((kind, id@)) ==> r is Ok && final(self)@ == old(self)@.push((kind, id@)),
    {
        if self.is_registered(kind, &id) {
            return Err(EventManagerError::AlreadyRegistered);
        }
        let ghost id_view = id@;
        self.subscribers.push(Subscriber { kind, id });
        assert(self@ =~= old(self)@.push((kind, id_view)));
        Ok(())
    }
}

} // verus!

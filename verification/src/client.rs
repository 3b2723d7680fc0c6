//! The slot that holds a backend client: empty until the client is first
//! needed, then filled once and for all; and the cache in which a client
//! keeps the answers of its service, so that it asks no question twice.

use crate::text_map::TextMap;
use vstd::prelude::*;

verus! {

/// A place for one client of a backend.
///
/// Creating a client is costly and can fail, so it is put off until the
/// client is needed. The outcome of the first attempt stays: a client that
/// was created is kept, and a failure is not tried again.
#[derive(Debug)]
pub enum ClientSlot<T> {
    /// No attempt to create the client has been made.
    Empty,
    /// The client was created.
    Ready(T),
    /// The attempt to create the client failed.
    Failed,
}

/// What the holder of a slot has to do before it can use the client.
#[derive(Clone, Copy, Debug, PartialEq, Eq, Structural)]
pub enum SlotDemand {
    /// Try to create the client, and record the outcome in the slot.
    Create,
    /// Nothing: the client is there.
    Use,
    /// Give up: the client cannot be had.
    Fail,
}

/// The state of a slot after the outcome of an attempt has been recorded:
/// an empty slot takes the outcome, any other slot stays as it is.
pub open spec fn slot_after<T>(slot: ClientSlot<T>, outcome: Option<T>) -> ClientSlot<T> {
    match slot {
        ClientSlot::Empty => match outcome {
            Some(client) => ClientSlot::Ready(client),
            None => ClientSlot::Failed,
        },
        _ => slot,
    }
}

impl<T> ClientSlot<T> {
    /// An empty slot.
    pub fn new() -> (res: ClientSlot<T>)
        ensures
            res is Empty,
    {
        ClientSlot::Empty
    }

    /// What has to be done before the client can be used.
    pub fn demand(&self) -> (res: SlotDemand)
        ensures
            res == match self {
                ClientSlot::Empty => SlotDemand::Create,
                ClientSlot::Ready(_) => SlotDemand::Use,
                ClientSlot::Failed => SlotDemand::Fail,
            },
    {
        match self {
            ClientSlot::Empty => SlotDemand::Create,
            ClientSlot::Ready(_) => SlotDemand::Use,
            ClientSlot::Failed => SlotDemand::Fail,
        }
    }

    /// Records the outcome of an attempt to create the client: the client,
    /// or `None` for a failure. Only an empty slot takes it.
    pub fn record(&mut self, outcome: Option<T>)
        ensures
            *final(self) == slot_after(*old(self), outcome),
    {
        if let ClientSlot::Empty = self {
            *self = match outcome {
                Some(client) => ClientSlot::Ready(client),
                None => ClientSlot::Failed,
            };
        }
    }

    /// The client, if it was created.
    pub fn get(&self) -> (res: Option<&T>)
        ensures
            match self {
                ClientSlot::Ready(client) => res == Some(client),
                _ => res is None,
            },
    {
        match self {
            ClientSlot::Ready(client) => Some(client),
            _ => None,
        }
    }
}

/// What a cache holds after an answer has been remembered: the first answer
/// to a question stays, a later one to the same question is dropped.
pub open spec fn cache_after<V>(
    cache: Map<Seq<char>, Option<V>>,
    key: Seq<char>,
    answer: Option<V>,
) -> Map<Seq<char>, Option<V>> {
    if cache.contains_key(key) {
        cache
    } else {
        cache.insert(key, answer)
    }
}

/// The answers that a service has given, by the key of the question. An
/// answer can be that the service knows nothing (`None`); that is
/// remembered too.
#[derive(Debug)]
pub struct LookupCache<V> {
    answers: TextMap<Option<V>>,
}

impl<V> View for LookupCache<V> {
    type V = Map<Seq<char>, Option<V>>;

    closed spec fn view(&self) -> Map<Seq<char>, Option<V>> {
        self.answers@
    }
}

impl<V> LookupCache<V> {
    /// A cache that holds no answer.
    pub fn new() -> (res: LookupCache<V>)
        ensures
            res@ == Map::<Seq<char>, Option<V>>::empty(),
    {
        LookupCache { answers: TextMap::new() }
    }

    /// The answer to a question, if the service has been asked it before.
    /// `None` says that the service is to be asked.
    pub fn recall(&self, key: &str) -> (res: Option<&Option<V>>)
        ensures
            res is Some <==> self@.contains_key(key@),
            res matches Some(answer) ==> *answer == self@[key@],
    {
        self.answers.get(key)
    }

    /// Remembers the answer of the service to a question, unless an answer
    /// to that question is held already.
    pub fn remember(&mut self, key: String, answer: Option<V>)
        ensures
            final(self)@ == cache_after(old(self)@, key@, answer),
    {
        if !self.answers.contains_key(key.as_str()) {
            self.answers.insert(key, answer);
        }
    }
}

} // verus!

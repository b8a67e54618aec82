//! The event bus: a bounded broadcast channel that carries domain events
//! from the component that changed something to every component that
//! shows it.
//!
//! The channel is tokio's. It keeps the newest events up to its capacity;
//! a subscriber that falls further behind misses the oldest ones and is
//! told how many. Publishing never waits.

use vstd::prelude::*;
use crate::codes::HTTPMethods;
use crate::error::AppError;

verus! {

/// Something that happened and that other components may have to show.
#[derive(Debug)]
pub enum AppEvent {
    /// The collection with this id was deleted.
    CollectionDeleted(String),
    /// A request got a new method: the method, the request, its collection.
    UpdateHttpMethod(HTTPMethods, String, String),
    /// The request with this id was picked for viewing.
    ViewRequestItem(String),
    /// A request got a new name: the name, the request, its collection.
    RenameRequestItem(String, String, String),
}

impl Clone for AppEvent {
    fn clone(&self) -> (copy: Self)
        ensures
            copy == *self,
    {
        match self {
            AppEvent::CollectionDeleted(collection_id) => AppEvent::CollectionDeleted(
                collection_id.clone(),
            ),
            AppEvent::UpdateHttpMethod(http_method, request_id, collection_id) => {
                AppEvent::UpdateHttpMethod(*http_method, request_id.clone(), collection_id.clone())
            },
            AppEvent::ViewRequestItem(request_id) => AppEvent::ViewRequestItem(request_id.clone()),
            AppEvent::RenameRequestItem(name, request_id, collection_id) => {
                AppEvent::RenameRequestItem(name.clone(), request_id.clone(), collection_id.clone())
            },
        }
    }
}

/// The capacity that the application gives its bus.
pub const DEFAULT_CAPACITY: usize = 100;

/// tokio's sending half, `tokio::sync::broadcast::Sender`. Nothing is known
/// of what it holds.
#[verifier::external_type_specification]
#[verifier::external_body]
#[verifier::reject_recursive_types(T)]
pub struct ExSender<T>(tokio::sync::broadcast::Sender<T>);

/// tokio's receiving half, `tokio::sync::broadcast::Receiver`. Nothing is
/// known of what it holds.
#[verifier::external_type_specification]
#[verifier::external_body]
#[verifier::reject_recursive_types(T)]
pub struct ExReceiver<T>(tokio::sync::broadcast::Receiver<T>);

/// Why a subscriber got no event when it asked for one.
#[derive(Clone, Copy, Debug, PartialEq, Eq, Structural)]
pub enum Missing {
    /// Every event published so far has been delivered.
    Empty,
    /// This many events were overwritten before the subscriber read them.
    /// The next event delivered is the oldest that the channel still holds.
    Lagged(u64),
    /// No publisher is left, and every event has been delivered.
    Closed,
}

/// Whether a receiving half belongs to the channel of a sending half: the
/// two were made by one call of `tokio::sync::broadcast::channel`, or the
/// receiving half was made by `subscribe` on a sending half of that channel.
/// A half belongs to one channel for as long as it lives.
pub uninterp spec fn listens_to(
    receiver: tokio::sync::broadcast::Receiver<AppEvent>,
    sender: tokio::sync::broadcast::Sender<AppEvent>,
) -> bool;

/// Calls `tokio::sync::broadcast::channel`.
///
/// Trusted: the call returns for a capacity in this range (outside it the
/// outside function panics), and the two halves that it returns belong to
/// one channel.
#[verifier::external_body]
fn open_channel(capacity: usize) -> (ends: (
    tokio::sync::broadcast::Sender<AppEvent>,
    tokio::sync::broadcast::Receiver<AppEvent>,
))
    requires
        0 < capacity <= usize::MAX / 2,
    ensures
        listens_to(ends.1, ends.0),
{
    tokio::sync::broadcast::channel(capacity)
}

/// Calls `tokio::sync::broadcast::Sender::send`.
///
/// Trusted: a send that succeeds reached at least one receiver and returns
/// their number; one that fails hands the event back.
#[verifier::external_body]
fn send_event(sender: &tokio::sync::broadcast::Sender<AppEvent>, event: AppEvent) -> (sent: Result<
    usize,
    AppEvent,
>)
    ensures
        sent matches Ok(receivers) ==> receivers >= 1,
        sent matches Err(back) ==> back == event,
{
    sender.send(event).map_err(|refused| refused.0)
}

/// Calls `tokio::sync::broadcast::Sender::subscribe`.
///
/// Trusted: the receiving half that it returns belongs to the channel of
/// the sending half. What the half will receive is left open. The outside
/// function panics where the channel already has the most receivers that it
/// can count, a quarter of `usize::MAX`.
#[verifier::external_body]
fn add_receiver(sender: &tokio::sync::broadcast::Sender<AppEvent>) -> (receiver:
    tokio::sync::broadcast::Receiver<AppEvent>)
    ensures
        listens_to(receiver, *sender),
{
    sender.subscribe()
}

/// Calls `tokio::sync::broadcast::Receiver::try_recv` and names the outside
/// error in the library's own terms, variant by variant.
///
/// Trusted: the receiving half stays with its channel. What comes back is
/// left open.
#[verifier::external_body]
fn try_receive(receiver: &mut tokio::sync::broadcast::Receiver<AppEvent>) -> (got: Result<
    AppEvent,
    Missing,
>)
    ensures
        forall|sender: tokio::sync::broadcast::Sender<AppEvent>|
            listens_to(*final(receiver), sender) == #[trigger] listens_to(*old(receiver), sender),
{
    match receiver.try_recv() {
        Ok(event) => Ok(event),
        Err(tokio::sync::broadcast::error::TryRecvError::Empty) => Err(Missing::Empty),
        Err(tokio::sync::broadcast::error::TryRecvError::Lagged(n)) => Err(Missing::Lagged(n)),
        Err(tokio::sync::broadcast::error::TryRecvError::Closed) => Err(Missing::Closed),
    }
}

/// The publishing side of the bus. It is made once, when the process
/// starts, and handed to every component that publishes or subscribes.
pub struct EventBus {
    sender: tokio::sync::broadcast::Sender<AppEvent>,
    capacity: usize,
}

/// One subscriber's place in the stream of events.
pub struct Subscription {
    receiver: tokio::sync::broadcast::Receiver<AppEvent>,
}

/// What a publish comes to, given what the channel answered.
pub fn publish_result(sent: Result<usize, AppEvent>) -> (published: Result<usize, AppError>)
    ensures
        published == match sent {
            Ok(receivers) => Ok::<usize, AppError>(receivers),
            Err(_) => Err::<usize, AppError>(AppError::ChannelClosed),
        },
{
    match sent {
        Ok(receivers) => Ok(receivers),
        Err(_) => Err(AppError::ChannelClosed),
    }
}

/// What a subscriber is handed, given what the channel answered: an event,
/// nothing for now, or the failure `ChannelClosed`. A subscriber that
/// lagged is handed nothing for now; its next call delivers the oldest
/// event still held.
pub fn delivery(got: Result<AppEvent, Missing>) -> (handed: Result<Option<AppEvent>, AppError>)
    ensures
        handed == match got {
            Ok(event) => Ok::<Option<AppEvent>, AppError>(Some(event)),
            Err(Missing::Closed) => Err::<Option<AppEvent>, AppError>(AppError::ChannelClosed),
            Err(_) => Ok::<Option<AppEvent>, AppError>(None),
        },
{
    match got {
        Ok(event) => Ok(Some(event)),
        Err(Missing::Closed) => Err(AppError::ChannelClosed),
        Err(_) => Ok(None),
    }
}

impl EventBus {
    /// The capacity that the bus was opened with.
    pub closed spec fn spec_capacity(&self) -> usize {
        self.capacity
    }

    /// Whether the subscription listens to this bus: it is the one that the
    /// bus was opened with, or one that [`EventBus::subscribe`] handed out
    /// on this bus.
    pub closed spec fn serves(&self, subscription: Subscription) -> bool {
        listens_to(subscription.receiver, self.sender)
    }

    /// Opens a bus that holds up to `capacity` events (tokio rounds the
    /// number up to a power of two), and its first subscription.
    pub fn new(capacity: usize) -> (made: (EventBus, Subscription))
        requires
            0 < capacity <= usize::MAX / 2,
        ensures
            made.0.capacity() == capacity,
            made.0.serves(made.1),
    {
        let (sender, receiver) = open_channel(capacity);
        (EventBus { sender, capacity }, Subscription { receiver })
    }

    /// The capacity that the bus was opened with. A subscriber that falls
    /// further behind than this, rounded up to a power of two, misses the
    /// oldest events.
    #[verifier::when_used_as_spec(spec_capacity)]
    pub fn capacity(&self) -> (capacity: usize)
        ensures
            capacity == self.spec_capacity(),
    {
        self.capacity
    }

    /// Publishes an event to every subscription that is open now, and
    /// returns their number. With no subscription open the event is dropped
    /// and the publish fails with `ChannelClosed`. It never waits.
    pub fn publish(&self, event: AppEvent) -> (published: Result<usize, AppError>)
        ensures
            published matches Ok(receivers) ==> receivers >= 1,
            published matches Err(e) ==> e == AppError::ChannelClosed,
    {
        publish_result(send_event(&self.sender, event))
    }

    /// Opens a subscription on this bus. It is handed the events published
    /// from now on, in the order in which they are published.
    pub fn subscribe(&self) -> (subscription: Subscription)
        ensures
            self.serves(subscription),
    {
        Subscription { receiver: add_receiver(&self.sender) }
    }
}

impl Subscription {
    /// The receiving half that the subscription holds.
    pub closed spec fn handle(&self) -> tokio::sync::broadcast::Receiver<AppEvent> {
        self.receiver
    }

    /// Gives up the subscription for the receiving half that it holds, for
    /// a caller that wants to wait for the next event instead of asking for
    /// it.
    pub fn into_receiver(self) -> (receiver: tokio::sync::broadcast::Receiver<AppEvent>)
        ensures
            receiver == self.handle(),
    {
        self.receiver
    }

    /// Hands out the next event if one is waiting. It never waits. The
    /// subscription stays with its bus.
    pub fn try_next(&mut self) -> (handed: Result<Option<AppEvent>, AppError>)
        ensures
            handed matches Err(e) ==> e == AppError::ChannelClosed,
            forall|bus: EventBus| bus.serves(*final(self)) == #[trigger] bus.serves(*old(self)),
    {
        delivery(try_receive(&mut self.receiver))
    }
}

} // verus!

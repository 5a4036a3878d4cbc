//! The network side of the event router: messages, per-connection send
//! handles, and the single queue through which every connection reports to
//! its one consumer.
use vstd::prelude::*;

verus! {

/// Why the network side could not be started or can no longer be used.
#[derive(Debug, Clone, Copy, PartialEq, Eq, Structural)]
pub enum Error {
    /// The listening port could not be bound or the listener thread could not be spawned.
    FailedToStart,
    /// Every producer side of the event queue is gone and nothing is left to receive.
    Disconnected,
}

/// A unit of application data exchanged with one client.
#[derive(Debug, PartialEq, Eq)]
pub enum Message {
    Text(String),
}

/// The mathematical content of a [`Message`].
pub enum MessageView {
    Text(Seq<char>),
}

impl View for Message {
    type V = MessageView;

    open spec fn view(&self) -> MessageView {
        match self {
            Message::Text(text) => MessageView::Text(text@),
        }
    }
}

impl Clone for Message {
    fn clone(&self) -> (copy: Self)
        ensures
            copy@ == self@,
    {
        match self {
            Message::Text(text) => Message::Text(text.clone()),
        }
    }
}

/// One decoded unit read from an upgraded connection, reduced to what the
/// router looks at: text frames carry payload, every other kind is only told
/// apart so that it can be ignored.
#[derive(Debug, PartialEq, Eq)]
pub enum Frame {
    Text(String),
    Binary(Vec<u8>),
    Ping(Vec<u8>),
    Pong(Vec<u8>),
    Close,
    Raw,
}

impl Message {
    /// The frame that carries this message on the wire.
    pub fn into_frame(self) -> (frame: Frame)
        ensures
            frame == (match self {
                Message::Text(text) => Frame::Text(text),
            }),
    {
        match self {
            Message::Text(text) => Frame::Text(text),
        }
    }

    /// The message a frame decodes to. Only text frames are recognized.
    pub fn from_frame(frame: Frame) -> (message: Option<Message>)
        ensures
            message == (match frame {
                Frame::Text(text) => Some(Message::Text(text)),
                _ => None::<Message>,
            }),
    {
        match frame {
            Frame::Text(text) => Some(Message::Text(text)),
            _ => None,
        }
    }
}

/// What a [`Responder`] asks of the write side of its connection.
#[derive(Debug, PartialEq, Eq)]
pub enum ResponderCommand {
    Send(Message),
    Close,
}

/// `flume::Sender`: the sending end of a channel, carried as an opaque value.
#[verifier::external_type_specification]
#[verifier::external_body]
#[verifier::reject_recursive_types(T)]
pub struct ExFlumeSender<T>(flume::Sender<T>);

/// `flume::Receiver`: the receiving end of a channel, carried as an opaque value.
#[verifier::external_type_specification]
#[verifier::external_body]
#[verifier::reject_recursive_types(T)]
pub struct ExFlumeReceiver<T>(flume::Receiver<T>);

/// `flume::SendError`: the error of a send that found no receiver, carried as an opaque value.
#[verifier::external_type_specification]
#[verifier::external_body]
#[verifier::reject_recursive_types(T)]
pub struct ExFlumeSendError<T>(flume::SendError<T>);

/// `flume::TryRecvError`: why nothing could be taken without waiting, carried as an opaque value.
#[verifier::external_type_specification]
#[verifier::external_body]
pub struct ExFlumeTryRecvError(flume::TryRecvError);

/// `flume::RecvError`: that every sender is gone, carried as an opaque value.
#[verifier::external_type_specification]
#[verifier::external_body]
pub struct ExFlumeRecvError(flume::RecvError);

/// `flume::unbounded`: a fresh channel without a capacity limit. Nothing is
/// claimed of the two ends.
pub assume_specification<T>[ flume::unbounded::<T> ]() -> (ends: (
    flume::Sender<T>,
    flume::Receiver<T>,
));

/// `flume::Sender::send`: hands a value to the channel. Whether it is accepted
/// depends on whether a receiver is still alive, so nothing is claimed of the
/// result.
pub assume_specification<T>[ flume::Sender::<T>::send ](
    tx: &flume::Sender<T>,
    msg: T,
) -> (outcome: Result<(), flume::SendError<T>>);

/// `Clone` of `flume::Sender`: another handle on the same channel. Nothing is
/// claimed of it.
pub assume_specification<T>[ <flume::Sender<T> as Clone>::clone ](tx: &flume::Sender<T>) -> (copy:
    flume::Sender<T>);

/// `flume::Receiver::try_recv`: takes the oldest queued value without
/// waiting. What is queued depends on the senders, so nothing is claimed of
/// the result.
pub assume_specification<T>[ flume::Receiver::<T>::try_recv ](rx: &flume::Receiver<T>) -> (outcome:
    Result<T, flume::TryRecvError>);

/// `flume::Receiver::recv`: waits for the oldest queued value, or fails once
/// every sender is gone and the queue is empty. Nothing is claimed of the
/// result.
pub assume_specification<T>[ flume::Receiver::<T>::recv ](rx: &flume::Receiver<T>) -> (outcome:
    Result<T, flume::RecvError>);

/// `flume::Receiver::is_empty`: whether the queue holds nothing right now.
pub assume_specification<T>[ flume::Receiver::<T>::is_empty ](rx: &flume::Receiver<T>) -> (empty:
    bool);

/// `flume::Receiver::drain`: takes everything queued at the moment of the
/// call, oldest first, without waiting for more. Nothing is claimed of how
/// much that is.
#[verifier::external_body]
fn drain_queue<T>(rx: &flume::Receiver<T>) -> (items: Vec<T>) {
    rx.drain().collect()
}

/// The send handle of one connection. Any number of threads may hold copies;
/// all of them feed the single command queue of that connection's write loop.
#[derive(Debug)]
pub struct Responder {
    tx: flume::Sender<ResponderCommand>,
    client_id: u64,
}

/// The consuming end of one connection's command queue, held by the
/// connection's write loop.
#[derive(Debug)]
pub struct CommandQueue {
    rx: flume::Receiver<ResponderCommand>,
    client_id: u64,
}

/// Creates the command queue of connection `client_id` and the handle that
/// feeds it.
pub fn command_queue(client_id: u64) -> (ends: (Responder, CommandQueue))
    ensures
        ends.0.id() == client_id,
        ends.1.id() == client_id,
{
    let (tx, rx) = flume::unbounded();
    (Responder { tx, client_id }, CommandQueue { rx, client_id })
}

impl Clone for Responder {
    fn clone(&self) -> (copy: Self)
        ensures
            copy.id() == self.id(),
    {
        Responder { tx: self.tx.clone(), client_id: self.client_id }
    }
}

impl Responder {
    /// The connection this handle belongs to.
    pub closed spec fn id(&self) -> u64 {
        self.client_id
    }

    /// Queues `message` for the connection. `false` means that the connection's
    /// write loop has ended: the message may not have been delivered.
    pub fn send(&self, message: Message) -> (accepted: bool) {
        self.tx.send(ResponderCommand::Send(message)).is_ok()
    }

    /// Asks the connection to close. A connection that is already gone is left alone.
    pub fn close(&self) {
        let _ = self.tx.send(ResponderCommand::Close);
    }

    pub fn client_id(&self) -> (id: u64)
        ensures
            id == self.id(),
    {
        self.client_id
    }
}

impl CommandQueue {
    /// The connection this queue belongs to.
    pub closed spec fn id(&self) -> u64 {
        self.client_id
    }

    /// The channel end that the queue wraps.
    pub closed spec fn channel(&self) -> flume::Receiver<ResponderCommand> {
        self.rx
    }

    pub fn client_id(&self) -> (id: u64)
        ensures
            id == self.id(),
    {
        self.client_id
    }

    /// The oldest queued command, if one is waiting.
    pub fn next_command(&self) -> (command: Option<ResponderCommand>) {
        self.rx.try_recv().ok()
    }

    /// Gives up the wrapper and hands out the channel end itself, for callers
    /// that wait on it asynchronously.
    pub fn into_receiver(self) -> (rx: flume::Receiver<ResponderCommand>)
        ensures
            rx == self.channel(),
    {
        self.rx
    }
}

/// The only values that cross from the network side to the consumer.
#[derive(Debug)]
pub enum Event {
    /// A connection finished its protocol upgrade; the handle reaches its write loop.
    Connect(u64, Responder),
    /// A connection ended. Reported once, after its `Connect`.
    Disconnect(u64),
    /// A connection delivered one decoded message.
    Message(u64, Message),
}

impl Event {
    /// The connection an event speaks of.
    pub open spec fn client(&self) -> u64 {
        match self {
            Event::Connect(id, _) => *id,
            Event::Disconnect(id) => *id,
            Event::Message(id, _) => *id,
        }
    }

    pub fn client_id(&self) -> (id: u64)
        ensures
            id == self.client(),
    {
        match self {
            Event::Connect(id, _) => *id,
            Event::Disconnect(id) => *id,
            Event::Message(id, _) => *id,
        }
    }
}

/// The producing end of the event queue. Every connection holds a copy.
#[derive(Debug)]
pub struct EventSink {
    tx: flume::Sender<Event>,
}

/// The consuming end of the event queue: the single point at which the events
/// of all connections arrive, in the order in which they were received.
#[derive(Debug)]
pub struct EventHub {
    rx: flume::Receiver<Event>,
}

/// Creates the event queue: an unbounded channel, so that no event is ever
/// dropped or refused for want of room.
pub fn event_queue() -> (ends: (EventSink, EventHub)) {
    let (tx, rx) = flume::unbounded();
    (EventSink { tx }, EventHub::new(rx))
}

impl Clone for EventSink {
    fn clone(&self) -> (copy: Self) {
        EventSink { tx: self.tx.clone() }
    }
}

impl EventSink {
    /// Reports `event` to the consumer. `false` means that the consumer is gone.
    pub fn emit(&self, event: Event) -> (accepted: bool) {
        self.tx.send(event).is_ok()
    }
}

/// What a blocking receive reports: the event, or that the queue is dead.
pub fn poll_report(received: Result<Event, flume::RecvError>) -> (report: Result<Event, Error>)
    ensures
        report == (match received {
            Ok(event) => Ok::<Event, Error>(event),
            Err(_) => Err::<Event, Error>(Error::Disconnected),
        }),
{
    match received {
        Ok(event) => Ok(event),
        Err(_) => Err(Error::Disconnected),
    }
}

impl EventHub {
    /// The channel end that the hub wraps.
    pub closed spec fn channel(&self) -> flume::Receiver<Event> {
        self.rx
    }

    /// The hub on the receiving end `rx` of an event queue.
    fn new(rx: flume::Receiver<Event>) -> (hub: Self)
        ensures
            hub.channel() == rx,
    {
        EventHub { rx }
    }

    /// Takes every event that is queued right now, oldest first, without
    /// waiting. A queue that holds nothing yields nothing, whether or not a
    /// producer is left: only a receive that waits can find the queue dead.
    pub fn drain(&self) -> (events: Vec<Event>) {
        drain_queue(&self.rx)
    }

    /// The oldest queued event, or `None` at once if nothing is queued.
    pub fn next_event(&self) -> (event: Option<Event>) {
        self.rx.try_recv().ok()
    }

    /// Waits until an event is queued and returns it. Fails with
    /// [`Error::Disconnected`] when no producer is left and nothing is queued.
    pub fn poll_event(&self) -> (report: Result<Event, Error>)
        ensures
            report matches Err(e) ==> e == Error::Disconnected,
    {
        poll_report(self.rx.recv())
    }

    pub fn is_empty(&self) -> (empty: bool) {
        self.rx.is_empty()
    }

    /// The channel end itself, for callers that wait on it asynchronously.
    pub fn receiver(&self) -> (rx: &flume::Receiver<Event>)
        ensures
            *rx == self.channel(),
    {
        &self.rx
    }
}

/// The identifier that follows `id`: one more, starting over at zero after
/// the largest.
pub open spec fn next_id(id: u64) -> u64 {
    if id == u64::MAX {
        0
    } else {
        (id + 1) as u64
    }
}

/// The identifier handed out `k` allocations after `start` was.
pub open spec fn nth_id(start: u64, k: nat) -> u64
    decreases k,
{
    if k == 0 {
        start
    } else {
        next_id(nth_id(start, (k - 1) as nat))
    }
}

/// Hands out connection identifiers in increasing order, one per accepted
/// connection.
#[derive(Debug)]
pub struct ConnectionIds {
    next: u64,
}

impl ConnectionIds {
    /// The identifier that the next allocation returns.
    pub closed spec fn upcoming(&self) -> u64 {
        self.next
    }

    pub fn new() -> (ids: Self)
        ensures
            ids.upcoming() == 0,
    {
        ConnectionIds { next: 0 }
    }

    /// Returns the upcoming identifier and moves on to the one after it.
    pub fn allocate(&mut self) -> (id: u64)
        ensures
            id == old(self).upcoming(),
            final(self).upcoming() == next_id(id),
    {
        let id = self.next;
        self.next = id.wrapping_add(1);
        id
    }
}

/// Counting from any start, the identifier `k` allocations later is the start
/// plus `k`, reduced modulo 2^64.
pub proof fn lemma_nth_id(start: u64, k: nat)
    ensures
        nth_id(start, k) == (start + k) % 0x1_0000_0000_0000_0000,
    decreases k,
{
    if k > 0 {
        lemma_nth_id(start, (k - 1) as nat);
    }
}

/// Identifiers are unique until the counter wraps: two allocations fewer than
/// 2^64 apart never return the same identifier, and as long as the counter
/// has not wrapped the later one is the larger.
pub proof fn lemma_ids_unique(start: u64, j: nat, k: nat)
    requires
        j < k,
        k - j < 0x1_0000_0000_0000_0000,
    ensures
        nth_id(start, j) != nth_id(start, k),
        start + k <= u64::MAX ==> nth_id(start, j) < nth_id(start, k),
{
    lemma_nth_id(start, j);
    lemma_nth_id(start, k);
    let m = 0x1_0000_0000_0000_0000int;
    let a = start + j;
    let b = start + k;
    if a % m == b % m {
        assert(a == m * (a / m) + a % m) by (nonlinear_arith)
            requires
                m > 0,
        ;
        assert(b == m * (b / m) + b % m) by (nonlinear_arith)
            requires
                m > 0,
        ;
        assert(b - a == m * (b / m - a / m)) by (nonlinear_arith)
            requires
                a == m * (a / m) + a % m,
                b == m * (b / m) + b % m,
                a % m == b % m,
        ;
        assert(false) by (nonlinear_arith)
            requires
                b - a == m * (b / m - a / m),
                0 < b - a < m,
        ;
    }
}

} // verus!

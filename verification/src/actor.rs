//! The life of one connection, as a state machine. The code that owns the
//! socket feeds it what happened on the connection and carries out what it
//! answers; the decisions are all here.
use crate::ws::{command_queue, CommandQueue, Event, Frame, Message, ResponderCommand};
use vstd::prelude::*;

verus! {

/// Where a connection stands.
#[derive(Debug, Clone, Copy, PartialEq, Eq, Structural)]
pub enum ActorPhase {
    /// Accepted, protocol upgrade not finished. Nothing has been reported.
    Handshaking,
    /// Upgraded and reported; the read loop and the write loop both run.
    Open,
    /// Over. Nothing more is read, written or reported.
    Closed,
}

/// What happened on a connection.
#[derive(Debug)]
pub enum ActorInput {
    /// The protocol upgrade succeeded.
    UpgradeSucceeded,
    /// The protocol upgrade failed.
    UpgradeFailed,
    /// The read loop decoded a frame.
    FrameRead(Frame),
    /// The read loop finished: a read failed or the peer closed.
    ReadEnded,
    /// The write loop took a command from the connection's queue.
    Command(ResponderCommand),
    /// The write loop found that every handle on the connection's queue is gone.
    CommandsExhausted,
}

/// What the owner of the socket is to do, besides reporting.
#[derive(Debug, PartialEq, Eq)]
pub enum IoAction {
    /// Encode and write a frame. A failure of the write is not reported back.
    Write(Frame),
    /// Close the write half.
    CloseWrite,
    /// Stop the read loop and wait until it has stopped.
    StopInbound,
    /// Stop the write loop and wait until it has stopped.
    StopOutbound,
}

/// What a connection reports to the consumer, without the connection's
/// identifier and handle.
pub enum Emission {
    Connect,
    Message(Message),
    Disconnect,
}

/// The answer to one input: first the actions, in this order, then the report.
#[derive(Debug)]
pub struct ActorStep {
    pub io: Vec<IoAction>,
    pub emit: Option<Event>,
}

/// The answer of the state machine, as a mathematical value.
pub struct Transition {
    pub phase: ActorPhase,
    pub io: Seq<IoAction>,
    pub emit: Option<Emission>,
}

/// The report that an event makes.
pub open spec fn emission_of(event: Event) -> Emission {
    match event {
        Event::Connect(_, _) => Emission::Connect,
        Event::Message(_, message) => Emission::Message(message),
        Event::Disconnect(_) => Emission::Disconnect,
    }
}

/// The report that a frame gives rise to: a text frame is a message, any
/// other frame is passed over.
pub open spec fn decoded(frame: Frame) -> Option<Emission> {
    match frame {
        Frame::Text(text) => Some(Emission::Message(Message::Text(text))),
        _ => None,
    }
}

/// The frame that a message is written as.
pub open spec fn encoded(message: Message) -> Frame {
    match message {
        Message::Text(text) => Frame::Text(text),
    }
}

/// The state machine of one connection.
///
/// - While handshaking, a successful upgrade opens the connection and reports
///   it; a failed one closes it without any report.
/// - While open, each decoded text frame is reported as a message and each
///   send command is written. When either loop finishes (the read ended; a
///   close command came; the command queue ran dry) the other loop is stopped
///   first, and the disconnect is reported after that, once.
/// - Everything else changes nothing.
pub open spec fn transition(phase: ActorPhase, input: ActorInput) -> Transition {
    let stay = Transition { phase, io: Seq::empty(), emit: None };
    match phase {
        ActorPhase::Handshaking => match input {
            ActorInput::UpgradeSucceeded => Transition {
                phase: ActorPhase::Open,
                io: Seq::empty(),
                emit: Some(Emission::Connect),
            },
            ActorInput::UpgradeFailed => Transition {
                phase: ActorPhase::Closed,
                io: Seq::empty(),
                emit: None,
            },
            _ => stay,
        },
        ActorPhase::Open => match input {
            ActorInput::FrameRead(frame) => Transition {
                phase: ActorPhase::Open,
                io: Seq::empty(),
                emit: decoded(frame),
            },
            ActorInput::ReadEnded => Transition {
                phase: ActorPhase::Closed,
                io: seq![IoAction::StopOutbound],
                emit: Some(Emission::Disconnect),
            },
            ActorInput::Command(ResponderCommand::Send(message)) => Transition {
                phase: ActorPhase::Open,
                io: seq![IoAction::Write(encoded(message))],
                emit: None,
            },
            ActorInput::Command(ResponderCommand::Close) | ActorInput::CommandsExhausted => Transition {
                phase: ActorPhase::Closed,
                io: seq![IoAction::CloseWrite, IoAction::StopInbound],
                emit: Some(Emission::Disconnect),
            },
            _ => stay,
        },
        ActorPhase::Closed => stay,
    }
}

/// One accepted connection, from its protocol upgrade to its end.
#[derive(Debug)]
pub struct ConnectionActor {
    id: u64,
    phase: ActorPhase,
    commands: Option<CommandQueue>,
}

impl ConnectionActor {
    /// The connection's identifier.
    pub closed spec fn id(&self) -> u64 {
        self.id
    }

    pub closed spec fn phase(&self) -> ActorPhase {
        self.phase
    }

    /// Whether the actor holds the consuming end of its command queue.
    pub closed spec fn holds_commands(&self) -> bool {
        self.commands is Some
    }

    /// The queue that the actor holds is the connection's own.
    #[verifier::type_invariant]
    spec fn wf(&self) -> bool {
        self.commands matches Some(queue) ==> queue.id() == self.id
    }

    /// The actor of a connection that was just accepted.
    pub fn new(id: u64) -> (actor: Self)
        ensures
            actor.id() == id,
            actor.phase() == ActorPhase::Handshaking,
            !actor.holds_commands(),
    {
        ConnectionActor { id, phase: ActorPhase::Handshaking, commands: None }
    }

    pub fn client_id(&self) -> (id: u64)
        ensures
            id == self.id(),
    {
        self.id
    }

    pub fn current_phase(&self) -> (phase: ActorPhase)
        ensures
            phase == self.phase(),
    {
        self.phase
    }

    pub fn is_closed(&self) -> (closed: bool)
        ensures
            closed == (self.phase() == ActorPhase::Closed),
    {
        self.phase == ActorPhase::Closed
    }

    /// Hands out the consuming end of the command queue, for the write loop.
    /// It is there once, after the step that opened the connection.
    pub fn take_commands(&mut self) -> (queue: Option<CommandQueue>)
        ensures
            final(self).id() == old(self).id(),
            final(self).phase() == old(self).phase(),
            !final(self).holds_commands(),
            queue is Some <==> old(self).holds_commands(),
            queue matches Some(q) ==> q.id() == old(self).id(),
    {
        proof {
            use_type_invariant(&*self);
        }
        let mut emptied = ConnectionActor { id: self.id, phase: self.phase, commands: None };
        core::mem::swap(self, &mut emptied);
        emptied.commands
    }

    /// Advances the connection by one input and says what to do about it.
    ///
    /// The new phase, the actions and the report are those of [`transition`].
    /// Every report carries this connection's identifier. The step that opens
    /// the connection creates its command queue: the report carries the
    /// handle, the actor keeps the consuming end.
    pub fn step(&mut self, input: ActorInput) -> (out: ActorStep)
        ensures
            final(self).id() == old(self).id(),
            final(self).phase() == transition(old(self).phase(), input).phase,
            out.io@ == transition(old(self).phase(), input).io,
            out.emit is Some <==> transition(old(self).phase(), input).emit is Some,
            out.emit matches Some(event) ==> {
                &&& Some(emission_of(event)) == transition(old(self).phase(), input).emit
                &&& event.client() == old(self).id()
                &&& event matches Event::Connect(_, responder) ==> responder.id() == old(self).id()
                    && final(self).holds_commands()
            },
            !(out.emit matches Some(Event::Connect(_, _))) ==> final(self).holds_commands()
                == old(self).holds_commands(),
    {
        proof {
            use_type_invariant(&*self);
        }
        match self.phase {
            ActorPhase::Handshaking => match input {
                ActorInput::UpgradeSucceeded => {
                    let (responder, queue) = command_queue(self.id);
                    self.commands = Some(queue);
                    self.phase = ActorPhase::Open;
                    ActorStep { io: Vec::new(), emit: Some(Event::Connect(self.id, responder)) }
                },
                ActorInput::UpgradeFailed => {
                    self.phase = ActorPhase::Closed;
                    ActorStep { io: Vec::new(), emit: None }
                },
                _ => ActorStep { io: Vec::new(), emit: None },
            },
            ActorPhase::Open => match input {
                ActorInput::FrameRead(frame) => {
                    let emit = match Message::from_frame(frame) {
                        Some(message) => Some(Event::Message(self.id, message)),
                        None => None,
                    };
                    ActorStep { io: Vec::new(), emit }
                },
                ActorInput::ReadEnded => {
                    self.phase = ActorPhase::Closed;
                    let mut io = Vec::new();
                    io.push(IoAction::StopOutbound);
                    ActorStep { io, emit: Some(Event::Disconnect(self.id)) }
                },
                ActorInput::Command(ResponderCommand::Send(message)) => {
                    let mut io = Vec::new();
                    io.push(IoAction::Write(message.into_frame()));
                    ActorStep { io, emit: None }
                },
                ActorInput::Command(ResponderCommand::Close) | ActorInput::CommandsExhausted => {
                    self.phase = ActorPhase::Closed;
                    let mut io = Vec::new();
                    io.push(IoAction::CloseWrite);
                    io.push(IoAction::StopInbound);
                    ActorStep { io, emit: Some(Event::Disconnect(self.id)) }
                },
                _ => ActorStep { io: Vec::new(), emit: None },
            },
            ActorPhase::Closed => ActorStep { io: Vec::new(), emit: None },
        }
    }
}

/// The phase of a connection after a run of inputs, oldest first.
pub open spec fn phase_after(inputs: Seq<ActorInput>) -> ActorPhase
    decreases inputs.len(),
{
    if inputs.len() == 0 {
        ActorPhase::Handshaking
    } else {
        transition(phase_after(inputs.drop_last()), inputs.last()).phase
    }
}

/// Everything a connection reports over a run of inputs, in order.
pub open spec fn reports(inputs: Seq<ActorInput>) -> Seq<Emission>
    decreases inputs.len(),
{
    if inputs.len() == 0 {
        Seq::empty()
    } else {
        let before = reports(inputs.drop_last());
        match transition(phase_after(inputs.drop_last()), inputs.last()).emit {
            Some(emission) => before.push(emission),
            None => before,
        }
    }
}

/// Whether an input finishes one of the two loops of an open connection.
pub open spec fn finishes(input: ActorInput) -> bool {
    input is ReadEnded || input is CommandsExhausted || input == ActorInput::Command(
        ResponderCommand::Close,
    )
}

/// The reports of one connection, whatever happens on it: a connect comes
/// first and only first; a disconnect comes last and only last, and never
/// first. So a connection reports at most one connect, at most one
/// disconnect, the disconnect never before the connect, and messages only
/// between the two. A closed connection that reported its connect has
/// reported its disconnect.
pub proof fn lemma_connection_lifecycle(inputs: Seq<ActorInput>)
    ensures
        forall|i: int|
            0 <= i < reports(inputs).len() ==> ((#[trigger] reports(inputs)[i]) is Connect <==> i
                == 0),
        forall|i: int|
            0 <= i < reports(inputs).len() && (#[trigger] reports(inputs)[i]) is Disconnect ==> i
                == reports(inputs).len() - 1,
        phase_after(inputs) is Handshaking ==> reports(inputs).len() == 0,
        phase_after(inputs) is Open ==> reports(inputs).len() > 0 && !(reports(
            inputs,
        ).last() is Disconnect),
        phase_after(inputs) is Closed ==> reports(inputs).len() == 0 || reports(
            inputs,
        ).last() is Disconnect,
    decreases inputs.len(),
{
    if inputs.len() > 0 {
        lemma_connection_lifecycle(inputs.drop_last());
    }
}

/// An open connection ends with the first input that finishes one of its
/// loops: it is closed from then on, whatever follows.
pub proof fn lemma_connection_ends(inputs: Seq<ActorInput>, k: int)
    requires
        0 <= k < inputs.len(),
        phase_after(inputs.take(k)) is Open,
        finishes(inputs[k]),
    ensures
        phase_after(inputs) is Closed,
        reports(inputs).len() > 0,
        reports(inputs).last() is Disconnect,
    decreases inputs.len(),
{
    lemma_connection_lifecycle(inputs);
    let front = inputs.drop_last();
    if k == inputs.len() - 1 {
        assert(inputs.take(k) == front);
    } else {
        assert(front.take(k) == inputs.take(k));
        lemma_connection_ends(front, k);
        lemma_connection_lifecycle(front);
    }
}

/// The phase of connection `id` after a run of inputs of many connections,
/// each input tagged with the connection it happened on.
pub open spec fn phase_of(tagged: Seq<(u64, ActorInput)>, id: u64) -> ActorPhase
    decreases tagged.len(),
{
    if tagged.len() == 0 {
        ActorPhase::Handshaking
    } else if tagged.last().0 == id {
        transition(phase_of(tagged.drop_last(), id), tagged.last().1).phase
    } else {
        phase_of(tagged.drop_last(), id)
    }
}

/// What arrives at the hub over a run of inputs of many connections: the
/// reports of all of them, each tagged with its connection, in the order in
/// which the inputs happened.
pub open spec fn hub_reports(tagged: Seq<(u64, ActorInput)>) -> Seq<(u64, Emission)>
    decreases tagged.len(),
{
    if tagged.len() == 0 {
        Seq::empty()
    } else {
        let before = hub_reports(tagged.drop_last());
        let (id, input) = tagged.last();
        match transition(phase_of(tagged.drop_last(), id), input).emit {
            Some(emission) => before.push((id, emission)),
            None => before,
        }
    }
}

spec fn silent(stream: Seq<(u64, Emission)>, id: u64) -> bool {
    forall|i: int| 0 <= i < stream.len() ==> (#[trigger] stream[i]).0 != id
}

spec fn opened_at(stream: Seq<(u64, Emission)>, id: u64, c: int) -> bool {
    &&& 0 <= c < stream.len()
    &&& stream[c] == (id, Emission::Connect)
    &&& forall|i: int|
        0 <= i < stream.len() && (#[trigger] stream[i]).0 == id && i != c ==> c < i
            && stream[i].1 is Message
}

spec fn closed_at(stream: Seq<(u64, Emission)>, id: u64, c: int, d: int) -> bool {
    &&& 0 <= c < d < stream.len()
    &&& stream[c] == (id, Emission::Connect)
    &&& stream[d] == (id, Emission::Disconnect)
    &&& forall|i: int|
        0 <= i < stream.len() && (#[trigger] stream[i]).0 == id && i != c && i != d ==> c < i < d
            && stream[i].1 is Message
}

spec fn stream_fits(stream: Seq<(u64, Emission)>, id: u64, phase: ActorPhase) -> bool {
    match phase {
        ActorPhase::Handshaking => silent(stream, id),
        ActorPhase::Open => exists|c: int| opened_at(stream, id, c),
        ActorPhase::Closed => silent(stream, id) || exists|c: int, d: int|
            closed_at(stream, id, c, d),
    }
}

proof fn lemma_stream_fits(tagged: Seq<(u64, ActorInput)>, id: u64)
    ensures
        stream_fits(hub_reports(tagged), id, phase_of(tagged, id)),
    decreases tagged.len(),
{
    if tagged.len() > 0 {
        let front = tagged.drop_last();
        let before = hub_reports(front);
        let after = hub_reports(tagged);
        let (actor, input) = tagged.last();
        lemma_stream_fits(front, id);
        let step = transition(phase_of(front, actor), input);
        if step.emit is None {
            assert(after == before);
        } else {
            let emission = step.emit->0;
            assert(after == before.push((actor, emission)));
            let n = before.len() as int;
            if actor != id {
                if exists|c: int| opened_at(before, id, c) {
                    let c = choose|c: int| opened_at(before, id, c);
                    assert(opened_at(after, id, c));
                }
                if exists|c: int, d: int| closed_at(before, id, c, d) {
                    let (c, d) = choose|c: int, d: int| closed_at(before, id, c, d);
                    assert(closed_at(after, id, c, d));
                }
            } else {
                match phase_of(front, id) {
                    ActorPhase::Handshaking => {
                        assert(opened_at(after, id, n));
                    },
                    ActorPhase::Open => {
                        let c = choose|c: int| opened_at(before, id, c);
                        if emission is Disconnect {
                            assert(closed_at(after, id, c, n));
                        } else {
                            assert(opened_at(after, id, c));
                        }
                    },
                    ActorPhase::Closed => {},
                }
            }
        }
    }
}

/// The stream that reaches the hub, however the connections interleave: of
/// each connection it holds at most one connect; a disconnect only after that
/// connect; nothing of the connection after its disconnect, so at most one
/// disconnect; and messages only after the connect. A connection that is
/// still handshaking has reported nothing; an open one has reported its
/// connect and no disconnect; a closed one that reported its connect has
/// reported its disconnect.
pub proof fn lemma_hub_lifecycle(tagged: Seq<(u64, ActorInput)>, id: u64)
    ensures
        forall|i: int, j: int|
            0 <= i < j < hub_reports(tagged).len() && #[trigger] hub_reports(tagged)[i] == (
                id,
                Emission::Connect,
            ) ==> #[trigger] hub_reports(tagged)[j] != (id, Emission::Connect),
        forall|j: int|
            0 <= j < hub_reports(tagged).len() && (#[trigger] hub_reports(tagged)[j]).0 == id
                && !(hub_reports(tagged)[j].1 is Connect) ==> exists|i: int|
                0 <= i < j && #[trigger] hub_reports(tagged)[i] == (id, Emission::Connect),
        forall|i: int, j: int|
            0 <= i < j < hub_reports(tagged).len() && #[trigger] hub_reports(tagged)[i] == (
                id,
                Emission::Disconnect,
            ) ==> (#[trigger] hub_reports(tagged)[j]).0 != id,
        phase_of(tagged, id) is Handshaking ==> forall|i: int|
            0 <= i < hub_reports(tagged).len() ==> (#[trigger] hub_reports(tagged)[i]).0 != id,
        phase_of(tagged, id) is Open ==> (exists|i: int|
            0 <= i < hub_reports(tagged).len() && #[trigger] hub_reports(tagged)[i] == (
                id,
                Emission::Connect,
            )) && forall|j: int|
            0 <= j < hub_reports(tagged).len() ==> #[trigger] hub_reports(tagged)[j] != (
                id,
                Emission::Disconnect,
            ),
        phase_of(tagged, id) is Closed && (exists|i: int|
            0 <= i < hub_reports(tagged).len() && #[trigger] hub_reports(tagged)[i] == (
                id,
                Emission::Connect,
            )) ==> exists|j: int|
            0 <= j < hub_reports(tagged).len() && #[trigger] hub_reports(tagged)[j] == (
                id,
                Emission::Disconnect,
            ),
{
    let stream = hub_reports(tagged);
    lemma_stream_fits(tagged, id);
    if exists|c: int| opened_at(stream, id, c) {
        let c = choose|c: int| opened_at(stream, id, c);
        assert(stream[c] == (id, Emission::Connect));
    }
    if exists|c: int, d: int| closed_at(stream, id, c, d) {
        let (c, d) = choose|c: int, d: int| closed_at(stream, id, c, d);
        assert(stream[c] == (id, Emission::Connect));
        assert(stream[d] == (id, Emission::Disconnect));
    }
}

} // verus!

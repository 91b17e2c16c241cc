use vstd::prelude::*;
use crate::bytes::{le32, le32_at, lemma_le32_round_trip, push_le32, read_le32};
use crate::input::MouseButton;
use crate::state::{Event, TimeSpan};

verus! {

/// The raw handles of the sending end of a channel: the pipe it writes to,
/// the event it signals when a message is written, and the event that the
/// receiver signals to acknowledge it.
#[derive(Clone, Copy, Debug, PartialEq, Eq, Structural)]
pub struct Sender {
    pub pipe: usize,
    pub send_event: usize,
    pub acknowledge_event: usize,
}

/// The raw handles of the receiving end of a channel.
#[derive(Clone, Copy, Debug, PartialEq, Eq, Structural)]
pub struct Receiver {
    pub pipe: usize,
    pub send_event: usize,
    pub acknowledge_event: usize,
}

/// The twelve bytes of three handles: each handle's low 32 bits, least
/// significant byte first.
pub open spec fn handles_bytes(pipe: usize, send_event: usize, acknowledge_event: usize) -> Seq<u8> {
    le32(pipe as u32) + le32(send_event as u32) + le32(acknowledge_event as u32)
}

/// Handles that fit in 32 bits, as every handle value handed between the
/// processes does.
pub open spec fn fits_u32(handle: usize) -> bool {
    handle <= u32::MAX
}

fn handles_to_bytes(pipe: usize, send_event: usize, acknowledge_event: usize) -> (bytes: [u8; 12])
    ensures
        bytes@ == handles_bytes(pipe, send_event, acknowledge_event),
{
    let mut v: Vec<u8> = Vec::new();
    push_le32(&mut v, pipe as u32);
    push_le32(&mut v, send_event as u32);
    push_le32(&mut v, acknowledge_event as u32);
    let bytes = [v[0], v[1], v[2], v[3], v[4], v[5], v[6], v[7], v[8], v[9], v[10], v[11]];
    assert(bytes@ =~= v@);
    bytes
}

impl Sender {
    /// The twelve bytes that stand for this sender in another process.
    pub fn serialize_to_bytes(&self) -> (bytes: [u8; 12])
        ensures
            bytes@ == handles_bytes(self.pipe, self.send_event, self.acknowledge_event),
    {
        handles_to_bytes(self.pipe, self.send_event, self.acknowledge_event)
    }

    /// The sender that twelve bytes stand for.
    pub fn deserialize_from_bytes(bytes: [u8; 12]) -> (sender: Self)
        ensures
            sender.pipe == le32_at(bytes@, 0) as usize,
            sender.send_event == le32_at(bytes@, 4) as usize,
            sender.acknowledge_event == le32_at(bytes@, 8) as usize,
    {
        let slice = bytes.as_slice();
        Sender {
            pipe: read_le32(slice, 0) as usize,
            send_event: read_le32(slice, 4) as usize,
            acknowledge_event: read_le32(slice, 8) as usize,
        }
    }
}

impl Receiver {
    /// The twelve bytes that stand for this receiver in another process.
    pub fn serialize_to_bytes(&self) -> (bytes: [u8; 12])
        ensures
            bytes@ == handles_bytes(self.pipe, self.send_event, self.acknowledge_event),
    {
        handles_to_bytes(self.pipe, self.send_event, self.acknowledge_event)
    }

    /// The receiver that twelve bytes stand for.
    pub fn deserialize_from_bytes(bytes: [u8; 12]) -> (receiver: Self)
        ensures
            receiver.pipe == le32_at(bytes@, 0) as usize,
            receiver.send_event == le32_at(bytes@, 4) as usize,
            receiver.acknowledge_event == le32_at(bytes@, 8) as usize,
    {
        let slice = bytes.as_slice();
        Receiver {
            pipe: read_le32(slice, 0) as usize,
            send_event: read_le32(slice, 4) as usize,
            acknowledge_event: read_le32(slice, 8) as usize,
        }
    }
}

proof fn lemma_handles_bytes_round_trip(pipe: usize, send_event: usize, acknowledge_event: usize)
    requires
        fits_u32(pipe),
        fits_u32(send_event),
        fits_u32(acknowledge_event),
    ensures
        le32_at(handles_bytes(pipe, send_event, acknowledge_event), 0) as usize == pipe,
        le32_at(handles_bytes(pipe, send_event, acknowledge_event), 4) as usize == send_event,
        le32_at(handles_bytes(pipe, send_event, acknowledge_event), 8) as usize == acknowledge_event,
{
    let b = handles_bytes(pipe, send_event, acknowledge_event);
    lemma_le32_round_trip(pipe as u32);
    lemma_le32_round_trip(send_event as u32);
    lemma_le32_round_trip(acknowledge_event as u32);
    assert(b.subrange(0, 4) =~= le32(pipe as u32));
    assert(b.subrange(4, 8) =~= le32(send_event as u32));
    assert(b.subrange(8, 12) =~= le32(acknowledge_event as u32));
    assert(le32_at(b, 0) == le32_at(b.subrange(0, 4), 0));
    assert(le32_at(b, 4) == le32_at(b.subrange(4, 8), 0));
    assert(le32_at(b, 8) == le32_at(b.subrange(8, 12), 0));
}

/// The sender that the twelve bytes at `at` stand for.
pub open spec fn sender_at(bytes: Seq<u8>, at: int) -> Sender {
    Sender {
        pipe: le32_at(bytes, at) as usize,
        send_event: le32_at(bytes, at + 4) as usize,
        acknowledge_event: le32_at(bytes, at + 8) as usize,
    }
}

/// The receiver that the twelve bytes at `at` stand for.
pub open spec fn receiver_at(bytes: Seq<u8>, at: int) -> Receiver {
    Receiver {
        pipe: le32_at(bytes, at) as usize,
        send_event: le32_at(bytes, at + 4) as usize,
        acknowledge_event: le32_at(bytes, at + 8) as usize,
    }
}

pub open spec fn sender_bytes(sender: Sender) -> Seq<u8> {
    handles_bytes(sender.pipe, sender.send_event, sender.acknowledge_event)
}

pub open spec fn receiver_bytes(receiver: Receiver) -> Seq<u8> {
    handles_bytes(receiver.pipe, receiver.send_event, receiver.acknowledge_event)
}

pub open spec fn sender_fits(sender: Sender) -> bool {
    fits_u32(sender.pipe) && fits_u32(sender.send_event) && fits_u32(sender.acknowledge_event)
}

pub open spec fn receiver_fits(receiver: Receiver) -> bool {
    fits_u32(receiver.pipe) && fits_u32(receiver.send_event) && fits_u32(
        receiver.acknowledge_event,
    )
}

/// A sender whose handles fit in 32 bits comes back unchanged from its bytes.
pub proof fn lemma_sender_round_trip(sender: Sender)
    requires
        sender_fits(sender),
    ensures
        sender_at(sender_bytes(sender), 0) == sender,
{
    lemma_handles_bytes_round_trip(sender.pipe, sender.send_event, sender.acknowledge_event);
}

/// A receiver whose handles fit in 32 bits comes back unchanged from its bytes.
pub proof fn lemma_receiver_round_trip(receiver: Receiver)
    requires
        receiver_fits(receiver),
    ensures
        receiver_at(receiver_bytes(receiver), 0) == receiver,
{
    lemma_handles_bytes_round_trip(receiver.pipe, receiver.send_event, receiver.acknowledge_event);
}

/// The handles read back from any twelve bytes give those bytes again.
pub proof fn lemma_bytes_round_trip(bytes: Seq<u8>)
    requires
        bytes.len() == 12,
    ensures
        sender_bytes(sender_at(bytes, 0)) == bytes,
        receiver_bytes(receiver_at(bytes, 0)) == bytes,
{
    crate::bytes::lemma_from_le32_round_trip(bytes[0], bytes[1], bytes[2], bytes[3]);
    crate::bytes::lemma_from_le32_round_trip(bytes[4], bytes[5], bytes[6], bytes[7]);
    crate::bytes::lemma_from_le32_round_trip(bytes[8], bytes[9], bytes[10], bytes[11]);
    let s = sender_at(bytes, 0);
    assert((s.pipe as u32) == le32_at(bytes, 0));
    assert((s.send_event as u32) == le32_at(bytes, 4));
    assert((s.acknowledge_event as u32) == le32_at(bytes, 8));
    assert(sender_bytes(s) =~= bytes);
    assert(receiver_bytes(receiver_at(bytes, 0)) =~= bytes);
}

/// The message with which the controlling process starts the hooks: the id
/// of the program's main thread and the ends of the four channels between the
/// two processes.
#[derive(Clone, Copy, Debug, PartialEq, Eq, Structural)]
pub struct ConductorInitialMessage {
    pub main_thread_id: u32,
    pub initialized_message_sender: Sender,
    pub log_message_sender: Sender,
    pub idle_message_sender: Sender,
    pub message_receiver: Receiver,
}

/// The length of a serialized initial message.
pub const INITIAL_MESSAGE_LEN: usize = 4 + 12 + 12 + 12 + 12;

/// The bytes of an initial message: the thread id, then the three senders and
/// the receiver, in field order.
pub open spec fn initial_message_bytes(
    main_thread_id: u32,
    initialized_message_sender: Sender,
    log_message_sender: Sender,
    idle_message_sender: Sender,
    message_receiver: Receiver,
) -> Seq<u8> {
    le32(main_thread_id) + sender_bytes(initialized_message_sender) + sender_bytes(
        log_message_sender,
    ) + sender_bytes(idle_message_sender) + receiver_bytes(message_receiver)
}

fn append_array(v: &mut Vec<u8>, a: [u8; 12])
    ensures
        final(v)@ == old(v)@ + a@,
{
    let mut i: usize = 0;
    let ghost start = v@;
    while i < 12
        invariant
            i <= 12,
            v@ == start + a@.take(i as int),
        decreases 12 - i,
    {
        v.push(a[i]);
        assert(a@.take(i + 1) =~= a@.take(i as int).push(a@[i as int]));
        i = i + 1;
    }
    assert(a@.take(12) =~= a@);
}

fn serialize_initial(
    main_thread_id: u32,
    initialized_message_sender: &Sender,
    log_message_sender: &Sender,
    idle_message_sender: &Sender,
    message_receiver: &Receiver,
) -> (bytes: Vec<u8>)
    ensures
        bytes@ == initial_message_bytes(
            main_thread_id,
            *initialized_message_sender,
            *log_message_sender,
            *idle_message_sender,
            *message_receiver,
        ),
{
    let mut bytes: Vec<u8> = Vec::new();
    push_le32(&mut bytes, main_thread_id);
    append_array(&mut bytes, initialized_message_sender.serialize_to_bytes());
    append_array(&mut bytes, log_message_sender.serialize_to_bytes());
    append_array(&mut bytes, idle_message_sender.serialize_to_bytes());
    append_array(&mut bytes, message_receiver.serialize_to_bytes());
    assert(bytes@ =~= initial_message_bytes(
        main_thread_id,
        *initialized_message_sender,
        *log_message_sender,
        *idle_message_sender,
        *message_receiver,
    ));
    bytes
}

fn array_at(bytes: &[u8], at: usize) -> (a: [u8; 12])
    requires
        at + 12 <= bytes@.len(),
    ensures
        a@ == bytes@.subrange(at as int, at + 12),
{
    let a = [
        bytes[at],
        bytes[at + 1],
        bytes[at + 2],
        bytes[at + 3],
        bytes[at + 4],
        bytes[at + 5],
        bytes[at + 6],
        bytes[at + 7],
        bytes[at + 8],
        bytes[at + 9],
        bytes[at + 10],
        bytes[at + 11],
    ];
    assert(a@ =~= bytes@.subrange(at as int, at + 12));
    a
}

/// The initial message that the first 52 bytes stand for.
pub open spec fn initial_message_at(bytes: Seq<u8>) -> ConductorInitialMessage {
    ConductorInitialMessage {
        main_thread_id: le32_at(bytes, 0),
        initialized_message_sender: sender_at(bytes, 4),
        log_message_sender: sender_at(bytes, 16),
        idle_message_sender: sender_at(bytes, 28),
        message_receiver: receiver_at(bytes, 40),
    }
}

fn deserialize_initial(bytes: &[u8]) -> (message: ConductorInitialMessage)
    requires
        bytes@.len() >= INITIAL_MESSAGE_LEN,
    ensures
        message == initial_message_at(bytes@),
{
    let initialized = Sender::deserialize_from_bytes(array_at(bytes, 4));
    let log = Sender::deserialize_from_bytes(array_at(bytes, 16));
    let idle = Sender::deserialize_from_bytes(array_at(bytes, 28));
    let receiver = Receiver::deserialize_from_bytes(array_at(bytes, 40));
    ConductorInitialMessage {
        main_thread_id: read_le32(bytes, 0),
        initialized_message_sender: initialized,
        log_message_sender: log,
        idle_message_sender: idle,
        message_receiver: receiver,
    }
}

impl ConductorInitialMessage {
    /// The 52 bytes that carry this message into the other process.
    pub fn serialize_to_bytes(&self) -> (bytes: Vec<u8>)
        ensures
            bytes@ == initial_message_bytes(
                self.main_thread_id,
                self.initialized_message_sender,
                self.log_message_sender,
                self.idle_message_sender,
                self.message_receiver,
            ),
    {
        serialize_initial(
            self.main_thread_id,
            &self.initialized_message_sender,
            &self.log_message_sender,
            &self.idle_message_sender,
            &self.message_receiver,
        )
    }

    /// The message that 52 bytes stand for.
    pub fn deserialize_from_bytes(bytes: &[u8; 52]) -> (message: Self)
        ensures
            message == initial_message_at(bytes@),
    {
        deserialize_initial(bytes.as_slice())
    }
}

/// A message whose handles fit in 32 bits comes back unchanged from its bytes.
pub proof fn lemma_initial_message_round_trip(message: ConductorInitialMessage)
    requires
        sender_fits(message.initialized_message_sender),
        sender_fits(message.log_message_sender),
        sender_fits(message.idle_message_sender),
        receiver_fits(message.message_receiver),
    ensures
        initial_message_bytes(
            message.main_thread_id,
            message.initialized_message_sender,
            message.log_message_sender,
            message.idle_message_sender,
            message.message_receiver,
        ).len() == INITIAL_MESSAGE_LEN,
        initial_message_at(
            initial_message_bytes(
                message.main_thread_id,
                message.initialized_message_sender,
                message.log_message_sender,
                message.idle_message_sender,
                message.message_receiver,
            ),
        ) == message,
{
    let b = initial_message_bytes(
        message.main_thread_id,
        message.initialized_message_sender,
        message.log_message_sender,
        message.idle_message_sender,
        message.message_receiver,
    );
    crate::bytes::lemma_le32_round_trip(message.main_thread_id);
    lemma_sender_round_trip(message.initialized_message_sender);
    lemma_sender_round_trip(message.log_message_sender);
    lemma_sender_round_trip(message.idle_message_sender);
    lemma_receiver_round_trip(message.message_receiver);
    assert(b.subrange(0, 4) =~= le32(message.main_thread_id));
    assert(b.subrange(4, 16) =~= sender_bytes(message.initialized_message_sender));
    assert(b.subrange(16, 28) =~= sender_bytes(message.log_message_sender));
    assert(b.subrange(28, 40) =~= sender_bytes(message.idle_message_sender));
    assert(b.subrange(40, 52) =~= receiver_bytes(message.message_receiver));
    assert(le32_at(b, 0) == le32_at(b.subrange(0, 4), 0));
    assert(sender_at(b, 4) == sender_at(b.subrange(4, 16), 0));
    assert(sender_at(b, 16) == sender_at(b.subrange(16, 28), 0));
    assert(sender_at(b, 28) == sender_at(b.subrange(28, 40), 0));
    assert(receiver_at(b, 40) == receiver_at(b.subrange(40, 52), 0));
}


/// The initial message as the hooks receive it (same layout as
/// `ConductorInitialMessage`).
#[derive(Clone, Copy, Debug, PartialEq, Eq, Structural)]
pub struct Initial {
    pub main_thread_id: u32,
    pub initialized_message_sender: Sender,
    pub log_message_sender: Sender,
    pub idle_message_sender: Sender,
    pub message_receiver: Receiver,
}

/// Why bytes could not be read as a message.
#[derive(Clone, Copy, Debug, PartialEq, Eq, Structural)]
pub enum DeserializeError {
    /// The bytes are not a valid encoding of the message.
    Bincode,
    /// The input ended before the message did.
    Io,
}

/// Why a message could not be turned into bytes.
#[derive(Clone, Copy, Debug, PartialEq, Eq, Structural)]
pub enum SerializeError {
    Bincode,
}

impl Initial {
    /// The bytes of the message (see `initial_message_bytes`).
    pub fn serialize(&self) -> (bytes: Vec<u8>)
        ensures
            bytes@ == initial_message_bytes(
                self.main_thread_id,
                self.initialized_message_sender,
                self.log_message_sender,
                self.idle_message_sender,
                self.message_receiver,
            ),
    {
        serialize_initial(
            self.main_thread_id,
            &self.initialized_message_sender,
            &self.log_message_sender,
            &self.idle_message_sender,
            &self.message_receiver,
        )
    }

    /// Reads the message from the start of `bytes`; bytes after it are left
    /// unread. Fails with `Io` when fewer than 52 bytes are given.
    pub fn deserialize(bytes: &[u8]) -> (result: Result<Self, DeserializeError>)
        ensures
            bytes@.len() < INITIAL_MESSAGE_LEN ==> result == Err::<Self, DeserializeError>(
                DeserializeError::Io,
            ),
            bytes@.len() >= INITIAL_MESSAGE_LEN ==> result == Ok::<Self, DeserializeError>(
                ({
                    let m = initial_message_at(bytes@);
                    Initial {
                        main_thread_id: m.main_thread_id,
                        initialized_message_sender: m.initialized_message_sender,
                        log_message_sender: m.log_message_sender,
                        idle_message_sender: m.idle_message_sender,
                        message_receiver: m.message_receiver,
                    }
                }),
            ),
    {
        if bytes.len() < INITIAL_MESSAGE_LEN {
            return Err(DeserializeError::Io);
        }
        let m = deserialize_initial(bytes);
        Ok(
            Initial {
                main_thread_id: m.main_thread_id,
                initialized_message_sender: m.initialized_message_sender,
                log_message_sender: m.log_message_sender,
                idle_message_sender: m.idle_message_sender,
                message_receiver: m.message_receiver,
            },
        )
    }
}

/// The length of the initial message that the hooks find in front of it: a
/// 32-bit count, least significant byte first.
pub fn initial_message_length(prefix: [u8; 4]) -> (length: u32)
    ensures
        length == le32_at(prefix@, 0),
{
    read_le32(prefix.as_slice(), 0)
}

/// A message from the controlling process to the hooks.
#[derive(Clone, Copy, Debug, PartialEq, Eq, Structural)]
pub enum FromConductor {
    Resume,
    AdvanceTime(TimeSpan),
    SetKeyState { id: u8, state: bool },
    SetMousePosition { x: u16, y: u16 },
    SetMouseButtonState { button: MouseButton, state: bool },
    IdleRequest { response_sender: Sender },
}

/// The form in which a `FromConductor` message is encoded: the sender of an
/// idle request travels as the low 32 bits of its three handles.
#[derive(Clone, Copy, Debug)]
pub enum FromConductorSerializable {
    Resume,
    AdvanceTime(TimeSpan),
    SetKeyState { id: u8, state: bool },
    SetMousePosition { x: u16, y: u16 },
    SetMouseButtonState { button: MouseButton, state: bool },
    IdleRequest { response_sender: (u32, u32, u32) },
}

pub open spec fn spec_to_serializable(message: FromConductor) -> FromConductorSerializable {
    match message {
        FromConductor::Resume => FromConductorSerializable::Resume,
        FromConductor::AdvanceTime(span) => FromConductorSerializable::AdvanceTime(span),
        FromConductor::SetKeyState { id, state } => FromConductorSerializable::SetKeyState {
            id,
            state,
        },
        FromConductor::SetMousePosition { x, y } => FromConductorSerializable::SetMousePosition {
            x,
            y,
        },
        FromConductor::SetMouseButtonState { button, state } =>
            FromConductorSerializable::SetMouseButtonState { button, state },
        FromConductor::IdleRequest { response_sender } => FromConductorSerializable::IdleRequest {
            response_sender: (
                response_sender.pipe as u32,
                response_sender.send_event as u32,
                response_sender.acknowledge_event as u32,
            ),
        },
    }
}

pub open spec fn spec_from_serializable(message: FromConductorSerializable) -> FromConductor {
    match message {
        FromConductorSerializable::Resume => FromConductor::Resume,
        FromConductorSerializable::AdvanceTime(span) => FromConductor::AdvanceTime(span),
        FromConductorSerializable::SetKeyState { id, state } => FromConductor::SetKeyState {
            id,
            state,
        },
        FromConductorSerializable::SetMousePosition { x, y } => FromConductor::SetMousePosition {
            x,
            y,
        },
        FromConductorSerializable::SetMouseButtonState { button, state } =>
            FromConductor::SetMouseButtonState { button, state },
        FromConductorSerializable::IdleRequest { response_sender } => FromConductor::IdleRequest {
            response_sender: Sender {
                pipe: response_sender.0 as usize,
                send_event: response_sender.1 as usize,
                acknowledge_event: response_sender.2 as usize,
            },
        },
    }
}

impl FromConductor {
    /// The form in which the message is encoded.
    pub fn to_serializable(&self) -> (serializable: FromConductorSerializable)
        ensures
            serializable == spec_to_serializable(*self),
    {
        match *self {
            FromConductor::Resume => FromConductorSerializable::Resume,
            FromConductor::AdvanceTime(span) => FromConductorSerializable::AdvanceTime(span),
            FromConductor::SetKeyState { id, state } => FromConductorSerializable::SetKeyState {
                id,
                state,
            },
            FromConductor::SetMousePosition { x, y } =>
                FromConductorSerializable::SetMousePosition { x, y },
            FromConductor::SetMouseButtonState { button, state } =>
                FromConductorSerializable::SetMouseButtonState { button, state },
            FromConductor::IdleRequest { response_sender } =>
                FromConductorSerializable::IdleRequest {
                response_sender: (
                    response_sender.pipe as u32,
                    response_sender.send_event as u32,
                    response_sender.acknowledge_event as u32,
                ),
            },
        }
    }

    /// The message that a decoded form stands for.
    pub fn from_serializable(serializable: FromConductorSerializable) -> (message: Self)
        ensures
            message == spec_from_serializable(serializable),
    {
        match serializable {
            FromConductorSerializable::Resume => FromConductor::Resume,
            FromConductorSerializable::AdvanceTime(span) => FromConductor::AdvanceTime(span),
            FromConductorSerializable::SetKeyState { id, state } => FromConductor::SetKeyState {
                id,
                state,
            },
            FromConductorSerializable::SetMousePosition { x, y } =>
                FromConductor::SetMousePosition { x, y },
            FromConductorSerializable::SetMouseButtonState { button, state } =>
                FromConductor::SetMouseButtonState { button, state },
            FromConductorSerializable::IdleRequest { response_sender } =>
                FromConductor::IdleRequest {
                response_sender: Sender {
                    pipe: response_sender.0 as usize,
                    send_event: response_sender.1 as usize,
                    acknowledge_event: response_sender.2 as usize,
                },
            },
        }
    }
}

/// Decoding the encoded form of a message gives the message back, when the
/// handles of an idle request's sender fit in 32 bits.
pub proof fn lemma_from_conductor_round_trip(message: FromConductor)
    requires
        message matches FromConductor::IdleRequest { response_sender } ==> sender_fits(
            response_sender,
        ),
    ensures
        spec_from_serializable(spec_to_serializable(message)) == message,
{
}

/// Encoding the message that an encoded form stands for gives that form back.
pub proof fn lemma_serializable_round_trip(serializable: FromConductorSerializable)
    ensures
        spec_to_serializable(spec_from_serializable(serializable)) == serializable,
{
}

/// What the hooks do with a message from the controlling process.
#[derive(Clone, Copy, Debug, PartialEq, Eq, Structural)]
pub enum HookCommand {
    /// Resume every thread of the program.
    ResumeThreads,
    /// Queue the event for the program's main thread.
    Enqueue(Event),
}

/// The hooks resume the program on `Resume` and queue every other message as
/// the event of the same name (an idle request as `Idle`).
pub fn command_for_message(message: &FromConductor) -> (command: HookCommand)
    ensures
        command == match *message {
            FromConductor::Resume => HookCommand::ResumeThreads,
            FromConductor::AdvanceTime(span) => HookCommand::Enqueue(Event::AdvanceTime(span)),
            FromConductor::SetKeyState { id, state } => HookCommand::Enqueue(
                Event::SetKeyState { id, state },
            ),
            FromConductor::SetMousePosition { x, y } => HookCommand::Enqueue(
                Event::SetMousePosition { x, y },
            ),
            FromConductor::SetMouseButtonState { button, state } => HookCommand::Enqueue(
                Event::SetMouseButtonState { button, state },
            ),
            FromConductor::IdleRequest { .. } => HookCommand::Enqueue(Event::Idle),
        },
{
    match *message {
        FromConductor::Resume => HookCommand::ResumeThreads,
        FromConductor::AdvanceTime(span) => HookCommand::Enqueue(Event::AdvanceTime(span)),
        FromConductor::SetKeyState { id, state } => HookCommand::Enqueue(
            Event::SetKeyState { id, state },
        ),
        FromConductor::SetMousePosition { x, y } => HookCommand::Enqueue(
            Event::SetMousePosition { x, y },
        ),
        FromConductor::SetMouseButtonState { button, state } => HookCommand::Enqueue(
            Event::SetMouseButtonState { button, state },
        ),
        FromConductor::IdleRequest { .. } => HookCommand::Enqueue(Event::Idle),
    }
}

/// A message from the controlling process, as the channel carries it.
#[derive(Clone, Copy, Debug, PartialEq, Eq, Structural)]
pub enum ConductorMessage {
    Resume,
    AdvanceTime(TimeSpan),
    SetKeyState { id: u8, state: bool },
    SetMousePosition { x: u16, y: u16 },
    SetMouseButtonState { button: MouseButton, state: bool },
    IdleRequest,
}

/// Severity of a log message from the hooks.
#[derive(Clone, Copy, Debug, PartialEq, Eq, Structural)]
pub enum LogLevel {
    Trace,
    Debug,
    Info,
    Warning,
    Error,
}

/// A log message from the hooks.
#[derive(Clone, Debug)]
pub struct Log {
    pub level: LogLevel,
    pub message: String,
}

/// A log message from the hooks, as the channel carries it.
#[derive(Clone, Debug)]
pub struct LogMessage {
    pub level: LogLevel,
    pub message: String,
}

/// The hooks report that they are installed.
#[derive(Clone, Copy, Debug, PartialEq, Eq, Structural)]
pub struct Initialized;

/// The hooks report that they are installed, as the channel carries it.
#[derive(Clone, Copy, Debug, PartialEq, Eq, Structural)]
pub struct InitializedMessage;

/// The hooks report that the program waits for time to advance.
#[derive(Clone, Copy, Debug, PartialEq, Eq, Structural)]
pub struct Idle;

/// The hooks report that the program is idle, as the channel carries it.
#[derive(Clone, Copy, Debug, PartialEq, Eq, Structural)]
pub struct IdleMessage;

} // verus!

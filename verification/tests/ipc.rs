use winter::input::MouseButton;
use winter::ipc::{
    command_for_message, initial_message_length, ConductorInitialMessage, DeserializeError,
    FromConductor, FromConductorSerializable, HookCommand, Initial, Receiver, Sender,
    INITIAL_MESSAGE_LEN,
};
use winter::state::{Event, TimeSpan};

fn sender(base: usize) -> Sender {
    Sender { pipe: base, send_event: base + 1, acknowledge_event: base + 2 }
}

#[test]
fn sender_bytes_are_little_endian_handles() {
    let s = Sender { pipe: 0x0403_0201, send_event: 0x0807_0605, acknowledge_event: 0x0c0b_0a09 };
    assert_eq!(s.serialize_to_bytes(), [1, 2, 3, 4, 5, 6, 7, 8, 9, 10, 11, 12]);
    assert_eq!(Sender::deserialize_from_bytes(s.serialize_to_bytes()), s);
    let r = Receiver { pipe: 0x10, send_event: 0x20, acknowledge_event: 0x30 };
    assert_eq!(r.serialize_to_bytes(), [0x10, 0, 0, 0, 0x20, 0, 0, 0, 0x30, 0, 0, 0]);
    assert_eq!(Receiver::deserialize_from_bytes(r.serialize_to_bytes()), r);
}

#[test]
fn handles_keep_their_low_32_bits() {
    let bytes = [0xff; 12];
    let s = Sender::deserialize_from_bytes(bytes);
    assert_eq!(s.pipe, 0xffff_ffff);
    assert_eq!(s.serialize_to_bytes(), bytes);
}

#[test]
fn conductor_initial_message_round_trip() {
    let message = ConductorInitialMessage {
        main_thread_id: 0x1234,
        initialized_message_sender: sender(0x100),
        log_message_sender: sender(0x200),
        idle_message_sender: sender(0x300),
        message_receiver: Receiver { pipe: 0x400, send_event: 0x401, acknowledge_event: 0x402 },
    };
    let bytes = message.serialize_to_bytes();
    assert_eq!(bytes.len(), INITIAL_MESSAGE_LEN);
    assert_eq!(&bytes[0..4], &[0x34, 0x12, 0, 0]);
    assert_eq!(&bytes[4..8], &[0x00, 0x01, 0, 0]);
    let array: [u8; 52] = bytes.clone().try_into().unwrap();
    assert_eq!(ConductorInitialMessage::deserialize_from_bytes(&array), message);
}

#[test]
fn initial_message_round_trip_and_short_input() {
    let initial = Initial {
        main_thread_id: 99,
        initialized_message_sender: sender(0x10),
        log_message_sender: sender(0x20),
        idle_message_sender: sender(0x30),
        message_receiver: Receiver { pipe: 0x40, send_event: 0x41, acknowledge_event: 0x42 },
    };
    let mut bytes = initial.serialize();
    assert_eq!(bytes.len(), 52);
    assert_eq!(Initial::deserialize(&bytes), Ok(initial));
    bytes.push(0xaa);
    assert_eq!(Initial::deserialize(&bytes), Ok(initial));
    assert_eq!(Initial::deserialize(&bytes[..51]), Err(DeserializeError::Io));
    assert_eq!(Initial::deserialize(&[]), Err(DeserializeError::Io));
}

#[test]
fn initial_message_length_prefix() {
    assert_eq!(initial_message_length([52, 0, 0, 0]), 52);
    assert_eq!(initial_message_length([0x01, 0x02, 0x03, 0x04]), 0x0403_0201);
}

#[test]
fn from_conductor_serializable_round_trip() {
    let messages = [
        FromConductor::Resume,
        FromConductor::AdvanceTime(TimeSpan { secs: 3, nanos: 7 }),
        FromConductor::SetKeyState { id: 0x20, state: true },
        FromConductor::SetMousePosition { x: 5, y: 6 },
        FromConductor::SetMouseButtonState { button: MouseButton::Middle, state: false },
        FromConductor::IdleRequest { response_sender: sender(0x500) },
    ];
    for message in messages {
        assert_eq!(FromConductor::from_serializable(message.to_serializable()), message);
    }
    let idle = FromConductor::IdleRequest { response_sender: sender(0x500) };
    match idle.to_serializable() {
        FromConductorSerializable::IdleRequest { response_sender } => {
            assert_eq!(response_sender, (0x500, 0x501, 0x502))
        }
        other => panic!("unexpected {:?}", other),
    }
}

#[test]
fn hook_commands_for_messages() {
    assert_eq!(command_for_message(&FromConductor::Resume), HookCommand::ResumeThreads);
    let span = TimeSpan { secs: 0, nanos: 16_666_667 };
    assert_eq!(
        command_for_message(&FromConductor::AdvanceTime(span)),
        HookCommand::Enqueue(Event::AdvanceTime(span))
    );
    assert_eq!(
        command_for_message(&FromConductor::SetKeyState { id: 1, state: false }),
        HookCommand::Enqueue(Event::SetKeyState { id: 1, state: false })
    );
    assert_eq!(
        command_for_message(&FromConductor::SetMousePosition { x: 1, y: 2 }),
        HookCommand::Enqueue(Event::SetMousePosition { x: 1, y: 2 })
    );
    assert_eq!(
        command_for_message(&FromConductor::SetMouseButtonState { button: MouseButton::X1, state: true }),
        HookCommand::Enqueue(Event::SetMouseButtonState { button: MouseButton::X1, state: true })
    );
    assert_eq!(
        command_for_message(&FromConductor::IdleRequest { response_sender: sender(1) }),
        HookCommand::Enqueue(Event::Idle)
    );
}

use mshell::frame::build_msg;
use mshell::frame::make_shell_frame;
use mshell::frame::visible_payload;
use mshell::frame::ShellDataFrame;
use mshell::frame::DEVICE_SHELL;
use mshell::frame::FLAG_EXCLUSIVE;
use mshell::frame::FLAG_MULTI;
use mshell::frame::FLAG_RESPOND;
use mshell::frame::PAYLOAD_CAPACITY;
use mshell::negotiate::Negotiation;
use mshell::negotiate::BAUD_FALLBACK;
use mshell::negotiate::BAUD_HIGH;
use mshell::relay::relay_step;
use mshell::relay::RelayAction;
use mshell::relay::RelayEvent;
use mshell::relay::RelayState;

#[test]
fn explicit_rate_is_the_only_candidate() {
    let mut neg = Negotiation::new(Some(115200));
    assert!(neg.pending());
    assert_eq!(neg.next_rate(), 115200);
    neg.record(false);
    assert_eq!(neg.result(), None);
    assert!(!neg.pending());
}

#[test]
fn explicit_rate_success() {
    let mut neg = Negotiation::new(Some(921600));
    assert_eq!(neg.next_rate(), 921600);
    neg.record(true);
    assert_eq!(neg.result(), Some(921600));
    assert!(!neg.pending());
}

#[test]
fn default_candidates_tried_in_order() {
    let mut neg = Negotiation::new(None);
    assert!(neg.pending());
    assert_eq!(neg.next_rate(), BAUD_HIGH);
    neg.record(false);
    assert!(neg.pending());
    assert_eq!(neg.next_rate(), BAUD_FALLBACK);
    neg.record(false);
    assert!(!neg.pending());
    assert_eq!(neg.result(), None);
}

#[test]
fn fallback_rate_succeeds_after_first_fails() {
    let opts = mshell::Options {
        port: String::from("/dev/ttyUSB0"),
        baudrate: None,
    };
    let mut neg = Negotiation::new(opts.baudrate);
    assert_eq!(neg.next_rate(), 3000000);
    neg.record(false);
    assert_eq!(neg.next_rate(), 57600);
    neg.record(true);
    assert_eq!(neg.result(), Some(57600));
    assert!(!neg.pending());
}

#[test]
fn first_candidate_success_stops_negotiation() {
    let mut neg = Negotiation::new(None);
    assert_eq!(neg.next_rate(), BAUD_HIGH);
    neg.record(true);
    assert_eq!(neg.result(), Some(BAUD_HIGH));
    assert!(!neg.pending());
}

#[test]
fn build_msg_sends_fixed_diagnostic_command() {
    let frame = build_msg(String::from("ls\n"));
    assert_eq!(frame.data, b"ver all\n".to_vec());
    assert_eq!(frame.count, 8);
    assert_eq!(frame.baudrate, 0);
    assert_eq!(frame.timeout, 0);
    assert_eq!(frame.device, DEVICE_SHELL);
    assert_eq!(frame.flags, FLAG_RESPOND | FLAG_EXCLUSIVE | FLAG_MULTI);
    assert_eq!(frame.flags, 22);
}

#[test]
fn short_payload_is_kept_whole() {
    let payload: Vec<u8> = b"echo hi\n".to_vec();
    let frame = make_shell_frame(&payload);
    assert_eq!(frame.count, 8);
    assert_eq!(frame.data, payload);
}

#[test]
fn long_payload_is_truncated_at_capacity() {
    let payload: Vec<u8> = vec![7u8; 100];
    let frame = make_shell_frame(&payload);
    assert_eq!(frame.count as usize, PAYLOAD_CAPACITY);
    assert_eq!(frame.data.len(), PAYLOAD_CAPACITY);
    assert_eq!(frame.data, payload[..PAYLOAD_CAPACITY].to_vec());
}

#[test]
fn payload_at_exact_capacity_fits() {
    let payload: Vec<u8> = vec![1u8; PAYLOAD_CAPACITY];
    let frame = make_shell_frame(&payload);
    assert_eq!(frame.count as usize, PAYLOAD_CAPACITY);
    assert_eq!(frame.data, payload);
}

#[test]
fn only_first_count_bytes_are_visible() {
    let mut data: Vec<u8> = b"ok\n".to_vec();
    data.extend_from_slice(&[0xAAu8; 67]);
    assert_eq!(data.len(), 70);
    let frame = ShellDataFrame {
        baudrate: 0,
        timeout: 0,
        device: DEVICE_SHELL,
        flags: 0,
        data,
        count: 3,
    };
    let shown = visible_payload(&frame);
    assert_eq!(shown, b"ok\n".to_vec());
}

#[test]
fn console_handles_only_counted_bytes() {
    let console = mshell::console::MavConsole::new();
    let frame = ShellDataFrame {
        baudrate: 0,
        timeout: 0,
        device: DEVICE_SHELL,
        flags: 0,
        data: b"hello\nXXX".to_vec(),
        count: 6,
    };
    let shown = console.handle_data(&frame);
    assert_eq!(shown, b"hello\n".to_vec());
}

#[test]
fn relay_line_then_shell_reply() {
    let (state, action) = relay_step(
        RelayState::AwaitingInput,
        RelayEvent::Line(String::from("ls\n")),
    );
    assert_eq!(state, RelayState::AwaitingReply);
    match action {
        RelayAction::Transmit(frame) => {
            assert_eq!(frame.data, b"ver all\n".to_vec());
            assert_eq!(frame.count, 8);
        }
        _ => panic!("a console line must be answered by one outbound frame"),
    }

    let reply = ShellDataFrame {
        baudrate: 0,
        timeout: 0,
        device: DEVICE_SHELL,
        flags: 0,
        data: vec![b'o', b'k', b'!', b'\n', 0u8],
        count: 5,
    };
    let (state, action) = relay_step(state, RelayEvent::Inbound(Some(reply)));
    assert_eq!(state, RelayState::AwaitingInput);
    match action {
        RelayAction::Display(shown) => {
            assert_eq!(shown.len(), 5);
            assert_eq!(&shown[..4], b"ok!\n");
            assert_eq!(shown, vec![b'o', b'k', b'!', b'\n', 0u8]);
        }
        _ => panic!("a shell reply must be displayed"),
    }
}

#[test]
fn reply_trailing_buffer_bytes_are_not_displayed() {
    let mut data: Vec<u8> = b"ok!\n".to_vec();
    data.push(0u8);
    data.extend_from_slice(&[0x55u8; 65]);
    let reply = ShellDataFrame {
        baudrate: 0,
        timeout: 0,
        device: DEVICE_SHELL,
        flags: 0,
        data,
        count: 4,
    };
    let (state, action) = relay_step(RelayState::AwaitingReply, RelayEvent::Inbound(Some(reply)));
    assert_eq!(state, RelayState::AwaitingInput);
    match action {
        RelayAction::Display(shown) => {
            assert_eq!(shown, b"ok!\n".to_vec());
        }
        _ => panic!("a shell reply must be displayed"),
    }
}

#[test]
fn unrelated_inbound_message_is_discarded() {
    let (state, action) = relay_step(
        RelayState::AwaitingInput,
        RelayEvent::Line(String::from("ls\n")),
    );
    assert_eq!(state, RelayState::AwaitingReply);
    assert!(matches!(action, RelayAction::Transmit(_)));

    let (state, action) = relay_step(state, RelayEvent::Inbound(None));
    assert_eq!(state, RelayState::AwaitingInput);
    assert!(matches!(action, RelayAction::Stay));

    let (state, action) = relay_step(state, RelayEvent::Line(String::from("pwd\n")));
    assert_eq!(state, RelayState::AwaitingReply);
    assert!(matches!(action, RelayAction::Transmit(_)));
}

#[test]
fn options_carry_port_and_rate() {
    let opts = mshell::Options {
        port: String::from("/dev/ttyUSB0"),
        baudrate: None,
    };
    assert_eq!(opts.port, "/dev/ttyUSB0");
    assert_eq!(opts.baudrate, None);
    let neg = Negotiation::new(opts.baudrate);
    assert_eq!(neg.next_rate(), BAUD_HIGH);
}

use cts2_obc::line_framer::LineFramer;
use cts2_obc::ring_buffer::RingBuffer;
use cts2_obc::telecommand::{DemoCommandWithArgumentsArgs, ParseError, Telecommand};
use cts2_obc::umbilical::{poll_uart_rx, process_umbilical_commands};

fn no_arguments(_payload: &str) -> Option<DemoCommandWithArgumentsArgs> {
    None
}

#[test]
fn commands_pushed_byte_by_byte_are_answered_in_order() {
    let mut ring = RingBuffer::new();
    let mut framer = LineFramer::new();
    for &byte in b"PING\nLED ON\nGARBAGE\n" {
        assert!(ring.push(byte));
    }

    let mut uplink = Vec::new();
    let served = process_umbilical_commands(&mut ring, &mut framer, no_arguments, &mut uplink);

    assert_eq!(uplink, b"PONG\r\nLED ON\r\nERR: unknown command\r\n");
    assert_eq!(
        served,
        vec![Ok(Telecommand::Ping), Ok(Telecommand::LedOn), Err(ParseError::Unknown)]
    );
    assert!(ring.is_empty());
    assert_eq!(framer.pending_len(), 0);
}

#[test]
fn each_command_is_answered_as_soon_as_its_line_is_complete() {
    let mut ring = RingBuffer::new();
    let mut framer = LineFramer::new();
    let mut answers: Vec<Vec<u8>> = Vec::new();
    for &byte in b"PING\nLED ON\nGARBAGE\n" {
        assert!(ring.push(byte));
        let mut uplink = Vec::new();
        let served = process_umbilical_commands(&mut ring, &mut framer, no_arguments, &mut uplink);
        assert_eq!(served.is_empty(), uplink.is_empty());
        if !uplink.is_empty() {
            answers.push(uplink);
        }
    }
    assert_eq!(
        answers,
        vec![b"PONG\r\n".to_vec(), b"LED ON\r\n".to_vec(), b"ERR: unknown command\r\n".to_vec()]
    );
}

#[test]
fn the_decoder_is_handed_the_payload_of_the_demonstration_command() {
    let args = DemoCommandWithArgumentsArgs {
        arg_u32: 5,
        arg_u64: 6,
        arg_bool: true,
        arg_f32_bits: 1.5f32.to_bits(),
        arg_f64_bits: 2.5f64.to_bits(),
        arg_nullable_u32: Some(7),
    };
    let decoder =
        |payload: &str| if payload == r#"{"go":1}"# { Some(args) } else { None };
    let mut ring = RingBuffer::new();
    let mut framer = LineFramer::new();
    assert_eq!(
        poll_uart_rx(
            &mut ring,
            b"demo_command_with_arguments( {\"go\":1} )\ndemo_command_with_arguments({})\nhello_world({\"go\":1})\n"
        ),
        0
    );
    let mut uplink = b"HEARTBEAT\r\n".to_vec();
    let served = process_umbilical_commands(&mut ring, &mut framer, decoder, &mut uplink);
    assert_eq!(
        served,
        vec![
            Ok(Telecommand::DemoCommandWithArguments(args)),
            Err(ParseError::Unknown),
            Ok(Telecommand::HelloWorld),
        ]
    );
    assert_eq!(
        uplink,
        b"HEARTBEAT\r\nDEMO COMMAND WITH ARGUMENTS EXECUTED. See RTT output for details.\r\nERR: unknown command\r\nHELLO WORLD\r\n"
    );
}

#[test]
fn polling_queues_what_was_received() {
    let mut ring = RingBuffer::new();
    assert_eq!(poll_uart_rx(&mut ring, b"PING\n"), 0);
    assert_eq!(ring.len(), 5);
    assert_eq!(poll_uart_rx(&mut ring, b""), 0);
    assert_eq!(ring.pop(), Some(b'P'));
    assert_eq!(ring.pop(), Some(b'I'));
    assert_eq!(ring.pop(), Some(b'N'));
    assert_eq!(ring.pop(), Some(b'G'));
    assert_eq!(ring.pop(), Some(b'\n'));
    assert_eq!(ring.pop(), None);
}

#[test]
fn polling_drops_what_does_not_fit() {
    let mut ring = RingBuffer::new();
    let received: Vec<u8> = (0..300u32).map(|i| (i % 200) as u8).collect();
    assert_eq!(poll_uart_rx(&mut ring, &received), 45);
    assert_eq!(ring.len(), 255);
    for &byte in &received[..255] {
        assert_eq!(ring.pop(), Some(byte));
    }
    assert_eq!(ring.pop(), None);

    assert_eq!(poll_uart_rx(&mut ring, &received[..256]), 1);
    assert_eq!(ring.len(), 255);
}

#[test]
fn a_line_that_is_not_complete_waits_for_its_end() {
    let mut ring = RingBuffer::new();
    let mut framer = LineFramer::new();
    let mut uplink = Vec::new();
    assert_eq!(poll_uart_rx(&mut ring, b"LED OFF  \nhello_wor"), 0);
    let served = process_umbilical_commands(&mut ring, &mut framer, no_arguments, &mut uplink);
    assert_eq!(served, vec![Ok(Telecommand::LedOff)]);
    assert!(ring.is_empty());
    assert_eq!(framer.pending_len(), 9);
    assert_eq!(poll_uart_rx(&mut ring, b"ld\n"), 0);
    let served = process_umbilical_commands(&mut ring, &mut framer, no_arguments, &mut uplink);
    assert_eq!(served, vec![Ok(Telecommand::HelloWorld)]);
    assert_eq!(uplink, b"LED OFF\r\nHELLO WORLD\r\n");
    let served = process_umbilical_commands(&mut ring, &mut framer, no_arguments, &mut uplink);
    assert_eq!(served, vec![]);
}

#[test]
fn lines_that_cannot_be_read_are_passed_over() {
    let mut ring = RingBuffer::new();
    let mut framer = LineFramer::new();
    let mut uplink = Vec::new();
    assert_eq!(poll_uart_rx(&mut ring, &[0xff, b'\n', b'\n', b'P', b'I', b'N', b'G', b'\n']), 0);
    let served = process_umbilical_commands(&mut ring, &mut framer, no_arguments, &mut uplink);
    assert_eq!(served, vec![Ok(Telecommand::Ping)]);
    assert_eq!(uplink, b"PONG\r\n");
}

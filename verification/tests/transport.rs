use std::collections::VecDeque;
use std::time::{Duration, Instant};

use ptouch::error::{usb_error, PtouchError, UsbFault};
use ptouch::status::{PrinterStatus, STATUS_PACKET_SIZE};
use ptouch::transport::{
    parse_status_packet, print_status_is_ready, receive_print_status,
    receive_print_status_with_timeout, PollAction, PollEvent, StatusFrameBuffer,
    PRINT_STATUS_POLL_TIMEOUT, PRINT_STATUS_TIMEOUT,
};

fn status_packet(status_type: u8, phase_type: u8) -> [u8; STATUS_PACKET_SIZE] {
    let mut packet = [0u8; STATUS_PACKET_SIZE];
    packet[0] = 0x80;
    packet[1] = 0x20;
    packet[18] = status_type;
    packet[19] = phase_type;
    packet
}

/// Waits for the printer: performs each action and hands back what came of it.
fn wait<F>(mut receive: F, timeout: Option<Duration>) -> Result<PrinterStatus, PtouchError>
where
    F: FnMut(&mut [u8], Duration) -> Result<usize, PtouchError>,
{
    let started = Instant::now();
    let mut frames = StatusFrameBuffer::new();
    let mut action = PollAction::ReadClock;
    loop {
        let event = match action {
            PollAction::ReadClock => PollEvent::Elapsed(started.elapsed().as_nanos()),
            PollAction::Receive(limit) => {
                let mut transfer = [0u8; STATUS_PACKET_SIZE];
                match receive(&mut transfer, Duration::from_nanos(limit as u64)) {
                    Ok(read) => PollEvent::Received(read, transfer),
                    Err(error) => PollEvent::Failed(error),
                }
            }
            PollAction::Finished(result) => return result,
        };
        action = match timeout {
            None => receive_print_status(&mut frames, event),
            Some(timeout) => {
                receive_print_status_with_timeout(&mut frames, event, timeout.as_nanos())
            }
        };
    }
}

#[test]
fn print_status_waits_until_reception_is_possible() {
    let mut packets = VecDeque::from([
        status_packet(0x06, 0x01),
        status_packet(0x01, 0x00),
        status_packet(0x06, 0x00),
    ]);

    let status = wait(
        |buf, _timeout| {
            let packet = packets.pop_front().ok_or(PtouchError::Timeout)?;
            buf.copy_from_slice(&packet);
            Ok(packet.len())
        },
        None,
    )
    .unwrap();

    assert_eq!(status.status_type, 0x06);
    assert_eq!(status.phase_type, 0x00);
    assert!(packets.is_empty());
}

#[test]
fn print_status_does_not_accept_printing_completed_as_ready() {
    let mut packets = VecDeque::from([status_packet(0x01, 0x00)]);

    let result = wait(
        |buf, _timeout| {
            let packet = packets.pop_front().ok_or(PtouchError::Timeout)?;
            buf.copy_from_slice(&packet);
            Ok(packet.len())
        },
        Some(Duration::from_millis(1)),
    );

    assert!(matches!(result, Err(PtouchError::Timeout)));
}

#[test]
fn print_status_propagates_printer_errors() {
    let mut packet = status_packet(0x02, 0x00);
    packet[8] = 0x04;

    let result = wait(
        |buf, _timeout| {
            buf.copy_from_slice(&packet);
            Ok(packet.len())
        },
        None,
    );

    assert!(matches!(
        result,
        Err(PtouchError::StatusError(message)) if message == "Cutter jam"
    ));
}

#[test]
fn print_status_propagates_power_off() {
    let packet = status_packet(0x04, 0x00);

    let result = wait(
        |buf, _timeout| {
            buf.copy_from_slice(&packet);
            Ok(packet.len())
        },
        None,
    );

    assert!(matches!(
        result,
        Err(PtouchError::StatusError(message)) if message == "Printer turned off"
    ));
}

#[test]
fn print_status_times_out_after_incomplete_packet() {
    let mut transfers = VecDeque::from([Ok(vec![0u8; 12]), Err(PtouchError::Timeout)]);

    let result = wait(
        |buf, _timeout| match transfers.pop_front().unwrap_or(Err(PtouchError::Timeout)) {
            Ok(transfer) => {
                buf[..transfer.len()].copy_from_slice(&transfer);
                Ok(transfer.len())
            }
            Err(error) => Err(error),
        },
        Some(Duration::from_millis(1)),
    );

    assert!(matches!(result, Err(PtouchError::Timeout)));
}

#[test]
fn print_status_ignores_zero_length_usb_transfers() {
    let mut transfers = VecDeque::from([
        Vec::new(),
        status_packet(0x06, 0x01).to_vec(),
        status_packet(0x01, 0x00).to_vec(),
        status_packet(0x06, 0x00).to_vec(),
    ]);

    let status = wait(
        |buf, _timeout| {
            let transfer = transfers.pop_front().ok_or(PtouchError::Timeout)?;
            buf[..transfer.len()].copy_from_slice(&transfer);
            Ok(transfer.len())
        },
        None,
    )
    .unwrap();

    assert!(status.is_waiting_to_receive());
    assert!(transfers.is_empty());
}

#[test]
fn print_status_accumulates_fragmented_packets() {
    let ready = status_packet(0x06, 0x00);
    let mut transfers = VecDeque::from([ready[..11].to_vec(), ready[11..].to_vec()]);

    let status = wait(
        |buf, _timeout| {
            let transfer = transfers.pop_front().ok_or(PtouchError::Timeout)?;
            buf[..transfer.len()].copy_from_slice(&transfer);
            Ok(transfer.len())
        },
        None,
    )
    .unwrap();

    assert!(status.is_waiting_to_receive());
    assert!(transfers.is_empty());
}

#[test]
fn status_frame_buffer_preserves_partial_next_packet() {
    let first = status_packet(0x01, 0x00);
    let second = status_packet(0x06, 0x00);
    let mut frames = StatusFrameBuffer::new();

    frames.push(&first[..9]);
    frames.push(&[first[9..].as_ref(), second[..7].as_ref()].concat());

    assert_eq!(frames.pop(), Some(first));
    assert_eq!(frames.len(), 7);

    frames.push(&second[7..]);
    assert_eq!(frames.pop(), Some(second));
    assert_eq!(frames.len(), 0);
}

#[test]
fn print_status_tolerates_transient_usb_timeouts() {
    let ready = status_packet(0x06, 0x00);
    let mut transfers = VecDeque::from([
        Err(PtouchError::Timeout),
        Err(PtouchError::Timeout),
        Ok(ready.to_vec()),
    ]);

    let status = wait(
        |buf, _timeout| match transfers.pop_front().ok_or(PtouchError::Timeout)? {
            Ok(transfer) => {
                buf[..transfer.len()].copy_from_slice(&transfer);
                Ok(transfer.len())
            }
            Err(error) => Err(error),
        },
        None,
    )
    .unwrap();

    assert!(status.is_waiting_to_receive());
    assert!(transfers.is_empty());
}

#[test]
fn consecutive_pages_each_wait_for_their_receiving_phase() {
    let mut transfers = VecDeque::from([
        status_packet(0x06, 0x01),
        status_packet(0x01, 0x00),
        status_packet(0x06, 0x00),
        status_packet(0x06, 0x01),
        status_packet(0x01, 0x00),
        status_packet(0x06, 0x00),
    ]);
    let mut receive = |buf: &mut [u8], _timeout: Duration| {
        let packet = transfers.pop_front().ok_or(PtouchError::Timeout)?;
        buf.copy_from_slice(&packet);
        Ok(packet.len())
    };

    let first = wait(&mut receive, None).unwrap();
    let second = wait(&mut receive, None).unwrap();

    assert!(first.is_waiting_to_receive());
    assert!(second.is_waiting_to_receive());
    assert!(transfers.is_empty());
}

#[test]
fn print_status_has_an_overall_deadline() {
    let result = wait(|_, _| Ok(0), Some(Duration::ZERO));

    assert!(matches!(result, Err(PtouchError::Timeout)));
}

#[test]
fn reads_wait_no_longer_than_the_time_that_is_left() {
    let mut frames = StatusFrameBuffer::new();
    let action = receive_print_status(&mut frames, PollEvent::Elapsed(0));
    assert!(matches!(action, PollAction::Receive(250_000_000)));
    assert_eq!(PRINT_STATUS_POLL_TIMEOUT, 250_000_000);

    let late = PRINT_STATUS_TIMEOUT - 7;
    let action = receive_print_status(&mut frames, PollEvent::Elapsed(late));
    assert!(matches!(action, PollAction::Receive(7)));

    let action = receive_print_status(&mut frames, PollEvent::Elapsed(PRINT_STATUS_TIMEOUT));
    assert!(matches!(action, PollAction::Receive(0)));

    let action = receive_print_status(&mut frames, PollEvent::Elapsed(PRINT_STATUS_TIMEOUT + 1));
    assert!(matches!(action, PollAction::Finished(Err(PtouchError::Timeout))));
}

#[test]
fn a_transfer_larger_than_its_buffer_is_an_error() {
    let mut frames = StatusFrameBuffer::new();
    let event = PollEvent::Received(33, [0u8; STATUS_PACKET_SIZE]);
    match receive_print_status(&mut frames, event) {
        PollAction::Finished(Err(PtouchError::StatusError(text))) => {
            assert_eq!(text, "USB read reported 33 bytes for a 32-byte buffer")
        }
        _ => panic!("expected an error"),
    }
}

#[test]
fn usb_faults_end_the_wait() {
    let result = wait(|_, _| Err(PtouchError::UsbError(UsbFault::NoDevice)), None);
    assert!(matches!(result, Err(PtouchError::UsbError(UsbFault::NoDevice))));
}

#[test]
fn packets_across_any_transfer_boundary_decide_the_same() {
    let mut stream = status_packet(0x06, 0x01).to_vec();
    stream.extend_from_slice(&status_packet(0x01, 0x00));
    stream.extend_from_slice(&status_packet(0x06, 0x00));
    for step in 1..=STATUS_PACKET_SIZE {
        let mut transfers: VecDeque<Vec<u8>> = stream.chunks(step).map(|c| c.to_vec()).collect();
        let status = wait(
            |buf, _timeout| {
                let transfer = transfers.pop_front().ok_or(PtouchError::Timeout)?;
                buf[..transfer.len()].copy_from_slice(&transfer);
                Ok(transfer.len())
            },
            None,
        )
        .unwrap();
        assert!(status.is_waiting_to_receive());
        assert!(transfers.is_empty());
    }
}

#[test]
fn a_header_that_is_no_status_header_is_refused() {
    let mut packet = status_packet(0x06, 0x00);
    packet[0] = 0x7f;
    packet[1] = 0x0a;
    match parse_status_packet(&packet, "Invalid status header") {
        Err(PtouchError::StatusError(text)) => {
            assert_eq!(text, "Invalid status header: mark=0x7f size=0x0a")
        }
        _ => panic!("expected an error"),
    }
    match wait(
        |buf, _timeout| {
            buf.copy_from_slice(&packet);
            Ok(packet.len())
        },
        None,
    ) {
        Err(PtouchError::StatusError(text)) => {
            assert_eq!(text, "Invalid status header after print: mark=0x7f size=0x0a")
        }
        _ => panic!("expected an error"),
    }
}

#[test]
fn readiness_follows_type_and_phase() {
    let status = |kind, phase| PrinterStatus::from_bytes(&status_packet(kind, phase)).unwrap();
    assert!(matches!(print_status_is_ready(&status(0x06, 0x00)), Ok(true)));
    assert!(matches!(print_status_is_ready(&status(0x06, 0x01)), Ok(false)));
    assert!(matches!(print_status_is_ready(&status(0x00, 0x00)), Ok(false)));
    assert!(matches!(
        print_status_is_ready(&status(0x02, 0x00)),
        Err(PtouchError::StatusError(text)) if text == "Printer reported an unspecified error"
    ));
}

#[test]
fn error_bits_are_named_in_order() {
    let mut packet = status_packet(0x02, 0x00);
    packet[8] = 0x05;
    packet[9] = 0x10;
    let status = PrinterStatus::from_bytes(&packet).unwrap();
    assert!(status.has_error());
    assert_eq!(status.error_description(), "No media, Cutter jam, Cover open");
    packet[8] = 0x20;
    packet[9] = 0;
    let status = PrinterStatus::from_bytes(&packet).unwrap();
    assert!(status.has_error());
    assert_eq!(status.error_description(), "Unknown error");
    assert!(PrinterStatus::from_bytes(&packet[..31]).is_none());
}

#[test]
fn a_time_limit_is_told_from_other_faults() {
    assert!(matches!(usb_error(UsbFault::Timeout), PtouchError::Timeout));
    assert!(matches!(usb_error(UsbFault::Pipe), PtouchError::UsbError(UsbFault::Pipe)));
}

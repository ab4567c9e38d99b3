use std::collections::VecDeque;

use ptouch::device::{find_device, DeviceFlags, DeviceInfo, BROTHER_VENDOR_ID};
use ptouch::error::{PtouchError, UsbFault};
use ptouch::printer::{
    find_bulk_endpoints, DeviceAction, DeviceEvent, Operation, PtouchDevice, UsbEndpoint,
    FEED_LINES, STATUS_RETRY_DELAY, USB_FLUSH_TIMEOUT, USB_INTERFACE, USB_TIMEOUT,
};
use ptouch::protocol::{cmd_init, rasterline_blank, Command, PrintQuality};
use ptouch::tape::{find_tape, TapeInfo};

const PLAIN: DeviceFlags = DeviceFlags {
    plite: false,
    unsup_raster: false,
    auto_status_notification: false,
    legacy_hires: false,
    wait_for_receive_ready: false,
};

fn model(pid: u16, name: &str, flags: DeviceFlags) -> DeviceInfo {
    DeviceInfo {
        vid: BROTHER_VENDOR_ID,
        pid,
        name: name.to_string(),
        max_px: 128,
        dpi: 180,
        flags,
    }
}

fn table() -> Vec<DeviceInfo> {
    vec![
        model(1, "Plain", PLAIN),
        model(2, "Drive", DeviceFlags { plite: true, ..PLAIN }),
        model(3, "Lines", DeviceFlags { unsup_raster: true, ..PLAIN }),
        model(
            4,
            "Ready",
            DeviceFlags {
                auto_status_notification: true,
                legacy_hires: true,
                wait_for_receive_ready: true,
                ..PLAIN
            },
        ),
    ]
}

fn tapes() -> Vec<TapeInfo> {
    vec![
        TapeInfo { width_mm: 12, dpi: 180, pixels: 76 },
        TapeInfo { width_mm: 24, dpi: 180, pixels: 128 },
        TapeInfo { width_mm: 36, dpi: 180, pixels: 192 },
    ]
}

fn endpoint(interface_number: u8, bulk: bool, input: bool, address: u8) -> UsbEndpoint {
    UsbEndpoint { interface_number, bulk, input, address }
}

fn endpoints() -> Vec<UsbEndpoint> {
    vec![endpoint(0, true, true, 0x81), endpoint(0, true, false, 0x02)]
}

fn open(pid: u16) -> PtouchDevice {
    PtouchDevice::open(&table(), BROTHER_VENDOR_ID, pid, &endpoints()).unwrap()
}

fn packet(media_width: u8, status_type: u8, phase_type: u8) -> [u8; 32] {
    let mut packet = [0u8; 32];
    packet[0] = 0x80;
    packet[1] = 0x20;
    packet[10] = media_width;
    packet[18] = status_type;
    packet[19] = phase_type;
    packet
}

fn bytes(data: &[u8]) -> DeviceEvent {
    let mut buffer = [0u8; 32];
    buffer[..data.len()].copy_from_slice(data);
    DeviceEvent::Received(Ok(data.len()), buffer)
}

fn failure(error: PtouchError) -> DeviceEvent {
    DeviceEvent::Received(Err(error), [0u8; 32])
}

/// Runs an operation. Transfers come from the script; everything else succeeds.
fn drive(
    device: &mut PtouchDevice,
    start: (Operation, DeviceAction),
    script: Vec<DeviceEvent>,
) -> (Vec<String>, Result<(), PtouchError>) {
    let mut script = VecDeque::from(script);
    let mut log = Vec::new();
    let (mut operation, mut action) = start;
    loop {
        let event = match action {
            DeviceAction::FlushInput => {
                log.push("flush".to_string());
                DeviceEvent::Flushed
            }
            DeviceAction::Send(command) => {
                log.push(format!("send {:?}", command));
                DeviceEvent::Sent(Ok(()))
            }
            DeviceAction::Pause => DeviceEvent::Paused,
            DeviceAction::ReadClock => DeviceEvent::Elapsed(0),
            DeviceAction::Receive(limit) => {
                log.push(format!("receive {}", limit));
                script.pop_front().unwrap()
            }
            DeviceAction::Done(result) => {
                assert!(script.is_empty());
                return (log, result);
            }
        };
        let next = device.advance(operation, event, &tapes());
        operation = next.0;
        action = next.1;
    }
}

#[test]
fn only_printers_for_raster_data_are_opened() {
    let devices = table();
    let device = open(1);
    assert_eq!(device.device_info().name, "Plain");
    assert_eq!(device.flags(), PLAIN);
    assert_eq!(device.max_px(), 128);
    assert_eq!(device.endpoints(), (0x02, 0x81));
    assert!(device.status().is_none());
    assert_eq!(device.tape_width_px(), None);
    assert!(!device.is_initialized());

    let open = |pid| PtouchDevice::open(&devices, BROTHER_VENDOR_ID, pid, &endpoints());
    assert!(matches!(open(2), Err(PtouchError::PLiteMode(name)) if name == "Drive"));
    assert!(matches!(open(3), Err(PtouchError::UnsupportedRaster(name)) if name == "Lines"));
    assert!(matches!(open(9), Err(PtouchError::DeviceNotFound)));
    let none = PtouchDevice::open(&devices, BROTHER_VENDOR_ID, 1, &vec![]);
    assert!(matches!(none, Err(PtouchError::DeviceNotFound)));
    assert!(find_device(&devices, 0x1234, 1).is_none());
    assert_eq!(find_device(&devices, BROTHER_VENDOR_ID, 4).unwrap().name, "Ready");
}

#[test]
fn the_first_printer_that_can_be_opened_is_picked() {
    let devices = table();
    let brother = |pid| Some((BROTHER_VENDOR_ID, pid));
    let bus = vec![None, Some((0x1234, 1)), brother(2), brother(3), brother(4), brother(1)];
    assert_eq!(
        PtouchDevice::open_first(&devices, &bus).unwrap(),
        (BROTHER_VENDOR_ID, 4)
    );
    let bus = vec![None, brother(2), brother(3)];
    assert!(matches!(
        PtouchDevice::open_first(&devices, &bus),
        Err(PtouchError::DeviceNotFound)
    ));
}

#[test]
fn bulk_endpoints_of_the_printer_interface_are_found() {
    assert_eq!(USB_INTERFACE, 0);
    let all = vec![
        endpoint(1, true, true, 0x88),
        endpoint(0, false, true, 0x83),
        endpoint(0, true, true, 0x81),
        endpoint(0, true, false, 0x02),
        endpoint(0, true, false, 0x04),
        endpoint(1, true, false, 0x09),
    ];
    assert_eq!(find_bulk_endpoints(&all).unwrap(), (0x04, 0x81));
    assert!(matches!(
        find_bulk_endpoints(&vec![endpoint(0, true, true, 0x81)]),
        Err(PtouchError::DeviceNotFound)
    ));
}

#[test]
fn initialization_resets_reads_the_status_and_switches_notification_on() {
    let mut device = open(4);
    let start = device.init();
    let (log, result) = drive(&mut device, start, vec![bytes(&packet(24, 0, 0))]);
    assert!(result.is_ok());
    assert_eq!(
        log,
        vec![
            "flush",
            "send Init",
            "send StatusRequest",
            "receive 5000000000",
            "send AutoStatusNotification(true)",
        ]
    );
    assert!(device.is_initialized());
    assert_eq!(device.endpoints(), (0x02, 0x81));
    assert_eq!(device.device_info().name, "Ready");
    assert_eq!(device.status().unwrap().media_width, 24);
    assert_eq!(device.tape_width_px(), Some(128));
}

#[test]
fn only_a_status_that_was_asked_for_is_read_by_a_query() {
    let mut device = open(1);
    let (operation, _) = device.get_status();
    assert!(!operation.reads_status());
    let (operation, _) = device.advance(operation, DeviceEvent::Sent(Ok(())), &tapes());
    assert!(!operation.reads_status());
    let (operation, _) = device.advance(operation, DeviceEvent::Paused, &tapes());
    assert!(operation.reads_status());
}

#[test]
fn a_query_sends_no_reset() {
    let mut device = open(1);
    let start = device.query_status();
    let (log, result) = drive(&mut device, start, vec![bytes(&packet(12, 0, 0))]);
    assert!(result.is_ok());
    assert_eq!(log, vec!["flush", "send StatusRequest", "receive 5000000000"]);
    assert!(!device.is_initialized());
    assert_eq!(device.tape_width_px(), Some(76));
}

#[test]
fn tapes_are_no_wider_than_the_print_head() {
    let mut device = open(1);
    let start = device.get_status();
    let (_, result) = drive(&mut device, start, vec![bytes(&packet(36, 0, 0))]);
    assert!(result.is_ok());
    assert_eq!(device.tape_width_px(), Some(128));
    let start = device.get_status();
    let (_, result) = drive(&mut device, start, vec![bytes(&packet(99, 0, 0))]);
    assert!(result.is_ok());
    assert_eq!(device.tape_width_px(), None);
    assert!(find_tape(&tapes(), 99, 180).is_none());
    assert_eq!(find_tape(&tapes(), 12, 180).unwrap().pixels, 76);
}

#[test]
fn a_status_is_put_together_from_fragments() {
    let whole = packet(12, 0, 0);
    let mut device = open(1);
    let start = device.get_status();
    let script = vec![
        bytes(&[]),
        bytes(&whole[..10]),
        failure(PtouchError::Timeout),
        bytes(&whole[10..]),
    ];
    let (_, result) = drive(&mut device, start, script);
    assert!(result.is_ok());
    assert_eq!(device.status().unwrap().media_width, 12);
}

#[test]
fn a_silent_printer_is_given_up_after_ten_reads() {
    let mut device = open(1);
    let start = device.get_status();
    let mut script = vec![bytes(&[0x80; 5])];
    for _ in 0..9 {
        script.push(failure(PtouchError::Timeout));
    }
    let (log, result) = drive(&mut device, start, script);
    assert!(matches!(
        result,
        Err(PtouchError::StatusError(text))
            if text == "Status packet too short: 5 bytes (expected 32)"
    ));
    assert_eq!(log.iter().filter(|l| l.starts_with("receive")).count(), 10);
    assert_eq!(log.last().unwrap(), "flush");
    assert!(device.status().is_none());
    assert_eq!(STATUS_RETRY_DELAY, 100_000_000);
    assert_eq!(USB_FLUSH_TIMEOUT, 100_000_000);
    assert_eq!(USB_TIMEOUT, 5_000_000_000);
}

#[test]
fn a_failed_status_read_changes_nothing() {
    let mut device = open(1);
    let start = device.get_status();
    let (_, result) = drive(&mut device, start, vec![bytes(&packet(12, 0, 0))]);
    assert!(result.is_ok());
    let start = device.get_status();
    let (log, result) = drive(&mut device, start, vec![bytes(&[0u8; 32])]);
    assert!(matches!(
        result,
        Err(PtouchError::StatusError(text))
            if text == "Invalid status header: mark=0x00 size=0x00"
    ));
    assert_eq!(log.last().unwrap(), "flush");
    let start = device.get_status();
    let lost = failure(PtouchError::UsbError(UsbFault::NoDevice));
    let (_, result) = drive(&mut device, start, vec![lost]);
    assert!(matches!(result, Err(PtouchError::UsbError(UsbFault::NoDevice))));
    assert_eq!(device.status().unwrap().media_width, 12);
    assert_eq!(device.tape_width_px(), Some(76));
}

#[test]
fn a_printer_has_to_be_initialized_to_print() {
    let device = open(1);
    assert!(matches!(
        device.print_raster(false, false, PrintQuality::Standard),
        Err(PtouchError::NotInitialized)
    ));
    assert!(matches!(device.feed_and_cut(), Err(PtouchError::NotInitialized)));
}

fn initialized(pid: u16) -> PtouchDevice {
    let mut device = open(pid);
    let start = device.init();
    let (_, result) = drive(&mut device, start, vec![bytes(&packet(12, 0, 0))]);
    assert!(result.is_ok());
    device
}

#[test]
fn quality_modes_take_a_printer_that_has_them() {
    let device = initialized(1);
    assert!(matches!(
        device.print_raster(false, false, PrintQuality::High),
        Err(PtouchError::UnsupportedQuality(name)) if name == "Plain"
    ));
    let device = initialized(4);
    let plan = device.print_raster(true, true, PrintQuality::High).unwrap();
    let options = plan.options();
    assert_eq!(options.media_width, 12);
    assert!(options.chain_print);
    assert!(options.precut);
    assert_eq!(options.quality, PrintQuality::High);
}

#[test]
fn chunks_are_sent_in_order_and_the_printer_is_waited_for() {
    let mut device = initialized(4);
    let plan = device.print_raster(false, false, PrintQuality::Standard).unwrap();
    let start = device.send_job(plan, vec![vec![1, 2], vec![3]]);
    let script = vec![
        bytes(&packet(12, 0x06, 0x01)),
        bytes(&packet(12, 0x01, 0x00)),
        bytes(&packet(24, 0x06, 0x00)),
    ];
    let (log, result) = drive(&mut device, start, script);
    assert!(result.is_ok());
    assert_eq!(
        log,
        vec![
            "send Chunk([1, 2])",
            "send Chunk([3])",
            "receive 250000000",
            "receive 250000000",
            "receive 250000000",
        ]
    );
    assert!(device.status().unwrap().is_waiting_to_receive());
    assert_eq!(device.status().unwrap().media_width, 24);
    assert_eq!(device.tape_width_px(), Some(76));
}

#[test]
fn a_chunk_that_cannot_be_sent_ends_the_job() {
    let mut device = initialized(1);
    let plan = device.print_raster(false, false, PrintQuality::Standard).unwrap();
    let (operation, action) = device.send_job(plan, vec![vec![1], vec![2]]);
    assert!(matches!(action, DeviceAction::Send(Command::Chunk(chunk)) if chunk == vec![1]));
    let failed = DeviceEvent::Sent(Err(PtouchError::Timeout));
    let (_, action) = device.advance(operation, failed, &tapes());
    assert!(matches!(action, DeviceAction::Done(Err(PtouchError::Timeout))));
}

#[test]
fn other_printers_are_read_once_after_a_job() {
    let run = |event: DeviceEvent| {
        let mut device = initialized(1);
        let plan = device.print_raster(false, false, PrintQuality::Standard).unwrap();
        let start = device.send_job(plan, vec![vec![1]]);
        let (log, result) = drive(&mut device, start, vec![event]);
        assert_eq!(log, vec!["send Chunk([1])", "receive 5000000000"]);
        (device, result)
    };
    let (device, result) = run(bytes(&packet(24, 0x01, 0)));
    assert!(result.is_ok());
    assert_eq!(device.status().unwrap().media_width, 24);
    let (device, result) = run(bytes(&[1, 2, 3]));
    assert!(result.is_ok());
    assert_eq!(device.status().unwrap().media_width, 12);
    let (_, result) = run(failure(PtouchError::Timeout));
    assert!(result.is_ok());
    let (_, result) = run(failure(PtouchError::UsbError(UsbFault::Io)));
    assert!(matches!(result, Err(PtouchError::UsbError(UsbFault::Io))));
    let mut jam = packet(12, 0x02, 0);
    jam[8] = 0x04;
    let (_, result) = run(bytes(&jam));
    assert!(matches!(result, Err(PtouchError::StatusError(text)) if text == "Cutter jam"));
}

#[test]
fn feeding_prints_a_few_blank_lines() {
    let mut device = initialized(1);
    let (plan, lines) = device.feed_and_cut().unwrap();
    assert!(FEED_LINES > 1);
    assert_eq!(lines, vec![vec![0u8; 16]; FEED_LINES]);
    assert!(!plan.options().chain_print);
    assert_eq!(plan.options().media_width, 12);
    let start = device.send_job(plan, lines);
    let (log, result) = drive(&mut device, start, vec![]);
    assert!(result.is_ok());
    assert_eq!(log.len(), FEED_LINES);
    assert!(log.iter().all(|l| l.starts_with("send Chunk")));
    assert_eq!(device.status().unwrap().media_width, 12);

    let mut device = initialized(4);
    let (plan, lines) = device.feed_and_cut().unwrap();
    let start = device.send_job(plan, lines);
    let (_, result) = drive(&mut device, start, vec![bytes(&packet(12, 0x06, 0x00))]);
    assert!(result.is_ok());
    assert!(device.status().unwrap().is_waiting_to_receive());
}

#[test]
fn transfers_are_judged_by_their_length() {
    let device = open(1);
    assert!(device.send(&[1, 2, 3], Ok(3)).is_ok());
    assert!(matches!(
        device.send(&[1, 2, 3], Ok(2)),
        Err(PtouchError::SendFailed(text)) if text == "Expected to write 3 bytes, wrote 2"
    ));
    assert!(matches!(
        device.send(&[1], Err(UsbFault::Timeout)),
        Err(PtouchError::Timeout)
    ));
    assert!(matches!(
        device.send(&[1], Err(UsbFault::Pipe)),
        Err(PtouchError::UsbError(UsbFault::Pipe))
    ));
    assert!(matches!(device.receive(Ok(7)), Ok(7)));
    assert!(matches!(device.receive(Err(UsbFault::Timeout)), Err(PtouchError::Timeout)));
    assert!(device.flush_input(Ok(64)));
    assert!(!device.flush_input(Ok(0)));
    assert!(!device.flush_input(Err(UsbFault::Timeout)));
}

#[test]
fn closing_reports_whether_the_interface_was_released() {
    assert!(open(1).close(Ok(())).is_ok());
    assert!(matches!(
        open(1).close(Err(UsbFault::Busy)),
        Err(PtouchError::UsbError(UsbFault::Busy))
    ));
}

#[test]
fn a_reset_is_a_hundred_zeros_and_escape_at() {
    let reset = cmd_init();
    assert_eq!(reset.len(), 102);
    assert!(reset[..100].iter().all(|b| *b == 0));
    assert_eq!(&reset[100..], &[0x1b, 0x40]);
    assert_eq!(rasterline_blank(129), vec![0u8; 17]);
}

#[test]
fn a_packet_in_the_tenth_read_is_accepted() {
    let whole = packet(24, 0, 0);
    let mut device = open(1);
    let start = device.get_status();
    let mut script = vec![bytes(&whole[..31])];
    for _ in 0..8 {
        script.push(failure(PtouchError::Timeout));
    }
    script.push(bytes(&whole[31..]));
    let (log, result) = drive(&mut device, start, script);
    assert!(result.is_ok());
    assert_eq!(log.iter().filter(|l| l.starts_with("receive")).count(), 10);
    assert_eq!(device.status().unwrap().media_width, 24);
}

//! What holds of every request to a printer and of every answer.

use vstd::prelude::*;

use crate::device::{device_entry, DeviceInfo};
use crate::error::{
    fault_message, render_outcome, usb_fault, PtouchError, PtouchFault, RenderError, RenderFault,
    UsbFault,
};
use crate::message::{decimal, digit_char, hex_byte};
use crate::printer::{
    advanced, begun, bulk_address, bulk_addresses, chunk_bytes, first_candidate, is_candidate, job_step,
    openable, send_outcome, short_send_text, short_status_text, DeviceAction, DeviceActionModel,
    DeviceEvent, DeviceEventModel, DeviceModel, JobPlanModel, OperationKind, OperationModel, StageModel,
    UsbEndpoint, FEED_LINES, STATUS_MAX_RETRIES, STATUS_RETRY_DELAY, USB_FLUSH_TIMEOUT,
    USB_INTERFACE, USB_TIMEOUT,
};
use crate::protocol::{init_bytes, raster_line_len, Command, CommandModel, PrintQuality};
use crate::status::{listed, packet_status, PrinterStatus, STATUS_PACKET_SIZE};
use crate::tape::{tape_dots, TapeInfo};
use crate::transport::{
    outcome, overrun_text, packet_verdict, parsed_packet, poll_step, readiness, PollAction,
    PollActionModel, PollEvent, PollEventModel, PRINT_STATUS_POLL_TIMEOUT, PRINT_STATUS_TIMEOUT,
};

verus! {

/// A printer takes a job if it is initialized and has the quality mode that is
/// asked for. The options of the job are those that were asked for, each in its
/// own field, with the width of the tape that the last status told.
pub proof fn law_jobs_are_printed_as_asked_for(
    d: DeviceModel,
    chain_print: bool,
    precut: bool,
    quality: PrintQuality,
)
    ensures
        ({
            let plan = d.print_plan(chain_print, precut, quality);
            &&& plan is Ok <==> d.initialized && (quality is Standard || d.info.flags.legacy_hires)
            &&& plan matches Ok(plan) ==> {
                &&& plan.kind is Print
                &&& plan.options.chain_print == chain_print
                &&& plan.options.precut == precut
                &&& plan.options.quality == quality
                &&& d.status matches Some(status) ==> plan.options.media_width
                    == status.media_width
                &&& d.status is None ==> plan.options.media_width == 0
            }
            &&& !d.initialized ==> plan == Err::<JobPlanModel, PtouchFault>(PtouchFault::NotInitialized)
            &&& d.initialized && plan is Err ==> plan == Err::<JobPlanModel, PtouchFault>(
                PtouchFault::UnsupportedQuality(d.info.name@),
            )
        }),
{
}

/// An initialized printer feeds and cuts: the job is not chained, so that the tape
/// is cut behind it, has no cut ahead, and needs no quality mode.
pub proof fn law_feeding_ends_with_a_cut(d: DeviceModel)
    ensures
        d.feed_plan() is Ok <==> d.initialized,
        d.feed_plan() matches Err(fault) ==> fault is NotInitialized,
        d.feed_plan() matches Ok(plan) ==> {
            &&& plan.kind is FeedAndCut
            &&& !plan.options.chain_print
            &&& !plan.options.precut
            &&& plan.options.quality is Standard
            &&& d.status matches Some(status) ==> plan.options.media_width == status.media_width
            &&& d.status is None ==> plan.options.media_width == 0
        },
{
}

/// A status that was asked for is kept, and with it the width of its tape at the
/// printer's resolution: what the table says, but no more than the head has.
pub proof fn law_a_status_tells_the_tape(d: DeviceModel, status: PrinterStatus, tapes: Seq<TapeInfo>)
    ensures
        ({
            let told = d.with_status(status, tapes);
            &&& told.status == Some(status)
            &&& told.info == d.info
            &&& told.ep_out == d.ep_out
            &&& told.ep_in == d.ep_in
            &&& told.initialized == d.initialized
            &&& match tape_dots(tapes, status.media_width, d.info.dpi) {
                None => told.tape_width_px is None,
                Some(listed) => told.tape_width_px matches Some(px) && px <= listed && px
                    <= d.info.max_px && (px == listed || px == d.info.max_px),
            }
        }),
{
}

/// Whether an endpoint is for bulk transfers of the printer interface in one
/// direction.
pub open spec fn serves(endpoint: UsbEndpoint, input: bool) -> bool {
    &&& endpoint.interface_number == 0
    &&& endpoint.bulk
    &&& endpoint.input == input
}

proof fn lemma_bulk_address(endpoints: Seq<UsbEndpoint>, input: bool)
    ensures
        match bulk_address(endpoints, input) {
            Some(address) => exists|i: int|
                {
                    &&& 0 <= i < endpoints.len()
                    &&& serves(#[trigger] endpoints[i], input)
                    &&& endpoints[i].address == address
                    &&& forall|k: int|
                        i < k < endpoints.len() ==> !serves(#[trigger] endpoints[k], input)
                },
            None => forall|i: int|
                0 <= i < endpoints.len() ==> !serves(#[trigger] endpoints[i], input),
        },
    decreases endpoints.len(),
{
    if endpoints.len() > 0 {
        let rest = endpoints.drop_last();
        lemma_bulk_address(rest, input);
        let last = endpoints.len() - 1;
        assert(endpoints[last] == endpoints.last());
        if serves(endpoints.last(), input) {
        } else {
            match bulk_address(endpoints, input) {
                Some(address) => {
                    let i = choose|i: int|
                        {
                            &&& 0 <= i < rest.len()
                            &&& serves(#[trigger] rest[i], input)
                            &&& rest[i].address == address
                            &&& forall|k: int|
                                i < k < rest.len() ==> !serves(#[trigger] rest[k], input)
                        };
                    assert(endpoints[i] == rest[i]);
                    assert forall|k: int| i < k < endpoints.len() implies !serves(
                        #[trigger] endpoints[k],
                        input,
                    ) by {
                        if k < last {
                            assert(endpoints[k] == rest[k]);
                        }
                    }
                },
                None => {
                    assert forall|k: int| 0 <= k < endpoints.len() implies !serves(
                        #[trigger] endpoints[k],
                        input,
                    ) by {
                        if k < last {
                            assert(endpoints[k] == rest[k]);
                        }
                    }
                },
            }
        }
    }
}

/// The first address is that of a bulk endpoint to which the printer listens, the
/// second of one on which it sends, each the last of its kind on the printer
/// interface; where one is missing there is no printer.
pub proof fn law_endpoints_serve_their_direction(endpoints: Seq<UsbEndpoint>)
    ensures
        match bulk_addresses(endpoints) {
            Ok((ep_out, ep_in)) => {
                &&& exists|i: int|
                    {
                        &&& 0 <= i < endpoints.len()
                        &&& serves(#[trigger] endpoints[i], false)
                        &&& endpoints[i].address == ep_out
                        &&& forall|k: int|
                            i < k < endpoints.len() ==> !serves(#[trigger] endpoints[k], false)
                    }
                &&& exists|i: int|
                    {
                        &&& 0 <= i < endpoints.len()
                        &&& serves(#[trigger] endpoints[i], true)
                        &&& endpoints[i].address == ep_in
                        &&& forall|k: int|
                            i < k < endpoints.len() ==> !serves(#[trigger] endpoints[k], true)
                    }
            },
            Err(fault) => {
                &&& fault is DeviceNotFound
                &&& {
                    ||| forall|i: int|
                        0 <= i < endpoints.len() ==> !serves(#[trigger] endpoints[i], false)
                    ||| forall|i: int|
                        0 <= i < endpoints.len() ==> !serves(#[trigger] endpoints[i], true)
                }
            },
        },
{
    lemma_bulk_address(endpoints, false);
    lemma_bulk_address(endpoints, true);
}

/// An entry that is found is in the table, has the IDs and is the first to have
/// them; if none is found none has them.
pub proof fn law_printers_are_found_by_their_ids(devices: Seq<DeviceInfo>, vid: u16, pid: u16)
    ensures
        match device_entry(devices, vid, pid) {
            Some(info) => exists|i: int|
                {
                    &&& 0 <= i < devices.len()
                    &&& #[trigger] devices[i] == info
                    &&& info.vid == vid
                    &&& info.pid == pid
                    &&& forall|k: int|
                        0 <= k < i ==> (#[trigger] devices[k]).vid != vid || devices[k].pid != pid
                },
            None => forall|i: int|
                0 <= i < devices.len() ==> (#[trigger] devices[i]).vid != vid || devices[i].pid
                    != pid,
        },
    decreases devices.len(),
{
    if devices.len() > 0 {
        let rest = devices.drop_first();
        law_printers_are_found_by_their_ids(rest, vid, pid);
        if devices[0].vid == vid && devices[0].pid == pid {
        } else {
            match device_entry(devices, vid, pid) {
                Some(info) => {
                    let i = choose|i: int|
                        {
                            &&& 0 <= i < rest.len()
                            &&& #[trigger] rest[i] == info
                            &&& info.vid == vid
                            &&& info.pid == pid
                            &&& forall|k: int|
                                0 <= k < i ==> (#[trigger] rest[k]).vid != vid || rest[k].pid
                                    != pid
                        };
                    assert(devices[i + 1] == rest[i]);
                    assert forall|k: int| 0 <= k < i + 1 implies (#[trigger] devices[k]).vid != vid
                        || devices[k].pid != pid by {
                        if k > 0 {
                            assert(devices[k] == rest[k - 1]);
                        }
                    }
                },
                None => {
                    assert forall|i: int| 0 <= i < devices.len() implies (#[trigger] devices[i]).vid
                        != vid || devices[i].pid != pid by {
                        if i > 0 {
                            assert(devices[i] == rest[i - 1]);
                        }
                    }
                },
            }
        }
    }
}

/// A printer can be opened if it is in the table and neither shows up as a drive
/// nor is without raster data; each fault tells which, with the name of the model.
pub proof fn law_only_raster_printers_are_opened(devices: Seq<DeviceInfo>, vid: u16, pid: u16)
    ensures
        match device_entry(devices, vid, pid) {
            None => openable(devices, vid, pid) == Err::<DeviceInfo, PtouchFault>(
                PtouchFault::DeviceNotFound,
            ),
            Some(info) => {
                &&& openable(devices, vid, pid) is Ok <==> !info.flags.plite
                    && !info.flags.unsup_raster
                &&& openable(devices, vid, pid) matches Ok(opened) ==> opened == info
                &&& info.flags.plite ==> openable(devices, vid, pid) == Err::<
                    DeviceInfo,
                    PtouchFault,
                >(PtouchFault::PLiteMode(info.name@))
                &&& !info.flags.plite && info.flags.unsup_raster ==> openable(devices, vid, pid)
                    == Err::<DeviceInfo, PtouchFault>(PtouchFault::UnsupportedRaster(info.name@))
            },
        },
{
}

/// Of the printers on the bus that can be opened, the first is picked: a Brother
/// device whose table entry allows it, before which none is.
pub proof fn law_the_first_printer_on_the_bus_is_picked(
    devices: Seq<DeviceInfo>,
    bus: Seq<Option<(u16, u16)>>,
)
    ensures
        match first_candidate(devices, bus) {
            Ok(picked) => {
                &&& picked.0 == 0x04f9
                &&& openable(devices, picked.0, picked.1) is Ok
                &&& exists|i: int|
                    {
                        &&& 0 <= i < bus.len()
                        &&& #[trigger] bus[i] == Some(picked)
                        &&& forall|k: int|
                            0 <= k < i ==> ((#[trigger] bus[k]) matches Some(id) ==> id.0 != 0x04f9
                                || openable(devices, id.0, id.1) is Err)
                    }
            },
            Err(fault) => {
                &&& fault is DeviceNotFound
                &&& forall|k: int|
                    0 <= k < bus.len() ==> ((#[trigger] bus[k]) matches Some(id) ==> id.0 != 0x04f9
                        || openable(devices, id.0, id.1) is Err)
            },
        },
    decreases bus.len(),
{
    if bus.len() > 0 {
        let rest = bus.drop_first();
        law_the_first_printer_on_the_bus_is_picked(devices, rest);
        if is_candidate(devices, bus[0]) {
        } else {
            match first_candidate(devices, rest) {
                Ok(picked) => {
                    let i = choose|i: int|
                        {
                            &&& 0 <= i < rest.len()
                            &&& #[trigger] rest[i] == Some(picked)
                            &&& forall|k: int|
                                0 <= k < i ==> ((#[trigger] rest[k]) matches Some(id) ==> id.0
                                    != 0x04f9 || openable(devices, id.0, id.1) is Err)
                        };
                    assert(bus[i + 1] == rest[i]);
                    assert forall|k: int| 0 <= k < i + 1 implies ((#[trigger] bus[k]) matches Some(
                        id,
                    ) ==> id.0 != 0x04f9 || openable(devices, id.0, id.1) is Err) by {
                        if k > 0 {
                            assert(bus[k] == rest[k - 1]);
                        }
                    }
                },
                Err(_) => {
                    assert forall|k: int| 0 <= k < bus.len() implies ((
                    #[trigger] bus[k]) matches Some(id) ==> id.0 != 0x04f9 || openable(
                        devices,
                        id.0,
                        id.1,
                    ) is Err) by {
                        if k > 0 {
                            assert(bus[k] == rest[k - 1]);
                        }
                    }
                },
            }
        }
    }
}

/// Bytes are sent if all of them were written. A time limit that ran out is told
/// from the other faults of the USB stack, which are passed on.
pub proof fn law_only_whole_transfers_count_as_sent(len: nat, written: usize, fault: UsbFault)
    ensures
        send_outcome(len, Ok(written)) is Ok <==> written == len,
        written != len ==> (send_outcome(len, Ok(written)) matches Err(fault)
            && fault is SendFailed),
        send_outcome(len, Err(fault)) matches Err(told) && told == usb_fault(fault),
        fault is Timeout ==> usb_fault(fault) is Timeout,
        !(fault is Timeout) ==> usb_fault(fault) == PtouchFault::UsbError(fault),
{
}

/// A command that could not be sent ends the operation with its failure, and
/// nothing that is known of the printer changes.
pub proof fn law_a_failed_command_ends_the_operation(
    d: DeviceModel,
    op: OperationModel,
    fault: PtouchFault,
    tapes: Seq<TapeInfo>,
)
    requires
        op.wf(),
        op.expects(DeviceEventModel::Sent(Err(fault))),
    ensures
        advanced(d, op, DeviceEventModel::Sent(Err(fault)), tapes).2 == DeviceActionModel::Done(
            Err(fault),
        ),
        advanced(d, op, DeviceEventModel::Sent(Err(fault)), tapes).0 == d,
{
}

/// Before each read of the status there is a pause, and the read may take five
/// seconds. A request that was sent, and a read that brought too little, are
/// followed by a pause as long as there are reads left.
pub proof fn law_each_status_read_follows_a_pause(
    d: DeviceModel,
    op: OperationModel,
    event: DeviceEventModel,
    tapes: Seq<TapeInfo>,
)
    requires
        op.wf(),
        op.expects(event),
        !op.prints(),
    ensures
        ({
            let next = advanced(d, op, event, tapes);
            &&& next.2 is Receive <==> op.stage is Pausing
            &&& next.2 matches DeviceActionModel::Receive(limit) ==> limit == 5_000_000_000
            &&& op.stage is RequestSending && event->Sent_0 is Ok ==> next.2 is Pause
            &&& op.stage is Reading && event->Received_0 == Err::<usize, PtouchFault>(
                PtouchFault::Timeout,
            ) && op.attempts + 1 < 10 ==> next.2 is Pause && next.1.attempts == op.attempts + 1
                && next.1.pending == op.pending
            &&& op.stage is Reading && event->Received_0 == Ok::<usize, PtouchFault>(0)
                && op.attempts + 1 < 10 ==> next.2 is Pause && next.1.attempts == op.attempts + 1
                && next.1.pending == op.pending
            &&& op.stage is Reading && op.attempts + 1 == 10 && event->Received_0 == Err::<
                usize,
                PtouchFault,
            >(PtouchFault::Timeout) ==> next.2 is FlushInput
        }),
{
}

/// A failure of the USB stack while reading the status ends the operation with
/// that failure.
pub proof fn law_usb_failures_end_a_status_read(
    d: DeviceModel,
    op: OperationModel,
    fault: PtouchFault,
    buffer: Seq<u8>,
    tapes: Seq<TapeInfo>,
)
    requires
        op.wf(),
        op.stage is Reading,
        buffer.len() == 32,
        !(fault is Timeout),
    ensures
        ({
            let event = DeviceEventModel::Received(Err::<usize, PtouchFault>(fault), buffer);
            let next = advanced(d, op, event, tapes);
            &&& next.2 == DeviceActionModel::Done(Err(fault))
            &&& next.0 == d
        }),
{
}

/// When all chunks are sent, a printer that reports its readiness is waited for;
/// of another a print job reads one status for up to five seconds, and feeding
/// ends.
pub proof fn law_what_follows_a_job(d: DeviceModel, op: OperationModel)
    requires
        op.sent <= op.chunks.len(),
    ensures
        op.sent < op.chunks.len() ==> job_step(d, op).2 == DeviceActionModel::Send(
            CommandModel::Chunk(op.chunks[op.sent as int]),
        ),
        op.sent == op.chunks.len() && d.info.flags.wait_for_receive_ready ==> job_step(d, op).2
            is ReadClock,
        op.sent == op.chunks.len() && !d.info.flags.wait_for_receive_ready && op.kind is Print
            ==> job_step(d, op).2 == DeviceActionModel::Receive(5_000_000_000),
        op.sent == op.chunks.len() && !d.info.flags.wait_for_receive_ready && op.kind is FeedAndCut
            ==> job_step(d, op).2 == DeviceActionModel::Done(Ok(())),
        job_step(d, op).0 == d,
{
}

/// The one read after a print job fails only for a status with an error or a
/// failure of the USB stack. A whole status without an error is kept; no answer,
/// or part of one, changes nothing.
pub proof fn law_no_answer_to_a_print_job_is_no_failure(
    d: DeviceModel,
    op: OperationModel,
    event: DeviceEventModel,
    tapes: Seq<TapeInfo>,
)
    requires
        op.wf(),
        op.expects(event),
        op.stage is CompletionReading,
    ensures
        ({
            let next = advanced(d, op, event, tapes);
            match event->Received_0 {
                Ok(read) => {
                    let packet = event->Received_1;
                    let error = packet[8] != 0 || packet[9] != 0;
                    &&& read < 32 ==> next.0 == d && next.2 == DeviceActionModel::Done(Ok(()))
                    &&& read >= 32 && !error ==> next.2 == DeviceActionModel::Done(Ok(()))
                        && next.0 == (DeviceModel { status: Some(packet_status(packet)), ..d })
                    &&& read >= 32 && error ==> next.0 == d && (next.2 matches
                        DeviceActionModel::Done(Err(fault)) && fault is StatusError)
                },
                Err(fault) => {
                    &&& next.0 == d
                    &&& fault is Timeout ==> next.2 == DeviceActionModel::Done(Ok(()))
                    &&& !(fault is Timeout) ==> next.2 == DeviceActionModel::Done(Err(fault))
                },
            }
        }),
{
}

/// While a printer is waited for, what is known of its tape and of its model stays,
/// and a status that ends the wait well is kept.
pub proof fn law_waiting_keeps_the_tape(
    d: DeviceModel,
    op: OperationModel,
    event: DeviceEventModel,
    tapes: Seq<TapeInfo>,
)
    requires
        op.wf(),
        op.expects(event),
        op.stage is ClockReading || op.stage is StatusPolling,
    ensures
        ({
            let next = advanced(d, op, event, tapes);
            &&& next.0 == (DeviceModel { status: next.0.status, ..d })
            &&& next.2 != DeviceActionModel::Done(Ok(())) ==> next.0 == d
            &&& next.2 == DeviceActionModel::Done(Ok(())) ==> (next.0.status matches Some(status)
                && status.status_type == 6 && status.phase_type == 0)
        }),
{
}

/// Each field of a status stands at its place in the packet.
pub proof fn law_packets_are_read_byte_by_byte(packet: Seq<u8>)
    ensures
        packet_status(packet).print_head_mark == packet[0],
        packet_status(packet).size == packet[1],
        packet_status(packet).error_information_1 == packet[8],
        packet_status(packet).error_information_2 == packet[9],
        packet_status(packet).media_width == packet[10],
        packet_status(packet).media_type == packet[11],
        packet_status(packet).status_type == packet[18],
        packet_status(packet).phase_type == packet[19],
        packet_status(packet).phase_number_hi == packet[20],
        packet_status(packet).phase_number_lo == packet[21],
{
}

/// A packet is a status if it starts with 0x80 and 0x20.
pub proof fn law_a_status_has_its_header(packet: Seq<u8>, intro: Seq<char>)
    ensures
        parsed_packet(packet, intro) is Ok <==> packet[0] == 0x80 && packet[1] == 0x20,
        parsed_packet(packet, intro) matches Ok(status) ==> status == packet_status(packet),
        parsed_packet(packet, intro) matches Err(fault) ==> fault is StatusError,
{
}

/// After a print command a printer is ready if it reports that it has entered the
/// phase of receiving, with neither an error bit nor the type of an error or of
/// having been turned off.
pub proof fn law_readiness_is_the_receiving_phase(status: PrinterStatus)
    ensures
        readiness(status) == Ok::<bool, PtouchFault>(true) <==> {
            &&& status.error_information_1 == 0
            &&& status.error_information_2 == 0
            &&& status.status_type == 6
            &&& status.phase_type == 0
        },
        readiness(status) is Err <==> {
            ||| status.error_information_1 != 0
            ||| status.error_information_2 != 0
            ||| status.status_type == 2
            ||| status.status_type == 4
        },
        readiness(status) matches Err(fault) ==> fault is StatusError,
{
}

/// A whole packet ends the wait unless it is a status of a printer that is fine but
/// busy: a ready one ends it well, all else with an error.
pub proof fn law_packets_that_end_the_wait(packet: Seq<u8>)
    ensures
        ({
            let valid = packet[0] == 0x80 && packet[1] == 0x20;
            let fine = packet[8] == 0 && packet[9] == 0 && packet[18] != 2 && packet[18] != 4;
            let ready = packet[18] == 6 && packet[19] == 0;
            match packet_verdict(packet) {
                None => valid && fine && !ready,
                Some(Ok(status)) => valid && fine && ready && status == packet_status(packet),
                Some(Err(fault)) => fault is StatusError && !(valid && fine),
            }
        }),
{
}

/// The time that is left limits a read, and a quarter of a second does. The wait
/// is over when more time has passed than there was.
pub proof fn law_reads_wait_for_as_long_as_they_may(pending: Seq<u8>, time: nat, timeout: nat)
    ensures
        ({
            let (rest, action) = poll_step(pending, PollEventModel::Elapsed(time), timeout);
            &&& rest == pending
            &&& time <= timeout ==> (action matches PollActionModel::Receive(limit) && (limit
                == 250_000_000 || limit == timeout - time) && limit <= 250_000_000 && limit
                <= timeout - time)
            &&& time > timeout ==> action == PollActionModel::Finished(Err(PtouchFault::Timeout))
        }),
{
}

/// A transfer that failed otherwise than for lack of time ends the wait with its
/// failure, and so does one that claims more bytes than its buffer has.
pub proof fn law_failed_transfers_end_the_wait(
    pending: Seq<u8>,
    fault: PtouchFault,
    read: nat,
    buffer: Seq<u8>,
    timeout: nat,
)
    ensures
        !(fault is Timeout) ==> poll_step(pending, PollEventModel::Failed(fault), timeout).1
            == PollActionModel::Finished(Err(fault)),
        read > 32 ==> (poll_step(pending, PollEventModel::Received(read, buffer), timeout).1
            matches PollActionModel::Finished(Err(fault)) && fault is StatusError),
{
}

/// Bytes are kept until a packet of 32 is there, and what is over stays for the
/// next one.
pub proof fn law_bytes_are_kept_for_the_next_packet(
    pending: Seq<u8>,
    buffer: Seq<u8>,
    read: nat,
    timeout: nat,
)
    requires
        0 < read <= 32,
        buffer.len() == 32,
        pending.len() < 32,
    ensures
        ({
            let all = pending + buffer.take(read as int);
            let (rest, action) = poll_step(
                pending,
                PollEventModel::Received(read, buffer),
                timeout,
            );
            &&& all.len() < 32 ==> rest == all && action is ReadClock
            &&& all.len() >= 32 ==> all == all.take(32) + rest && match packet_verdict(
                all.take(32),
            ) {
                Some(result) => action == PollActionModel::Finished(result),
                None => action is ReadClock,
            }
        }),
{
    let all = pending + buffer.take(read as int);
    if all.len() >= 32 {
        assert(all =~= all.take(32) + all.skip(32));
    }
}

/// A text with something before it and something after it.
pub open spec fn framed(before: Seq<char>, part: Seq<char>, after: Seq<char>) -> Seq<char> {
    before + part + after
}

/// Whether a text has another in it.
#[verifier::opaque]
pub open spec fn mentions(text: Seq<char>, part: Seq<char>) -> bool {
    exists|before: Seq<char>, after: Seq<char>| #[trigger] framed(before, part, after) == text
}

/// What a list holds stays in it when it grows, and what is added to it is in it.
proof fn lemma_listed(text: Seq<char>, set: bool, name: Seq<char>)
    ensures
        set ==> mentions(listed(text, set, name), name),
        forall|part: Seq<char>| #[trigger]
            mentions(text, part) ==> mentions(listed(text, set, name), part),
        listed(text, set, name).len() > 0 <==> text.len() > 0 || (set && name.len() > 0),
{
    reveal(mentions);
    let grown = listed(text, set, name);
    reveal_strlit(", ");
    if set {
        let before = if text.len() == 0 {
            Seq::empty()
        } else {
            text + ", "@
        };
        assert(framed(before, name, Seq::empty()) =~= grown);
    }
    assert forall|part: Seq<char>| #[trigger] mentions(text, part) implies mentions(grown, part) by {
        let (a, b) = choose|a: Seq<char>, b: Seq<char>| #[trigger] framed(a, part, b) == text;
        let rest = if !set {
            Seq::<char>::empty()
        } else if text.len() == 0 {
            name
        } else {
            ", "@ + name
        };
        assert(grown =~= text + rest);
        assert(framed(a, part, b + rest) =~= grown);
    }
}

/// Each error bit that is set is named in the description of the errors, which is
/// never empty.
#[verifier::rlimit(60)]
pub proof fn law_each_error_is_named(status: PrinterStatus)
    ensures
        status.error_text().len() > 0,
        status.error_information_1 & 0x01 != 0 ==> mentions(status.error_text(), "No media"@),
        status.error_information_1 & 0x02 != 0 ==> mentions(status.error_text(), "End of media"@),
        status.error_information_1 & 0x04 != 0 ==> mentions(status.error_text(), "Cutter jam"@),
        status.error_information_1 & 0x08 != 0 ==> mentions(status.error_text(), "Weak batteries"@),
        status.error_information_1 & 0x10 != 0 ==> mentions(status.error_text(), "Printer in use"@),
        status.error_information_1 & 0x40 != 0 ==> mentions(status.error_text(), "High-voltage adapter"@),
        status.error_information_2 & 0x01 != 0 ==> mentions(status.error_text(), "Replace media"@),
        status.error_information_2 & 0x02 != 0 ==> mentions(status.error_text(), "Expansion buffer full"@),
        status.error_information_2 & 0x04 != 0 ==> mentions(status.error_text(), "Communication error"@),
        status.error_information_2 & 0x08 != 0 ==> mentions(status.error_text(), "Communication buffer full"@),
        status.error_information_2 & 0x10 != 0 ==> mentions(status.error_text(), "Cover open"@),
        status.error_information_2 & 0x20 != 0 ==> mentions(status.error_text(), "Overheating"@),
        status.error_information_2 & 0x40 != 0 ==> mentions(status.error_text(), "Black marking not detected"@),
        status.error_information_2 & 0x80 != 0 ==> mentions(status.error_text(), "System error"@),
{
    reveal_strlit("Unknown error");
    reveal_strlit("No media");
    reveal_strlit("End of media");
    reveal_strlit("Cutter jam");
    reveal_strlit("Weak batteries");
    reveal_strlit("Printer in use");
    reveal_strlit("High-voltage adapter");
    reveal_strlit("Replace media");
    reveal_strlit("Expansion buffer full");
    reveal_strlit("Communication error");
    reveal_strlit("Communication buffer full");
    reveal_strlit("Cover open");
    reveal_strlit("Overheating");
    reveal_strlit("Black marking not detected");
    reveal_strlit("System error");
    let (e1, e2) = (status.error_information_1, status.error_information_2);
    let t = Seq::<char>::empty();
    lemma_listed(t, e1 & 0x01 != 0, "No media"@);
    let t = listed(t, e1 & 0x01 != 0, "No media"@);
    lemma_listed(t, e1 & 0x02 != 0, "End of media"@);
    let t = listed(t, e1 & 0x02 != 0, "End of media"@);
    lemma_listed(t, e1 & 0x04 != 0, "Cutter jam"@);
    let t = listed(t, e1 & 0x04 != 0, "Cutter jam"@);
    lemma_listed(t, e1 & 0x08 != 0, "Weak batteries"@);
    let t = listed(t, e1 & 0x08 != 0, "Weak batteries"@);
    lemma_listed(t, e1 & 0x10 != 0, "Printer in use"@);
    let t = listed(t, e1 & 0x10 != 0, "Printer in use"@);
    lemma_listed(t, e1 & 0x40 != 0, "High-voltage adapter"@);
    let t = listed(t, e1 & 0x40 != 0, "High-voltage adapter"@);
    lemma_listed(t, e2 & 0x01 != 0, "Replace media"@);
    let t = listed(t, e2 & 0x01 != 0, "Replace media"@);
    lemma_listed(t, e2 & 0x02 != 0, "Expansion buffer full"@);
    let t = listed(t, e2 & 0x02 != 0, "Expansion buffer full"@);
    lemma_listed(t, e2 & 0x04 != 0, "Communication error"@);
    let t = listed(t, e2 & 0x04 != 0, "Communication error"@);
    lemma_listed(t, e2 & 0x08 != 0, "Communication buffer full"@);
    let t = listed(t, e2 & 0x08 != 0, "Communication buffer full"@);
    lemma_listed(t, e2 & 0x10 != 0, "Cover open"@);
    let t = listed(t, e2 & 0x10 != 0, "Cover open"@);
    lemma_listed(t, e2 & 0x20 != 0, "Overheating"@);
    let t = listed(t, e2 & 0x20 != 0, "Overheating"@);
    lemma_listed(t, e2 & 0x40 != 0, "Black marking not detected"@);
    let t = listed(t, e2 & 0x40 != 0, "Black marking not detected"@);
    lemma_listed(t, e2 & 0x80 != 0, "System error"@);
    let t = listed(t, e2 & 0x80 != 0, "System error"@);
    assert(t == status.error_names());
}

/// A printer reports an error if any error bit is set, named or not, and waits to
/// receive in the first phase of a phase change.
pub proof fn law_any_error_bit_is_an_error(status: PrinterStatus)
    ensures
        status.reports_error() <==> !(status.error_information_1 == 0 && status.error_information_2
            == 0),
        status.waits_to_receive() <==> status.status_type == 6 && status.phase_type == 0,
{
}

/// The value of a digit, in decimal or in lower case hexadecimal.
pub open spec fn digit_value(c: char) -> int {
    if '0' <= c <= '9' {
        c as int - '0' as int
    } else {
        c as int - 'a' as int + 10
    }
}

/// The number that a decimal numeral stands for.
pub open spec fn numeral_value(text: Seq<char>) -> int
    decreases text.len(),
{
    if text.len() == 0 {
        0
    } else {
        numeral_value(text.drop_last()) * 10 + digit_value(text.last())
    }
}

/// A numeral stands for its number, consists of digits, and has no leading zero.
pub proof fn law_numerals_stand_for_their_number(n: nat)
    ensures
        numeral_value(decimal(n)) == n,
        decimal(n).len() > 0,
        forall|i: int| 0 <= i < decimal(n).len() ==> '0' <= #[trigger] decimal(n)[i] <= '9',
        n > 0 ==> decimal(n)[0] != '0',
    decreases n,
{
    if n < 10 {
        assert(decimal(n) =~= seq![digit_char(n)]);
        assert(decimal(n).drop_last() =~= Seq::empty());
        assert(numeral_value(Seq::<char>::empty()) == 0);
    } else {
        law_numerals_stand_for_their_number(n / 10);
        assert(decimal(n).drop_last() =~= decimal(n / 10));
    }
}

/// A byte is written as `0x` and two digits, the higher one first.
pub proof fn law_bytes_are_written_in_hexadecimal(b: u8)
    ensures
        hex_byte(b).len() == 4,
        hex_byte(b)[0] == '0',
        hex_byte(b)[1] == 'x',
        digit_value(hex_byte(b)[2]) * 16 + digit_value(hex_byte(b)[3]) == b,
        0 <= digit_value(hex_byte(b)[3]) < 16,
        forall|i: int|
            2 <= i < 4 ==> '0' <= #[trigger] hex_byte(b)[i] <= '9' || 'a' <= hex_byte(b)[i] <= 'f',
{
    assert(hex_byte(b)[2] == digit_char((b / 16) as nat));
    assert(hex_byte(b)[3] == digit_char((b % 16) as nat));
}

/// A raster line has a bit for each dot of the head and less than a byte more.
pub proof fn law_raster_lines_span_the_head(max_px: u16)
    ensures
        max_px <= raster_line_len(max_px) * 8 < max_px + 8,
{
}

/// A reset is a hundred zeros, and `ESC @`.
pub proof fn law_a_reset_starts_with_zeros()
    ensures
        init_bytes().len() == 102,
        forall|i: int| 0 <= i < 100 ==> #[trigger] init_bytes()[i] == 0,
        init_bytes()[100] == 0x1b,
        init_bytes()[101] == 0x40,
{
}

/// The model of an error shows its kind, and what it carries.
pub proof fn law_error_models_show_the_kind(error: PtouchError)
    ensures
        error is DeviceNotFound <==> error@ is DeviceNotFound,
        error is Timeout <==> error@ is Timeout,
        error is NotInitialized <==> error@ is NotInitialized,
        error matches PtouchError::PLiteMode(name) ==> error@ == PtouchFault::PLiteMode(name@),
        error matches PtouchError::UnsupportedRaster(name) ==> error@
            == PtouchFault::UnsupportedRaster(name@),
        error matches PtouchError::UsbError(fault) ==> error@ == PtouchFault::UsbError(fault),
        error matches PtouchError::SendFailed(text) ==> error@ == PtouchFault::SendFailed(text@),
        error matches PtouchError::StatusError(text) ==> error@ == PtouchFault::StatusError(text@),
        error matches PtouchError::UnsupportedQuality(name) ==> error@
            == PtouchFault::UnsupportedQuality(name@),
{
}

/// A render error is reported by its own text, and an unsupported version by its
/// number.
pub proof fn law_render_errors_are_reported_by_their_text(fault: RenderFault)
    ensures
        fault matches RenderFault::Layout(text) ==> fault_message(fault) == text,
        fault matches RenderFault::Text(text) ==> fault_message(fault) == text,
        fault matches RenderFault::UnsupportedVersion(version) ==> fault_message(fault)
            == "unsupported document version "@ + decimal(version as nat),
{
}

/// The model of a command shows its kind, and what it carries.
pub proof fn law_command_models_show_the_kind(command: Command)
    ensures
        command is Init <==> command@ is Init,
        command is StatusRequest <==> command@ is StatusRequest,
        command matches Command::AutoStatusNotification(on) ==> command@
            == CommandModel::AutoStatusNotification(on),
        command matches Command::Chunk(bytes) ==> command@ == CommandModel::Chunk(bytes@),
{
}

/// After a failure the stale bytes are dropped before the failure is told, and
/// nothing that is known of the printer changes.
pub proof fn law_stale_bytes_are_dropped_before_a_failure(
    d: DeviceModel,
    op: OperationModel,
    buffer: Seq<u8>,
    tapes: Seq<TapeInfo>,
)
    requires
        op.wf(),
    ensures
        op.stage matches StageModel::Dropping(fault) ==> {
            let next = advanced(d, op, DeviceEventModel::Flushed, tapes);
            &&& next.2 == DeviceActionModel::Done(Err(fault))
            &&& next.0 == d
        },
        op.stage is Reading && op.pending.len() == 0 && buffer.len() == 32 && (buffer[0] != 0x80
            || buffer[1] != 0x20) ==> {
            let event = DeviceEventModel::Received(Ok::<usize, PtouchFault>(32), buffer);
            let next = advanced(d, op, event, tapes);
            &&& next.2 is FlushInput
            &&& next.0 == d
            &&& next.1.stage matches StageModel::Dropping(fault) && fault is StatusError
        },
{
    assert((op.pending + buffer.take(32)).take(32)[0] == buffer[0] || op.pending.len() > 0
        || buffer.len() != 32);
    if op.stage is Reading && op.pending.len() == 0 && buffer.len() == 32 {
        assert((op.pending + buffer.take(32)).take(32) =~= buffer);
    }
}

/// A printer that is waited for has thirty seconds, of which each read takes at
/// most a quarter of a second.
pub proof fn law_a_printer_has_thirty_seconds(
    d: DeviceModel,
    op: OperationModel,
    time: nat,
    tapes: Seq<TapeInfo>,
)
    requires
        op.stage is ClockReading,
    ensures
        ({
            let next = advanced(d, op, DeviceEventModel::Elapsed(time), tapes);
            &&& time > 30_000_000_000 ==> next.2 == DeviceActionModel::Done(
                Err(PtouchFault::Timeout),
            )
            &&& time <= 30_000_000_000 ==> (next.2 matches DeviceActionModel::Receive(limit)
                && limit <= 250_000_000 && time + limit <= 30_000_000_000 && (limit == 250_000_000
                || time + limit == 30_000_000_000))
            &&& next.1.pending == op.pending
            &&& next.0 == d
        }),
{
}

/// While a printer is waited for, its bytes end the wait as packets do, and a
/// transfer that ran out of time or brought nothing leads back to the clock.
pub proof fn law_waiting_goes_by_packets(
    d: DeviceModel,
    op: OperationModel,
    buffer: Seq<u8>,
    read: usize,
    tapes: Seq<TapeInfo>,
)
    requires
        op.stage is StatusPolling,
        op.pending.len() < 32,
        buffer.len() == 32,
        0 < read <= 32,
    ensures
        ({
            let all = op.pending + buffer.take(read as int);
            let event = DeviceEventModel::Received(Ok::<usize, PtouchFault>(read), buffer);
            let next = advanced(d, op, event, tapes);
            &&& all.len() < 32 ==> next.2 is ReadClock && next.1.pending == all
            &&& all.len() >= 32 ==> match packet_verdict(all.take(32)) {
                None => next.2 is ReadClock && next.1.pending == all.skip(32),
                Some(Ok(status)) => next.2 == DeviceActionModel::Done(Ok(()))
                    && next.0.status == Some(status),
                Some(Err(fault)) => next.2 == DeviceActionModel::Done(Err(fault)),
            }
        }),
        ({
            let late = DeviceEventModel::Received(
                Err::<usize, PtouchFault>(PtouchFault::Timeout),
                buffer,
            );
            let none = DeviceEventModel::Received(Ok::<usize, PtouchFault>(0), buffer);
            &&& advanced(d, op, late, tapes).2 is ReadClock
            &&& advanced(d, op, late, tapes).1.pending == op.pending
            &&& advanced(d, op, none, tapes).2 is ReadClock
            &&& advanced(d, op, none, tapes).1.pending == op.pending
        }),
{
}

/// The limits in nanoseconds: five seconds for a transfer, a tenth of a second for
/// stale bytes and between two reads of a status, thirty seconds for a printer to
/// get ready and a quarter of one for each read of that. A status is read up to ten
/// times, and a feed takes more than one line.
pub proof fn law_limits_are_what_they_are_meant_to_be()
    ensures
        USB_TIMEOUT == 5_000_000_000,
        USB_FLUSH_TIMEOUT == 100_000_000,
        STATUS_RETRY_DELAY == 100_000_000,
        PRINT_STATUS_TIMEOUT == 30_000_000_000,
        PRINT_STATUS_POLL_TIMEOUT == 250_000_000,
        STATUS_MAX_RETRIES == 10,
        STATUS_PACKET_SIZE == 32,
        USB_INTERFACE == 0,
        FEED_LINES > 1,
{
}

/// The model of an event, or of an action, shows its kind and what it carries.
pub proof fn law_event_models_show_the_kind(
    event: DeviceEvent,
    action: DeviceAction,
    poll: PollEvent,
    answer: PollAction,
)
    ensures
        event is Flushed <==> event@ is Flushed,
        event is Paused <==> event@ is Paused,
        event matches DeviceEvent::Sent(result) ==> event@ == DeviceEventModel::Sent(
            outcome(result),
        ),
        event matches DeviceEvent::Received(result, buffer) ==> event@
            == DeviceEventModel::Received(outcome(result), buffer@),
        event matches DeviceEvent::Elapsed(time) ==> event@ == DeviceEventModel::Elapsed(
            time as nat,
        ),
        action is FlushInput <==> action@ is FlushInput,
        action is Pause <==> action@ is Pause,
        action is ReadClock <==> action@ is ReadClock,
        action matches DeviceAction::Send(command) ==> action@ == DeviceActionModel::Send(
            command@,
        ),
        action matches DeviceAction::Receive(time) ==> action@ == DeviceActionModel::Receive(
            time as nat,
        ),
        action matches DeviceAction::Done(result) ==> action@ == DeviceActionModel::Done(
            outcome(result),
        ),
        poll matches PollEvent::Elapsed(time) ==> poll@ == PollEventModel::Elapsed(time as nat),
        poll matches PollEvent::Received(read, buffer) ==> poll@ == PollEventModel::Received(
            read as nat,
            buffer@,
        ),
        poll matches PollEvent::Failed(error) ==> poll@ == PollEventModel::Failed(error@),
        answer is ReadClock <==> answer@ is ReadClock,
        answer matches PollAction::Receive(time) ==> answer@ == PollActionModel::Receive(
            time as nat,
        ),
        answer matches PollAction::Finished(result) ==> answer@ == PollActionModel::Finished(
            outcome(result),
        ),
{
}

/// The outcome of a result is its value, or the model of its error.
pub proof fn law_outcomes_show_the_result(
    result: Result<usize, PtouchError>,
    rendered: Result<u32, RenderError>,
)
    ensures
        result matches Ok(value) ==> outcome(result) == Ok::<usize, PtouchFault>(value),
        result matches Err(error) ==> outcome(result) == Err::<usize, PtouchFault>(error@),
        rendered matches Ok(value) ==> render_outcome(rendered) == Ok::<u32, RenderFault>(value),
        rendered matches Err(error) ==> render_outcome(rendered) == Err::<u32, RenderFault>(
            error@,
        ),
        rendered matches Err(RenderError::Layout(text)) ==> render_outcome(rendered) == Err::<
            u32,
            RenderFault,
        >(RenderFault::Layout(text@)),
        rendered matches Err(RenderError::Text(text)) ==> render_outcome(rendered) == Err::<
            u32,
            RenderFault,
        >(RenderFault::Text(text@)),
        rendered matches Err(RenderError::UnsupportedVersion(version)) ==> render_outcome(rendered)
            == Err::<u32, RenderFault>(RenderFault::UnsupportedVersion(version)),
{
}

/// The bytes of a list of chunks are those of each chunk, in order.
pub proof fn law_lists_of_chunks_show_each_chunk(chunks: Seq<Vec<u8>>, i: int)
    ensures
        chunk_bytes(chunks).len() == chunks.len(),
        0 <= i < chunks.len() ==> chunk_bytes(chunks)[i] == chunks[i]@,
{
}

/// What is said of a transfer that ended early tells both numbers of bytes, and
/// what is said of a status that is too short tells how many came.
pub proof fn law_short_transfers_are_told_in_numbers(expected: nat, written: nat)
    ensures
        short_send_text(expected, written) == "Expected to write "@ + decimal(expected)
            + " bytes, wrote "@ + decimal(written),
        short_status_text(written) == "Status packet too short: "@ + decimal(written)
            + " bytes (expected 32)"@,
        overrun_text(written) == "USB read reported "@ + decimal(written)
            + " bytes for a 32-byte buffer"@,
{
}

/// What is said of a header that is no status header tells both of its bytes, the
/// mark before the size.
pub proof fn law_bad_headers_are_told_in_hexadecimal(packet: Seq<u8>, intro: Seq<char>)
    ensures
        packet[0] != 0x80 || packet[1] != 0x20 ==> parsed_packet(packet, intro) == Err::<
            PrinterStatus,
            PtouchFault,
        >(
            PtouchFault::StatusError(
                intro + ": mark="@ + hex_byte(packet[0]) + " size="@ + hex_byte(packet[1]),
            ),
        ),
{
}

/// A read that brought too little counts as one attempt, and its bytes are kept. As
/// long as there are attempts left a pause follows; after the tenth the bytes are
/// dropped and their number is told.
pub proof fn law_short_reads_count_once(
    d: DeviceModel,
    op: OperationModel,
    read: usize,
    buffer: Seq<u8>,
    tapes: Seq<TapeInfo>,
)
    requires
        op.wf(),
        op.stage is Reading,
        buffer.len() == 32,
        0 < read <= 32,
        op.pending.len() + read < 32,
    ensures
        ({
            let event = DeviceEventModel::Received(Ok::<usize, PtouchFault>(read), buffer);
            let next = advanced(d, op, event, tapes);
            let all = op.pending + buffer.take(read as int);
            &&& next.0 == d
            &&& next.1.attempts == op.attempts + 1
            &&& next.1.pending == all
            &&& op.attempts < 9 ==> next.2 is Pause
            &&& op.attempts == 9 ==> next.2 is FlushInput && next.1.stage == StageModel::Dropping(
                PtouchFault::StatusError(
                    "Status packet too short: "@ + decimal(all.len()) + " bytes (expected 32)"@,
                ),
            )
        }),
{
}

/// An operation starts with nothing read and nothing sent, on the chunks that it
/// was given.
pub proof fn law_operations_start_afresh(
    kind: OperationKind,
    stage: StageModel,
    chunks: Seq<Seq<u8>>,
)
    ensures
        begun(kind, stage, chunks).kind == kind,
        begun(kind, stage, chunks).stage == stage,
        begun(kind, stage, chunks).chunks == chunks,
        begun(kind, stage, chunks).sent == 0,
        begun(kind, stage, chunks).attempts == 0,
        begun(kind, stage, chunks).pending.len() == 0,
{
}

/// An initialization starts with the reset, and a query with the status request,
/// once the stale bytes are dropped; the reset is followed by the status request.
pub proof fn law_operations_start_with_their_command(
    d: DeviceModel,
    op: OperationModel,
    tapes: Seq<TapeInfo>,
)
    requires
        op.wf(),
    ensures
        op.stage is Flushing ==> advanced(d, op, DeviceEventModel::Flushed, tapes).2
            == DeviceActionModel::Send(
            if op.kind is Init {
                CommandModel::Init
            } else {
                CommandModel::StatusRequest
            },
        ),
        op.stage is InitSending ==> advanced(d, op, DeviceEventModel::Sent(Ok(())), tapes).2
            == DeviceActionModel::Send(CommandModel::StatusRequest),
        op.stage is NotifySending ==> advanced(d, op, DeviceEventModel::Sent(Ok(())), tapes)
            == (
            (DeviceModel { initialized: true, ..d }),
            (OperationModel { stage: StageModel::Finished, ..op }),
            DeviceActionModel::Done(Ok(())),
        ),
{
}

/// What a printer that is turned off, or fails without saying why, is reported as.
pub proof fn law_failures_without_bits_have_their_own_text(status: PrinterStatus)
    requires
        status.error_information_1 == 0,
        status.error_information_2 == 0,
    ensures
        status.status_type == 2 ==> readiness(status) == Err::<bool, PtouchFault>(
            PtouchFault::StatusError("Printer reported an unspecified error"@),
        ),
        status.status_type == 4 ==> readiness(status) == Err::<bool, PtouchFault>(
            PtouchFault::StatusError("Printer turned off"@),
        ),
{
}

/// A status with an error bit is reported by the description of its errors.
pub proof fn law_error_bits_are_reported_by_name(status: PrinterStatus)
    requires
        status.error_information_1 != 0 || status.error_information_2 != 0,
    ensures
        readiness(status) == Err::<bool, PtouchFault>(
            PtouchFault::StatusError(status.error_text()),
        ),
{
}

} // verus!

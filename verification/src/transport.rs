//! Exchanges with a printer over USB.

use vstd::prelude::*;
use vstd::slice::slice_subrange;

use crate::error::{PtouchError, PtouchFault};
use crate::message::{decimal, hex_byte, push_decimal, push_hex_byte};
use crate::status::{packet_status, PrinterStatus, STATUS_PACKET_SIZE};

verus! {

/// Nanoseconds within which the printer has to get ready after a print command.
pub const PRINT_STATUS_TIMEOUT: u128 = 30_000_000_000;

/// Nanoseconds that one read waits, so that a silent printer cannot use up the
/// whole time for a print command in a single transfer.
pub const PRINT_STATUS_POLL_TIMEOUT: u128 = 250_000_000;

/// Bytes received from the printer, cut into status packets.
#[derive(Debug)]
pub struct StatusFrameBuffer {
    pending: Vec<u8>,
}

impl View for StatusFrameBuffer {
    type V = Seq<u8>;

    /// The bytes that no packet has been cut from yet.
    closed spec fn view(&self) -> Seq<u8> {
        self.pending@
    }
}

impl StatusFrameBuffer {
    /// A buffer without bytes.
    pub fn new() -> (frames: Self)
        ensures
            frames@ == Seq::<u8>::empty(),
    {
        StatusFrameBuffer { pending: Vec::with_capacity(STATUS_PACKET_SIZE * 2) }
    }

    /// Adds received bytes behind those that are pending.
    pub fn push(&mut self, bytes: &[u8])
        ensures
            final(self)@ == old(self)@ + bytes@,
    {
        self.pending.extend_from_slice(bytes);
        assert(self.pending@ =~= old(self).pending@ + bytes@);
    }

    /// Number of pending bytes.
    pub fn len(&self) -> (n: usize)
        ensures
            n == self@.len(),
    {
        self.pending.len()
    }

    /// Takes the first packet off, once enough bytes for one are pending.
    pub fn pop(&mut self) -> (frame: Option<[u8; STATUS_PACKET_SIZE]>)
        ensures
            match frame {
                Some(packet) => {
                    &&& old(self)@.len() >= STATUS_PACKET_SIZE
                    &&& packet@ == old(self)@.take(STATUS_PACKET_SIZE as int)
                    &&& final(self)@ == old(self)@.skip(STATUS_PACKET_SIZE as int)
                },
                None => old(self)@.len() < STATUS_PACKET_SIZE && final(self)@ == old(self)@,
            },
    {
        if self.pending.len() < STATUS_PACKET_SIZE {
            return None;
        }
        let rest: Vec<u8> = self.pending.split_off(STATUS_PACKET_SIZE);
        let mut frame: [u8; STATUS_PACKET_SIZE] = [0u8; STATUS_PACKET_SIZE];
        let mut i: usize = 0;
        while i < STATUS_PACKET_SIZE
            invariant
                i <= STATUS_PACKET_SIZE,
                self.pending@.len() == STATUS_PACKET_SIZE,
                frame@.len() == STATUS_PACKET_SIZE,
                forall|k: int| 0 <= k < i ==> frame@[k] == self.pending@[k],
            decreases STATUS_PACKET_SIZE - i,
        {
            frame[i] = self.pending[i];
            i = i + 1;
        }
        assert(frame@ =~= self.pending@);
        self.pending = rest;
        Some(frame)
    }
}

/// What is said of a packet whose header is not that of a status packet.
pub open spec fn bad_header_text(intro: Seq<char>, status: PrinterStatus) -> Seq<char> {
    intro + ": mark="@ + hex_byte(status.print_head_mark) + " size="@ + hex_byte(status.size)
}

/// The status in a packet, or what is wrong with its header.
pub open spec fn parsed_packet(packet: Seq<u8>, intro: Seq<char>) -> Result<
    PrinterStatus,
    PtouchFault,
> {
    let status = packet_status(packet);
    if status.print_head_mark == 0x80 && status.size == 0x20 {
        Ok(status)
    } else {
        Err(PtouchFault::StatusError(bad_header_text(intro, status)))
    }
}

/// A result with the error replaced by its mathematical value.
pub open spec fn outcome<T>(result: Result<T, PtouchError>) -> Result<T, PtouchFault> {
    match result {
        Ok(value) => Ok(value),
        Err(error) => Err(error@),
    }
}

/// Reads a status packet and checks its header.
pub fn parse_status_packet(
    response: &[u8; STATUS_PACKET_SIZE],
    invalid_header_message: &str,
) -> (result: Result<PrinterStatus, PtouchError>)
    ensures
        outcome(result) == parsed_packet(response@, invalid_header_message@),
{
    let status = match PrinterStatus::from_bytes(response) {
        Some(status) => status,
        None => return Err(PtouchError::StatusError("Failed to parse status packet".to_string())),
    };
    if status.print_head_mark != 0x80 || status.size != 0x20 {
        let mut text = invalid_header_message.to_string();
        text.append(": mark=");
        push_hex_byte(&mut text, status.print_head_mark);
        text.append(" size=");
        push_hex_byte(&mut text, status.size);
        return Err(PtouchError::StatusError(text));
    }
    Ok(status)
}

/// Whether a status after a print command lets the next page be sent, or what
/// keeps the printer from taking it.
pub open spec fn readiness(status: PrinterStatus) -> Result<bool, PtouchFault> {
    if status.reports_error() {
        Err(PtouchFault::StatusError(status.error_text()))
    } else if status.status_type == 0x02 {
        Err(PtouchFault::StatusError("Printer reported an unspecified error"@))
    } else if status.status_type == 0x04 {
        Err(PtouchFault::StatusError("Printer turned off"@))
    } else {
        Ok(status.waits_to_receive())
    }
}

/// Decides whether a status after a print command lets the next page be sent.
pub fn print_status_is_ready(status: &PrinterStatus) -> (result: Result<bool, PtouchError>)
    ensures
        outcome(result) == readiness(*status),
{
    if status.has_error() || status.status_type == 0x02 {
        let description: String = if status.has_error() {
            status.error_description()
        } else {
            "Printer reported an unspecified error".to_string()
        };
        return Err(PtouchError::StatusError(description));
    }
    if status.status_type == 0x04 {
        return Err(PtouchError::StatusError("Printer turned off".to_string()));
    }
    Ok(status.is_waiting_to_receive())
}

/// What happened while waiting for the printer to get ready.
pub enum PollEvent {
    /// The clock shows that so many nanoseconds have passed since the start.
    Elapsed(u128),
    /// A transfer of so many bytes into the given buffer ended.
    Received(usize, [u8; STATUS_PACKET_SIZE]),
    /// A transfer failed.
    Failed(PtouchError),
}

/// What to do next while waiting for the printer to get ready.
pub enum PollAction {
    /// Report the time that has passed.
    ReadClock,
    /// Receive into a buffer of 32 bytes for at most so many nanoseconds.
    Receive(u128),
    /// Stop waiting with this result.
    Finished(Result<PrinterStatus, PtouchError>),
}

/// Mathematical value of a [`PollEvent`].
pub enum PollEventModel {
    Elapsed(nat),
    Received(nat, Seq<u8>),
    Failed(PtouchFault),
}

/// Mathematical value of a [`PollAction`].
pub enum PollActionModel {
    ReadClock,
    Receive(nat),
    Finished(Result<PrinterStatus, PtouchFault>),
}

impl View for PollEvent {
    type V = PollEventModel;

    open spec fn view(&self) -> PollEventModel {
        match *self {
            PollEvent::Elapsed(time) => PollEventModel::Elapsed(time as nat),
            PollEvent::Received(read, transfer) => PollEventModel::Received(
                read as nat,
                transfer@,
            ),
            PollEvent::Failed(error) => PollEventModel::Failed(error@),
        }
    }
}

impl View for PollAction {
    type V = PollActionModel;

    open spec fn view(&self) -> PollActionModel {
        match *self {
            PollAction::ReadClock => PollActionModel::ReadClock,
            PollAction::Receive(time) => PollActionModel::Receive(time as nat),
            PollAction::Finished(result) => PollActionModel::Finished(outcome(result)),
        }
    }
}

/// How a packet ends the wait, if it does.
pub open spec fn packet_verdict(packet: Seq<u8>) -> Option<Result<PrinterStatus, PtouchFault>> {
    match parsed_packet(packet, "Invalid status header after print"@) {
        Err(fault) => Some(Err(fault)),
        Ok(status) => match readiness(status) {
            Err(fault) => Some(Err(fault)),
            Ok(ready) => if ready {
                Some(Ok(status))
            } else {
                None
            },
        },
    }
}

/// What is said of a transfer that claims more bytes than its buffer has.
pub open spec fn overrun_text(read: nat) -> Seq<char> {
    "USB read reported "@ + decimal(read) + " bytes for a 32-byte buffer"@
}

/// The pending bytes and the next action after `bytes` arrived.
pub open spec fn poll_bytes(pending: Seq<u8>, bytes: Seq<u8>) -> (Seq<u8>, PollActionModel) {
    let joined = pending + bytes;
    if joined.len() < STATUS_PACKET_SIZE {
        (joined, PollActionModel::ReadClock)
    } else {
        let rest = joined.skip(STATUS_PACKET_SIZE as int);
        match packet_verdict(joined.take(STATUS_PACKET_SIZE as int)) {
            Some(result) => (rest, PollActionModel::Finished(result)),
            None => (rest, PollActionModel::ReadClock),
        }
    }
}

/// One step of waiting for the printer to get ready: from the bytes that are
/// pending and an event to the bytes that are pending then and the next action.
pub open spec fn poll_step(pending: Seq<u8>, event: PollEventModel, timeout: nat) -> (
    Seq<u8>,
    PollActionModel,
) {
    match event {
        PollEventModel::Elapsed(time) => if time > timeout {
            (pending, PollActionModel::Finished(Err(PtouchFault::Timeout)))
        } else {
            let remaining = (timeout - time) as nat;
            let limit = PRINT_STATUS_POLL_TIMEOUT as nat;
            (
                pending,
                PollActionModel::Receive(
                    if remaining < limit {
                        remaining
                    } else {
                        limit
                    },
                ),
            )
        },
        PollEventModel::Received(read, transfer) => if read > STATUS_PACKET_SIZE {
            (pending, PollActionModel::Finished(Err(PtouchFault::StatusError(overrun_text(read)))))
        } else if read == 0 {
            (pending, PollActionModel::ReadClock)
        } else {
            poll_bytes(pending, transfer.take(read as int))
        },
        PollEventModel::Failed(fault) => if fault == PtouchFault::Timeout {
            (pending, PollActionModel::ReadClock)
        } else {
            (pending, PollActionModel::Finished(Err(fault)))
        },
    }
}

/// Advances the wait for the printer to get ready within the usual time.
///
/// The wait starts with an empty buffer and [`PollAction::ReadClock`].
pub fn receive_print_status(frames: &mut StatusFrameBuffer, event: PollEvent) -> (action:
    PollAction)
    ensures
        (final(frames)@, action@) == poll_step(old(frames)@, event@, PRINT_STATUS_TIMEOUT as nat),
{
    receive_print_status_with_timeout(frames, event, PRINT_STATUS_TIMEOUT)
}

/// Advances the wait for the printer to get ready within `timeout`
/// nanoseconds.
///
/// The wait starts with an empty buffer and [`PollAction::ReadClock`]. Transfers
/// without bytes and transfers that ran out of time are passed over; packets
/// are cut from the stream of bytes wherever its transfers end.
pub fn receive_print_status_with_timeout(
    frames: &mut StatusFrameBuffer,
    event: PollEvent,
    timeout: u128,
) -> (action: PollAction)
    ensures
        (final(frames)@, action@) == poll_step(old(frames)@, event@, timeout as nat),
{
    match event {
        PollEvent::Elapsed(time) => {
            if time > timeout {
                return PollAction::Finished(Err(PtouchError::Timeout));
            }
            let remaining: u128 = timeout - time;
            if remaining < PRINT_STATUS_POLL_TIMEOUT {
                PollAction::Receive(remaining)
            } else {
                PollAction::Receive(PRINT_STATUS_POLL_TIMEOUT)
            }
        },
        PollEvent::Failed(error) => match error {
            PtouchError::Timeout => PollAction::ReadClock,
            other => PollAction::Finished(Err(other)),
        },
        PollEvent::Received(read, transfer) => {
            if read > STATUS_PACKET_SIZE {
                let mut text = "USB read reported ".to_string();
                push_decimal(&mut text, read as u64);
                text.append(" bytes for a 32-byte buffer");
                return PollAction::Finished(Err(PtouchError::StatusError(text)));
            }
            if read == 0 {
                return PollAction::ReadClock;
            }
            frames.push(slice_subrange(transfer.as_slice(), 0, read));
            match frames.pop() {
                None => PollAction::ReadClock,
                Some(response) => {
                    let status = match parse_status_packet(
                        &response,
                        "Invalid status header after print",
                    ) {
                        Ok(status) => status,
                        Err(error) => return PollAction::Finished(Err(error)),
                    };
                    match print_status_is_ready(&status) {
                        Err(error) => PollAction::Finished(Err(error)),
                        Ok(ready) => if ready {
                            PollAction::Finished(Ok(status))
                        } else {
                            PollAction::ReadClock
                        },
                    }
                },
            }
        },
    }
}

/// How a stream of bytes ends the wait, if it does: its first packet that ends
/// the wait decides.
pub open spec fn stream_verdict(stream: Seq<u8>) -> Option<Result<PrinterStatus, PtouchFault>>
    decreases stream.len(),
{
    if stream.len() < STATUS_PACKET_SIZE {
        None
    } else {
        match packet_verdict(stream.take(STATUS_PACKET_SIZE as int)) {
            Some(result) => Some(result),
            None => stream_verdict(stream.skip(STATUS_PACKET_SIZE as int)),
        }
    }
}

/// How the wait ends when the bytes in `transfers` arrive one after the other.
pub open spec fn transfers_verdict(pending: Seq<u8>, transfers: Seq<Seq<u8>>) -> Option<
    Result<PrinterStatus, PtouchFault>,
>
    decreases transfers.len(),
{
    if transfers.len() == 0 {
        None
    } else {
        let event = PollEventModel::Received(transfers[0].len(), transfers[0]);
        let (rest, action) = poll_step(pending, event, PRINT_STATUS_TIMEOUT as nat);
        match action {
            PollActionModel::Finished(result) => Some(result),
            _ => transfers_verdict(rest, transfers.drop_first()),
        }
    }
}

/// How the bytes that a printer sends are split into transfers does not matter:
/// the wait ends as the joined stream decides.
pub proof fn law_fragmentation_does_not_matter(pending: Seq<u8>, transfers: Seq<Seq<u8>>)
    requires
        pending.len() < STATUS_PACKET_SIZE,
        forall|i: int|
            0 <= i < transfers.len() ==> (#[trigger] transfers[i]).len() <= STATUS_PACKET_SIZE,
    ensures
        transfers_verdict(pending, transfers) == stream_verdict(pending + transfers.flatten()),
    decreases transfers.len(),
{
    if transfers.len() == 0 {
        assert(pending + transfers.flatten() =~= pending);
    } else {
        let bytes = transfers[0];
        let rest = transfers.drop_first();
        let joined = pending + bytes;
        let stream = pending + transfers.flatten();
        assert(stream =~= joined + rest.flatten());
        assert(bytes.take(bytes.len() as int) =~= bytes);
        assert forall|i: int| 0 <= i < rest.len() implies (#[trigger] rest[i]).len()
            <= STATUS_PACKET_SIZE by {
            assert(rest[i] == transfers[i + 1]);
        }
        if joined.len() < STATUS_PACKET_SIZE {
            assert(bytes.len() == 0 ==> joined =~= pending);
            law_fragmentation_does_not_matter(joined, rest);
        } else {
            let tail = joined.skip(STATUS_PACKET_SIZE as int);
            assert(stream.take(STATUS_PACKET_SIZE as int) =~= joined.take(
                STATUS_PACKET_SIZE as int,
            ));
            assert(stream.skip(STATUS_PACKET_SIZE as int) =~= tail + rest.flatten());
            law_fragmentation_does_not_matter(tail, rest);
        }
    }
}

/// A wait that ends well ends with a status that reports no error and says that
/// the printer waits to receive.
pub proof fn law_only_a_ready_printer_ends_the_wait_well(
    pending: Seq<u8>,
    event: PollEventModel,
    timeout: nat,
)
    ensures
        poll_step(pending, event, timeout).1 matches PollActionModel::Finished(Ok(status)) ==> {
            &&& status.waits_to_receive()
            &&& !status.reports_error()
            &&& status.print_head_mark == 0x80
            &&& status.size == 0x20
        },
{
}

/// A read never waits longer than the time that is left nor than its own limit,
/// and none starts after the deadline.
pub proof fn law_reads_stay_within_the_deadline(
    pending: Seq<u8>,
    event: PollEventModel,
    timeout: nat,
)
    ensures
        poll_step(pending, event, timeout).1 matches PollActionModel::Receive(limit) ==> {
            &&& limit <= PRINT_STATUS_POLL_TIMEOUT
            &&& event matches PollEventModel::Elapsed(time) && time + limit <= timeout
        },
        event matches PollEventModel::Elapsed(time) && time > timeout ==> poll_step(
            pending,
            event,
            timeout,
        ).1 == PollActionModel::Finished(Err(PtouchFault::Timeout)),
{
}

/// A transfer that ran out of time or brought no bytes changes nothing: the wait
/// goes on until the deadline.
pub proof fn law_silence_is_passed_over(pending: Seq<u8>, buffer: Seq<u8>, timeout: nat)
    ensures
        poll_step(pending, PollEventModel::Failed(PtouchFault::Timeout), timeout) == (
            pending,
            PollActionModel::ReadClock,
        ),
        poll_step(pending, PollEventModel::Received(0, buffer), timeout) == (
            pending,
            PollActionModel::ReadClock,
        ),
{
}

} // verus!

//! A printer on the USB bus, and the exchanges that its operations consist of.
//!
//! An operation is a sequence of actions on the bus. It starts with the action
//! that its method returns; [`PtouchDevice::advance`] takes what came of an
//! action and gives the next one, until [`DeviceAction::Done`].

use vstd::prelude::*;
use vstd::slice::slice_subrange;

use crate::device::{
    device_entry, find_device, DeviceFlags, DeviceInfo, BROTHER_VENDOR_ID,
};
use crate::error::{usb_error, usb_fault, PtouchError, PtouchFault, UsbFault};
use crate::message::{decimal, push_decimal};
use crate::protocol::{
    raster_line_len, rasterline_blank, Command, CommandModel, JobOptions, PrintQuality,
};
use crate::status::{packet_status, PrinterStatus, STATUS_PACKET_SIZE};
use crate::tape::{tape_dots, tape_pixels, TapeInfo};
use crate::transport::{
    outcome, parse_status_packet, parsed_packet, poll_step, receive_print_status, PollAction,
    PollActionModel, PollEvent, PollEventModel, StatusFrameBuffer, PRINT_STATUS_TIMEOUT,
};

verus! {

/// Nanoseconds that a bulk transfer may take.
pub const USB_TIMEOUT: u128 = 5_000_000_000;

/// Nanoseconds that a read of stale bytes may take.
pub const USB_FLUSH_TIMEOUT: u128 = 100_000_000;

/// Nanoseconds between two reads of a status.
pub const STATUS_RETRY_DELAY: u128 = 100_000_000;

/// Number of times that a status is read before giving up.
pub const STATUS_MAX_RETRIES: usize = 10;

/// Number of blank raster lines that make the printer engage the feed.
pub const FEED_LINES: usize = 3;

/// USB interface of the printer function.
pub const USB_INTERFACE: u8 = 0;

/// An endpoint that a device describes.
#[derive(Debug, Clone, Copy, PartialEq, Eq, Structural)]
pub struct UsbEndpoint {
    /// Number of the interface that the endpoint belongs to.
    pub interface_number: u8,
    /// Whether the endpoint is for bulk transfers.
    pub bulk: bool,
    /// Whether the device sends on the endpoint.
    pub input: bool,
    pub address: u8,
}

/// The address of the last bulk endpoint of the printer interface in one
/// direction.
pub open spec fn bulk_address(endpoints: Seq<UsbEndpoint>, input: bool) -> Option<u8>
    decreases endpoints.len(),
{
    if endpoints.len() == 0 {
        None
    } else {
        let last = endpoints.last();
        if last.interface_number == USB_INTERFACE && last.bulk && last.input == input {
            Some(last.address)
        } else {
            bulk_address(endpoints.drop_last(), input)
        }
    }
}

/// The OUT and IN addresses of the printer interface.
pub open spec fn bulk_addresses(endpoints: Seq<UsbEndpoint>) -> Result<(u8, u8), PtouchFault> {
    match (bulk_address(endpoints, false), bulk_address(endpoints, true)) {
        (Some(ep_out), Some(ep_in)) => Ok((ep_out, ep_in)),
        _ => Err(PtouchFault::DeviceNotFound),
    }
}

/// Finds the bulk OUT and IN endpoints of the printer interface among the
/// endpoints that a device describes.
pub fn find_bulk_endpoints(endpoints: &Vec<UsbEndpoint>) -> (result: Result<(u8, u8), PtouchError>)
    ensures
        outcome(result) == bulk_addresses(endpoints@),
{
    let mut ep_out: Option<u8> = None;
    let mut ep_in: Option<u8> = None;
    let mut i: usize = 0;
    while i < endpoints.len()
        invariant
            i <= endpoints@.len(),
            ep_out == bulk_address(endpoints@.take(i as int), false),
            ep_in == bulk_address(endpoints@.take(i as int), true),
        decreases endpoints@.len() - i,
    {
        let endpoint = endpoints[i];
        if endpoint.interface_number == USB_INTERFACE && endpoint.bulk {
            if endpoint.input {
                ep_in = Some(endpoint.address);
            } else {
                ep_out = Some(endpoint.address);
            }
        }
        assert(endpoints@.take(i + 1).drop_last() =~= endpoints@.take(i as int));
        i = i + 1;
    }
    assert(endpoints@.take(i as int) =~= endpoints@);
    match (ep_out, ep_in) {
        (Some(ep_out), Some(ep_in)) => Ok((ep_out, ep_in)),
        _ => Err(PtouchError::DeviceNotFound),
    }
}

/// The table entry of a printer that can be opened, or why it cannot.
pub open spec fn openable(devices: Seq<DeviceInfo>, vid: u16, pid: u16) -> Result<
    DeviceInfo,
    PtouchFault,
> {
    match device_entry(devices, vid, pid) {
        None => Err(PtouchFault::DeviceNotFound),
        Some(info) => if info.flags.plite {
            Err(PtouchFault::PLiteMode(info.name@))
        } else if info.flags.unsup_raster {
            Err(PtouchFault::UnsupportedRaster(info.name@))
        } else {
            Ok(info)
        },
    }
}

/// Whether an entry of the bus is a printer that can be opened.
pub open spec fn is_candidate(devices: Seq<DeviceInfo>, entry: Option<(u16, u16)>) -> bool {
    match entry {
        Some((vid, pid)) => vid == BROTHER_VENDOR_ID && (match device_entry(devices, vid, pid) {
            Some(info) => !info.flags.plite && !info.flags.unsup_raster,
            None => false,
        }),
        None => false,
    }
}

/// The first printer on the bus that can be opened.
pub open spec fn first_candidate(
    devices: Seq<DeviceInfo>,
    bus: Seq<Option<(u16, u16)>>,
) -> Result<(u16, u16), PtouchFault>
    decreases bus.len(),
{
    if bus.len() == 0 {
        Err(PtouchFault::DeviceNotFound)
    } else if is_candidate(devices, bus[0]) {
        Ok(bus[0]->0)
    } else {
        first_candidate(devices, bus.drop_first())
    }
}

/// A connection to a printer.
#[derive(Debug)]
pub struct PtouchDevice {
    dev_info: DeviceInfo,
    ep_out: u8,
    ep_in: u8,
    status: Option<PrinterStatus>,
    tape_width_px: Option<u16>,
    initialized: bool,
}

/// Mathematical value of a [`PtouchDevice`].
pub struct DeviceModel {
    /// Entry of the device table.
    pub info: DeviceInfo,
    /// Address of the bulk OUT endpoint.
    pub ep_out: u8,
    /// Address of the bulk IN endpoint.
    pub ep_in: u8,
    /// Status read last.
    pub status: Option<PrinterStatus>,
    /// Printable dots across the loaded tape, where they are known.
    pub tape_width_px: Option<u16>,
    /// Whether the printer has been initialized.
    pub initialized: bool,
}

impl DeviceModel {
    /// No tape is wider than the print head.
    pub open spec fn wf(self) -> bool {
        self.tape_width_px matches Some(px) ==> px <= self.info.max_px
    }

    /// The device after a status that was asked for.
    pub open spec fn with_status(self, status: PrinterStatus, tapes: Seq<TapeInfo>) -> DeviceModel {
        DeviceModel {
            status: Some(status),
            tape_width_px: match tape_dots(tapes, status.media_width, self.info.dpi) {
                Some(px) => Some(
                    if px < self.info.max_px {
                        px
                    } else {
                        self.info.max_px
                    },
                ),
                None => None,
            },
            ..self
        }
    }

    /// Width of the loaded tape in millimeters, 0 where no status was read.
    pub open spec fn media_width(self) -> u8 {
        match self.status {
            Some(status) => status.media_width,
            None => 0,
        }
    }
}

impl View for PtouchDevice {
    type V = DeviceModel;

    closed spec fn view(&self) -> DeviceModel {
        DeviceModel {
            info: self.dev_info,
            ep_out: self.ep_out,
            ep_in: self.ep_in,
            status: self.status,
            tape_width_px: self.tape_width_px,
            initialized: self.initialized,
        }
    }
}

/// The operations that take several transfers.
#[derive(Debug, Clone, Copy, PartialEq, Eq, Structural)]
pub enum OperationKind {
    /// Reset the printer and read its status.
    Init,
    /// Read the status without a reset.
    QueryStatus,
    /// Read the status without dropping stale bytes first.
    GetStatus,
    /// Print a job.
    Print,
    /// Print a minimal blank strip and cut.
    FeedAndCut,
}

/// What an operation waits for.
#[derive(Debug)]
enum Stage {
    /// The stale bytes to be dropped.
    Flushing,
    /// The reset command to be sent.
    InitSending,
    /// The status request to be sent.
    RequestSending,
    /// The pause before a read of the status to end.
    Pausing,
    /// The status to be read.
    Reading,
    /// The stale bytes to be dropped after a failure.
    Dropping(PtouchError),
    /// The notification of phase changes to be switched on.
    NotifySending,
    /// A chunk of the job to be sent.
    ChunkSending,
    /// The clock to be read.
    ClockReading,
    /// A status after the job to be read.
    StatusPolling,
    /// The printer to report the end of the job.
    CompletionReading,
    /// Nothing: the operation has ended.
    Finished,
}

/// Mathematical value of what an operation waits for.
pub enum StageModel {
    Flushing,
    InitSending,
    RequestSending,
    Pausing,
    Reading,
    Dropping(PtouchFault),
    NotifySending,
    ChunkSending,
    ClockReading,
    StatusPolling,
    CompletionReading,
    Finished,
}

impl View for Stage {
    type V = StageModel;

    closed spec fn view(&self) -> StageModel {
        match *self {
            Stage::Flushing => StageModel::Flushing,
            Stage::InitSending => StageModel::InitSending,
            Stage::RequestSending => StageModel::RequestSending,
            Stage::Pausing => StageModel::Pausing,
            Stage::Reading => StageModel::Reading,
            Stage::Dropping(error) => StageModel::Dropping(error@),
            Stage::NotifySending => StageModel::NotifySending,
            Stage::ChunkSending => StageModel::ChunkSending,
            Stage::ClockReading => StageModel::ClockReading,
            Stage::StatusPolling => StageModel::StatusPolling,
            Stage::CompletionReading => StageModel::CompletionReading,
            Stage::Finished => StageModel::Finished,
        }
    }
}

/// An operation under way.
#[derive(Debug)]
pub struct Operation {
    kind: OperationKind,
    stage: Stage,
    frames: StatusFrameBuffer,
    attempts: usize,
    chunks: Vec<Vec<u8>>,
    sent: usize,
}

/// Mathematical value of an [`Operation`].
pub struct OperationModel {
    pub kind: OperationKind,
    pub stage: StageModel,
    /// Received bytes that no packet has been cut from.
    pub pending: Seq<u8>,
    /// Reads of the status that brought no packet.
    pub attempts: nat,
    /// Chunks of the job.
    pub chunks: Seq<Seq<u8>>,
    /// Number of chunks that were sent.
    pub sent: nat,
}

impl View for Operation {
    type V = OperationModel;

    closed spec fn view(&self) -> OperationModel {
        OperationModel {
            kind: self.kind,
            stage: self.stage@,
            pending: self.frames@,
            attempts: self.attempts as nat,
            chunks: chunk_bytes(self.chunks@),
            sent: self.sent as nat,
        }
    }
}

/// The bytes of each chunk.
pub open spec fn chunk_bytes(chunks: Seq<Vec<u8>>) -> Seq<Seq<u8>> {
    Seq::new(chunks.len(), |i: int| chunks[i]@)
}

/// What came of an action.
pub enum DeviceEvent {
    /// The stale bytes were dropped.
    Flushed,
    /// A command was sent, or not.
    Sent(Result<(), PtouchError>),
    /// The pause ended.
    Paused,
    /// A transfer into the buffer ended: the bytes it brought, or its failure.
    Received(Result<usize, PtouchError>, [u8; STATUS_PACKET_SIZE]),
    /// The nanoseconds since the clock was read first.
    Elapsed(u128),
}

/// What an operation does next.
pub enum DeviceAction {
    /// Read and drop stale bytes until none are left.
    FlushInput,
    /// Send a command.
    Send(Command),
    /// Wait for [`STATUS_RETRY_DELAY`].
    Pause,
    /// Receive into a buffer of 32 bytes for at most so many nanoseconds.
    Receive(u128),
    /// Report the time since this action was asked for first.
    ReadClock,
    /// The operation has ended.
    Done(Result<(), PtouchError>),
}

/// Mathematical value of a [`DeviceEvent`].
pub enum DeviceEventModel {
    Flushed,
    Sent(Result<(), PtouchFault>),
    Paused,
    Received(Result<usize, PtouchFault>, Seq<u8>),
    Elapsed(nat),
}

/// Mathematical value of a [`DeviceAction`].
pub enum DeviceActionModel {
    FlushInput,
    Send(CommandModel),
    Pause,
    Receive(nat),
    ReadClock,
    Done(Result<(), PtouchFault>),
}

impl View for DeviceEvent {
    type V = DeviceEventModel;

    open spec fn view(&self) -> DeviceEventModel {
        match *self {
            DeviceEvent::Flushed => DeviceEventModel::Flushed,
            DeviceEvent::Sent(result) => DeviceEventModel::Sent(outcome(result)),
            DeviceEvent::Paused => DeviceEventModel::Paused,
            DeviceEvent::Received(result, buffer) => DeviceEventModel::Received(
                outcome(result),
                buffer@,
            ),
            DeviceEvent::Elapsed(time) => DeviceEventModel::Elapsed(time as nat),
        }
    }
}

impl View for DeviceAction {
    type V = DeviceActionModel;

    open spec fn view(&self) -> DeviceActionModel {
        match *self {
            DeviceAction::FlushInput => DeviceActionModel::FlushInput,
            DeviceAction::Send(command) => DeviceActionModel::Send(command@),
            DeviceAction::Pause => DeviceActionModel::Pause,
            DeviceAction::Receive(time) => DeviceActionModel::Receive(time as nat),
            DeviceAction::ReadClock => DeviceActionModel::ReadClock,
            DeviceAction::Done(result) => DeviceActionModel::Done(outcome(result)),
        }
    }
}

/// A device, an operation on it and the next action.
pub type Step = (DeviceModel, OperationModel, DeviceActionModel);

impl OperationModel {
    /// An operation reads the status no more often than it may, holds less than
    /// a packet of pending bytes while it waits for one, and has a chunk to send
    /// while it is sending one.
    pub open spec fn wf(self) -> bool {
        match self.stage {
            StageModel::Flushing => !self.prints() && self.is_fresh(),
            StageModel::InitSending => self.kind is Init && self.is_fresh(),
            StageModel::RequestSending => !self.prints() && self.is_fresh(),
            StageModel::Pausing | StageModel::Reading => {
                &&& !self.prints()
                &&& self.attempts < STATUS_MAX_RETRIES
                &&& self.pending.len() < STATUS_PACKET_SIZE
            },
            StageModel::Dropping(_) => !self.prints(),
            StageModel::NotifySending => self.kind is Init,
            StageModel::ChunkSending => {
                &&& self.prints()
                &&& self.is_fresh()
                &&& self.sent < self.chunks.len()
            },
            StageModel::ClockReading | StageModel::StatusPolling => {
                &&& self.prints()
                &&& self.pending.len() < STATUS_PACKET_SIZE
                &&& self.sent == self.chunks.len()
            },
            StageModel::CompletionReading => self.kind is Print && self.sent == self.chunks.len(),
            StageModel::Finished => true,
        }
    }

    /// Whether the operation sends a job.
    pub open spec fn prints(self) -> bool {
        self.kind is Print || self.kind is FeedAndCut
    }

    /// Whether the operation has not read anything yet.
    pub open spec fn is_fresh(self) -> bool {
        self.attempts == 0 && self.pending.len() == 0
    }

    /// Whether `event` can be what came of the action that was asked for last.
    pub open spec fn expects(self, event: DeviceEventModel) -> bool {
        match self.stage {
            StageModel::Flushing | StageModel::Dropping(_) => event is Flushed,
            StageModel::InitSending
            | StageModel::RequestSending
            | StageModel::NotifySending
            | StageModel::ChunkSending => event is Sent,
            StageModel::Pausing => event is Paused,
            StageModel::Reading => match event {
                DeviceEventModel::Received(Ok(read), buffer) => read <= STATUS_PACKET_SIZE
                    && buffer.len() == STATUS_PACKET_SIZE,
                DeviceEventModel::Received(Err(_), buffer) => buffer.len() == STATUS_PACKET_SIZE,
                _ => false,
            },
            StageModel::ClockReading => event is Elapsed,
            StageModel::StatusPolling | StageModel::CompletionReading => match event {
                DeviceEventModel::Received(_, buffer) => buffer.len() == STATUS_PACKET_SIZE,
                _ => false,
            },
            StageModel::Finished => false,
        }
    }

    /// The operation in another stage.
    pub open spec fn at(self, stage: StageModel) -> OperationModel {
        OperationModel { stage, ..self }
    }
}

/// The operation has ended with `result`.
pub open spec fn ended(d: DeviceModel, op: OperationModel, result: Result<(), PtouchFault>) -> Step {
    (d, op.at(StageModel::Finished), DeviceActionModel::Done(result))
}

/// The next command is to be sent, or its predecessor could not be.
pub open spec fn sending(
    d: DeviceModel,
    op: OperationModel,
    sent: Result<(), PtouchFault>,
    stage: StageModel,
    command: CommandModel,
) -> Step {
    match sent {
        Ok(_) => (d, op.at(stage), DeviceActionModel::Send(command)),
        Err(fault) => ended(d, op, Err(fault)),
    }
}

/// The next chunk of a job, or what follows when all are sent: printers that
/// report when they can take the next page are waited for, of the others a
/// print job reads one status.
pub open spec fn job_step(d: DeviceModel, op: OperationModel) -> Step {
    if op.sent < op.chunks.len() {
        (
            d,
            op.at(StageModel::ChunkSending),
            DeviceActionModel::Send(CommandModel::Chunk(op.chunks[op.sent as int])),
        )
    } else if d.info.flags.wait_for_receive_ready {
        (d, op.at(StageModel::ClockReading), DeviceActionModel::ReadClock)
    } else if op.kind is Print {
        (d, op.at(StageModel::CompletionReading), DeviceActionModel::Receive(USB_TIMEOUT as nat))
    } else {
        ended(d, op, Ok(()))
    }
}

/// What is said when too few bytes came in answer to a status request.
pub open spec fn short_status_text(received: nat) -> Seq<char> {
    "Status packet too short: "@ + decimal(received) + " bytes (expected 32)"@
}

/// A read of the status brought no packet: try again, or give up and drop what
/// came.
pub open spec fn status_missed(d: DeviceModel, op: OperationModel) -> Step {
    let missed = OperationModel { attempts: op.attempts + 1, ..op };
    if missed.attempts < STATUS_MAX_RETRIES {
        (d, missed.at(StageModel::Pausing), DeviceActionModel::Pause)
    } else {
        let fault = PtouchFault::StatusError(short_status_text(op.pending.len()));
        (d, missed.at(StageModel::Dropping(fault)), DeviceActionModel::FlushInput)
    }
}

/// A packet came in answer to a status request.
pub open spec fn status_answered(
    d: DeviceModel,
    op: OperationModel,
    packet: Seq<u8>,
    tapes: Seq<TapeInfo>,
) -> Step {
    match parsed_packet(packet, "Invalid status header"@) {
        Err(fault) => (d, op.at(StageModel::Dropping(fault)), DeviceActionModel::FlushInput),
        Ok(status) => {
            let read = d.with_status(status, tapes);
            if op.kind is Init {
                if d.info.flags.auto_status_notification {
                    (
                        read,
                        op.at(StageModel::NotifySending),
                        DeviceActionModel::Send(CommandModel::AutoStatusNotification(true)),
                    )
                } else {
                    ended(DeviceModel { initialized: true, ..read }, op, Ok(()))
                }
            } else {
                ended(read, op, Ok(()))
            }
        },
    }
}

/// A read of the status ended.
pub open spec fn status_read(
    d: DeviceModel,
    op: OperationModel,
    result: Result<usize, PtouchFault>,
    buffer: Seq<u8>,
    tapes: Seq<TapeInfo>,
) -> Step {
    match result {
        Err(fault) => if fault is Timeout {
            status_missed(d, op)
        } else {
            ended(d, op, Err(fault))
        },
        Ok(read) => if read == 0 {
            status_missed(d, op)
        } else {
            let joined = op.pending + buffer.take(read as int);
            if joined.len() < STATUS_PACKET_SIZE {
                status_missed(d, OperationModel { pending: joined, ..op })
            } else {
                let rest = joined.skip(STATUS_PACKET_SIZE as int);
                status_answered(
                    d,
                    OperationModel { pending: rest, ..op },
                    joined.take(STATUS_PACKET_SIZE as int),
                    tapes,
                )
            }
        },
    }
}

/// The wait for the printer to get ready took a step.
pub open spec fn polled(d: DeviceModel, op: OperationModel, event: PollEventModel) -> Step {
    let (pending, action) = poll_step(op.pending, event, PRINT_STATUS_TIMEOUT as nat);
    let next = OperationModel { pending, ..op };
    match action {
        PollActionModel::ReadClock => (
            d,
            next.at(StageModel::ClockReading),
            DeviceActionModel::ReadClock,
        ),
        PollActionModel::Receive(time) => (
            d,
            next.at(StageModel::StatusPolling),
            DeviceActionModel::Receive(time),
        ),
        PollActionModel::Finished(Ok(status)) => ended(
            DeviceModel { status: Some(status), ..d },
            next,
            Ok(()),
        ),
        PollActionModel::Finished(Err(fault)) => ended(d, next, Err(fault)),
    }
}

/// The one read that follows a print job ended. A status that came whole is
/// kept unless it reports an error; no answer is no failure.
pub open spec fn completed(
    d: DeviceModel,
    op: OperationModel,
    result: Result<usize, PtouchFault>,
    buffer: Seq<u8>,
) -> Step {
    match result {
        Ok(read) => if read >= STATUS_PACKET_SIZE {
            let status = packet_status(buffer);
            if status.reports_error() {
                ended(d, op, Err(PtouchFault::StatusError(status.error_text())))
            } else {
                ended(DeviceModel { status: Some(status), ..d }, op, Ok(()))
            }
        } else {
            ended(d, op, Ok(()))
        },
        Err(fault) => if fault is Timeout {
            ended(d, op, Ok(()))
        } else {
            ended(d, op, Err(fault))
        },
    }
}

/// One step of an operation, for an event that it expects.
pub open spec fn advanced(
    d: DeviceModel,
    op: OperationModel,
    event: DeviceEventModel,
    tapes: Seq<TapeInfo>,
) -> Step {
    match op.stage {
        StageModel::Flushing => if op.kind is Init {
            sending(d, op, Ok(()), StageModel::InitSending, CommandModel::Init)
        } else {
            sending(d, op, Ok(()), StageModel::RequestSending, CommandModel::StatusRequest)
        },
        StageModel::Dropping(fault) => ended(d, op, Err(fault)),
        StageModel::InitSending => sending(
            d,
            op,
            event->Sent_0,
            StageModel::RequestSending,
            CommandModel::StatusRequest,
        ),
        StageModel::RequestSending => match event->Sent_0 {
            Ok(_) => (d, op.at(StageModel::Pausing), DeviceActionModel::Pause),
            Err(fault) => ended(d, op, Err(fault)),
        },
        StageModel::Pausing => (
            d,
            op.at(StageModel::Reading),
            DeviceActionModel::Receive(USB_TIMEOUT as nat),
        ),
        StageModel::Reading => status_read(d, op, event->Received_0, event->Received_1, tapes),
        StageModel::NotifySending => match event->Sent_0 {
            Ok(_) => ended(DeviceModel { initialized: true, ..d }, op, Ok(())),
            Err(fault) => ended(d, op, Err(fault)),
        },
        StageModel::ChunkSending => match event->Sent_0 {
            Ok(_) => job_step(d, OperationModel { sent: op.sent + 1, ..op }),
            Err(fault) => ended(d, op, Err(fault)),
        },
        StageModel::ClockReading => polled(d, op, PollEventModel::Elapsed(event->Elapsed_0)),
        StageModel::StatusPolling => polled(
            d,
            op,
            match event->Received_0 {
                Ok(read) => PollEventModel::Received(read as nat, event->Received_1),
                Err(fault) => PollEventModel::Failed(fault),
            },
        ),
        StageModel::CompletionReading => completed(d, op, event->Received_0, event->Received_1),
        StageModel::Finished => (d, op, DeviceActionModel::ReadClock),
    }
}

impl Operation {
    /// The operation in another stage.
    fn at(self, stage: Stage) -> (op: Operation)
        ensures
            op@ == self@.at(stage@),
    {
        Operation { stage, ..self }
    }

    /// Ends the operation.
    fn end(self, result: Result<(), PtouchError>) -> (r: (Operation, DeviceAction))
        ensures
            r.0@ == self@.at(StageModel::Finished),
            r.1@ == DeviceActionModel::Done(outcome(result)),
    {
        (self.at(Stage::Finished), DeviceAction::Done(result))
    }

    /// Whether the next transfer is a read of the status that was asked for.
    pub fn reads_status(&self) -> (r: bool)
        ensures
            r == (self@.stage is Reading),
    {
        match self.stage {
            Stage::Reading => true,
            _ => false,
        }
    }
}

impl PtouchDevice {
    /// Goes on with the next command once the last one is sent.
    fn send_next(
        &self,
        op: Operation,
        sent: Result<(), PtouchError>,
        stage: Stage,
        command: Command,
    ) -> (r: (Operation, DeviceAction))
        ensures
            (self@, r.0@, r.1@) == sending(self@, op@, outcome(sent), stage@, command@),
    {
        match sent {
            Ok(_) => (op.at(stage), DeviceAction::Send(command)),
            Err(error) => op.end(Err(error)),
        }
    }

    /// Goes on after a read of the status that brought no packet.
    fn miss_status(&self, op: Operation) -> (r: (Operation, DeviceAction))
        requires
            op@.attempts < STATUS_MAX_RETRIES,
        ensures
            (self@, r.0@, r.1@) == status_missed(self@, op@),
    {
        let missed = Operation { attempts: op.attempts + 1, ..op };
        if missed.attempts < STATUS_MAX_RETRIES {
            (missed.at(Stage::Pausing), DeviceAction::Pause)
        } else {
            let mut text = "Status packet too short: ".to_string();
            push_decimal(&mut text, missed.frames.len() as u64);
            text.append(" bytes (expected 32)");
            (missed.at(Stage::Dropping(PtouchError::StatusError(text))), DeviceAction::FlushInput)
        }
    }

    /// Sends the next chunk of a job, or goes on behind the last one.
    fn continue_job(&self, op: Operation) -> (r: (Operation, DeviceAction))
        requires
            op@.sent <= op@.chunks.len(),
        ensures
            (self@, r.0@, r.1@) == job_step(self@, op@),
    {
        if op.sent < op.chunks.len() {
            let chunk: Vec<u8> = op.chunks[op.sent].clone();
            assert(chunk@ =~= op@.chunks[op@.sent as int]);
            (op.at(Stage::ChunkSending), DeviceAction::Send(Command::Chunk(chunk)))
        } else if self.dev_info.flags.wait_for_receive_ready {
            (op.at(Stage::ClockReading), DeviceAction::ReadClock)
        } else if op.kind == OperationKind::Print {
            (op.at(Stage::CompletionReading), DeviceAction::Receive(USB_TIMEOUT))
        } else {
            op.end(Ok(()))
        }
    }

    /// Takes the answer to a status request.
    fn answer_status(
        &mut self,
        op: Operation,
        packet: &[u8; STATUS_PACKET_SIZE],
        tapes: &Vec<TapeInfo>,
    ) -> (r: (Operation, DeviceAction))
        ensures
            (final(self)@, r.0@, r.1@) == status_answered(old(self)@, op@, packet@, tapes@),
    {
        let status = match parse_status_packet(packet, "Invalid status header") {
            Ok(status) => status,
            Err(error) => return (op.at(Stage::Dropping(error)), DeviceAction::FlushInput),
        };
        self.tape_width_px = match tape_pixels(tapes, status.media_width, self.dev_info.dpi) {
            Some(px) => Some(
                if px < self.dev_info.max_px {
                    px
                } else {
                    self.dev_info.max_px
                },
            ),
            None => None,
        };
        self.status = Some(status);
        if op.kind == OperationKind::Init {
            if self.dev_info.flags.auto_status_notification {
                return (
                    op.at(Stage::NotifySending),
                    DeviceAction::Send(Command::AutoStatusNotification(true)),
                );
            }
            self.initialized = true;
        }
        op.end(Ok(()))
    }

    /// Takes a read of the status.
    fn read_status(
        &mut self,
        op: Operation,
        result: Result<usize, PtouchError>,
        buffer: &[u8; STATUS_PACKET_SIZE],
        tapes: &Vec<TapeInfo>,
    ) -> (r: (Operation, DeviceAction))
        requires
            op@.attempts < STATUS_MAX_RETRIES,
            result matches Ok(read) ==> read <= STATUS_PACKET_SIZE,
        ensures
            (final(self)@, r.0@, r.1@) == status_read(
                old(self)@,
                op@,
                outcome(result),
                buffer@,
                tapes@,
            ),
    {
        let read: usize = match result {
            Ok(read) => read,
            Err(error) => match error {
                PtouchError::Timeout => return self.miss_status(op),
                other => return op.end(Err(other)),
            },
        };
        if read == 0 {
            return self.miss_status(op);
        }
        let mut op = op;
        op.frames.push(slice_subrange(buffer.as_slice(), 0, read));
        match op.frames.pop() {
            None => self.miss_status(op),
            Some(packet) => self.answer_status(op, &packet, tapes),
        }
    }

    /// Takes a step of the wait for the printer to get ready.
    fn wait_until_ready(&mut self, op: Operation, event: PollEvent) -> (r: (Operation, DeviceAction))
        ensures
            (final(self)@, r.0@, r.1@) == polled(old(self)@, op@, event@),
    {
        let mut op = op;
        match receive_print_status(&mut op.frames, event) {
            PollAction::ReadClock => (op.at(Stage::ClockReading), DeviceAction::ReadClock),
            PollAction::Receive(time) => (op.at(Stage::StatusPolling), DeviceAction::Receive(time)),
            PollAction::Finished(result) => match result {
                Ok(status) => {
                    self.status = Some(status);
                    op.end(Ok(()))
                },
                Err(error) => op.end(Err(error)),
            },
        }
    }

    /// Takes the one read that follows a print job.
    fn receive_print_completion(
        &mut self,
        op: Operation,
        result: Result<usize, PtouchError>,
        buffer: &[u8; STATUS_PACKET_SIZE],
    ) -> (r: (Operation, DeviceAction))
        ensures
            (final(self)@, r.0@, r.1@) == completed(old(self)@, op@, outcome(result), buffer@),
    {
        match result {
            Ok(read) => {
                if read >= STATUS_PACKET_SIZE {
                    if let Some(status) = PrinterStatus::from_bytes(buffer) {
                        if status.has_error() {
                            let text = status.error_description();
                            return op.end(Err(PtouchError::StatusError(text)));
                        }
                        self.status = Some(status);
                    }
                }
                op.end(Ok(()))
            },
            Err(error) => match error {
                PtouchError::Timeout => op.end(Ok(())),
                other => op.end(Err(other)),
            },
        }
    }

    /// Takes what came of the last action of an operation, and gives the next
    /// one.
    pub fn advance(&mut self, op: Operation, event: DeviceEvent, tapes: &Vec<TapeInfo>) -> (r: (
        Operation,
        DeviceAction,
    ))
        requires
            op@.wf(),
            op@.expects(event@),
        ensures
            (final(self)@, r.0@, r.1@) == advanced(old(self)@, op@, event@, tapes@),
            old(self)@.wf() ==> final(self)@.wf(),
            r.0@.wf(),
    {
        match event {
            DeviceEvent::Flushed => match op.stage {
                Stage::Dropping(error) => {
                    let dropped = Operation { stage: Stage::Finished, ..op };
                    dropped.end(Err(error))
                },
                _ => if op.kind == OperationKind::Init {
                    self.send_next(op, Ok(()), Stage::InitSending, Command::Init)
                } else {
                    self.send_next(op, Ok(()), Stage::RequestSending, Command::StatusRequest)
                },
            },
            DeviceEvent::Sent(result) => match op.stage {
                Stage::InitSending => self.send_next(
                    op,
                    result,
                    Stage::RequestSending,
                    Command::StatusRequest,
                ),
                Stage::RequestSending => match result {
                    Ok(_) => (op.at(Stage::Pausing), DeviceAction::Pause),
                    Err(error) => op.end(Err(error)),
                },
                Stage::NotifySending => match result {
                    Ok(_) => {
                        self.initialized = true;
                        op.end(Ok(()))
                    },
                    Err(error) => op.end(Err(error)),
                },
                _ => match result {
                    Ok(_) => {
                        assert(op.chunks.len() == op@.chunks.len());
                        let next = Operation { sent: op.sent + 1, ..op };
                        self.continue_job(next)
                    },
                    Err(error) => op.end(Err(error)),
                },
            },
            DeviceEvent::Paused => (op.at(Stage::Reading), DeviceAction::Receive(USB_TIMEOUT)),
            DeviceEvent::Elapsed(time) => self.wait_until_ready(op, PollEvent::Elapsed(time)),
            DeviceEvent::Received(result, buffer) => match op.stage {
                Stage::Reading => self.read_status(op, result, &buffer, tapes),
                Stage::StatusPolling => match result {
                    Ok(read) => self.wait_until_ready(op, PollEvent::Received(read, buffer)),
                    Err(error) => self.wait_until_ready(op, PollEvent::Failed(error)),
                },
                _ => self.receive_print_completion(op, result, &buffer),
            },
        }
    }
}

/// What is said of a transfer that ended early.
pub open spec fn short_send_text(expected: nat, written: nat) -> Seq<char> {
    "Expected to write "@ + decimal(expected) + " bytes, wrote "@ + decimal(written)
}

/// Whether `len` bytes were sent, given what became of the transfer.
pub open spec fn send_outcome(len: nat, written: Result<usize, UsbFault>) -> Result<
    (),
    PtouchFault,
> {
    match written {
        Err(fault) => Err(usb_fault(fault)),
        Ok(n) => if n == len {
            Ok(())
        } else {
            Err(PtouchFault::SendFailed(short_send_text(len, n as nat)))
        },
    }
}

/// Leave to send a job: its options, and the operation that it belongs to.
#[derive(Debug)]
pub struct JobPlan {
    kind: OperationKind,
    options: JobOptions,
}

/// Mathematical value of a [`JobPlan`].
pub struct JobPlanModel {
    pub kind: OperationKind,
    pub options: JobOptions,
}

impl JobPlanModel {
    /// A plan is for an operation that sends a job.
    pub open spec fn wf(self) -> bool {
        self.kind is Print || self.kind is FeedAndCut
    }
}

impl View for JobPlan {
    type V = JobPlanModel;

    closed spec fn view(&self) -> JobPlanModel {
        JobPlanModel { kind: self.kind, options: self.options }
    }
}

impl JobPlan {
    /// The options to build the job with.
    pub fn options(&self) -> (options: JobOptions)
        ensures
            options == self@.options,
    {
        self.options
    }
}

impl DeviceModel {
    /// The plan of a print job, or why the printer cannot take it.
    pub open spec fn print_plan(
        self,
        chain_print: bool,
        precut: bool,
        quality: PrintQuality,
    ) -> Result<JobPlanModel, PtouchFault> {
        if !self.initialized {
            Err(PtouchFault::NotInitialized)
        } else if quality != PrintQuality::Standard && !self.info.flags.legacy_hires {
            Err(PtouchFault::UnsupportedQuality(self.info.name@))
        } else {
            Ok(
                JobPlanModel {
                    kind: OperationKind::Print,
                    options: JobOptions {
                        media_width: self.media_width(),
                        chain_print,
                        precut,
                        quality,
                    },
                },
            )
        }
    }

    /// The plan of a feed with a cut, or why the printer cannot do it.
    pub open spec fn feed_plan(self) -> Result<JobPlanModel, PtouchFault> {
        if !self.initialized {
            Err(PtouchFault::NotInitialized)
        } else {
            Ok(
                JobPlanModel {
                    kind: OperationKind::FeedAndCut,
                    options: JobOptions {
                        media_width: self.media_width(),
                        chain_print: false,
                        precut: false,
                        quality: PrintQuality::Standard,
                    },
                },
            )
        }
    }
}

/// An operation that has not done anything yet.
pub open spec fn begun(kind: OperationKind, stage: StageModel, chunks: Seq<Seq<u8>>) -> OperationModel {
    OperationModel { kind, stage, pending: Seq::empty(), attempts: 0, chunks, sent: 0 }
}

impl Operation {
    /// An operation that has not done anything yet.
    fn begin(kind: OperationKind, stage: Stage, chunks: Vec<Vec<u8>>) -> (op: Operation)
        ensures
            op@ == begun(kind, stage@, chunk_bytes(chunks@)),
    {
        Operation {
            kind,
            stage,
            frames: StatusFrameBuffer::new(),
            attempts: 0,
            chunks,
            sent: 0,
        }
    }
}

impl PtouchDevice {
    /// Looks up a printer that is to be opened, before the bus is touched.
    pub fn supported(devices: &Vec<DeviceInfo>, vid: u16, pid: u16) -> (result: Result<
        DeviceInfo,
        PtouchError,
    >)
        ensures
            outcome(result) == openable(devices@, vid, pid),
    {
        let info: DeviceInfo = match find_device(devices, vid, pid) {
            Some(info) => info.clone(),
            None => return Err(PtouchError::DeviceNotFound),
        };
        if info.flags.plite {
            return Err(PtouchError::PLiteMode(info.name));
        }
        if info.flags.unsup_raster {
            return Err(PtouchError::UnsupportedRaster(info.name));
        }
        Ok(info)
    }

    /// Opens a printer with the given IDs whose interface is claimed and which
    /// describes the given endpoints.
    pub fn open(
        devices: &Vec<DeviceInfo>,
        vid: u16,
        pid: u16,
        endpoints: &Vec<UsbEndpoint>,
    ) -> (result: Result<PtouchDevice, PtouchError>)
        ensures
            match result {
                Ok(device) => {
                    &&& openable(devices@, vid, pid) == Ok::<DeviceInfo, PtouchFault>(device@.info)
                    &&& bulk_addresses(endpoints@) == Ok::<(u8, u8), PtouchFault>(
                        (device@.ep_out, device@.ep_in),
                    )
                    &&& device@.status is None
                    &&& device@.tape_width_px is None
                    &&& !device@.initialized
                    &&& device@.wf()
                },
                Err(error) => match openable(devices@, vid, pid) {
                    Err(fault) => error@ == fault,
                    Ok(_) => bulk_addresses(endpoints@) == Err::<(u8, u8), PtouchFault>(error@),
                },
            },
    {
        let dev_info: DeviceInfo = match PtouchDevice::supported(devices, vid, pid) {
            Ok(info) => info,
            Err(error) => return Err(error),
        };
        match find_bulk_endpoints(endpoints) {
            Ok((ep_out, ep_in)) => Ok(
                PtouchDevice {
                    dev_info,
                    ep_out,
                    ep_in,
                    status: None,
                    tape_width_px: None,
                    initialized: false,
                },
            ),
            Err(error) => Err(error),
        }
    }

    /// Picks the first printer on the bus that can be opened. An entry of `bus`
    /// is a device's vendor and product ID, or `None` where the device could not
    /// be asked for them.
    pub fn open_first(devices: &Vec<DeviceInfo>, bus: &Vec<Option<(u16, u16)>>) -> (result: Result<
        (u16, u16),
        PtouchError,
    >)
        ensures
            outcome(result) == first_candidate(devices@, bus@),
    {
        let mut i: usize = 0;
        assert(bus@.skip(0) =~= bus@);
        while i < bus.len()
            invariant
                i <= bus@.len(),
                first_candidate(devices@, bus@) == first_candidate(devices@, bus@.skip(i as int)),
            decreases bus@.len() - i,
        {
            assert(bus@.skip(i as int).drop_first() =~= bus@.skip(i + 1));
            if let Some((vid, pid)) = bus[i] {
                if vid == BROTHER_VENDOR_ID {
                    if let Some(info) = find_device(devices, vid, pid) {
                        if !info.flags.plite && !info.flags.unsup_raster {
                            return Ok((vid, pid));
                        }
                    }
                }
            }
            i = i + 1;
        }
        Err(PtouchError::DeviceNotFound)
    }

    /// The entry of the device table.
    pub fn device_info(&self) -> (info: &DeviceInfo)
        ensures
            *info == self@.info,
    {
        &self.dev_info
    }

    /// The properties of the model.
    pub fn flags(&self) -> (flags: DeviceFlags)
        ensures
            flags == self@.info.flags,
    {
        self.dev_info.flags
    }

    /// The status read last, if one was read.
    pub fn status(&self) -> (status: Option<&PrinterStatus>)
        ensures
            match status {
                Some(status) => self@.status == Some(*status),
                None => self@.status is None,
            },
    {
        self.status.as_ref()
    }

    /// The printable dots across the loaded tape, if they are known.
    pub fn tape_width_px(&self) -> (px: Option<u16>)
        ensures
            px == self@.tape_width_px,
    {
        self.tape_width_px
    }

    /// The dots across the print head.
    pub fn max_px(&self) -> (px: u16)
        ensures
            px == self@.info.max_px,
    {
        self.dev_info.max_px
    }

    /// Whether the printer has been initialized.
    pub fn is_initialized(&self) -> (r: bool)
        ensures
            r == self@.initialized,
    {
        self.initialized
    }

    /// The addresses of the bulk OUT and IN endpoints.
    pub fn endpoints(&self) -> (addresses: (u8, u8))
        ensures
            addresses == (self@.ep_out, self@.ep_in),
    {
        (self.ep_out, self.ep_in)
    }

    /// Judges a bulk OUT transfer of `data`.
    pub fn send(&self, data: &[u8], written: Result<usize, UsbFault>) -> (result: Result<
        (),
        PtouchError,
    >)
        ensures
            outcome(result) == send_outcome(data@.len(), written),
    {
        match written {
            Err(fault) => Err(usb_error(fault)),
            Ok(n) => {
                if n != data.len() {
                    let mut text = "Expected to write ".to_string();
                    push_decimal(&mut text, data.len() as u64);
                    text.append(" bytes, wrote ");
                    push_decimal(&mut text, n as u64);
                    return Err(PtouchError::SendFailed(text));
                }
                Ok(())
            },
        }
    }

    /// Judges a bulk IN transfer: the number of bytes that it brought.
    pub fn receive(&self, read: Result<usize, UsbFault>) -> (result: Result<usize, PtouchError>)
        ensures
            outcome(result) == (match read {
                Ok(n) => Ok::<usize, PtouchFault>(n),
                Err(fault) => Err(usb_fault(fault)),
            }),
    {
        match read {
            Ok(n) => Ok(n),
            Err(fault) => Err(usb_error(fault)),
        }
    }

    /// Whether to go on dropping stale bytes after a read of them.
    pub fn flush_input(&self, read: Result<usize, UsbFault>) -> (again: bool)
        ensures
            again == (read matches Ok(n) && n > 0),
    {
        match read {
            Ok(n) => n > 0,
            Err(_) => false,
        }
    }

    /// Starts to initialize the printer.
    pub fn init(&self) -> (r: (Operation, DeviceAction))
        ensures
            r.0@ == begun(OperationKind::Init, StageModel::Flushing, Seq::empty()),
            r.1@ == DeviceActionModel::FlushInput,
            r.0@.wf(),
    {
        let op = Operation::begin(OperationKind::Init, Stage::Flushing, Vec::new());
        assert(op@.chunks =~= Seq::empty());
        (op, DeviceAction::FlushInput)
    }

    /// Starts to read the status without a reset, so that the printer is not
    /// disturbed.
    pub fn query_status(&self) -> (r: (Operation, DeviceAction))
        ensures
            r.0@ == begun(OperationKind::QueryStatus, StageModel::Flushing, Seq::empty()),
            r.1@ == DeviceActionModel::FlushInput,
            r.0@.wf(),
    {
        let op = Operation::begin(OperationKind::QueryStatus, Stage::Flushing, Vec::new());
        assert(op@.chunks =~= Seq::empty());
        (op, DeviceAction::FlushInput)
    }

    /// Starts to ask for the status and read it.
    pub fn get_status(&self) -> (r: (Operation, DeviceAction))
        ensures
            r.0@ == begun(OperationKind::GetStatus, StageModel::RequestSending, Seq::empty()),
            r.1@ == DeviceActionModel::Send(CommandModel::StatusRequest),
            r.0@.wf(),
    {
        let op = Operation::begin(OperationKind::GetStatus, Stage::RequestSending, Vec::new());
        assert(op@.chunks =~= Seq::empty());
        (op, DeviceAction::Send(Command::StatusRequest))
    }

    /// Plans a print job. Quality modes other than the standard one take a
    /// printer that has them.
    pub fn print_raster(&self, chain_print: bool, precut: bool, quality: PrintQuality) -> (result:
        Result<JobPlan, PtouchError>)
        ensures
            match result {
                Ok(plan) => plan@.wf() && self@.print_plan(chain_print, precut, quality) == Ok::<
                    JobPlanModel,
                    PtouchFault,
                >(plan@),
                Err(error) => self@.print_plan(chain_print, precut, quality) == Err::<
                    JobPlanModel,
                    PtouchFault,
                >(error@),
            },
    {
        if !self.initialized {
            return Err(PtouchError::NotInitialized);
        }
        if quality != PrintQuality::Standard && !self.dev_info.flags.legacy_hires {
            return Err(PtouchError::UnsupportedQuality(self.dev_info.name.clone()));
        }
        let media_width: u8 = match self.status {
            Some(status) => status.media_width,
            None => 0,
        };
        Ok(
            JobPlan {
                kind: OperationKind::Print,
                options: JobOptions { media_width, chain_print, precut, quality },
            },
        )
    }

    /// Plans to feed the tape forward and cut it.
    ///
    /// The job is a minimal blank strip of a few blank raster lines: the printer
    /// needs actual raster data to engage the feed mechanism.
    pub fn feed_and_cut(&self) -> (result: Result<(JobPlan, Vec<Vec<u8>>), PtouchError>)
        ensures
            match result {
                Ok((plan, lines)) => {
                    &&& plan@.wf()
                    &&& self@.feed_plan() == Ok::<JobPlanModel, PtouchFault>(plan@)
                    &&& lines@.len() == FEED_LINES
                    &&& forall|i: int|
                        0 <= i < lines@.len() ==> (#[trigger] lines@[i])@ == Seq::new(
                            raster_line_len(self@.info.max_px),
                            |k: int| 0u8,
                        )
                },
                Err(error) => self@.feed_plan() == Err::<JobPlanModel, PtouchFault>(error@),
            },
    {
        if !self.initialized {
            return Err(PtouchError::NotInitialized);
        }
        let mut lines: Vec<Vec<u8>> = Vec::new();
        while lines.len() < FEED_LINES
            invariant
                lines@.len() <= FEED_LINES,
                forall|i: int|
                    0 <= i < lines@.len() ==> (#[trigger] lines@[i])@ == Seq::new(
                        raster_line_len(self.dev_info.max_px),
                        |k: int| 0u8,
                    ),
            decreases FEED_LINES - lines@.len(),
        {
            lines.push(rasterline_blank(self.dev_info.max_px));
        }
        let media_width: u8 = match self.status {
            Some(status) => status.media_width,
            None => 0,
        };
        let plan = JobPlan {
            kind: OperationKind::FeedAndCut,
            options: JobOptions {
                media_width,
                chain_print: false,
                precut: false,
                quality: PrintQuality::Standard,
            },
        };
        Ok((plan, lines))
    }

    /// Starts to send the chunks of a planned job.
    pub fn send_job(&self, plan: JobPlan, job: Vec<Vec<u8>>) -> (r: (Operation, DeviceAction))
        requires
            plan@.wf(),
        ensures
            (self@, r.0@, r.1@) == job_step(
                self@,
                begun(plan@.kind, StageModel::ChunkSending, chunk_bytes(job@)),
            ),
            r.0@.wf(),
    {
        let op = Operation::begin(plan.kind, Stage::ChunkSending, job);
        self.continue_job(op)
    }

    /// Closes the connection, given whether the interface could be released.
    pub fn close(self, released: Result<(), UsbFault>) -> (result: Result<(), PtouchError>)
        ensures
            outcome(result) == (match released {
                Ok(_) => Ok::<(), PtouchFault>(()),
                Err(fault) => Err(PtouchFault::UsbError(fault)),
            }),
    {
        match released {
            Ok(_) => Ok(()),
            Err(fault) => Err(PtouchError::UsbError(fault)),
        }
    }
}

} // verus!

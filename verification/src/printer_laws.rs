//! What holds of whole operations on a printer.

use vstd::prelude::*;

use crate::device::DeviceInfo;
use crate::printer::{
    advanced, begun, first_candidate, is_candidate, job_step, openable, DeviceActionModel,
    DeviceEventModel, DeviceModel, OperationKind, OperationModel, StageModel, Step,
};
use crate::protocol::CommandModel;
use crate::status::{packet_status, STATUS_PACKET_SIZE};
use crate::tape::TapeInfo;

verus! {

/// Whether each event can be what came of the action before it.
pub open spec fn answers(step: Step, events: Seq<DeviceEventModel>, tapes: Seq<TapeInfo>) -> bool
    decreases events.len(),
{
    events.len() == 0 || {
        &&& step.1.expects(events[0])
        &&& answers(advanced(step.0, step.1, events[0], tapes), events.drop_first(), tapes)
    }
}

/// Where an operation stands after the events in `events`.
pub open spec fn run(step: Step, events: Seq<DeviceEventModel>, tapes: Seq<TapeInfo>) -> Step
    decreases events.len(),
{
    if events.len() == 0 {
        step
    } else {
        run(advanced(step.0, step.1, events[0], tapes), events.drop_first(), tapes)
    }
}

/// The chunks that an operation sends on the way.
pub open spec fn emitted(
    step: Step,
    events: Seq<DeviceEventModel>,
    tapes: Seq<TapeInfo>,
) -> Seq<Seq<u8>>
    decreases events.len(),
{
    let first = match step.2 {
        DeviceActionModel::Send(CommandModel::Chunk(bytes)) => seq![bytes],
        _ => Seq::empty(),
    };
    if events.len() == 0 {
        first
    } else {
        first + emitted(advanced(step.0, step.1, events[0], tapes), events.drop_first(), tapes)
    }
}

/// Number of transfers that ended.
pub open spec fn transfers(events: Seq<DeviceEventModel>) -> nat
    decreases events.len(),
{
    if events.len() == 0 {
        0
    } else {
        (if events[0] is Received {
            1nat
        } else {
            0
        }) + transfers(events.drop_first())
    }
}

/// The first action of an operation that starts by dropping stale bytes.
pub open spec fn flush_first(d: DeviceModel, kind: OperationKind) -> Step {
    (d, begun(kind, StageModel::Flushing, Seq::empty()), DeviceActionModel::FlushInput)
}

/// No step changes which printer is talked to, and tapes stay no wider than the
/// print head.
pub proof fn law_step_keeps_the_connection(
    d: DeviceModel,
    op: OperationModel,
    event: DeviceEventModel,
    tapes: Seq<TapeInfo>,
)
    requires
        d.wf(),
        op.wf(),
        op.expects(event),
    ensures
        advanced(d, op, event, tapes).0.wf(),
        advanced(d, op, event, tapes).1.wf(),
        advanced(d, op, event, tapes).0.info == d.info,
        advanced(d, op, event, tapes).0.ep_out == d.ep_out,
        advanced(d, op, event, tapes).0.ep_in == d.ep_in,
        advanced(d, op, event, tapes).1.kind == op.kind,
        advanced(d, op, event, tapes).1.chunks == op.chunks,
{
}

/// A printer becomes initialized only at the end of an initialization that
/// succeeds, and no operation takes that back.
pub proof fn law_only_init_initializes(
    d: DeviceModel,
    op: OperationModel,
    event: DeviceEventModel,
    tapes: Seq<TapeInfo>,
)
    requires
        op.wf(),
        op.expects(event),
    ensures
        d.initialized ==> advanced(d, op, event, tapes).0.initialized,
        advanced(d, op, event, tapes).0.initialized && !d.initialized ==> op.kind is Init
            && advanced(d, op, event, tapes).2 == DeviceActionModel::Done(Ok(())),
{
}

/// What holds while an initialization is under way.
spec fn init_under_way(step: Step) -> bool {
    &&& step.1.kind is Init
    &&& step.1.wf()
    &&& step.1.stage is NotifySending ==> step.0.status is Some
    &&& step.2 == DeviceActionModel::Done(Ok(())) ==> step.0.initialized && step.0.status is Some
}

proof fn lemma_init_run(step: Step, events: Seq<DeviceEventModel>, tapes: Seq<TapeInfo>)
    requires
        init_under_way(step),
        answers(step, events, tapes),
    ensures
        init_under_way(run(step, events, tapes)),
    decreases events.len(),
{
    if events.len() > 0 {
        let next = advanced(step.0, step.1, events[0], tapes);
        lemma_init_run(next, events.drop_first(), tapes);
    }
}

/// An initialization that succeeds has read a status and leaves the printer
/// initialized.
pub proof fn law_init_reads_the_status(
    d: DeviceModel,
    events: Seq<DeviceEventModel>,
    tapes: Seq<TapeInfo>,
)
    requires
        answers(flush_first(d, OperationKind::Init), events, tapes),
        run(flush_first(d, OperationKind::Init), events, tapes).2 == DeviceActionModel::Done(
            Ok(()),
        ),
    ensures
        run(flush_first(d, OperationKind::Init), events, tapes).0.initialized,
        run(flush_first(d, OperationKind::Init), events, tapes).0.status is Some,
{
    lemma_init_run(flush_first(d, OperationKind::Init), events, tapes);
}

/// Reads that an operation may still make for a status.
spec fn reads_left(op: OperationModel) -> int {
    match op.stage {
        StageModel::Flushing | StageModel::InitSending | StageModel::RequestSending => 10,
        StageModel::Pausing | StageModel::Reading => 10 - op.attempts,
        _ => 0,
    }
}

proof fn lemma_reads_left(step: Step, events: Seq<DeviceEventModel>, tapes: Seq<TapeInfo>)
    requires
        step.1.wf(),
        !step.1.prints(),
        answers(step, events, tapes),
    ensures
        transfers(events) <= reads_left(step.1),
    decreases events.len(),
{
    if events.len() > 0 {
        let next = advanced(step.0, step.1, events[0], tapes);
        lemma_reads_left(next, events.drop_first(), tapes);
    }
}

/// A status is read at most ten times in one operation.
pub proof fn law_status_reads_are_bounded(
    step: Step,
    events: Seq<DeviceEventModel>,
    tapes: Seq<TapeInfo>,
)
    requires
        step.1.wf(),
        !step.1.prints(),
        answers(step, events, tapes),
    ensures
        transfers(events) <= 10,
{
    lemma_reads_left(step, events, tapes);
}

/// A status query that fails leaves everything that is known of the printer as
/// it was.
pub proof fn law_failed_query_changes_nothing(
    step: Step,
    events: Seq<DeviceEventModel>,
    tapes: Seq<TapeInfo>,
)
    requires
        step.1.wf(),
        step.1.kind is QueryStatus || step.1.kind is GetStatus,
        answers(step, events, tapes),
        run(step, events, tapes).2 != DeviceActionModel::Done(Ok(())),
    ensures
        run(step, events, tapes).0 == step.0,
    decreases events.len(),
{
    if events.len() > 0 {
        let next = advanced(step.0, step.1, events[0], tapes);
        let rest = events.drop_first();
        assert(answers(next, rest, tapes));
        assert(run(step, events, tapes) == run(next, rest, tapes));
        if next.1.stage is Finished {
            assert(rest.len() == 0);
        }
        law_failed_query_changes_nothing(next, rest, tapes);
    }
}

/// The chunks that are still to be sent.
spec fn unsent(step: Step) -> Seq<Seq<u8>> {
    if step.1.stage is ChunkSending {
        step.1.chunks.skip(step.1.sent as int)
    } else {
        Seq::empty()
    }
}

/// What holds while a job is under way.
spec fn job_under_way(step: Step) -> bool {
    &&& step.1.prints()
    &&& step.1.wf()
    &&& step.1.stage is ChunkSending ==> step.2 == DeviceActionModel::Send(
        CommandModel::Chunk(step.1.chunks[step.1.sent as int]),
    )
    &&& !(step.1.stage is ChunkSending) ==> !(step.2 is Send)
}

proof fn lemma_emitted(step: Step, events: Seq<DeviceEventModel>, tapes: Seq<TapeInfo>)
    requires
        job_under_way(step),
        answers(step, events, tapes),
    ensures
        emitted(step, events, tapes).is_prefix_of(unsent(step)),
        run(step, events, tapes).2 == DeviceActionModel::Done(Ok(())) ==> emitted(
            step,
            events,
            tapes,
        ) == unsent(step),
    decreases events.len(),
{
    if events.len() > 0 {
        let next = advanced(step.0, step.1, events[0], tapes);
        let rest = events.drop_first();
        assert(answers(next, rest, tapes));
        if next.1.stage is Finished {
            assert(rest.len() == 0);
        }
        lemma_emitted(next, rest, tapes);
        if step.1.stage is ChunkSending {
            assert(step.1.chunks.skip(step.1.sent as int).drop_first() =~= step.1.chunks.skip(
                step.1.sent as int + 1,
            ));
            assert(unsent(step) =~= seq![step.1.chunks[step.1.sent as int]]
                + step.1.chunks.skip(step.1.sent as int + 1));
            if next.1.stage is ChunkSending {
                assert(unsent(next) == step.1.chunks.skip(step.1.sent as int + 1));
            } else if events[0]->Sent_0 is Ok {
                assert(step.1.chunks.skip(step.1.sent as int + 1) =~= Seq::empty());
            }
        }
    }
}

/// The chunks of a job are sent in order and none twice, and a job that succeeds
/// has sent them all.
pub proof fn law_chunks_are_sent_in_order(
    d: DeviceModel,
    kind: OperationKind,
    chunks: Seq<Seq<u8>>,
    events: Seq<DeviceEventModel>,
    tapes: Seq<TapeInfo>,
)
    requires
        kind is Print || kind is FeedAndCut,
        answers(job_step(d, begun(kind, StageModel::ChunkSending, chunks)), events, tapes),
    ensures
        emitted(
            job_step(d, begun(kind, StageModel::ChunkSending, chunks)),
            events,
            tapes,
        ).is_prefix_of(chunks),
        run(
            job_step(d, begun(kind, StageModel::ChunkSending, chunks)),
            events,
            tapes,
        ).2 == DeviceActionModel::Done(Ok(())) ==> emitted(
            job_step(d, begun(kind, StageModel::ChunkSending, chunks)),
            events,
            tapes,
        ) == chunks,
{
    let start = job_step(d, begun(kind, StageModel::ChunkSending, chunks));
    lemma_emitted(start, events, tapes);
    assert(chunks.skip(0) =~= chunks);
    assert(unsent(start) =~= chunks);
}

/// The printer that is picked on the bus is one that can be opened.
pub proof fn law_first_candidate_can_be_opened(
    devices: Seq<DeviceInfo>,
    bus: Seq<Option<(u16, u16)>>,
)
    ensures
        match first_candidate(devices, bus) {
            Ok((vid, pid)) => bus.contains(Some((vid, pid))) && openable(devices, vid, pid) is Ok,
            Err(_) => forall|i: int|
                0 <= i < bus.len() ==> !is_candidate(devices, #[trigger] bus[i]),
        },
    decreases bus.len(),
{
    if bus.len() > 0 {
        law_first_candidate_can_be_opened(devices, bus.drop_first());
        let rest = bus.drop_first();
        if is_candidate(devices, bus[0]) {
            assert(bus.contains(bus[0]));
        } else {
            match first_candidate(devices, rest) {
                Ok((vid, pid)) => {
                    let i = choose|i: int| 0 <= i < rest.len() && rest[i] == Some((vid, pid));
                    assert(bus[i + 1] == rest[i]);
                },
                Err(_) => {
                    assert forall|i: int| 0 <= i < bus.len() implies !is_candidate(
                        devices,
                        #[trigger] bus[i],
                    ) by {
                        if i > 0 {
                            assert(bus[i] == rest[i - 1]);
                        }
                    }
                },
            }
        }
    }
}

/// A status query sends nothing but status requests, so that the printer is not
/// disturbed.
pub proof fn law_queries_only_send_status_requests(
    d: DeviceModel,
    op: OperationModel,
    event: DeviceEventModel,
    tapes: Seq<TapeInfo>,
)
    requires
        op.wf(),
        op.expects(event),
        op.kind is QueryStatus || op.kind is GetStatus,
    ensures
        advanced(d, op, event, tapes).2 matches DeviceActionModel::Send(command) ==> command
            is StatusRequest,
{
}

/// The commands that an operation sends on the way.
pub open spec fn commands(
    step: Step,
    events: Seq<DeviceEventModel>,
    tapes: Seq<TapeInfo>,
) -> Seq<CommandModel>
    decreases events.len(),
{
    let first = match step.2 {
        DeviceActionModel::Send(command) => seq![command],
        _ => Seq::empty(),
    };
    if events.len() == 0 {
        first
    } else {
        first + commands(advanced(step.0, step.1, events[0], tapes), events.drop_first(), tapes)
    }
}

/// What an initialization sends behind the status request.
pub open spec fn notifications(d: DeviceModel) -> Seq<CommandModel> {
    if d.info.flags.auto_status_notification {
        seq![CommandModel::AutoStatusNotification(true)]
    } else {
        Seq::empty()
    }
}

/// What an initialization sends: the reset, a status request and, to printers
/// that have it, the command for the notification of phase changes.
pub open spec fn init_commands(d: DeviceModel) -> Seq<CommandModel> {
    seq![CommandModel::Init, CommandModel::StatusRequest] + notifications(d)
}

/// What an initialization has yet to send.
spec fn left_to_send(step: Step) -> Seq<CommandModel> {
    match step.1.stage {
        StageModel::Flushing | StageModel::InitSending => init_commands(step.0),
        StageModel::RequestSending => seq![CommandModel::StatusRequest] + notifications(step.0),
        StageModel::Pausing | StageModel::Reading | StageModel::NotifySending => notifications(
            step.0,
        ),
        _ => Seq::empty(),
    }
}

/// What holds of the next command of an initialization.
spec fn init_sends(step: Step) -> bool {
    &&& step.1.kind is Init
    &&& step.1.wf()
    &&& match step.1.stage {
        StageModel::InitSending => step.2 == DeviceActionModel::Send(CommandModel::Init),
        StageModel::RequestSending => step.2 == DeviceActionModel::Send(
            CommandModel::StatusRequest,
        ),
        StageModel::NotifySending => {
            &&& step.0.info.flags.auto_status_notification
            &&& step.2 == DeviceActionModel::Send(CommandModel::AutoStatusNotification(true))
        },
        _ => !(step.2 is Send),
    }
    &&& step.2 is Done ==> step.1.stage is Finished
}

proof fn lemma_init_commands(step: Step, events: Seq<DeviceEventModel>, tapes: Seq<TapeInfo>)
    requires
        init_sends(step),
        answers(step, events, tapes),
    ensures
        commands(step, events, tapes).is_prefix_of(left_to_send(step)),
        run(step, events, tapes).2 == DeviceActionModel::Done(Ok(())) ==> commands(
            step,
            events,
            tapes,
        ) == left_to_send(step),
        step.1.stage is Dropping ==> run(step, events, tapes).2 != DeviceActionModel::Done(Ok(())),
    decreases events.len(),
{
    if events.len() > 0 {
        let next = advanced(step.0, step.1, events[0], tapes);
        let rest = events.drop_first();
        assert(answers(next, rest, tapes));
        assert(run(next, rest, tapes) == run(step, events, tapes));
        if next.1.stage is Finished {
            assert(rest.len() == 0);
        }
        lemma_init_commands(next, rest, tapes);
        assert(commands(step, events, tapes) =~= (match step.2 {
            DeviceActionModel::Send(command) => seq![command],
            _ => Seq::empty(),
        }) + commands(next, rest, tapes));
        if step.1.stage is InitSending {
            assert(left_to_send(step) =~= seq![CommandModel::Init] + (seq![
                CommandModel::StatusRequest,
            ] + notifications(step.0)));
        }
        if run(step, events, tapes).2 == DeviceActionModel::Done(Ok(())) {
            assert(commands(step, events, tapes) =~= left_to_send(step));
        }
    }
}

/// An initialization sends the reset first, then the status request, then the
/// command for notifications to printers that have it, and nothing else; one
/// that succeeds has sent them all.
pub proof fn law_init_sends_its_commands_in_order(
    d: DeviceModel,
    events: Seq<DeviceEventModel>,
    tapes: Seq<TapeInfo>,
)
    requires
        answers(flush_first(d, OperationKind::Init), events, tapes),
    ensures
        commands(flush_first(d, OperationKind::Init), events, tapes).is_prefix_of(
            init_commands(d),
        ),
        run(flush_first(d, OperationKind::Init), events, tapes).2 == DeviceActionModel::Done(Ok(()))
            ==> commands(flush_first(d, OperationKind::Init), events, tapes) == init_commands(d),
{
    lemma_init_commands(flush_first(d, OperationKind::Init), events, tapes);
}

/// What holds while a job for a printer that reports its readiness is under way.
spec fn ready_job_under_way(step: Step) -> bool {
    &&& step.1.prints()
    &&& step.1.wf()
    &&& step.0.info.flags.wait_for_receive_ready
    &&& !(step.1.stage is CompletionReading)
    &&& step.2 == DeviceActionModel::Done(Ok(())) ==> is_ready(step.0)
    &&& step.2 is Done ==> step.1.stage is Finished
}

/// Whether the status read last says that the printer waits to receive.
pub open spec fn is_ready(d: DeviceModel) -> bool {
    d.status matches Some(status) && status.waits_to_receive() && !status.reports_error()
}

proof fn lemma_ready_job(step: Step, events: Seq<DeviceEventModel>, tapes: Seq<TapeInfo>)
    requires
        ready_job_under_way(step),
        answers(step, events, tapes),
    ensures
        ready_job_under_way(run(step, events, tapes)),
    decreases events.len(),
{
    if events.len() > 0 {
        let next = advanced(step.0, step.1, events[0], tapes);
        lemma_ready_job(next, events.drop_first(), tapes);
    }
}

/// On printers that report when they can take the next page, a job succeeds only
/// once the printer has said so.
pub proof fn law_the_next_page_waits_for_the_printer(
    d: DeviceModel,
    kind: OperationKind,
    chunks: Seq<Seq<u8>>,
    events: Seq<DeviceEventModel>,
    tapes: Seq<TapeInfo>,
)
    requires
        kind is Print || kind is FeedAndCut,
        d.info.flags.wait_for_receive_ready,
        answers(job_step(d, begun(kind, StageModel::ChunkSending, chunks)), events, tapes),
        run(
            job_step(d, begun(kind, StageModel::ChunkSending, chunks)),
            events,
            tapes,
        ).2 == DeviceActionModel::Done(Ok(())),
    ensures
        is_ready(run(job_step(d, begun(kind, StageModel::ChunkSending, chunks)), events, tapes).0),
{
    lemma_ready_job(job_step(d, begun(kind, StageModel::ChunkSending, chunks)), events, tapes);
}

/// The bytes that transfers brought, joined.
pub open spec fn received(events: Seq<DeviceEventModel>) -> Seq<u8>
    decreases events.len(),
{
    if events.len() == 0 {
        Seq::empty()
    } else {
        let first = match events[0] {
            DeviceEventModel::Received(Ok(read), buffer) => buffer.take(read as int),
            _ => Seq::empty(),
        };
        first + received(events.drop_first())
    }
}

/// What is known of a printer once a status in the first bytes of `bytes` was
/// read by an operation.
pub open spec fn informed(
    d: DeviceModel,
    kind: OperationKind,
    bytes: Seq<u8>,
    tapes: Seq<TapeInfo>,
) -> DeviceModel {
    let status = packet_status(bytes.take(STATUS_PACKET_SIZE as int));
    DeviceModel { initialized: d.initialized || kind is Init, ..d.with_status(status, tapes) }
}

/// Whether an operation has not got its status yet.
spec fn awaits_status(op: OperationModel) -> bool {
    match op.stage {
        StageModel::Flushing
        | StageModel::InitSending
        | StageModel::RequestSending
        | StageModel::Pausing
        | StageModel::Reading => !op.prints(),
        _ => false,
    }
}

proof fn lemma_after_the_status(
    step: Step,
    events: Seq<DeviceEventModel>,
    tapes: Seq<TapeInfo>,
)
    requires
        step.1.wf(),
        step.1.stage is NotifySending || step.1.stage is Dropping,
        !(step.2 is Done),
        answers(step, events, tapes),
        run(step, events, tapes).2 == DeviceActionModel::Done(Ok(())),
    ensures
        step.1.stage is NotifySending,
        run(step, events, tapes).0 == (DeviceModel { initialized: true, ..step.0 }),
{
    let next = advanced(step.0, step.1, events[0], tapes);
    let rest = events.drop_first();
    assert(answers(next, rest, tapes));
    assert(rest.len() == 0);
    assert(run(step, events, tapes) == run(next, rest, tapes));
}

proof fn lemma_status_run(step: Step, events: Seq<DeviceEventModel>, tapes: Seq<TapeInfo>)
    requires
        step.1.wf(),
        awaits_status(step.1),
        !(step.2 is Done),
        answers(step, events, tapes),
        run(step, events, tapes).2 == DeviceActionModel::Done(Ok(())),
    ensures
        ({
            let bytes = step.1.pending + received(events);
            let end = run(step, events, tapes).0;
            &&& bytes.len() >= STATUS_PACKET_SIZE
            &&& bytes[0] == 0x80
            &&& bytes[1] == 0x20
            &&& end == informed(step.0, step.1.kind, bytes, tapes)
        }),
    decreases events.len(),
{
    let next = advanced(step.0, step.1, events[0], tapes);
    let rest = events.drop_first();
    assert(answers(next, rest, tapes));
    assert(run(step, events, tapes) == run(next, rest, tapes));
    let bytes = step.1.pending + received(events);
    let first = match events[0] {
        DeviceEventModel::Received(Ok(read), buffer) => buffer.take(read as int),
        _ => Seq::empty(),
    };
    let joined = step.1.pending + first;
    assert(bytes =~= joined + received(rest));
    if awaits_status(next.1) {
        assert(next.1.pending =~= joined);
        lemma_status_run(next, rest, tapes);
    } else {
        if next.1.stage is Finished {
            assert(rest.len() == 0);
        } else {
            lemma_after_the_status(next, rest, tapes);
        }
        assert(bytes.take(STATUS_PACKET_SIZE as int) =~= joined.take(STATUS_PACKET_SIZE as int));
    }
}

/// An operation that reads the status and succeeds has taken it from the first
/// packet of all bytes that came, however they were split into transfers.
pub proof fn law_the_first_packet_is_the_status(
    step: Step,
    events: Seq<DeviceEventModel>,
    tapes: Seq<TapeInfo>,
)
    requires
        ({
            ||| step == flush_first(step.0, OperationKind::Init)
            ||| step == flush_first(step.0, OperationKind::QueryStatus)
            ||| step == (
                step.0,
                begun(OperationKind::GetStatus, StageModel::RequestSending, Seq::empty()),
                DeviceActionModel::Send(CommandModel::StatusRequest),
            )
        }),
        answers(step, events, tapes),
        run(step, events, tapes).2 == DeviceActionModel::Done(Ok(())),
    ensures
        received(events).len() >= STATUS_PACKET_SIZE,
        received(events)[0] == 0x80,
        received(events)[1] == 0x20,
        run(step, events, tapes).0 == informed(step.0, step.1.kind, received(events), tapes),
{
    lemma_status_run(step, events, tapes);
    assert(step.1.pending + received(events) =~= received(events));
}

/// Whether every command was sent, and every transfer brought bytes or ran out of
/// time.
pub open spec fn is_calm(events: Seq<DeviceEventModel>) -> bool {
    forall|i: int|
        0 <= i < events.len() ==> match #[trigger] events[i] {
            DeviceEventModel::Sent(result) => result is Ok,
            DeviceEventModel::Received(Err(fault), _) => fault is Timeout,
            _ => true,
        }
}

/// Whether an operation has its status and succeeded, or has only the command
/// for notifications left to send.
pub open spec fn has_its_status(step: Step) -> bool {
    ||| step.2 == DeviceActionModel::Done(Ok(()))
    ||| step.1.kind is Init && step.2 == DeviceActionModel::Send(
        CommandModel::AutoStatusNotification(true),
    )
}

proof fn lemma_calm_end(step: Step, events: Seq<DeviceEventModel>, tapes: Seq<TapeInfo>)
    requires
        step.1.wf(),
        step.1.stage is NotifySending || step.1.stage is Dropping || step.1.stage is Finished,
        step.1.stage is NotifySending || step.1.stage is Finished ==> has_its_status(step),
        answers(step, events, tapes),
        is_calm(events),
    ensures
        received(events) == Seq::<u8>::empty(),
        !(step.1.stage is Dropping) ==> has_its_status(run(step, events, tapes)),
        run(step, events, tapes).1.kind == step.1.kind,
{
    if events.len() > 0 {
        let next = advanced(step.0, step.1, events[0], tapes);
        let rest = events.drop_first();
        assert(answers(next, rest, tapes));
        assert(rest.len() == 0);
        assert(run(step, events, tapes) == run(next, rest, tapes));
        assert(step.1.expects(events[0]));
        assert(received(rest) =~= Seq::empty());
        assert(received(events) =~= Seq::empty());
    }
}

proof fn lemma_calm_run(step: Step, events: Seq<DeviceEventModel>, tapes: Seq<TapeInfo>)
    requires
        step.1.wf(),
        awaits_status(step.1),
        answers(step, events, tapes),
        is_calm(events),
        (step.1.pending + received(events)).len() >= STATUS_PACKET_SIZE,
        (step.1.pending + received(events))[0] == 0x80,
        (step.1.pending + received(events))[1] == 0x20,
    ensures
        has_its_status(run(step, events, tapes)),
        run(step, events, tapes).1.kind == step.1.kind,
    decreases events.len(),
{
    let bytes = step.1.pending + received(events);
    if events.len() > 0 {
        let next = advanced(step.0, step.1, events[0], tapes);
        let rest = events.drop_first();
        assert(answers(next, rest, tapes));
        assert(run(step, events, tapes) == run(next, rest, tapes));
        assert(is_calm(rest)) by {
            assert forall|i: int| 0 <= i < rest.len() implies match #[trigger] rest[i] {
                DeviceEventModel::Sent(result) => result is Ok,
                DeviceEventModel::Received(Err(fault), _) => fault is Timeout,
                _ => true,
            } by {
                assert(rest[i] == events[i + 1]);
            }
        }
        let first = match events[0] {
            DeviceEventModel::Received(Ok(read), buffer) => buffer.take(read as int),
            _ => Seq::empty(),
        };
        let joined = step.1.pending + first;
        assert(bytes =~= joined + received(rest));
        if awaits_status(next.1) {
            assert(next.1.pending =~= joined);
            lemma_calm_run(next, rest, tapes);
        } else {
            if next.1.stage is Finished {
                assert(rest.len() == 0);
            }
            lemma_calm_end(next, rest, tapes);
            assert(bytes =~= joined);
        }
    }
}

/// An operation that reads the status gets it once a packet with a valid header
/// came in its reads, as long as nothing fails but for lack of time.
///
/// There are at most ten reads, as [`law_status_reads_are_bounded`] says.
pub proof fn law_a_valid_packet_is_accepted(
    step: Step,
    events: Seq<DeviceEventModel>,
    tapes: Seq<TapeInfo>,
)
    requires
        ({
            ||| step == flush_first(step.0, OperationKind::Init)
            ||| step == flush_first(step.0, OperationKind::QueryStatus)
            ||| step == (
                step.0,
                begun(OperationKind::GetStatus, StageModel::RequestSending, Seq::empty()),
                DeviceActionModel::Send(CommandModel::StatusRequest),
            )
        }),
        answers(step, events, tapes),
        is_calm(events),
        received(events).len() >= STATUS_PACKET_SIZE,
        received(events)[0] == 0x80,
        received(events)[1] == 0x20,
    ensures
        has_its_status(run(step, events, tapes)),
        !(step.1.kind is Init) ==> run(step, events, tapes).2 == DeviceActionModel::Done(Ok(())),
{
    assert(step.1.pending + received(events) =~= received(events));
    lemma_calm_run(step, events, tapes);
}

} // verus!

//! The exchanges of an LPD client with a daemon, as a state machine.
//!
//! An exchange is a planned list of steps: messages to send and
//! acknowledgements to await. The machine tells its caller what to do next
//! (send bytes, read an acknowledgement, stop) and is told what happened; it
//! decides whether the exchange goes on or fails. The caller owns the
//! connection and performs the reads and writes.
use vstd::prelude::*;
use vstd::string::StringSliceAdditionalSpecFns;

use crate::bytes::copy_bytes;
use crate::digits::{all_decimal_digits, decimal_digits, decimal_value, law_decimal_round_trip};
use crate::lpd::commands::{
    abort_job_bytes, abort_job_message, check_ack, daemon_command_bytes, daemon_command_message,
    file_header_bytes, file_header_message, wrong_ack_byte_text, wrong_ack_length_text,
};
use crate::lpd::errors::LPDPClientError;
use crate::lpd::utils::{DaemonCommand, ReceiveJobSubCommand};

verus! {

/// One planned step of an exchange.
pub enum LpdStep {
    /// Send these bytes to the daemon.
    Send(Vec<u8>),
    /// Read the daemon's acknowledgement.
    AwaitAck,
}

/// What the caller is asked to do next.
#[derive(Debug)]
pub enum LpdAction {
    /// Write these bytes to the daemon.
    Send(Vec<u8>),
    /// Read one byte from the daemon and report it.
    ReadAck,
    /// The exchange is over; nothing is left to do.
    Done,
    /// The exchange failed with this error; nothing is left to do.
    Fail(LPDPClientError),
}

/// What happened when the caller did what it was asked.
pub enum LpdEvent {
    /// The bytes were written.
    Sent,
    /// Writing failed, with this message.
    SendFailed(String),
    /// `count` bytes were read; the first of them (if any) is `byte`.
    AckRead(usize, u8),
    /// Reading failed, with this message.
    ReadFailed(String),
}

/// A planned step, as a value.
pub enum Planned {
    Send(Seq<u8>),
    AwaitAck,
}

/// A request to the caller, as a value.
pub enum Request {
    Send(Seq<u8>),
    ReadAck,
    Done,
    Fail,
}

/// An event, as a value.
pub enum Outcome {
    Sent,
    SendFailed,
    AckRead(usize, u8),
    ReadFailed,
}

/// The state of an exchange: its plan, the step it is at, and whether it
/// has failed.
pub struct ExchangeState {
    pub steps: Seq<Planned>,
    pub position: nat,
    pub ended: bool,
}

impl View for LpdStep {
    type V = Planned;

    open spec fn view(&self) -> Planned {
        match self {
            LpdStep::Send(b) => Planned::Send(b@),
            LpdStep::AwaitAck => Planned::AwaitAck,
        }
    }
}

impl LpdAction {
    /// The request that this action makes.
    pub open spec fn request(&self) -> Request {
        match self {
            LpdAction::Send(b) => Request::Send(b@),
            LpdAction::ReadAck => Request::ReadAck,
            LpdAction::Done => Request::Done,
            LpdAction::Fail(_) => Request::Fail,
        }
    }
}

impl LpdEvent {
    /// The outcome that this event reports.
    pub open spec fn outcome(&self) -> Outcome {
        match self {
            LpdEvent::Sent => Outcome::Sent,
            LpdEvent::SendFailed(_) => Outcome::SendFailed,
            LpdEvent::AckRead(c, b) => Outcome::AckRead(*c, *b),
            LpdEvent::ReadFailed(_) => Outcome::ReadFailed,
        }
    }
}

/// Whether `count` bytes read, the first being `byte`, acknowledge a message.
pub open spec fn acknowledged(count: usize, byte: u8) -> bool {
    count == 1 && byte == 0
}

/// The message of a refused acknowledgement.
pub open spec fn ack_failure_text(count: usize, byte: u8) -> Seq<char> {
    if count != 1 {
        wrong_ack_length_text(count as nat)
    } else {
        wrong_ack_byte_text(byte)
    }
}

/// The request that carries out a planned step.
pub open spec fn planned_request(p: Planned) -> Request {
    match p {
        Planned::Send(b) => Request::Send(b),
        Planned::AwaitAck => Request::ReadAck,
    }
}

/// The outcome that completes a planned step.
pub open spec fn success(p: Planned) -> Outcome {
    match p {
        Planned::Send(_) => Outcome::Sent,
        Planned::AwaitAck => Outcome::AckRead(1, 0),
    }
}

/// Whether `o` answers the planned step `p` with a failure.
pub open spec fn is_failure(p: Planned, o: Outcome) -> bool {
    match (p, o) {
        (Planned::Send(_), Outcome::SendFailed) => true,
        (Planned::AwaitAck, Outcome::ReadFailed) => true,
        (Planned::AwaitAck, Outcome::AckRead(c, b)) => !acknowledged(c, b),
        _ => false,
    }
}

/// The state of a fresh exchange with the given plan.
pub open spec fn initial(steps: Seq<Planned>) -> ExchangeState {
    ExchangeState { steps, position: 0, ended: false }
}

/// Whether the exchange has nothing left to do.
pub open spec fn is_over(s: ExchangeState) -> bool {
    s.ended || s.position >= s.steps.len()
}

/// What the caller is asked to do in state `s`.
pub open spec fn request_for(s: ExchangeState) -> Request {
    if is_over(s) {
        Request::Done
    } else {
        planned_request(s.steps[s.position as int])
    }
}

/// The state after outcome `o` in state `s`. A success moves to the next
/// step, a failure ends the exchange, and an outcome that does not answer the
/// current step (or comes when the exchange is over) changes nothing.
pub open spec fn next_state(s: ExchangeState, o: Outcome) -> ExchangeState {
    if is_over(s) {
        s
    } else {
        let advanced = ExchangeState { position: s.position + 1, ..s };
        let failed = ExchangeState { ended: true, ..s };
        match (s.steps[s.position as int], o) {
            (Planned::Send(_), Outcome::Sent) => advanced,
            (Planned::Send(_), Outcome::SendFailed) => failed,
            (Planned::AwaitAck, Outcome::AckRead(c, b)) => if acknowledged(c, b) {
                advanced
            } else {
                failed
            },
            (Planned::AwaitAck, Outcome::ReadFailed) => failed,
            _ => s,
        }
    }
}

/// One transition: the next state and the request made there. The request
/// that follows a failure is `Fail`; after that, only `Done`.
pub open spec fn transition(s: ExchangeState, o: Outcome) -> (ExchangeState, Request) {
    let t = next_state(s, o);
    if t.ended && !s.ended {
        (t, Request::Fail)
    } else {
        (t, request_for(t))
    }
}

/// The state reached and the requests made, outcome after outcome.
pub open spec fn run(s: ExchangeState, outcomes: Seq<Outcome>) -> (ExchangeState, Seq<Request>)
    decreases outcomes.len(),
{
    if outcomes.len() == 0 {
        (s, seq![])
    } else {
        let (t, r) = transition(s, outcomes[0]);
        let (u, rs) = run(t, outcomes.drop_first());
        (u, seq![r] + rs)
    }
}

/// The plan of a file transfer: the header announcing the content's length
/// and the file's name, its acknowledgement, the content, a zero byte, and
/// the acknowledgement of the content.
pub open spec fn file_transfer_plan(sub: ReceiveJobSubCommand, content: Seq<u8>, name: Seq<u8>) -> Seq<
    Planned,
> {
    seq![
        Planned::Send(file_header_bytes(sub, content.len(), name)),
        Planned::AwaitAck,
        Planned::Send(content),
        Planned::Send(seq![0u8]),
        Planned::AwaitAck,
    ]
}

/// The requests of a plan carried out step by step.
pub open spec fn planned_requests(steps: Seq<Planned>) -> Seq<Request> {
    steps.map_values(|p: Planned| planned_request(p))
}

/// The outcomes that complete every step of a plan.
pub open spec fn successes(steps: Seq<Planned>) -> Seq<Outcome> {
    steps.map_values(|p: Planned| success(p))
}

/// The state of an exchange that has completed its first `i` steps.
pub open spec fn at_step(steps: Seq<Planned>, i: nat) -> ExchangeState {
    ExchangeState { steps, position: i, ended: false }
}

proof fn lemma_successes_from(steps: Seq<Planned>, i: nat)
    requires
        i < steps.len(),
    ensures
        run(at_step(steps, i), successes(steps).subrange(i as int, steps.len() as int)) == (
            at_step(steps, steps.len()),
            planned_requests(steps).subrange(i + 1 as int, steps.len() as int).push(Request::Done),
        ),
    decreases steps.len() - i,
{
    let n = steps.len();
    let s = ExchangeState { steps, position: i, ended: false };
    let outcomes = successes(steps).subrange(i as int, n as int);
    let t = ExchangeState { steps, position: i + 1, ended: false };
    assert(outcomes[0] == success(steps[i as int]));
    assert(next_state(s, outcomes[0]) == t);
    assert(transition(s, outcomes[0]) == (t, request_for(t)));
    let rest = outcomes.drop_first();
    assert(run(s, outcomes) == (run(t, rest).0, seq![request_for(t)] + run(t, rest).1));
    if i + 1 == n {
        assert(outcomes.drop_first() =~= Seq::<Outcome>::empty());
        assert(planned_requests(steps).subrange(i + 1 as int, n as int).push(Request::Done) =~= seq![
            Request::Done,
        ]);
    } else {
        lemma_successes_from(steps, i + 1);
        assert(outcomes.drop_first() =~= successes(steps).subrange(i + 1 as int, n as int));
        assert(request_for(t) == planned_request(steps[i + 1 as int]));
        assert(planned_requests(steps).subrange(i + 1 as int, n as int).push(Request::Done) =~= seq![
            request_for(t),
        ] + planned_requests(steps).subrange(i + 2 as int, n as int).push(Request::Done));
    }
}

/// When every step succeeds, an exchange asks for exactly its planned steps,
/// in order (the first request before any outcome, each next one after the
/// outcome of the previous step), then says it is done, and ends complete.
pub proof fn law_successful_exchange_follows_plan(steps: Seq<Planned>)
    ensures
        seq![request_for(initial(steps))] + run(initial(steps), successes(steps)).1
            == planned_requests(steps).push(Request::Done),
        run(initial(steps), successes(steps)).0 == at_step(steps, steps.len()),
{
    let n = steps.len();
    if n == 0 {
        assert(successes(steps) =~= Seq::<Outcome>::empty());
        assert(planned_requests(steps).push(Request::Done) =~= seq![Request::Done]);
        assert(seq![request_for(initial(steps))] + Seq::<Request>::empty() =~= seq![Request::Done]);
    } else {
        lemma_successes_from(steps, 0);
        assert(successes(steps).subrange(0, n as int) =~= successes(steps));
        assert(planned_requests(steps).push(Request::Done) =~= seq![
            request_for(initial(steps)),
        ] + planned_requests(steps).subrange(1, n as int).push(Request::Done));
    }
}

proof fn lemma_ended_stays_ended(s: ExchangeState, later: Seq<Outcome>)
    requires
        s.ended,
    ensures
        run(s, later).0 == s,
        run(s, later).1 == Seq::new(later.len(), |k: int| Request::Done),
    decreases later.len(),
{
    if later.len() > 0 {
        lemma_ended_stays_ended(s, later.drop_first());
        assert(run(s, later).1 =~= Seq::new(later.len(), |k: int| Request::Done));
    } else {
        assert(run(s, later).1 =~= Seq::new(later.len(), |k: int| Request::Done));
    }
}

/// A failed step ends the exchange: the machine reports the failure once,
/// and whatever is reported afterwards, it only says that it is done.
pub proof fn law_failure_ends_exchange(s: ExchangeState, o: Outcome, later: Seq<Outcome>)
    requires
        !is_over(s),
        is_failure(s.steps[s.position as int], o),
    ensures
        transition(s, o).1 == Request::Fail,
        transition(s, o).0.ended,
        run(transition(s, o).0, later).1 == Seq::new(later.len(), |k: int| Request::Done),
{
    lemma_ended_stays_ended(transition(s, o).0, later);
}

/// An outcome that does not answer the current step changes nothing, and the
/// same request is made again.
pub proof fn law_unrelated_outcome_is_ignored(s: ExchangeState, o: Outcome)
    requires
        !is_over(s),
        !is_failure(s.steps[s.position as int], o),
        o != success(s.steps[s.position as int]),
        !(o is AckRead && s.steps[s.position as int] is AwaitAck),
    ensures
        transition(s, o) == (s, request_for(s)),
{
}

/// In a file transfer, the count that the header announces (the digits
/// between the subcommand byte and the first space) reads back as the
/// length of the content that is sent after the header's acknowledgement.
pub proof fn law_file_transfer_announces_content_length(
    sub: ReceiveJobSubCommand,
    content: Seq<u8>,
    name: Seq<u8>,
)
    ensures
        ({
            let plan = file_transfer_plan(sub, content, name);
            let header = file_header_bytes(sub, content.len(), name);
            let k = 1 + decimal_digits(content.len()).len() as int;
            &&& plan[0] == Planned::Send(header)
            &&& plan[2] == Planned::Send(content)
            &&& header[0] == sub.wire_code()
            &&& header[k] == 32
            &&& all_decimal_digits(header.subrange(1, k))
            &&& decimal_value(header.subrange(1, k)) == content.len()
        }),
{
    let header = file_header_bytes(sub, content.len(), name);
    let digits = decimal_digits(content.len());
    let k = 1 + digits.len() as int;
    law_decimal_round_trip(content.len());
    assert(header.subrange(1, k) =~= digits);
}

/// The plan that opens a job on a queue: the "receive job" command, then
/// its acknowledgement.
pub open spec fn receive_job_plan(queue_name: Seq<u8>) -> Seq<Planned> {
    seq![
        Planned::Send(daemon_command_bytes(DaemonCommand::ReceivePrinterJob, queue_name)),
        Planned::AwaitAck,
    ]
}

/// The plan that aborts the job being received: the abort subcommand, then
/// its acknowledgement.
pub open spec fn abort_plan() -> Seq<Planned> {
    seq![Planned::Send(abort_job_bytes()), Planned::AwaitAck]
}

/// The plans of the given steps.
pub open spec fn plans_of(steps: Seq<LpdStep>) -> Seq<Planned> {
    steps.map_values(|st: LpdStep| st@)
}

/// Appends one step to a list of steps.
fn push_step(steps: &mut Vec<LpdStep>, step: LpdStep)
    ensures
        plans_of(final(steps)@) == plans_of(old(steps)@).push(step@),
{
    steps.push(step);
    assert(plans_of(steps@) =~= plans_of(old(steps)@).push(step@));
}

/// Appends the steps that open a job on `queue_name`.
fn push_receive_job(steps: &mut Vec<LpdStep>, queue_name: &str)
    ensures
        plans_of(final(steps)@) == plans_of(old(steps)@) + receive_job_plan(
            queue_name.spec_bytes(),
        ),
{
    push_step(steps, LpdStep::Send(daemon_command_message(DaemonCommand::ReceivePrinterJob, queue_name)));
    push_step(steps, LpdStep::AwaitAck);
    assert(plans_of(steps@) =~= plans_of(old(steps)@) + receive_job_plan(queue_name.spec_bytes()));
}

/// Appends the steps that transfer one file of an open job.
fn push_file_transfer(
    steps: &mut Vec<LpdStep>,
    sub: ReceiveJobSubCommand,
    content: &[u8],
    name: &str,
)
    ensures
        plans_of(final(steps)@) == plans_of(old(steps)@) + file_transfer_plan(
            sub,
            content@,
            name.spec_bytes(),
        ),
{
    push_step(steps, LpdStep::Send(file_header_message(sub, content.len(), name)));
    push_step(steps, LpdStep::AwaitAck);
    push_step(steps, LpdStep::Send(copy_bytes(content)));
    let mut zero: Vec<u8> = Vec::new();
    zero.push(0u8);
    assert(zero@ =~= seq![0u8]);
    push_step(steps, LpdStep::Send(zero));
    push_step(steps, LpdStep::AwaitAck);
    assert(plans_of(steps@) =~= plans_of(old(steps)@) + file_transfer_plan(
        sub,
        content@,
        name.spec_bytes(),
    ));
}

/// Appends the steps that abort the job being received.
fn push_abort(steps: &mut Vec<LpdStep>)
    ensures
        plans_of(final(steps)@) == plans_of(old(steps)@) + abort_plan(),
{
    push_step(steps, LpdStep::Send(abort_job_message()));
    push_step(steps, LpdStep::AwaitAck);
    assert(plans_of(steps@) =~= plans_of(old(steps)@) + abort_plan());
}

/// An awaited acknowledgement lets the exchange go on only when it is a
/// single zero byte: one zero byte moves to the next step, and anything else
/// (no byte, several bytes, or one non-zero byte such as a daemon's refusal)
/// ends the exchange with `Fail`.
pub proof fn law_only_a_single_zero_byte_acknowledges(s: ExchangeState, count: usize, byte: u8)
    requires
        !is_over(s),
        s.steps[s.position as int] is AwaitAck,
    ensures
        count == 1 && byte == 0 ==> transition(s, Outcome::AckRead(count, byte)).0 == (
        ExchangeState { position: s.position + 1, ..s }),
        count == 1 && byte == 0 ==> transition(s, Outcome::AckRead(count, byte)).1 != Request::Fail,
        !(count == 1 && byte == 0) ==> transition(s, Outcome::AckRead(count, byte)).1
            == Request::Fail,
        !(count == 1 && byte == 0) ==> transition(s, Outcome::AckRead(count, byte)).0.ended,
        !(count == 1 && byte == 0) ==> transition(s, Outcome::AckRead(count, byte)).0.position
            == s.position,
{
}

/// Every file transfer has five steps: the header announcing the content's
/// length, the header's acknowledgement, the content, the zero byte that
/// ends it, and the acknowledgement of the file, which comes last.
pub proof fn law_file_transfer_ends_with_acknowledgement(
    sub: ReceiveJobSubCommand,
    content: Seq<u8>,
    name: Seq<u8>,
)
    ensures
        ({
            let plan = file_transfer_plan(sub, content, name);
            &&& plan.len() == 5
            &&& plan[0] == Planned::Send(
                seq![sub.wire_code()] + decimal_digits(content.len()) + seq![32u8] + name + seq![
                    10u8,
                ],
            )
            &&& plan[1] == Planned::AwaitAck
            &&& plan[2] == Planned::Send(content)
            &&& plan[3] == Planned::Send(seq![0u8])
            &&& plan[4] == Planned::AwaitAck
        }),
{
}

/// The plan of a whole job: the receive-job command `02 queue LF` and its
/// acknowledgement, then the control file and the data file, each with its
/// five steps; the job ends by awaiting the acknowledgement of the data
/// file, so when every step succeeds the last request before `Done` is a
/// read of that acknowledgement.
pub proof fn law_whole_job_plan(
    queue_name: Seq<u8>,
    control: Seq<u8>,
    control_name: Seq<u8>,
    data: Seq<u8>,
    data_name: Seq<u8>,
)
    ensures
        ({
            let plan = receive_job_plan(queue_name) + file_transfer_plan(
                ReceiveJobSubCommand::ReceiveControlFile,
                control,
                control_name,
            ) + file_transfer_plan(ReceiveJobSubCommand::ReceiveDataFile, data, data_name);
            &&& plan.len() == 12
            &&& plan[0] == Planned::Send(seq![2u8] + queue_name + seq![10u8])
            &&& plan[1] == Planned::AwaitAck
            &&& plan[2] == Planned::Send(
                seq![2u8] + decimal_digits(control.len()) + seq![32u8] + control_name + seq![10u8],
            )
            &&& plan[3] == Planned::AwaitAck
            &&& plan[4] == Planned::Send(control)
            &&& plan[5] == Planned::Send(seq![0u8])
            &&& plan[6] == Planned::AwaitAck
            &&& plan[7] == Planned::Send(
                seq![3u8] + decimal_digits(data.len()) + seq![32u8] + data_name + seq![10u8],
            )
            &&& plan[8] == Planned::AwaitAck
            &&& plan[9] == Planned::Send(data)
            &&& plan[10] == Planned::Send(seq![0u8])
            &&& plan[11] == Planned::AwaitAck
            &&& run(initial(plan), successes(plan)).1 == run(initial(plan), successes(plan)).1.take(
                10,
            ) + seq![Request::ReadAck, Request::Done]
        }),
{
    let plan = receive_job_plan(queue_name) + file_transfer_plan(
        ReceiveJobSubCommand::ReceiveControlFile,
        control,
        control_name,
    ) + file_transfer_plan(ReceiveJobSubCommand::ReceiveDataFile, data, data_name);
    law_successful_exchange_follows_plan(plan);
    let rs = run(initial(plan), successes(plan)).1;
    let all = seq![request_for(initial(plan))] + rs;
    assert(all == planned_requests(plan).push(Request::Done));
    assert(rs.len() == 12);
    assert(rs[10] == all[11]);
    assert(rs[11] == all[12]);
    assert(all[11] == planned_request(plan[11]));
    assert(rs =~= rs.take(10) + seq![Request::ReadAck, Request::Done]);
}

/// The plan of an abort: the receive-job command `02 queue LF` and its
/// acknowledgement, then the abort subcommand `01 LF` and its
/// acknowledgement, which comes last.
pub proof fn law_abort_plan(queue_name: Seq<u8>)
    ensures
        abort_plan() == seq![Planned::Send(seq![1u8, 10u8]), Planned::AwaitAck],
        ({
            let plan = receive_job_plan(queue_name) + abort_plan();
            &&& plan.len() == 4
            &&& plan[0] == Planned::Send(seq![2u8] + queue_name + seq![10u8])
            &&& plan[1] == Planned::AwaitAck
            &&& plan[2] == Planned::Send(seq![1u8, 10u8])
            &&& plan[3] == Planned::AwaitAck
        }),
{
    assert(abort_plan() =~= seq![Planned::Send(seq![1u8, 10u8]), Planned::AwaitAck]);
}

/// An exchange with a line printer daemon, in progress.
pub struct LpdExchange {
    steps: Vec<LpdStep>,
    position: usize,
    ended: bool,
}

impl View for LpdExchange {
    type V = ExchangeState;

    closed spec fn view(&self) -> ExchangeState {
        ExchangeState {
            steps: self.steps@.map_values(|st: LpdStep| st@),
            position: self.position as nat,
            ended: self.ended,
        }
    }
}

impl LpdExchange {
    #[verifier::type_invariant]
    spec fn position_in_plan(&self) -> bool {
        self.position <= self.steps@.len()
    }

    /// A fresh exchange that carries out `steps` in order.
    pub fn new(steps: Vec<LpdStep>) -> (r: Self)
        ensures
            r@ == initial(steps@.map_values(|st: LpdStep| st@)),
    {
        LpdExchange { steps, position: 0, ended: false }
    }

    /// The exchange that asks the daemon to print the waiting jobs of
    /// `queue_name`: the command alone, with no acknowledgement awaited.
    pub fn print_remaining_jobs(queue_name: &str) -> (r: Self)
        ensures
            r@ == initial(
                seq![
                    Planned::Send(
                        daemon_command_bytes(DaemonCommand::PrintRemainingJobs, queue_name.spec_bytes()),
                    ),
                ],
            ),
    {
        let mut steps: Vec<LpdStep> = Vec::new();
        steps.push(
            LpdStep::Send(daemon_command_message(DaemonCommand::PrintRemainingJobs, queue_name)),
        );
        let r = LpdExchange::new(steps);
        assert(r@.steps =~= seq![
            Planned::Send(
                daemon_command_bytes(DaemonCommand::PrintRemainingJobs, queue_name.spec_bytes()),
            ),
        ]);
        r
    }

    /// The exchange that opens a job on `queue_name`: the "receive job"
    /// command, then its acknowledgement.
    pub fn receive_printer_job(queue_name: &str) -> (r: Self)
        ensures
            r@ == initial(
                seq![
                    Planned::Send(
                        daemon_command_bytes(DaemonCommand::ReceivePrinterJob, queue_name.spec_bytes()),
                    ),
                    Planned::AwaitAck,
                ],
            ),
    {
        let mut steps: Vec<LpdStep> = Vec::new();
        steps.push(
            LpdStep::Send(daemon_command_message(DaemonCommand::ReceivePrinterJob, queue_name)),
        );
        steps.push(LpdStep::AwaitAck);
        let r = LpdExchange::new(steps);
        assert(r@.steps =~= seq![
            Planned::Send(
                daemon_command_bytes(DaemonCommand::ReceivePrinterJob, queue_name.spec_bytes()),
            ),
            Planned::AwaitAck,
        ]);
        r
    }

    /// The exchange that transfers one file of an open job: the header that
    /// announces the file's length and name, its acknowledgement, the
    /// content, a zero byte, and the acknowledgement of the content.
    fn file_transfer(sub: ReceiveJobSubCommand, content: &[u8], name: &str) -> (r: Self)
        ensures
            r@ == initial(file_transfer_plan(sub, content@, name.spec_bytes())),
    {
        let mut steps: Vec<LpdStep> = Vec::new();
        steps.push(LpdStep::Send(file_header_message(sub, content.len(), name)));
        steps.push(LpdStep::AwaitAck);
        steps.push(LpdStep::Send(copy_bytes(content)));
        let mut zero: Vec<u8> = Vec::new();
        zero.push(0u8);
        steps.push(LpdStep::Send(zero));
        steps.push(LpdStep::AwaitAck);
        let r = LpdExchange::new(steps);
        assert(r@.steps =~= file_transfer_plan(sub, content@, name.spec_bytes()));
        r
    }

    /// The exchange that transfers the control file `content`, named `name`.
    pub fn printer_control_file(content: &[u8], name: &str) -> (r: Self)
        ensures
            r@ == initial(
                file_transfer_plan(ReceiveJobSubCommand::ReceiveControlFile, content@, name.spec_bytes()),
            ),
    {
        Self::file_transfer(ReceiveJobSubCommand::ReceiveControlFile, content, name)
    }

    /// The exchange that transfers the data file `content`, named `name`.
    pub fn printer_data_file(content: &[u8], name: &str) -> (r: Self)
        ensures
            r@ == initial(
                file_transfer_plan(ReceiveJobSubCommand::ReceiveDataFile, content@, name.spec_bytes()),
            ),
    {
        Self::file_transfer(ReceiveJobSubCommand::ReceiveDataFile, content, name)
    }

    /// The exchange that aborts the job being received: the abort
    /// subcommand, then its acknowledgement.
    pub fn printer_abort_job() -> (r: Self)
        ensures
            r@ == initial(seq![Planned::Send(abort_job_bytes()), Planned::AwaitAck]),
    {
        let mut steps: Vec<LpdStep> = Vec::new();
        steps.push(LpdStep::Send(abort_job_message()));
        steps.push(LpdStep::AwaitAck);
        let r = LpdExchange::new(steps);
        assert(r@.steps =~= seq![Planned::Send(abort_job_bytes()), Planned::AwaitAck]);
        r
    }

    /// The exchange that prints a whole job on `queue_name`: it opens the
    /// job, transfers the control file `control` named `control_name`, then
    /// the data file `data` named `data_name`.
    pub fn send_printer_job(
        queue_name: &str,
        control: &[u8],
        control_name: &str,
        data: &[u8],
        data_name: &str,
    ) -> (r: Self)
        ensures
            r@ == initial(
                receive_job_plan(queue_name.spec_bytes()) + file_transfer_plan(
                    ReceiveJobSubCommand::ReceiveControlFile,
                    control@,
                    control_name.spec_bytes(),
                ) + file_transfer_plan(
                    ReceiveJobSubCommand::ReceiveDataFile,
                    data@,
                    data_name.spec_bytes(),
                ),
            ),
    {
        let mut steps: Vec<LpdStep> = Vec::new();
        assert(plans_of(steps@) =~= Seq::<Planned>::empty());
        push_receive_job(&mut steps, queue_name);
        push_file_transfer(&mut steps, ReceiveJobSubCommand::ReceiveControlFile, control, control_name);
        push_file_transfer(&mut steps, ReceiveJobSubCommand::ReceiveDataFile, data, data_name);
        assert(plans_of(steps@) =~= receive_job_plan(queue_name.spec_bytes()) + file_transfer_plan(
            ReceiveJobSubCommand::ReceiveControlFile,
            control@,
            control_name.spec_bytes(),
        ) + file_transfer_plan(ReceiveJobSubCommand::ReceiveDataFile, data@, data_name.spec_bytes()));
        LpdExchange::new(steps)
    }

    /// The exchange that aborts a job on `queue_name`: it opens the job, then
    /// aborts it.
    pub fn abort_printer_job(queue_name: &str) -> (r: Self)
        ensures
            r@ == initial(receive_job_plan(queue_name.spec_bytes()) + abort_plan()),
    {
        let mut steps: Vec<LpdStep> = Vec::new();
        assert(plans_of(steps@) =~= Seq::<Planned>::empty());
        push_receive_job(&mut steps, queue_name);
        push_abort(&mut steps);
        assert(plans_of(steps@) =~= receive_job_plan(queue_name.spec_bytes()) + abort_plan());
        LpdExchange::new(steps)
    }

    /// What the caller is asked to do now.
    pub fn current(&self) -> (a: LpdAction)
        ensures
            a.request() == request_for(self@),
    {
        proof {
            use_type_invariant(self);
        }
        if self.ended || self.position >= self.steps.len() {
            LpdAction::Done
        } else {
            match &self.steps[self.position] {
                LpdStep::Send(b) => LpdAction::Send(copy_bytes(b.as_slice())),
                LpdStep::AwaitAck => LpdAction::ReadAck,
            }
        }
    }

    /// Takes in what happened and says what to do next.
    pub fn on_event(&mut self, event: LpdEvent) -> (a: LpdAction)
        ensures
            (final(self)@, a.request()) == transition(old(self)@, event.outcome()),
            a matches LpdAction::Fail(e) ==> match event {
                LpdEvent::SendFailed(m) => e == LPDPClientError::FailedWrite(m),
                LpdEvent::ReadFailed(m) => e == LPDPClientError::FailedRead(m),
                LpdEvent::AckRead(c, b) => (e matches LPDPClientError::NotAcknowledged(m) && m@
                    == ack_failure_text(c, b)),
                LpdEvent::Sent => false,
            },
            !is_over(old(self)@) && old(self)@.steps[old(self)@.position as int] is AwaitAck ==> (
            event matches LpdEvent::AckRead(c, b) ==> (a is Fail <==> !(c == 1 && b == 0))),
    {
        proof {
            use_type_invariant(&*self);
        }
        if self.ended || self.position >= self.steps.len() {
            return LpdAction::Done;
        }
        let awaiting_ack = match &self.steps[self.position] {
            LpdStep::Send(_) => false,
            LpdStep::AwaitAck => true,
        };
        assert(self@.steps[self.position as int] == self.steps@[self.position as int]@);
        match event {
            LpdEvent::Sent => {
                if !awaiting_ack {
                    self.position = self.position + 1;
                }
                self.current()
            },
            LpdEvent::SendFailed(m) => {
                if awaiting_ack {
                    self.current()
                } else {
                    self.ended = true;
                    LpdAction::Fail(LPDPClientError::FailedWrite(m))
                }
            },
            LpdEvent::AckRead(count, byte) => {
                if awaiting_ack {
                    match check_ack(count, byte) {
                        Ok(()) => {
                            self.position = self.position + 1;
                            self.current()
                        },
                        Err(e) => {
                            self.ended = true;
                            LpdAction::Fail(e)
                        },
                    }
                } else {
                    self.current()
                }
            },
            LpdEvent::ReadFailed(m) => {
                if awaiting_ack {
                    self.ended = true;
                    LpdAction::Fail(LPDPClientError::FailedRead(m))
                } else {
                    self.current()
                }
            },
        }
    }
}

} // verus!

//! The transfer engine: which transactions a transfer puts on the wire, in
//! which order, and what it makes of their outcomes.
//!
//! The engine does no I/O. It hands out one [`Transaction`] at a time; the
//! caller performs it on the hardware pipe, under the lock that serialises
//! all transfers, and reports the [`Outcome`]. A transfer that is behind a
//! transaction translator is wrapped in start-split and complete-split
//! tokens.

use crate::descriptor::{device_of, parse_descriptor, parse_failure, DeviceDescriptor};
use crate::device_addr::{
    freed_with, has_free, is_first_free, is_first_match, no_match, without_subtree,
    DeviceAddressManager, DeviceDisconnectMask, DeviceHandle,
};
use crate::errors::UsbHostError;
use crate::request::{
    Request, RequestTypeDirection, RequestTypeRecipient, RequestTypeType, StandardDeviceRequest,
};
use crate::topology::{links_in_table, live_slot, only_freed, rooted};
use crate::types::{
    DataTog, DevInfo, EndpointDirection, EndpointType, InterruptChannel, PortInfo, UsbSpeed,
};
use vstd::prelude::*;

verus! {

/// The deadline of one attempt of a stage, in milliseconds.
pub const TRANSFER_TIMEOUT_MS: u64 = 500;

/// How many times a complete-split is answered by NYET before the engine
/// goes back to the start-split.
pub const CSPLIT_RETRIES: u8 = 5;

/// How many start-splits an IN stage issues before it gives up.
pub const SSPLIT_ROUNDS: u8 = 3;

/// The pause after a NYET, in microseconds.
pub const NYET_PAUSE_US: u32 = 20;

/// A SPLIT token, sent to the hub whose transaction translator serves the
/// device.
#[derive(Clone, Copy, Debug, PartialEq, Eq, Structural)]
pub struct SplitToken {
    /// The address of the hub.
    pub hub_address: u8,
    /// Complete-split if set, start-split if not.
    pub complete: bool,
    /// The port of the hub that leads to the device.
    pub port: u8,
    pub endpoint_type: EndpointType,
    /// The speed of the device.
    pub speed: UsbSpeed,
}

/// Which of the caller's buffers a packet carries or fills.
#[derive(Clone, Copy, Debug, PartialEq, Eq, Structural)]
pub enum Buffer {
    /// No buffer at all: the continuation of a split transaction.
    Absent,
    /// A buffer of length zero.
    Empty,
    /// The transfer's buffer, from `offset` on.
    Data { offset: usize },
}

/// The token and data phase of a transaction.
#[derive(Clone, Copy, Debug, PartialEq, Eq, Structural)]
pub enum Packet {
    /// A SETUP token, with the eight bytes of the request or, in a
    /// complete-split, without.
    Setup { with_request: bool },
    /// An IN token.
    In { endpoint: u8, tog: DataTog, wait_for_reply: bool, send_ack: bool, into: Buffer },
    /// An OUT token.
    Out { endpoint: u8, tog: DataTog, from: Buffer },
}

/// One transaction for the hardware pipe: an optional SPLIT token to the
/// hub, then the packet to the device.
#[derive(Clone, Copy, Debug, PartialEq, Eq)]
pub struct Transaction {
    pub split: Option<SplitToken>,
    /// The address of the device.
    pub address: u8,
    pub packet: Packet,
    /// Whether a fresh deadline starts with this transaction. If not, the
    /// deadline of the transaction before keeps running.
    pub restart_deadline: bool,
    /// How long to wait before the transaction, in microseconds.
    pub pause_us: u32,
}

/// How a transaction ended.
#[derive(Clone, Copy, Debug, PartialEq, Eq, Structural)]
pub enum Outcome {
    /// The packet went through; for an IN packet, with that many bytes.
    Done(usize),
    /// The packet failed.
    Failed(UsbHostError),
    /// The SPLIT token failed, and the packet was not sent.
    SplitFailed(UsbHostError),
    /// The deadline passed.
    TimedOut,
}

/// The three kinds of stage.
#[derive(Clone, Copy, Debug, PartialEq, Eq, Structural)]
pub enum StageKind {
    Setup,
    In,
    Out,
}

/// Where a stage stands.
#[derive(Clone, Copy, Debug, PartialEq, Eq, Structural)]
pub enum Phase {
    /// The device is reached without a transaction translator.
    Direct,
    /// A start-split is under way.
    StartSplit,
    /// A complete-split is under way.
    CompleteSplit,
}

/// One stage of a transfer in flight: a SETUP, an IN or an OUT, with the
/// retries that belong to it.
#[derive(Clone, Copy, Debug, PartialEq, Eq)]
pub struct Stage {
    pub kind: StageKind,
    /// The transaction translator: hub address and hub port.
    pub translator: Option<(u8, u8)>,
    pub speed: UsbSpeed,
    pub address: u8,
    pub endpoint: u8,
    pub endpoint_type: EndpointType,
    pub tog: DataTog,
    /// Whether the whole attempt is repeated when it ends in NAK.
    pub retry_nak: bool,
    /// The buffer of the stage.
    pub buffer: Buffer,
    pub phase: Phase,
    /// Start-splits that were given up, in this attempt.
    pub round: u8,
    /// NYETs since the last start-split.
    pub nyets: u8,
}

/// What a stage does next.
#[derive(Clone, Copy, Debug, PartialEq, Eq)]
pub enum StageStep {
    /// Perform this transaction and report its outcome to this stage.
    Next { stage: Stage, transaction: Transaction },
    /// The stage is over.
    Finished(Result<usize, UsbHostError>),
}

impl Stage {
    /// The phase in which an attempt starts.
    pub open spec fn first_phase(self) -> Phase {
        if self.translator is Some {
            Phase::StartSplit
        } else {
            Phase::Direct
        }
    }

    /// This stage with the progress of `other`: its phase and its counters.
    pub open spec fn restarted_like(self, other: Stage) -> Stage {
        Stage { phase: other.phase, round: other.round, nyets: other.nyets, ..self }
    }

    /// The stage as it is when an attempt starts.
    pub open spec fn restarted(self) -> Stage {
        Stage { phase: self.first_phase(), round: 0, nyets: 0, ..self }
    }

    /// A stage at the start of its first attempt.
    pub open spec fn fresh(
        kind: StageKind,
        dev_info: DevInfo,
        address: u8,
        endpoint: u8,
        endpoint_type: EndpointType,
        tog: DataTog,
        retry_nak: bool,
        buffer: Buffer,
    ) -> Stage {
        Stage {
            kind,
            translator: dev_info.transaction_translator(),
            speed: dev_info.speed(),
            address,
            endpoint,
            endpoint_type,
            tog,
            retry_nak,
            buffer,
            phase: if dev_info.transaction_translator() is Some {
                Phase::StartSplit
            } else {
                Phase::Direct
            },
            round: 0,
            nyets: 0,
        }
    }

    /// A split IN stage exists for control and interrupt endpoints only, and
    /// the counters stay below their limits.
    pub open spec fn wf(self) -> bool {
        &&& self.phase is Direct <==> self.translator is None
        &&& self.round < SSPLIT_ROUNDS
        &&& self.nyets < CSPLIT_RETRIES
        &&& (self.kind is In && self.translator is Some) ==> (self.endpoint_type is Control
            || self.endpoint_type is Interrupt)
    }

    /// The SPLIT token of the stage's current transaction.
    pub open spec fn split_token(self) -> Option<SplitToken> {
        match self.translator {
            Some((hub, port)) => Some(
                SplitToken {
                    hub_address: hub,
                    complete: self.phase is CompleteSplit,
                    port,
                    endpoint_type: self.endpoint_type,
                    speed: self.speed,
                },
            ),
            None => None,
        }
    }

    /// The packet of the stage's current transaction.
    ///
    /// A direct IN waits for the reply and acknowledges it. The IN of a
    /// start-split carries no buffer and is not acknowledged; it waits for a
    /// reply on a control endpoint only. The IN of a complete-split waits for
    /// the reply and leaves it unacknowledged. SETUP and OUT carry their
    /// payload in the start-split and nothing in the complete-split.
    pub open spec fn packet(self) -> Packet {
        match self.kind {
            StageKind::Setup => Packet::Setup { with_request: !(self.phase is CompleteSplit) },
            StageKind::In => match self.phase {
                Phase::Direct => Packet::In {
                    endpoint: self.endpoint,
                    tog: self.tog,
                    wait_for_reply: true,
                    send_ack: true,
                    into: self.buffer,
                },
                Phase::StartSplit => Packet::In {
                    endpoint: self.endpoint,
                    tog: self.tog,
                    wait_for_reply: self.endpoint_type is Control,
                    send_ack: false,
                    into: Buffer::Empty,
                },
                Phase::CompleteSplit => Packet::In {
                    endpoint: self.endpoint,
                    tog: self.tog,
                    wait_for_reply: true,
                    send_ack: false,
                    into: self.buffer,
                },
            },
            StageKind::Out => Packet::Out {
                endpoint: self.endpoint,
                tog: self.tog,
                from: if self.phase is CompleteSplit {
                    Buffer::Absent
                } else {
                    self.buffer
                },
            },
        }
    }

    /// The stage's current transaction.
    pub open spec fn transaction(self, restart_deadline: bool, pause_us: u32) -> Transaction {
        Transaction {
            split: self.split_token(),
            address: self.address,
            packet: self.packet(),
            restart_deadline,
            pause_us,
        }
    }

    /// The end of an attempt that failed with `e`: a NAK starts the attempt
    /// over, under a fresh deadline, where the stage retries; anything else
    /// ends the stage.
    pub open spec fn attempt_failed(self, e: UsbHostError) -> StageStep {
        if self.retry_nak && e == UsbHostError::NAK {
            StageStep::Next {
                stage: self.restarted(),
                transaction: self.restarted().transaction(true, 0),
            }
        } else {
            StageStep::Finished(Err(e))
        }
    }

    /// The number of bytes that a finished stage reports: what came in, for
    /// an IN stage, and zero otherwise.
    pub open spec fn yield_of(self, n: usize) -> usize {
        if self.kind is In {
            n
        } else {
            0
        }
    }

    /// The stage after a NYET to a complete-split.
    ///
    /// SETUP and OUT repeat the complete-split. IN pauses, and repeats the
    /// complete-split until the fifth NYET in a row; then it goes back to the
    /// start-split, and after the third start-split given up it ends in
    /// STALL.
    pub open spec fn after_nyet(self) -> StageStep {
        if !(self.kind is In) {
            StageStep::Next { stage: self, transaction: self.transaction(false, 0) }
        } else if self.nyets + 1 < CSPLIT_RETRIES {
            let s = Stage { nyets: (self.nyets + 1) as u8, ..self };
            StageStep::Next { stage: s, transaction: s.transaction(false, NYET_PAUSE_US) }
        } else if self.round + 1 < SSPLIT_ROUNDS {
            let s = Stage {
                phase: Phase::StartSplit,
                round: (self.round + 1) as u8,
                nyets: 0,
                ..self
            };
            StageStep::Next { stage: s, transaction: s.transaction(false, NYET_PAUSE_US) }
        } else {
            self.attempt_failed(UsbHostError::STALL)
        }
    }

    /// What the stage does when its transaction ended in `outcome`.
    pub open spec fn after(self, outcome: Outcome) -> StageStep {
        match outcome {
            Outcome::TimedOut => StageStep::Finished(Err(UsbHostError::TransferTimeout)),
            Outcome::SplitFailed(e) => self.attempt_failed(e),
            Outcome::Done(n) => match self.phase {
                Phase::StartSplit => {
                    let s = Stage { phase: Phase::CompleteSplit, nyets: 0, ..self };
                    StageStep::Next { stage: s, transaction: s.transaction(false, 0) }
                },
                _ => StageStep::Finished(Ok(self.yield_of(n))),
            },
            Outcome::Failed(e) => match self.phase {
                Phase::Direct => self.attempt_failed(e),
                Phase::StartSplit => if e == UsbHostError::NAK {
                    StageStep::Next { stage: self, transaction: self.transaction(false, 0) }
                } else {
                    self.attempt_failed(e)
                },
                Phase::CompleteSplit => if e == UsbHostError::NYET {
                    self.after_nyet()
                } else {
                    self.attempt_failed(e)
                },
            },
        }
    }

    /// A stage at the start of its first attempt.
    pub fn new(
        kind: StageKind,
        dev_info: &DevInfo,
        address: u8,
        endpoint: u8,
        endpoint_type: EndpointType,
        tog: DataTog,
        retry_nak: bool,
        buffer: Buffer,
    ) -> (s: Stage)
        requires
            (kind is In && dev_info.transaction_translator() is Some) ==> (endpoint_type is Control
                || endpoint_type is Interrupt),
        ensures
            s.wf(),
            s == Stage::fresh(kind, *dev_info, address, endpoint, endpoint_type, tog, retry_nak, buffer),
    {
        let translator = dev_info.transaction_translator();
        let phase = match translator {
            Some(_) => Phase::StartSplit,
            None => Phase::Direct,
        };
        Stage {
            kind,
            translator,
            speed: dev_info.speed(),
            address,
            endpoint,
            endpoint_type,
            tog,
            retry_nak,
            buffer,
            phase,
            round: 0,
            nyets: 0,
        }
    }

    /// The stage's current transaction.
    pub fn current(&self, restart_deadline: bool, pause_us: u32) -> (t: Transaction)
        ensures
            t == self.transaction(restart_deadline, pause_us),
    {
        let complete = match self.phase {
            Phase::CompleteSplit => true,
            _ => false,
        };
        let split = match self.translator {
            Some((hub, port)) => Some(
                SplitToken {
                    hub_address: hub,
                    complete,
                    port,
                    endpoint_type: self.endpoint_type,
                    speed: self.speed,
                },
            ),
            None => None,
        };
        let packet = match self.kind {
            StageKind::Setup => Packet::Setup { with_request: !complete },
            StageKind::In => match self.phase {
                Phase::Direct => Packet::In {
                    endpoint: self.endpoint,
                    tog: self.tog,
                    wait_for_reply: true,
                    send_ack: true,
                    into: self.buffer,
                },
                Phase::StartSplit => Packet::In {
                    endpoint: self.endpoint,
                    tog: self.tog,
                    wait_for_reply: match self.endpoint_type {
                        EndpointType::Control => true,
                        _ => false,
                    },
                    send_ack: false,
                    into: Buffer::Empty,
                },
                Phase::CompleteSplit => Packet::In {
                    endpoint: self.endpoint,
                    tog: self.tog,
                    wait_for_reply: true,
                    send_ack: false,
                    into: self.buffer,
                },
            },
            StageKind::Out => Packet::Out {
                endpoint: self.endpoint,
                tog: self.tog,
                from: if complete {
                    Buffer::Absent
                } else {
                    self.buffer
                },
            },
        };
        Transaction { split, address: self.address, packet, restart_deadline, pause_us }
    }

    /// Starts the stage: its first transaction, under a fresh deadline.
    pub fn start(&self) -> (t: Transaction)
        ensures
            t == self.transaction(true, 0),
    {
        self.current(true, 0)
    }

    fn fail_attempt(self, e: UsbHostError) -> (r: StageStep)
        requires
            self.wf(),
        ensures
            r == self.attempt_failed(e),
            r matches StageStep::Next { stage, .. } ==> stage.wf(),
    {
        let is_nak = match e {
            UsbHostError::NAK => true,
            _ => false,
        };
        if self.retry_nak && is_nak {
            let phase = match self.translator {
                Some(_) => Phase::StartSplit,
                None => Phase::Direct,
            };
            let stage = Stage { phase, round: 0, nyets: 0, ..self };
            StageStep::Next { stage, transaction: stage.current(true, 0) }
        } else {
            StageStep::Finished(Err(e))
        }
    }

    /// Takes the outcome of the stage's transaction and says what comes next.
    pub fn step(self, outcome: Outcome) -> (r: StageStep)
        requires
            self.wf(),
        ensures
            r == self.after(outcome),
            r matches StageStep::Next { stage, .. } ==> stage.wf(),
    {
        match outcome {
            Outcome::TimedOut => StageStep::Finished(Err(UsbHostError::TransferTimeout)),
            Outcome::SplitFailed(e) => self.fail_attempt(e),
            Outcome::Done(n) => match self.phase {
                Phase::StartSplit => {
                    let stage = Stage { phase: Phase::CompleteSplit, nyets: 0, ..self };
                    StageStep::Next { stage, transaction: stage.current(false, 0) }
                },
                _ => {
                    let got = match self.kind {
                        StageKind::In => n,
                        _ => 0,
                    };
                    StageStep::Finished(Ok(got))
                },
            },
            Outcome::Failed(e) => match self.phase {
                Phase::Direct => self.fail_attempt(e),
                Phase::StartSplit => match e {
                    UsbHostError::NAK => StageStep::Next {
                        stage: self,
                        transaction: self.current(false, 0),
                    },
                    _ => self.fail_attempt(e),
                },
                Phase::CompleteSplit => match e {
                    UsbHostError::NYET => match self.kind {
                        StageKind::In => {
                            if self.nyets + 1 < CSPLIT_RETRIES {
                                let stage = Stage { nyets: self.nyets + 1, ..self };
                                StageStep::Next {
                                    stage,
                                    transaction: stage.current(false, NYET_PAUSE_US),
                                }
                            } else if self.round + 1 < SSPLIT_ROUNDS {
                                let stage = Stage {
                                    phase: Phase::StartSplit,
                                    round: self.round + 1,
                                    nyets: 0,
                                    ..self
                                };
                                StageStep::Next {
                                    stage,
                                    transaction: stage.current(false, NYET_PAUSE_US),
                                }
                            } else {
                                self.fail_attempt(UsbHostError::STALL)
                            }
                        },
                        _ => StageStep::Next { stage: self, transaction: self.current(false, 0) },
                    },
                    _ => self.fail_attempt(e),
                },
            },
        }
    }
}

// ---------------------------------------------------------------------------
// The NYET budget of a split IN stage
// ---------------------------------------------------------------------------

/// The answer of a translator that never has the data: it takes every
/// start-split and answers every complete-split with NYET.
pub open spec fn stubborn_answer(s: Stage) -> Outcome {
    if s.phase is StartSplit {
        Outcome::Done(0)
    } else {
        Outcome::Failed(UsbHostError::NYET)
    }
}

/// Where a stage stands after `n` stubborn answers.
pub open spec fn after_stubborn(s: Stage, n: nat) -> StageStep
    decreases n,
{
    if n == 0 {
        StageStep::Next { stage: s, transaction: s.transaction(false, 0) }
    } else {
        match s.after(stubborn_answer(s)) {
            StageStep::Next { stage, .. } => after_stubborn(stage, (n - 1) as nat),
            StageStep::Finished(r) => StageStep::Finished(r),
        }
    }
}

/// The number of stubborn answers that a split IN stage still takes.
pub open spec fn answers_left(s: Stage) -> nat {
    let rounds_after = (SSPLIT_ROUNDS - 1 - s.round) * (1 + CSPLIT_RETRIES);
    if s.phase is StartSplit {
        (1 + CSPLIT_RETRIES + rounds_after) as nat
    } else {
        (CSPLIT_RETRIES - s.nyets + rounds_after) as nat
    }
}

/// A split IN stage whose translator never has the data comes to an end: each start-split is followed by at most five
/// complete-splits, the third start-split given up ends the stage, and the
/// stage then reports STALL. From its start that takes eighteen
/// transactions, and the stage does not end before.
pub proof fn lemma_stubborn_translator_ends_in_stall(s: Stage, n: nat)
    requires
        s.wf(),
        s.kind is In,
        s.translator is Some,
        n <= answers_left(s),
    ensures
        n == answers_left(s) ==> after_stubborn(s, n) == StageStep::Finished(
            Err::<usize, UsbHostError>(UsbHostError::STALL),
        ),
        n < answers_left(s) ==> after_stubborn(s, n) is Next,
        s.restarted().phase is StartSplit && answers_left(s.restarted()) == 18,
    decreases n,
{
    if n > 0 {
        match s.after(stubborn_answer(s)) {
            StageStep::Next { stage, .. } => {
                assert(stage.wf());
                assert(answers_left(stage) == answers_left(s) - 1);
                lemma_stubborn_translator_ends_in_stall(stage, (n - 1) as nat);
            },
            StageStep::Finished(r) => {
                assert(answers_left(s) == 1);
            },
        }
    }
}

// ---------------------------------------------------------------------------
// Control transfers
// ---------------------------------------------------------------------------

/// The three stages of a control transfer.
#[derive(Clone, Copy, Debug, PartialEq, Eq, Structural)]
pub enum ControlPhase {
    Setup,
    Data,
    Status,
}

/// When the data stage of a control transfer is over.
#[derive(Clone, Copy, Debug, PartialEq, Eq, Structural)]
pub enum DataPolicy {
    /// With the first packet shorter than the maximum packet size of
    /// endpoint zero.
    ShortPacket,
    /// Once that many bytes have come in, and not before one packet has.
    AtLeast(usize),
}

/// A control transfer in flight.
#[derive(Clone, Copy, Debug, PartialEq, Eq)]
pub struct ControlTransfer {
    pub dev_info: DevInfo,
    pub address: u8,
    pub max_packet_size: u16,
    /// The request, whose eight bytes the SETUP packet carries.
    pub request: Request,
    /// The size of the caller's buffer.
    pub capacity: usize,
    pub policy: DataPolicy,
    pub phase: ControlPhase,
    pub stage: Stage,
    pub bytes_received: usize,
    /// The toggle of the data stage under way, or of the next one.
    pub tog: DataTog,
}

/// What a transfer does next.
#[derive(Clone, Copy, Debug, PartialEq, Eq)]
pub enum TransferStep {
    /// Perform this transaction and report its outcome.
    Next(Transaction),
    /// The transfer is over; on success, with the number of bytes received.
    Finished(Result<usize, UsbHostError>),
}

impl ControlTransfer {
    /// The SETUP stage, repeated on NAK.
    pub open spec fn setup_stage(self) -> Stage {
        Stage::fresh(
            StageKind::Setup,
            self.dev_info,
            self.address,
            0,
            EndpointType::Control,
            DataTog::DATA0,
            true,
            Buffer::Absent,
        )
    }

    /// A data stage: an IN on endpoint zero into the buffer from `offset`
    /// on, repeated on NAK.
    pub open spec fn data_stage(self, tog: DataTog, offset: usize) -> Stage {
        Stage::fresh(
            StageKind::In,
            self.dev_info,
            self.address,
            0,
            EndpointType::Control,
            tog,
            true,
            Buffer::Data { offset },
        )
    }

    /// The status stage: an empty packet against the direction of the data
    /// stage, always DATA1, repeated on NAK.
    pub open spec fn status_stage(self) -> Stage {
        Stage::fresh(
            if self.request.request_type.direction() is HostToDevice {
                StageKind::In
            } else {
                StageKind::Out
            },
            self.dev_info,
            self.address,
            0,
            EndpointType::Control,
            DataTog::DATA1,
            true,
            Buffer::Empty,
        )
    }

    /// Whether a data stage that brought `n` more bytes was the last.
    pub open spec fn data_over(self, n: usize) -> bool {
        match self.policy {
            DataPolicy::ShortPacket => n < self.max_packet_size,
            DataPolicy::AtLeast(k) => self.bytes_received + n >= k,
        }
    }

    /// The transfer at the start of its SETUP stage.
    pub open spec fn fresh(
        dev_info: DevInfo,
        address: u8,
        max_packet_size: u16,
        request: Request,
        capacity: usize,
        policy: DataPolicy,
    ) -> ControlTransfer {
        let c = ControlTransfer {
            dev_info,
            address,
            max_packet_size,
            request,
            capacity,
            policy,
            phase: ControlPhase::Setup,
            stage: arbitrary(),
            bytes_received: 0,
            tog: DataTog::DATA1,
        };
        ControlTransfer { stage: c.setup_stage(), ..c }
    }

    /// The transfer never asks for a data stage towards the device, and what
    /// it has received fits the buffer.
    pub open spec fn wf(self) -> bool {
        &&& self.stage.wf()
        &&& self.bytes_received <= self.capacity
        &&& self.request.length > 0 ==> self.request.request_type.direction() is DeviceToHost
        &&& self.phase is Setup ==> self.stage == self.setup_stage().restarted_like(self.stage)
            && self.bytes_received == 0
        &&& self.phase is Data ==> self.stage == self.data_stage(
            self.tog,
            self.bytes_received,
        ).restarted_like(self.stage)
        &&& self.phase is Status ==> self.stage == self.status_stage().restarted_like(self.stage)
    }

    /// Whether the transaction under way fills the caller's buffer.
    pub open spec fn filling(self) -> bool {
        self.phase is Data && !(self.stage.phase is StartSplit)
    }

    /// The transfer once a stage has ended well, with `n` bytes.
    pub open spec fn stage_done(self, n: usize) -> (ControlTransfer, TransferStep) {
        match self.phase {
            ControlPhase::Setup => if self.request.length > 0 {
                let c = ControlTransfer {
                    phase: ControlPhase::Data,
                    tog: DataTog::DATA1,
                    stage: self.data_stage(DataTog::DATA1, 0),
                    ..self
                };
                (c, TransferStep::Next(c.stage.transaction(true, 0)))
            } else {
                let c = ControlTransfer {
                    phase: ControlPhase::Status,
                    stage: self.status_stage(),
                    ..self
                };
                (c, TransferStep::Next(c.stage.transaction(true, 0)))
            },
            ControlPhase::Data => {
                let received = (self.bytes_received + n) as usize;
                if self.data_over(n) {
                    let c = ControlTransfer {
                        phase: ControlPhase::Status,
                        stage: self.status_stage(),
                        bytes_received: received,
                        tog: self.tog.flipped(),
                        ..self
                    };
                    (c, TransferStep::Next(c.stage.transaction(true, 0)))
                } else {
                    let c = ControlTransfer {
                        stage: self.data_stage(self.tog.flipped(), received),
                        bytes_received: received,
                        tog: self.tog.flipped(),
                        ..self
                    };
                    (c, TransferStep::Next(c.stage.transaction(true, 0)))
                }
            },
            ControlPhase::Status => (self, TransferStep::Finished(Ok(self.bytes_received))),
        }
    }

    /// The transfer after its transaction ended in `outcome`, and what it
    /// does next. A stage that fails ends the transfer with its error.
    pub open spec fn after(self, outcome: Outcome) -> (ControlTransfer, TransferStep) {
        match self.stage.after(outcome) {
            StageStep::Next { stage, transaction } => (
                ControlTransfer { stage, ..self },
                TransferStep::Next(transaction),
            ),
            StageStep::Finished(Err(e)) => (self, TransferStep::Finished(Err(e))),
            StageStep::Finished(Ok(n)) => self.stage_done(n),
        }
    }

    /// Starts a control transfer: the transfer and its first transaction,
    /// the SETUP.
    pub fn begin(
        dev_info: DevInfo,
        address: u8,
        max_packet_size: u16,
        request: &Request,
        capacity: usize,
        policy: DataPolicy,
    ) -> (r: (ControlTransfer, Transaction))
        requires
            request.length > 0 ==> request.request_type.direction() is DeviceToHost,
        ensures
            r.0 == ControlTransfer::fresh(
                dev_info,
                address,
                max_packet_size,
                *request,
                capacity,
                policy,
            ),
            r.1 == r.0.stage.transaction(true, 0),
            r.0.wf(),
    {
        let stage = Stage::new(
            StageKind::Setup,
            &dev_info,
            address,
            0,
            EndpointType::Control,
            DataTog::DATA0,
            true,
            Buffer::Absent,
        );
        let c = ControlTransfer {
            dev_info,
            address,
            max_packet_size,
            request: *request,
            capacity,
            policy,
            phase: ControlPhase::Setup,
            stage,
            bytes_received: 0,
            tog: DataTog::DATA1,
        };
        (c, stage.start())
    }

    fn enter_status(&mut self) -> (t: TransferStep)
        requires
            old(self).stage.wf(),
            old(self).bytes_received <= old(self).capacity,
            old(self).request.length > 0 ==> old(self).request.request_type.direction() is DeviceToHost,
        ensures
            *final(self) == (ControlTransfer {
                phase: ControlPhase::Status,
                stage: old(self).status_stage(),
                ..*old(self)
            }),
            t == TransferStep::Next(final(self).stage.transaction(true, 0)),
            final(self).wf(),
    {
        let kind = match self.request.request_type.data_direction() {
            RequestTypeDirection::HostToDevice => StageKind::In,
            RequestTypeDirection::DeviceToHost => StageKind::Out,
        };
        let stage = Stage::new(
            kind,
            &self.dev_info,
            self.address,
            0,
            EndpointType::Control,
            DataTog::DATA1,
            true,
            Buffer::Empty,
        );
        self.phase = ControlPhase::Status;
        self.stage = stage;
        TransferStep::Next(stage.start())
    }

    fn enter_data(&mut self)-> (t: TransferStep)
        requires
            old(self).stage.wf(),
            old(self).bytes_received <= old(self).capacity,
            old(self).request.length > 0 ==> old(self).request.request_type.direction() is DeviceToHost,
        ensures
            *final(self) == (ControlTransfer {
                phase: ControlPhase::Data,
                stage: old(self).data_stage(old(self).tog, old(self).bytes_received),
                ..*old(self)
            }),
            t == TransferStep::Next(final(self).stage.transaction(true, 0)),
            final(self).wf(),
    {
        let stage = Stage::new(
            StageKind::In,
            &self.dev_info,
            self.address,
            0,
            EndpointType::Control,
            self.tog,
            true,
            Buffer::Data { offset: self.bytes_received },
        );
        self.phase = ControlPhase::Data;
        self.stage = stage;
        TransferStep::Next(stage.start())
    }

    /// Takes the outcome of the transfer's transaction and says what comes
    /// next. An IN transaction that fills the buffer must not report more
    /// bytes than the buffer had room for.
    pub fn step(&mut self, outcome: Outcome) -> (t: TransferStep)
        requires
            old(self).wf(),
            outcome matches Outcome::Done(n) ==> (old(self).filling() ==> old(self).bytes_received
                + n <= old(self).capacity),
        ensures
            (*final(self), t) == old(self).after(outcome),
            final(self).wf(),
    {
        match self.stage.step(outcome) {
            StageStep::Next { stage, transaction } => {
                self.stage = stage;
                TransferStep::Next(transaction)
            },
            StageStep::Finished(Err(e)) => TransferStep::Finished(Err(e)),
            StageStep::Finished(Ok(n)) => match self.phase {
                ControlPhase::Setup => {
                    if self.request.length > 0 {
                        self.tog = DataTog::DATA1;
                        self.enter_data()
                    } else {
                        self.enter_status()
                    }
                },
                ControlPhase::Data => {
                    let over = match self.policy {
                        DataPolicy::ShortPacket => n < self.max_packet_size as usize,
                        DataPolicy::AtLeast(k) => self.bytes_received + n >= k,
                    };
                    self.bytes_received = self.bytes_received + n;
                    self.tog.next();
                    if over {
                        self.enter_status()
                    } else {
                        self.enter_data()
                    }
                },
                ControlPhase::Status => TransferStep::Finished(Ok(self.bytes_received)),
            },
        }
    }
}

/// The toggle of the `k`-th data packet of a control transfer, counting
/// from zero: DATA1, DATA0, DATA1, and so on.
pub open spec fn data_toggle(k: nat) -> DataTog {
    if k % 2 == 0 {
        DataTog::DATA1
    } else {
        DataTog::DATA0
    }
}

/// The toggles of a control transfer. The first data stage uses DATA1.
/// A retry inside a stage keeps the stage's toggle. A data stage that ends
/// well is followed by a data stage with the other toggle, or by the status
/// stage; and the status stage, however it is reached, uses DATA1.
pub proof fn lemma_control_toggles(c: ControlTransfer, outcome: Outcome, k: nat)
    requires
        c.wf(),
        c.phase is Data ==> c.tog == data_toggle(k),
    ensures
        c.stage.after(outcome) matches StageStep::Next { stage, .. } ==> stage.tog == c.stage.tog
            && c.after(outcome).0.phase == c.phase && c.after(outcome).0.tog == c.tog,
        c.after(outcome).0.phase is Status ==> c.after(outcome).0.stage.tog == DataTog::DATA1,
        (c.phase is Setup && c.after(outcome).0.phase is Data) ==> c.after(outcome).0.stage.tog
            == data_toggle(0),
        (c.phase is Data && c.stage.after(outcome) is Finished && c.stage.after(outcome)->Finished_0
            is Ok && c.after(outcome).0.phase is Data) ==> c.after(outcome).0.stage.tog
            == data_toggle(k + 1) && c.after(outcome).0.tog == data_toggle(k + 1),
        c.after(outcome).1 matches TransferStep::Next(t) ==> t.packet == c.after(outcome).0.stage.packet(),
{
}

/// A control transfer never ends in NAK: each of its stages starts over when
/// the device has nothing to say.
pub proof fn lemma_control_never_reports_nak(c: ControlTransfer, outcome: Outcome)
    requires
        c.wf(),
    ensures
        c.after(outcome).1 != TransferStep::Finished(Err(UsbHostError::NAK)),
{
}

// ---------------------------------------------------------------------------
// The engine
// ---------------------------------------------------------------------------

/// The number of bytes of a device descriptor.
pub const DEVICE_DESCRIPTOR_LEN: usize = 18;

/// The transfer engine's own state: the address table. One engine serves
/// one hardware pipe, and whoever holds it holds the pipe's lock.
pub struct USBHostPipe<const NR_DEVICES: usize> {
    address_alloc: DeviceAddressManager<NR_DEVICES>,
}

impl<const NR_DEVICES: usize> USBHostPipe<NR_DEVICES> {
    /// The address table, slot by slot.
    pub closed spec fn addresses(&self) -> Seq<PortInfo> {
        self.address_alloc@
    }

    /// The address table has one slot per address.
    pub proof fn lemma_len(&self)
        ensures
            self.addresses().len() == NR_DEVICES,
    {
        self.address_alloc.lemma_len();
    }

    /// An engine with no device addressed.
    pub fn new() -> (p: Self)
        ensures
            p.addresses().len() == NR_DEVICES,
            forall|i: int| 0 <= i < NR_DEVICES ==> p.addresses()[i] == PortInfo::blank(),
            rooted(p.addresses()),
    {
        USBHostPipe { address_alloc: DeviceAddressManager::new() }
    }

    /// Whether an address is left for a new device.
    pub fn has_free_address(&self) -> (r: bool)
        ensures
            r == has_free(self.addresses()),
    {
        self.address_alloc.has_free_address()
    }

    /// Whether the table is in a state in which `dev_detach` may be asked to
    /// free the device on `port_info`.
    pub fn can_detach(&self, port_info: PortInfo) -> (r: bool)
        ensures
            r == (links_in_table(self.addresses()) && forall|n: int| #[trigger]
                is_first_match(self.addresses(), port_info, n) ==> !self.addresses()[n].empty()),
    {
        self.address_alloc.accepts_free_subtree(port_info)
    }

    /// Starts a control transfer to an addressed device. `capacity` is the
    /// size of the buffer for the data stage.
    pub fn control_transfer(&self, device_handle: DeviceHandle, request: &Request, capacity: usize) -> (r:
        (ControlTransfer, Transaction))
        requires
            capacity >= request.length,
            request.length > 0 ==> request.request_type.direction() is DeviceToHost,
        ensures
            r.0 == ControlTransfer::fresh(
                device_handle.dev_info(),
                device_handle.address(),
                device_handle.max_packet_size(),
                *request,
                capacity,
                DataPolicy::ShortPacket,
            ),
            r.1 == r.0.stage.transaction(true, 0),
            r.0.wf(),
    {
        ControlTransfer::begin(
            device_handle.dev_info(),
            device_handle.address(),
            device_handle.max_packet_size(),
            request,
            capacity,
            DataPolicy::ShortPacket,
        )
    }

    /// The stage of an interrupt transfer on `channel`: one IN or OUT with
    /// the channel's toggle, not repeated on NAK.
    pub open spec fn interrupt_stage(channel: InterruptChannel) -> Stage {
        Stage::fresh(
            if channel.endpoint_address().direction is In {
                StageKind::In
            } else {
                StageKind::Out
            },
            channel.device_handle().dev_info(),
            channel.device_handle().address(),
            channel.endpoint_address().number,
            EndpointType::Interrupt,
            channel.tog(),
            false,
            Buffer::Data { offset: 0 },
        )
    }

    /// Starts an interrupt transfer. The stage that comes back is stepped
    /// until it finishes, and its result goes to `interrupt_transfer_done`.
    pub fn interrupt_transfer(&self, interrupt_channel: &InterruptChannel) -> (r: (Stage, Transaction))
        ensures
            r.0 == Self::interrupt_stage(*interrupt_channel),
            r.1 == r.0.transaction(true, 0),
            r.0.wf(),
    {
        let kind = match interrupt_channel.endpoint_address().direction {
            EndpointDirection::In => StageKind::In,
            EndpointDirection::Out => StageKind::Out,
        };
        let stage = Stage::new(
            kind,
            &interrupt_channel.device_handle().dev_info(),
            interrupt_channel.device_handle().address(),
            interrupt_channel.endpoint_address().number,
            EndpointType::Interrupt,
            interrupt_channel.tog(),
            false,
            Buffer::Data { offset: 0 },
        );
        (stage, stage.start())
    }

    /// Ends an interrupt transfer: the channel's toggle flips if the
    /// transfer succeeded, and only then.
    pub fn interrupt_transfer_done(
        &self,
        interrupt_channel: &mut InterruptChannel,
        result: Result<usize, UsbHostError>,
    ) -> (r: Result<usize, UsbHostError>)
        ensures
            r == result,
            final(interrupt_channel).tog() == (if result is Ok {
                old(interrupt_channel).tog().flipped()
            } else {
                old(interrupt_channel).tog()
            }),
            final(interrupt_channel).device_handle() == old(interrupt_channel).device_handle(),
            final(interrupt_channel).endpoint_address() == old(interrupt_channel).endpoint_address(),
    {
        match result {
            Ok(n) => {
                interrupt_channel.advance();
                Ok(n)
            },
            Err(e) => Err(e),
        }
    }

    /// Set_Address carrying `address`.
    pub open spec fn set_address_request(address: u8) -> Request {
        Request::made(
            RequestTypeDirection::HostToDevice,
            RequestTypeType::Standard,
            RequestTypeRecipient::Device,
            StandardDeviceRequest::SetAddress,
            address as u16,
            0,
            0,
        )
    }

    /// The request that reads the device descriptor: Get_Descriptor(Device)
    /// with a length of 64.
    pub fn device_descriptor_request() -> (r: Request)
        ensures
            r == Request::made(
                RequestTypeDirection::DeviceToHost,
                RequestTypeType::Standard,
                RequestTypeRecipient::Device,
                StandardDeviceRequest::GetDescriptor,
                0x100,
                0,
                64,
            ),
            r.request_type.direction() is DeviceToHost,
            r.request_type.category_bits() == 0,
            r.request_type.recipient_bits() == 0,
            r.request == 6,
            r.value == 0x100,
            r.index == 0,
            r.length == 64,
    {
        Request::get_descriptor(1, RequestTypeType::Standard, 0, 0, 64)
    }

    /// Starts reading the device descriptor of a device that has no address
    /// yet: a control transfer to address 0 whose data stage goes on until
    /// the 18 bytes of the descriptor are in.
    pub fn get_device_descriptor(&self, dev_info: &DevInfo) -> (r: (ControlTransfer, Transaction))
        ensures
            r.0 == ControlTransfer::fresh(
                *dev_info,
                0,
                0,
                Request::made(
                    RequestTypeDirection::DeviceToHost,
                    RequestTypeType::Standard,
                    RequestTypeRecipient::Device,
                    StandardDeviceRequest::GetDescriptor,
                    0x100,
                    0,
                    64,
                ),
                DEVICE_DESCRIPTOR_LEN,
                DataPolicy::AtLeast(DEVICE_DESCRIPTOR_LEN),
            ),
            r.1 == r.0.stage.transaction(true, 0),
            r.0.wf(),
    {
        let request = Self::device_descriptor_request();
        ControlTransfer::begin(
            *dev_info,
            0,
            0,
            &request,
            DEVICE_DESCRIPTOR_LEN,
            DataPolicy::AtLeast(DEVICE_DESCRIPTOR_LEN),
        )
    }

    /// Reserves the lowest free address for a device and starts the
    /// Set_Address transfer that tells the device: a control transfer to
    /// address 0 that carries the new address and has no data stage.
    pub fn assign_device_address(&mut self, max_packet_size: u16, devinfo: DevInfo) -> (r: (
        DeviceHandle,
        ControlTransfer,
        Transaction,
    ))
        requires
            NR_DEVICES <= 127,
            has_free(old(self).addresses()),
            !devinfo.port().empty(),
        ensures
            1 <= r.0.address() <= NR_DEVICES,
            is_first_free(old(self).addresses(), r.0.address() - 1),
            final(self).addresses() == old(self).addresses().update(
                r.0.address() - 1,
                devinfo.port(),
            ),
            r.0.max_packet_size() == max_packet_size,
            r.0.dev_info() == devinfo,
            rooted(old(self).addresses()) && (devinfo.port().parent() == 0 || live_slot(
                old(self).addresses(),
                devinfo.port().parent() - 1,
            )) ==> rooted(final(self).addresses()),
            r.1 == ControlTransfer::fresh(
                devinfo,
                0,
                max_packet_size,
                Self::set_address_request(r.0.address()),
                0,
                DataPolicy::ShortPacket,
            ),
            r.2 == r.1.stage.transaction(true, 0),
            r.1.wf(),
    {
        let handle = self.address_alloc.alloc_device_address(max_packet_size, devinfo);
        let request = Request::set_address(handle.address());
        let (transfer, first) = ControlTransfer::begin(
            devinfo,
            0,
            max_packet_size,
            &request,
            0,
            DataPolicy::ShortPacket,
        );
        (handle, transfer, first)
    }

    /// Ends the assignment of an address: if the Set_Address transfer
    /// failed, the address goes back to the table and the error is passed
    /// on.
    pub fn address_assigned(&mut self, handle: DeviceHandle, result: Result<usize, UsbHostError>) -> (r:
        Result<DeviceHandle, UsbHostError>)
        requires
            1 <= handle.address() <= NR_DEVICES,
            !old(self).addresses()[handle.address() - 1].empty(),
        ensures
            match result {
                Ok(_) => r == Ok::<DeviceHandle, UsbHostError>(handle) && final(self).addresses() == old(self).addresses(),
                Err(e) => r == Err::<DeviceHandle, UsbHostError>(e) && final(self).addresses() == old(self).addresses().update(handle.address() - 1, PortInfo::blank()),
            },
    {
        match result {
            Ok(_) => Ok(handle),
            Err(e) => {
                self.address_alloc.free_address(handle);
                Err(e)
            },
        }
    }

    /// Goes on with the attachment of a device once its device descriptor
    /// has been read into `buffer`: decodes the descriptor, reserves an
    /// address and starts the Set_Address transfer.
    ///
    /// A buffer that does not parse is reported with the parser's error, and
    /// a record that is no device descriptor as an invalid response; no
    /// address is taken then.
    pub fn dev_attach(&mut self, dev_info: DevInfo, buffer: &[u8]) -> (r: Result<
        (DeviceDescriptor, DeviceHandle, ControlTransfer, Transaction),
        UsbHostError,
    >)
        requires
            NR_DEVICES <= 127,
            has_free(old(self).addresses()),
            !dev_info.port().empty(),
        ensures
            match r {
                Ok((descriptor, handle, transfer, first)) => {
                    &&& parse_failure(buffer@) is None
                    &&& buffer@[1] == 1
                    &&& descriptor == device_of(buffer@)
                    &&& is_first_free(old(self).addresses(), handle.address() - 1)
                    &&& final(self).addresses() == old(self).addresses().update(
                        handle.address() - 1,
                        dev_info.port(),
                    )
                    &&& handle.max_packet_size() == descriptor.max_packet_size
                    &&& handle.dev_info() == dev_info
                    &&& rooted(old(self).addresses()) && (dev_info.port().parent() == 0 || live_slot(
                        old(self).addresses(),
                        dev_info.port().parent() - 1,
                    )) ==> rooted(final(self).addresses())
                    &&& transfer == ControlTransfer::fresh(
                        dev_info,
                        0,
                        descriptor.max_packet_size as u16,
                        Self::set_address_request(handle.address()),
                        0,
                        DataPolicy::ShortPacket,
                    )
                    &&& first == transfer.stage.transaction(true, 0)
                    &&& transfer.wf()
                },
                Err(e) => {
                    &&& final(self).addresses() == old(self).addresses()
                    &&& match parse_failure(buffer@) {
                        Some(p) => e == UsbHostError::ParsingError(p),
                        None => e == UsbHostError::InvalidResponse && buffer@[1] != 1,
                    }
                },
            },
    {
        let descriptor = match parse_descriptor(buffer) {
            Ok((record, _)) => match record.device() {
                Some(d) => d,
                None => {
                    return Err(UsbHostError::InvalidResponse);
                },
            },
            Err(e) => {
                return Err(e);
            },
        };
        let (handle, transfer, first) = self.assign_device_address(
            descriptor.max_packet_size as u16,
            dev_info,
        );
        Ok((descriptor, handle, transfer, first))
    }

    /// The root port has lost its device: every address is given back.
    pub fn root_detach(&mut self) -> (mask: DeviceDisconnectMask)
        requires
            NR_DEVICES <= 127,
        ensures
            forall|a: int|
                mask@.contains(a) <==> 1 <= a <= NR_DEVICES && live_slot(old(self).addresses(), a - 1),
            final(self).addresses().len() == NR_DEVICES,
            forall|i: int| 0 <= i < NR_DEVICES ==> !live_slot(final(self).addresses(), i),
            only_freed(old(self).addresses(), final(self).addresses()),
            rooted(final(self).addresses()),
    {
        self.address_alloc.free_all_addresses()
    }

    /// A hub port has lost its device: the device and everything below it
    /// give their addresses back.
    pub fn dev_detach(&mut self, port_info: PortInfo) -> (mask: DeviceDisconnectMask)
        requires
            NR_DEVICES <= 127,
            links_in_table(old(self).addresses()),
            forall|n: int| #[trigger]
                is_first_match(old(self).addresses(), port_info, n) ==> !old(self).addresses()[n].empty(),
        ensures
            only_freed(old(self).addresses(), final(self).addresses()),
            links_in_table(final(self).addresses()),
            no_match(old(self).addresses(), port_info) ==> mask@ == Set::<int>::empty() && final(self).addresses() == old(self).addresses(),
            forall|n: int| #[trigger]
                is_first_match(old(self).addresses(), port_info, n) ==> {
                    &&& final(self).addresses() == without_subtree(old(self).addresses(), n)
                    &&& forall|a: int|
                        mask@.contains(a) <==> 1 <= a <= NR_DEVICES && freed_with(
                            old(self).addresses(),
                            n,
                            a - 1,
                        )
                },
    {
        self.address_alloc.free_subtree(port_info)
    }
}

} // verus!

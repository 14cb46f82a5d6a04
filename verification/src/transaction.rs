//! One request and its response, as a state machine.
//!
//! The engine does no I/O. A [`Transaction`] says what to do next (send
//! these bytes, read this many) and is told what happened (an [`Event`]);
//! it ends with the payload or with the error that the exchange met.

use crate::bits::word;
use crate::frame::{
    decode_mbap_header, mbap_fields, parse_mbap_header, parse_rtu_frame, parse_tcp_frame,
    rtu_frame, rtu_frame_bytes, rtu_unframe, tcp_frame, tcp_frame_bytes, tcp_unframe,
    MBAP_HEADER_LEN,
};
use crate::model::ModbusError;
use crate::pdu::{
    decode_response, encode_request, parse_response, request_bytes, response_len,
    response_pdu_len, Request, RequestView, Response, ResponseView,
};
use vstd::prelude::*;

verus! {

/// Number of bytes that open an RTU response and decide its length: the
/// unit address and the function code.
pub const RTU_HEADER_LEN: usize = 2;

/// Number of bytes that follow the opening of an RTU exception response:
/// the exception code and the CRC.
pub const RTU_EXCEPTION_REST: usize = 3;

/// How frames are delimited on the transport.
#[derive(Clone, Copy, Debug, PartialEq, Eq, Structural)]
pub enum Framing {
    /// MBAP header over TCP.
    Tcp,
    /// Unit address and CRC-16 on a serial line.
    Rtu,
}

/// Where a transaction stands.
#[derive(Clone, Copy, Debug, PartialEq, Eq, Structural)]
pub enum Phase {
    /// The request frame is to be sent.
    Sending,
    /// The opening bytes of the response are awaited.
    AwaitingHeader,
    /// The rest of the response is awaited.
    AwaitingBody,
}

/// What the transport reports back to a transaction.
#[derive(Clone, Debug, PartialEq, Eq)]
pub enum Event {
    /// The frame was sent in full.
    Sent,
    /// The bytes asked for have arrived.
    Received(Vec<u8>),
    /// The deadline passed before the transport was done.
    TimedOut,
    /// The connection was refused or reset, or I/O failed.
    Failed,
}

/// The mathematical value of an [`Event`].
pub enum EventView {
    Sent,
    Received(Seq<u8>),
    TimedOut,
    Failed,
}

impl View for Event {
    type V = EventView;

    open spec fn view(&self) -> EventView {
        match *self {
            Event::Sent => EventView::Sent,
            Event::Received(bytes) => EventView::Received(bytes@),
            Event::TimedOut => EventView::TimedOut,
            Event::Failed => EventView::Failed,
        }
    }
}

/// A request in flight.
#[derive(Debug, PartialEq, Eq)]
pub struct Transaction {
    framing: Framing,
    transaction_id: u16,
    unit_id: u8,
    request: Request,
    retries_left: u8,
    timeout_ms: u64,
    phase: Phase,
    head: Vec<u8>,
}

/// The mathematical value of a [`Transaction`].
pub struct TransactionView {
    pub framing: Framing,
    /// The identifier that a TCP response must carry.
    pub transaction_id: u16,
    /// The device that is asked.
    pub unit_id: u8,
    pub request: RequestView,
    /// How many more times the request may be sent after a timeout.
    pub retries_left: u8,
    /// The deadline for each read, in milliseconds.
    pub timeout_ms: u64,
    pub phase: Phase,
    /// The opening bytes of the response, once they have arrived.
    pub head: Seq<u8>,
}

/// What a transaction asks of the transport next, or how it ended.
#[derive(Debug, PartialEq, Eq)]
pub enum Step {
    /// Send the transaction's frame, then report `Sent`.
    Send(Transaction),
    /// Read exactly this many bytes, then report them as `Received`.
    Receive(Transaction, usize),
    /// The exchange is over.
    Done(Result<Response, ModbusError>),
}

/// The mathematical value of a [`Step`].
pub enum StepView {
    Send(TransactionView),
    Receive(TransactionView, nat),
    Done(Result<ResponseView, ModbusError>),
}

/// The mathematical value of the outcome of an exchange.
pub open spec fn outcome_view(outcome: Result<Response, ModbusError>) -> Result<
    ResponseView,
    ModbusError,
> {
    match outcome {
        Ok(response) => Ok(response@),
        Err(e) => Err(e),
    }
}

impl View for Transaction {
    type V = TransactionView;

    closed spec fn view(&self) -> TransactionView {
        TransactionView {
            framing: self.framing,
            transaction_id: self.transaction_id,
            unit_id: self.unit_id,
            request: self.request@,
            retries_left: self.retries_left,
            timeout_ms: self.timeout_ms,
            phase: self.phase,
            head: self.head@,
        }
    }
}

impl View for Step {
    type V = StepView;

    open spec fn view(&self) -> StepView {
        match *self {
            Step::Send(transaction) => StepView::Send(transaction@),
            Step::Receive(transaction, count) => StepView::Receive(transaction@, count as nat),
            Step::Done(outcome) => StepView::Done(outcome_view(outcome)),
        }
    }
}

/// The frame that carries a PDU to or from a unit.
pub open spec fn frame_bytes(framing: Framing, transaction_id: u16, unit_id: u8, pdu: Seq<u8>) -> Seq<
    u8,
> {
    match framing {
        Framing::Tcp => tcp_frame_bytes(transaction_id, unit_id, pdu),
        Framing::Rtu => rtu_frame_bytes(unit_id, pdu),
    }
}

/// The frame that carries a request to a unit.
pub open spec fn request_frame(
    framing: Framing,
    transaction_id: u16,
    unit_id: u8,
    request: RequestView,
) -> Seq<u8> {
    frame_bytes(framing, transaction_id, unit_id, request_bytes(request))
}

/// What a complete response frame says in answer to a request.
///
/// Over TCP the transaction identifier is looked at first: a frame that
/// carries another one is a `TransactionMismatch` whatever else it holds.
/// On a serial line the CRC is checked first, then the unit address. Only
/// a frame that passes is decoded.
pub open spec fn accept_frame(
    framing: Framing,
    transaction_id: u16,
    unit_id: u8,
    request: RequestView,
    frame: Seq<u8>,
) -> Result<ResponseView, ModbusError> {
    match framing {
        Framing::Tcp => if frame.len() < MBAP_HEADER_LEN {
            Err(ModbusError::MalformedFrame)
        } else if mbap_fields(frame).transaction_id != transaction_id {
            Err(ModbusError::TransactionMismatch)
        } else {
            match parse_tcp_frame(frame) {
                Ok((_, pdu)) => parse_response(request, pdu),
                Err(e) => Err(e),
            }
        },
        Framing::Rtu => match parse_rtu_frame(frame) {
            Ok((unit, pdu)) => if unit == unit_id {
                parse_response(request, pdu)
            } else {
                Err(ModbusError::MalformedFrame)
            },
            Err(e) => Err(e),
        },
    }
}

impl TransactionView {
    /// The bytes to send for this transaction.
    pub open spec fn frame(self) -> Seq<u8> {
        request_frame(self.framing, self.transaction_id, self.unit_id, self.request)
    }

    /// Number of bytes that open a response.
    pub open spec fn header_len(self) -> nat {
        match self.framing {
            Framing::Tcp => MBAP_HEADER_LEN as nat,
            Framing::Rtu => RTU_HEADER_LEN as nat,
        }
    }

    /// What a complete response frame says in answer to this transaction.
    pub open spec fn accept(self, frame: Seq<u8>) -> Result<ResponseView, ModbusError> {
        accept_frame(self.framing, self.transaction_id, self.unit_id, self.request, frame)
    }

    /// The transaction as it starts over after a timeout.
    pub open spec fn retried(self) -> TransactionView {
        TransactionView {
            retries_left: (self.retries_left - 1) as u8,
            phase: Phase::Sending,
            head: Seq::empty(),
            ..self
        }
    }

    /// The transaction with the opening bytes of the response kept.
    pub open spec fn with_head(self, head: Seq<u8>) -> TransactionView {
        TransactionView { phase: Phase::AwaitingBody, head, ..self }
    }

    /// What the opening bytes of a response decide.
    ///
    /// Over TCP they are the MBAP header: a wrong transaction identifier
    /// ends the exchange with `TransactionMismatch`, an unacceptable header
    /// with `MalformedFrame`, and else the length field says how much
    /// follows. On a serial line they are the unit address and the function
    /// code: the request's own code is followed by the response that the
    /// request calls for, the code with its high bit set by an exception
    /// code, each with a CRC; another address is a `MalformedFrame`, another
    /// code an `UnexpectedFunctionCode`.
    pub open spec fn on_header(self, bytes: Seq<u8>) -> StepView {
        let code = self.request.function().spec_code();
        if bytes.len() != self.header_len() {
            StepView::Done(Err(ModbusError::MalformedFrame))
        } else if self.framing == Framing::Tcp {
            if mbap_fields(bytes).transaction_id != self.transaction_id {
                StepView::Done(Err(ModbusError::TransactionMismatch))
            } else if parse_mbap_header(bytes).is_err() {
                StepView::Done(Err(ModbusError::MalformedFrame))
            } else {
                StepView::Receive(self.with_head(bytes), (mbap_fields(bytes).length - 1) as nat)
            }
        } else {
            if bytes[0] != self.unit_id {
                StepView::Done(Err(ModbusError::MalformedFrame))
            } else if bytes[1] == code {
                StepView::Receive(self.with_head(bytes), response_len(self.request) + 1)
            } else if bytes[1] == code + 0x80 {
                StepView::Receive(self.with_head(bytes), RTU_EXCEPTION_REST as nat)
            } else {
                StepView::Done(Err(ModbusError::UnexpectedFunctionCode))
            }
        }
    }

    /// The transition function of a transaction.
    ///
    /// A failure of the transport ends the exchange with `TransportError`,
    /// and so does a report that does not fit the phase. A timeout sends
    /// the request again while retries are left and ends the exchange with
    /// `TimeoutError` when none is. Bytes that arrive are never a reason to
    /// send again: the opening bytes decide how much follows, and the
    /// complete frame decides the outcome.
    pub open spec fn step(self, event: EventView) -> StepView {
        match event {
            EventView::Failed => StepView::Done(Err(ModbusError::TransportError)),
            EventView::TimedOut => if self.retries_left > 0 {
                StepView::Send(self.retried())
            } else {
                StepView::Done(Err(ModbusError::TimeoutError))
            },
            EventView::Sent => if self.phase == Phase::Sending {
                StepView::Receive(
                    TransactionView { phase: Phase::AwaitingHeader, ..self },
                    self.header_len(),
                )
            } else {
                StepView::Done(Err(ModbusError::TransportError))
            },
            EventView::Received(bytes) => match self.phase {
                Phase::Sending => StepView::Done(Err(ModbusError::TransportError)),
                Phase::AwaitingHeader => self.on_header(bytes),
                Phase::AwaitingBody => StepView::Done(self.accept(self.head + bytes)),
            },
        }
    }
}

/// Frames the PDU of a valid request for the transport.
pub fn frame_request(framing: Framing, transaction_id: u16, unit_id: u8, request: &Request) -> (frame:
    Vec<u8>)
    requires
        request@.valid(),
    ensures
        frame@ == request_frame(framing, transaction_id, unit_id, request@),
{
    let pdu = encode_request(request);
    match framing {
        Framing::Tcp => tcp_frame(transaction_id, unit_id, pdu.as_slice()),
        Framing::Rtu => rtu_frame(unit_id, pdu.as_slice()),
    }
}

/// Judges a complete response frame against the request that it should
/// answer, and decodes it if it passes.
pub fn accept_response(
    framing: Framing,
    transaction_id: u16,
    unit_id: u8,
    request: &Request,
    frame: &[u8],
) -> (outcome: Result<Response, ModbusError>)
    ensures
        outcome_view(outcome) == accept_frame(framing, transaction_id, unit_id, request@, frame@),
{
    match framing {
        Framing::Tcp => {
            if frame.len() < MBAP_HEADER_LEN {
                return Err(ModbusError::MalformedFrame);
            }
            let carried = (frame[0] as u16) * 256 + (frame[1] as u16);
            if carried != transaction_id {
                return Err(ModbusError::TransactionMismatch);
            }
            match tcp_unframe(frame) {
                Ok((_, pdu)) => decode_response(request, pdu.as_slice()),
                Err(e) => Err(e),
            }
        },
        Framing::Rtu => match rtu_unframe(frame) {
            Ok((unit, pdu)) => {
                if unit == unit_id {
                    decode_response(request, pdu.as_slice())
                } else {
                    Err(ModbusError::MalformedFrame)
                }
            },
            Err(e) => Err(e),
        },
    }
}

impl Transaction {
    #[verifier::type_invariant]
    spec fn request_is_valid(self) -> bool {
        self.request@.valid()
    }

    /// Starts a transaction for a valid request.
    pub(crate) fn start(
        framing: Framing,
        transaction_id: u16,
        unit_id: u8,
        request: Request,
        retries: u8,
        timeout_ms: u64,
    ) -> (transaction: Transaction)
        requires
            request@.valid(),
        ensures
            transaction@ == (TransactionView {
                framing,
                transaction_id,
                unit_id,
                request: request@,
                retries_left: retries,
                timeout_ms,
                phase: Phase::Sending,
                head: Seq::empty(),
            }),
    {
        Transaction {
            framing,
            transaction_id,
            unit_id,
            request,
            retries_left: retries,
            timeout_ms,
            phase: Phase::Sending,
            head: Vec::new(),
        }
    }

    pub fn framing(&self) -> (framing: Framing)
        ensures
            framing == self@.framing,
    {
        self.framing
    }

    pub fn transaction_id(&self) -> (transaction_id: u16)
        ensures
            transaction_id == self@.transaction_id,
    {
        self.transaction_id
    }

    pub fn unit_id(&self) -> (unit_id: u8)
        ensures
            unit_id == self@.unit_id,
    {
        self.unit_id
    }

    pub fn request(&self) -> (request: &Request)
        ensures
            request@ == self@.request,
            request@.valid(),
    {
        proof {
            use_type_invariant(self);
        }
        &self.request
    }

    pub fn retries_left(&self) -> (retries_left: u8)
        ensures
            retries_left == self@.retries_left,
    {
        self.retries_left
    }

    /// The deadline for each read, in milliseconds.
    pub fn timeout_ms(&self) -> (timeout_ms: u64)
        ensures
            timeout_ms == self@.timeout_ms,
    {
        self.timeout_ms
    }

    pub fn phase(&self) -> (phase: Phase)
        ensures
            phase == self@.phase,
    {
        self.phase
    }

    /// The bytes to send for this transaction.
    pub fn frame(&self) -> (frame: Vec<u8>)
        ensures
            frame@ == self@.frame(),
    {
        proof {
            use_type_invariant(self);
        }
        frame_request(self.framing, self.transaction_id, self.unit_id, &self.request)
    }

    fn on_header(self, bytes: Vec<u8>) -> (step: Step)
        ensures
            step@ == self@.on_header(bytes@),
    {
        proof {
            use_type_invariant(&self);
        }
        let Transaction {
            framing,
            transaction_id,
            unit_id,
            request,
            retries_left,
            timeout_ms,
            phase: _,
            head: _,
        } = self;
        match framing {
            Framing::Tcp => {
                if bytes.len() != MBAP_HEADER_LEN {
                    return Step::Done(Err(ModbusError::MalformedFrame));
                }
                let carried = (bytes[0] as u16) * 256 + (bytes[1] as u16);
                if carried != transaction_id {
                    return Step::Done(Err(ModbusError::TransactionMismatch));
                }
                match decode_mbap_header(bytes.as_slice()) {
                    Ok(header) => {
                        let rest = header.length as usize - 1;
                        Step::Receive(
                            Transaction {
                                framing,
                                transaction_id,
                                unit_id,
                                request,
                                retries_left,
                                timeout_ms,
                                phase: Phase::AwaitingBody,
                                head: bytes,
                            },
                            rest,
                        )
                    },
                    Err(_) => Step::Done(Err(ModbusError::MalformedFrame)),
                }
            },
            Framing::Rtu => {
                if bytes.len() != RTU_HEADER_LEN || bytes[0] != unit_id {
                    return Step::Done(Err(ModbusError::MalformedFrame));
                }
                let code = request.function().code();
                let rest = if bytes[1] == code {
                    response_pdu_len(&request) + 1
                } else if bytes[1] == code + 0x80 {
                    RTU_EXCEPTION_REST
                } else {
                    return Step::Done(Err(ModbusError::UnexpectedFunctionCode));
                };
                Step::Receive(
                    Transaction {
                        framing,
                        transaction_id,
                        unit_id,
                        request,
                        retries_left,
                        timeout_ms,
                        phase: Phase::AwaitingBody,
                        head: bytes,
                    },
                    rest,
                )
            },
        }
    }

    /// Takes the transaction one step on: from what the transport reports
    /// to what it is asked next, or to the outcome.
    pub fn step(self, event: Event) -> (step: Step)
        ensures
            step@ == self@.step(event@),
    {
        proof {
            use_type_invariant(&self);
        }
        match event {
            Event::Failed => Step::Done(Err(ModbusError::TransportError)),
            Event::TimedOut => {
                if self.retries_left > 0 {
                    let Transaction {
                        framing,
                        transaction_id,
                        unit_id,
                        request,
                        retries_left,
                        timeout_ms,
                        phase: _,
                        head: _,
                    } = self;
                    Step::Send(
                        Transaction {
                            framing,
                            transaction_id,
                            unit_id,
                            request,
                            retries_left: retries_left - 1,
                            timeout_ms,
                            phase: Phase::Sending,
                            head: Vec::new(),
                        },
                    )
                } else {
                    Step::Done(Err(ModbusError::TimeoutError))
                }
            },
            Event::Sent => match self.phase {
                Phase::Sending => {
                    let count = match self.framing {
                        Framing::Tcp => MBAP_HEADER_LEN,
                        Framing::Rtu => RTU_HEADER_LEN,
                    };
                    let Transaction {
                        framing,
                        transaction_id,
                        unit_id,
                        request,
                        retries_left,
                        timeout_ms,
                        phase: _,
                        head,
                    } = self;
                    Step::Receive(
                        Transaction {
                            framing,
                            transaction_id,
                            unit_id,
                            request,
                            retries_left,
                            timeout_ms,
                            phase: Phase::AwaitingHeader,
                            head,
                        },
                        count,
                    )
                },
                _ => Step::Done(Err(ModbusError::TransportError)),
            },
            Event::Received(bytes) => match self.phase {
                Phase::Sending => Step::Done(Err(ModbusError::TransportError)),
                Phase::AwaitingHeader => self.on_header(bytes),
                Phase::AwaitingBody => {
                    let Transaction {
                        framing,
                        transaction_id,
                        unit_id,
                        request,
                        retries_left: _,
                        timeout_ms: _,
                        phase: _,
                        head,
                    } = self;
                    let mut frame = head;
                    let mut rest = bytes;
                    frame.append(&mut rest);
                    Step::Done(
                        accept_response(
                            framing,
                            transaction_id,
                            unit_id,
                            &request,
                            frame.as_slice(),
                        ),
                    )
                },
            },
        }
    }
}

/// The outcome of `count` timeouts in a row, each answered by sending
/// again if the transaction allows it.
pub open spec fn after_timeouts(transaction: TransactionView, count: nat) -> StepView
    decreases count,
{
    if count == 0 {
        StepView::Send(transaction)
    } else {
        match after_timeouts(transaction, (count - 1) as nat) {
            StepView::Send(next) => next.step(EventView::TimedOut),
            ended => ended,
        }
    }
}

/// A timeout with no retry left ends the exchange with `TimeoutError`; with
/// a retry left it spends one and sends the same frame again.
pub proof fn lemma_timeout(transaction: TransactionView)
    ensures
        transaction.retries_left == 0 ==> transaction.step(EventView::TimedOut) == StepView::Done(
            Err(ModbusError::TimeoutError),
        ),
        transaction.retries_left > 0 ==> transaction.step(EventView::TimedOut) == StepView::Send(
            transaction.retried(),
        ) && transaction.retried().retries_left == transaction.retries_left - 1
            && transaction.retried().frame() == transaction.frame(),
{
}

/// A transport that never answers is given up after one attempt and no
/// more than the retries allowed: while retries are left the same frame is
/// sent again, and the timeout after the last attempt ends the exchange
/// with `TimeoutError`.
pub proof fn lemma_timeouts_end(transaction: TransactionView, count: nat)
    ensures
        count <= transaction.retries_left ==> (after_timeouts(transaction, count) matches StepView::Send(
            next,
        ) && next.retries_left == transaction.retries_left - count && next.frame()
            == transaction.frame()),
        count > transaction.retries_left ==> after_timeouts(transaction, count) == StepView::Done(
            Err(ModbusError::TimeoutError),
        ),
    decreases count,
{
    if count > 0 {
        lemma_timeouts_end(transaction, (count - 1) as nat);
    }
}

/// Nothing but a timeout makes a transaction send again: bytes that arrive,
/// an exception response among them, always lead on or end the exchange.
pub proof fn lemma_only_timeouts_resend(transaction: TransactionView, event: EventView)
    requires
        transaction.step(event) is Send,
    ensures
        event is TimedOut,
        transaction.retries_left > 0,
{
}

/// A TCP response that carries another transaction identifier than the one
/// assigned is a `TransactionMismatch`, whatever else it holds: as a whole
/// frame, and already when its header arrives. No payload comes back.
pub proof fn lemma_mismatch_rejected(transaction: TransactionView, frame: Seq<u8>)
    requires
        transaction.framing == Framing::Tcp,
        frame.len() >= MBAP_HEADER_LEN,
        word(frame[0], frame[1]) != transaction.transaction_id,
    ensures
        transaction.accept(frame) == Err::<ResponseView, ModbusError>(
            ModbusError::TransactionMismatch,
        ),
        transaction.phase == Phase::AwaitingHeader ==> transaction.step(
            EventView::Received(frame.take(MBAP_HEADER_LEN as int)),
        ) == StepView::Done(Err(ModbusError::TransactionMismatch)),
{
}

/// A TCP frame carries the transaction identifier that it was made with,
/// so the response to another transaction is always told apart.
pub proof fn lemma_frame_carries_id(transaction_id: u16, unit_id: u8, pdu: Seq<u8>)
    ensures
        tcp_frame_bytes(transaction_id, unit_id, pdu).len() == MBAP_HEADER_LEN + pdu.len(),
        word(
            tcp_frame_bytes(transaction_id, unit_id, pdu)[0],
            tcp_frame_bytes(transaction_id, unit_id, pdu)[1],
        ) == transaction_id,
{
    crate::bits::lemma_word_of_bytes(transaction_id, 0, 0);
}

/// The whole frame of a response to a transaction is accepted as what its
/// PDU decodes to.
pub proof fn lemma_accept_own_frame(transaction: TransactionView, pdu: Seq<u8>)
    requires
        1 <= pdu.len() <= crate::frame::MAX_PDU_LEN,
    ensures
        transaction.accept(
            frame_bytes(
                transaction.framing,
                transaction.transaction_id,
                transaction.unit_id,
                pdu,
            ),
        ) == parse_response(transaction.request, pdu),
{
    lemma_frame_carries_id(transaction.transaction_id, transaction.unit_id, pdu);
    crate::frame::lemma_tcp_frame_round_trip(
        transaction.transaction_id,
        transaction.unit_id,
        pdu,
    );
    crate::frame::lemma_rtu_frame_round_trip(transaction.unit_id, pdu);
}

/// Whether a PDU has the shape by which a reader of a byte stream tells
/// its length: the request's function code before a response of the length
/// that the request calls for, or that code with its high bit set before
/// one exception code.
pub open spec fn length_foretold(request: RequestView, pdu: Seq<u8>) -> bool {
    let code = request.function().spec_code();
    pdu.len() >= 1 && ((pdu[0] == code && pdu.len() == response_len(request)) || (pdu[0] == code
        + 0x80 && pdu.len() == 2))
}

/// Fed the frame of a response in the two pieces that it asks for, a
/// transaction asks for exactly the bytes of that frame and ends with what
/// the response's PDU decodes to.
pub proof fn lemma_exchange_in_steps(transaction: TransactionView, pdu: Seq<u8>)
    requires
        transaction.phase == Phase::Sending,
        transaction.request.valid(),
        1 <= pdu.len() <= crate::frame::MAX_PDU_LEN,
        transaction.framing == Framing::Rtu ==> length_foretold(transaction.request, pdu),
    ensures
        ({
            let reply = frame_bytes(
                transaction.framing,
                transaction.transaction_id,
                transaction.unit_id,
                pdu,
            );
            let n = transaction.header_len() as int;
            let awaiting = TransactionView { phase: Phase::AwaitingHeader, ..transaction };
            &&& n < reply.len()
            &&& transaction.step(EventView::Sent) == StepView::Receive(awaiting, n as nat)
            &&& awaiting.step(EventView::Received(reply.take(n))) == StepView::Receive(
                awaiting.with_head(reply.take(n)),
                (reply.len() - n) as nat,
            )
            &&& awaiting.with_head(reply.take(n)).step(EventView::Received(reply.skip(n)))
                == StepView::Done(parse_response(transaction.request, pdu))
        }),
{
    let reply = frame_bytes(
        transaction.framing,
        transaction.transaction_id,
        transaction.unit_id,
        pdu,
    );
    let n = transaction.header_len() as int;
    let awaiting = TransactionView { phase: Phase::AwaitingHeader, ..transaction };
    lemma_accept_own_frame(transaction, pdu);
    lemma_frame_carries_id(transaction.transaction_id, transaction.unit_id, pdu);
    crate::frame::lemma_rtu_frame_round_trip(transaction.unit_id, pdu);
    assert(reply.take(n) + reply.skip(n) =~= reply);
    match transaction.framing {
        Framing::Tcp => {
            let header = crate::frame::mbap_header_for(
                transaction.transaction_id,
                transaction.unit_id,
                pdu.len(),
            );
            crate::frame::lemma_mbap_header_round_trip(header);
            assert(reply.take(n) =~= crate::frame::mbap_header_bytes(header));
        },
        Framing::Rtu => {
            assert(reply.take(n)[0] == transaction.unit_id);
            assert(reply.take(n)[1] == pdu[0]);
        },
    }
}

/// An exchange in which the device answers with the payload asked for ends
/// with that payload.
pub proof fn lemma_exchange_completes(transaction: TransactionView, response: ResponseView)
    requires
        transaction.phase == Phase::Sending,
        transaction.request.valid(),
        crate::pdu::answers(transaction.request, response),
    ensures
        ({
            let reply = frame_bytes(
                transaction.framing,
                transaction.transaction_id,
                transaction.unit_id,
                crate::pdu::response_bytes(transaction.request, response),
            );
            let n = transaction.header_len() as int;
            let awaiting = TransactionView { phase: Phase::AwaitingHeader, ..transaction };
            &&& transaction.step(EventView::Sent) == StepView::Receive(awaiting, n as nat)
            &&& awaiting.step(EventView::Received(reply.take(n))) == StepView::Receive(
                awaiting.with_head(reply.take(n)),
                (reply.len() - n) as nat,
            )
            &&& awaiting.with_head(reply.take(n)).step(EventView::Received(reply.skip(n)))
                == StepView::Done(Ok(response))
        }),
{
    let pdu = crate::pdu::response_bytes(transaction.request, response);
    crate::pdu::lemma_response_round_trip(transaction.request, response);
    crate::pdu::lemma_response_shape(transaction.request, pdu);
    lemma_exchange_in_steps(transaction, pdu);
}

/// An exchange in which the device answers with an exception ends with
/// that exception, as a `ModbusException` and as no other kind of error.
pub proof fn lemma_exchange_reports_exception(transaction: TransactionView, code: u8)
    requires
        transaction.phase == Phase::Sending,
        transaction.request.valid(),
    ensures
        ({
            let reply = frame_bytes(
                transaction.framing,
                transaction.transaction_id,
                transaction.unit_id,
                crate::pdu::exception_bytes(transaction.request.function(), code),
            );
            let n = transaction.header_len() as int;
            let awaiting = TransactionView { phase: Phase::AwaitingHeader, ..transaction };
            &&& transaction.step(EventView::Sent) == StepView::Receive(awaiting, n as nat)
            &&& awaiting.step(EventView::Received(reply.take(n))) == StepView::Receive(
                awaiting.with_head(reply.take(n)),
                (reply.len() - n) as nat,
            )
            &&& awaiting.with_head(reply.take(n)).step(EventView::Received(reply.skip(n)))
                == StepView::Done(
                Err(
                    ModbusError::ModbusException {
                        function: transaction.request.function().spec_code(),
                        code,
                    },
                ),
            )
        }),
{
    let pdu = crate::pdu::exception_bytes(transaction.request.function(), code);
    crate::pdu::lemma_exception_decodes(transaction.request, code);
    lemma_exchange_in_steps(transaction, pdu);
}

/// Whatever a transaction is told, a payload that it ends with is of the
/// kind and size that its request asks for: coils for a read of coils or
/// discrete inputs, registers for a read of registers, and nothing but the
/// acknowledgement for a write.
pub proof fn lemma_outcome_answers(transaction: TransactionView, event: EventView)
    requires
        transaction.step(event) matches StepView::Done(outcome) && outcome is Ok,
    ensures
        transaction.step(event) matches StepView::Done(outcome) && crate::pdu::answers(
            transaction.request,
            outcome.unwrap(),
        ),
{
    if let EventView::Received(bytes) = event {
        if transaction.phase == Phase::AwaitingBody {
            let frame = transaction.head + bytes;
            match transaction.framing {
                Framing::Tcp => {
                    let pdu = parse_tcp_frame(frame).unwrap().1;
                    crate::pdu::lemma_response_shape(transaction.request, pdu);
                },
                Framing::Rtu => {
                    let pdu = parse_rtu_frame(frame).unwrap().1;
                    crate::pdu::lemma_response_shape(transaction.request, pdu);
                },
            }
        }
    }
}

}

//! Writing a response to a stream, one action at a time.
//!
//! A transmission never touches the stream. It names the next action, is told
//! how the action went, and names the one after it, until it can report how
//! the whole delivery went.

use vstd::prelude::*;
use vstd::string::StringExecFns;
use vstd::utf8::encode_utf8;

use crate::response::{Delivery, Outgoing, Payload, PayloadModel};

verus! {

/// What a transmission is waiting for.
#[derive(Clone, Copy, Debug, PartialEq, Eq, Structural)]
pub enum Phase {
    /// The head is being written, all of it.
    Head,
    /// A part of the text is being written.
    Text,
    /// The file is being opened.
    Opening,
    /// A unit of the file is being read.
    Reading,
    /// A unit of the file is being written.
    Writing,
    /// The stream is being flushed.
    Flushing,
}

/// An action on the stream or on the file.
#[derive(Debug)]
pub enum WireAction {
    /// Offer these bytes to the stream once, and tell how many it took.
    Write(Vec<u8>),
    /// Write all of these bytes to the stream.
    WriteAll(Vec<u8>),
    /// Open the file at this path for reading.
    Open(String),
    /// Read from the file up to and with the next line feed, or up to its end.
    ReadUnit,
    /// Flush the stream.
    Flush,
}

/// How an action went.
#[derive(Debug)]
pub enum WireEvent {
    /// The action was done.
    Done,
    /// The stream took this many of the bytes that were offered.
    Wrote(usize),
    /// The file gave these bytes; none at its end.
    Read(Vec<u8>),
    /// The action failed; says why.
    Failed(String),
}

/// The model of a `WireAction`.
pub enum ActionModel {
    Write(Seq<u8>),
    WriteAll(Seq<u8>),
    Open(Seq<char>),
    ReadUnit,
    Flush,
}

/// The model of a `WireEvent`.
pub enum EventModel {
    Done,
    Wrote(usize),
    Read(Seq<u8>),
    Failed(Seq<char>),
}

impl View for WireAction {
    type V = ActionModel;

    open spec fn view(&self) -> ActionModel {
        match self {
            WireAction::Write(bytes) => ActionModel::Write(bytes@),
            WireAction::WriteAll(bytes) => ActionModel::WriteAll(bytes@),
            WireAction::Open(path) => ActionModel::Open(path@),
            WireAction::ReadUnit => ActionModel::ReadUnit,
            WireAction::Flush => ActionModel::Flush,
        }
    }
}

impl View for WireEvent {
    type V = EventModel;

    open spec fn view(&self) -> EventModel {
        match self {
            WireEvent::Done => EventModel::Done,
            WireEvent::Wrote(n) => EventModel::Wrote(*n),
            WireEvent::Read(bytes) => EventModel::Read(bytes@),
            WireEvent::Failed(why) => EventModel::Failed(why@),
        }
    }
}

/// The model of a transmission: what it waits for, what follows the head,
/// and how many bytes of the text the stream has taken.
pub struct TransmissionModel {
    pub phase: Phase,
    pub payload: PayloadModel,
    pub done: nat,
}

/// The model of a delivery report.
pub enum ReportModel {
    Flushed,
    WriteFailed,
    BodyFailed(Seq<char>),
    FlushFailed,
}

/// The model of `report`.
pub open spec fn report_model(report: Delivery) -> ReportModel {
    match report {
        Delivery::Flushed => ReportModel::Flushed,
        Delivery::WriteFailed => ReportModel::WriteFailed,
        Delivery::BodyFailed(why) => ReportModel::BodyFailed(why@),
        Delivery::FlushFailed => ReportModel::FlushFailed,
    }
}

/// The model of a turn: the next action and the transmission that waits for
/// it, or the report that ends the transmission.
pub enum TurnModel {
    Perform(ActionModel, TransmissionModel),
    Report(ReportModel),
}

/// The bytes of the text of `payload`; none where it is no text.
pub open spec fn text_bytes(payload: PayloadModel) -> Seq<u8> {
    match payload {
        PayloadModel::Text(text) => encode_utf8(text),
        _ => Seq::empty(),
    }
}

/// Why an action failed, as the event tells it; empty where the event does
/// not answer the action at all.
pub open spec fn reason_of(event: EventModel) -> Seq<char> {
    match event {
        EventModel::Failed(why) => why,
        _ => Seq::empty(),
    }
}

/// What a failure to open the file at `path` says.
pub open spec fn open_failure(path: Seq<char>, why: Seq<char>) -> Seq<char> {
    "could not open file "@ + path + ": "@ + why
}

/// The turn that writes what is left of the text, or flushes where nothing is left.
pub open spec fn text_turn(payload: PayloadModel, done: nat) -> TurnModel {
    let bytes = text_bytes(payload);
    if done >= bytes.len() {
        TurnModel::Perform(
            ActionModel::Flush,
            TransmissionModel { phase: Phase::Flushing, payload: payload, done: done },
        )
    } else {
        TurnModel::Perform(
            ActionModel::Write(bytes.skip(done as int)),
            TransmissionModel { phase: Phase::Text, payload: payload, done: done },
        )
    }
}

/// The turn that follows the head: by what there is to send.
pub open spec fn body_turn(payload: PayloadModel) -> TurnModel {
    match payload {
        PayloadModel::Empty => TurnModel::Perform(
            ActionModel::Flush,
            TransmissionModel { phase: Phase::Flushing, payload: payload, done: 0 },
        ),
        PayloadModel::Text(_) => text_turn(payload, 0),
        PayloadModel::File(path) => TurnModel::Perform(
            ActionModel::Open(path),
            TransmissionModel { phase: Phase::Opening, payload: payload, done: 0 },
        ),
    }
}

/// The first turn of a transmission: all of the head is written.
pub open spec fn first_turn(head: Seq<char>, payload: PayloadModel) -> TurnModel {
    TurnModel::Perform(
        ActionModel::WriteAll(encode_utf8(head)),
        TransmissionModel { phase: Phase::Head, payload: payload, done: 0 },
    )
}

/// The turn that reads the next unit of the file.
pub open spec fn read_turn(t: TransmissionModel) -> TurnModel {
    TurnModel::Perform(ActionModel::ReadUnit, TransmissionModel { phase: Phase::Reading, ..t })
}

/// One turn of a transmission: what follows from how the pending action went.
/// An event that does not answer the pending action counts as its failure.
pub open spec fn turn(t: TransmissionModel, event: EventModel) -> TurnModel {
    match t.phase {
        Phase::Head => match event {
            EventModel::Done => body_turn(t.payload),
            _ => TurnModel::Report(ReportModel::WriteFailed),
        },
        Phase::Text => match event {
            EventModel::Wrote(n) => text_turn(
                t.payload,
                if t.done + n >= text_bytes(t.payload).len() {
                    text_bytes(t.payload).len()
                } else {
                    (t.done + n) as nat
                },
            ),
            _ => TurnModel::Report(ReportModel::BodyFailed(reason_of(event))),
        },
        Phase::Opening => match event {
            EventModel::Done => read_turn(t),
            _ => TurnModel::Report(
                ReportModel::BodyFailed(
                    open_failure(
                        match t.payload {
                            PayloadModel::File(path) => path,
                            _ => Seq::empty(),
                        },
                        reason_of(event),
                    ),
                ),
            ),
        },
        Phase::Reading => match event {
            EventModel::Read(unit) => if unit.len() == 0 {
                TurnModel::Perform(
                    ActionModel::Flush,
                    TransmissionModel { phase: Phase::Flushing, ..t },
                )
            } else {
                TurnModel::Perform(
                    ActionModel::WriteAll(unit),
                    TransmissionModel { phase: Phase::Writing, ..t },
                )
            },
            _ => TurnModel::Report(ReportModel::BodyFailed(reason_of(event))),
        },
        Phase::Writing => match event {
            EventModel::Done => read_turn(t),
            _ => TurnModel::Report(ReportModel::BodyFailed(reason_of(event))),
        },
        Phase::Flushing => match event {
            EventModel::Done => TurnModel::Report(ReportModel::Flushed),
            _ => TurnModel::Report(ReportModel::FlushFailed),
        },
    }
}

/// The writing of one response, in progress.
#[derive(Debug)]
pub struct Transmission {
    phase: Phase,
    payload: Payload,
    text: Vec<u8>,
    done: usize,
}

/// What a transmission asks for next.
#[derive(Debug)]
pub enum Turn {
    /// Do this, then tell the transmission how it went.
    Perform(WireAction, Transmission),
    /// The transmission is over; this is how the delivery went.
    Report(Delivery),
}

impl View for Transmission {
    type V = TransmissionModel;

    closed spec fn view(&self) -> TransmissionModel {
        TransmissionModel { phase: self.phase, payload: self.payload@, done: self.done as nat }
    }
}

impl View for Turn {
    type V = TurnModel;

    open spec fn view(&self) -> TurnModel {
        match self {
            Turn::Perform(action, then) => TurnModel::Perform(action@, then@),
            Turn::Report(report) => TurnModel::Report(report_model(*report)),
        }
    }
}

fn copy_from(bytes: &[u8], from: usize) -> (r: Vec<u8>)
    requires
        from <= bytes@.len(),
    ensures
        r@ == bytes@.skip(from as int),
{
    let mut r: Vec<u8> = Vec::new();
    let mut i: usize = from;
    while i < bytes.len()
        invariant
            from <= i <= bytes@.len(),
            r@ == bytes@.subrange(from as int, i as int),
        decreases bytes@.len() - i,
    {
        r.push(bytes[i]);
        i = i + 1;
    }
    assert(bytes@.subrange(from as int, bytes@.len() as int) == bytes@.skip(from as int));
    r
}

fn reason(event: WireEvent) -> (why: String)
    ensures
        why@ == reason_of(event@),
{
    match event {
        WireEvent::Failed(why) => why,
        _ => String::new(),
    }
}

impl Transmission {
    #[verifier::type_invariant]
    spec fn well_formed(&self) -> bool {
        self.text@ == text_bytes(self.payload@) && self.done <= self.text@.len()
    }

    /// Begins to write what `out` holds: the head comes first.
    pub fn begin(out: Outgoing) -> (first: Turn)
        ensures
            first@ == first_turn(out.head@, out.payload@),
    {
        let head = copy_from(out.head.as_str().as_bytes(), 0);
        assert(head@ == encode_utf8(out.head@)) by {
            assert(encode_utf8(out.head@).skip(0) == encode_utf8(out.head@));
        }
        let text = match &out.payload {
            Payload::Text(text) => copy_from(text.as_str().as_bytes(), 0),
            _ => Vec::new(),
        };
        assert(text@ == text_bytes(out.payload@)) by {
            assert(text_bytes(out.payload@).skip(0) == text_bytes(out.payload@));
        }
        Turn::Perform(
            WireAction::WriteAll(head),
            Transmission { phase: Phase::Head, payload: out.payload, text, done: 0 },
        )
    }

    fn text_next(payload: Payload, text: Vec<u8>, done: usize) -> (next: Turn)
        requires
            text@ == text_bytes(payload@),
            done <= text@.len(),
        ensures
            next@ == text_turn(payload@, done as nat),
    {
        if done >= text.len() {
            Turn::Perform(
                WireAction::Flush,
                Transmission { phase: Phase::Flushing, payload, text, done },
            )
        } else {
            let rest = copy_from(text.as_slice(), done);
            Turn::Perform(
                WireAction::Write(rest),
                Transmission { phase: Phase::Text, payload, text, done },
            )
        }
    }

    fn body_next(payload: Payload, text: Vec<u8>) -> (next: Turn)
        requires
            text@ == text_bytes(payload@),
        ensures
            next@ == body_turn(payload@),
    {
        match &payload {
            Payload::Empty => Turn::Perform(
                WireAction::Flush,
                Transmission { phase: Phase::Flushing, payload, text, done: 0 },
            ),
            Payload::Text(_) => Transmission::text_next(payload, text, 0),
            Payload::File(path) => {
                let path = path.clone();
                Turn::Perform(
                    WireAction::Open(path),
                    Transmission { phase: Phase::Opening, payload, text, done: 0 },
                )
            },
        }
    }

    /// Takes how the pending action went, and names what comes next.
    pub fn advance(self, event: WireEvent) -> (next: Turn)
        ensures
            next@ == turn(self@, event@),
    {
        proof {
            use_type_invariant(&self);
        }
        let Transmission { phase, payload, text, done } = self;
        match phase {
            Phase::Head => match event {
                WireEvent::Done => Transmission::body_next(payload, text),
                _ => Turn::Report(Delivery::WriteFailed),
            },
            Phase::Text => match event {
                WireEvent::Wrote(n) => {
                    let left = text.len() - done;
                    let reached = if n >= left {
                        text.len()
                    } else {
                        done + n
                    };
                    Transmission::text_next(payload, text, reached)
                },
                other => Turn::Report(Delivery::BodyFailed(reason(other))),
            },
            Phase::Opening => match event {
                WireEvent::Done => Turn::Perform(
                    WireAction::ReadUnit,
                    Transmission { phase: Phase::Reading, payload, text, done },
                ),
                other => {
                    let mut why = "could not open file ".to_owned();
                    match &payload {
                        Payload::File(path) => {
                            why.append(path.as_str());
                        },
                        _ => {},
                    }
                    why.append(": ");
                    why.append(reason(other).as_str());
                    Turn::Report(Delivery::BodyFailed(why))
                },
            },
            Phase::Reading => match event {
                WireEvent::Read(unit) => {
                    if unit.len() == 0 {
                        Turn::Perform(
                            WireAction::Flush,
                            Transmission { phase: Phase::Flushing, payload, text, done },
                        )
                    } else {
                        Turn::Perform(
                            WireAction::WriteAll(unit),
                            Transmission { phase: Phase::Writing, payload, text, done },
                        )
                    }
                },
                other => Turn::Report(Delivery::BodyFailed(reason(other))),
            },
            Phase::Writing => match event {
                WireEvent::Done => Turn::Perform(
                    WireAction::ReadUnit,
                    Transmission { phase: Phase::Reading, payload, text, done },
                ),
                other => Turn::Report(Delivery::BodyFailed(reason(other))),
            },
            Phase::Flushing => match event {
                WireEvent::Done => Turn::Report(Delivery::Flushed),
                _ => Turn::Report(Delivery::FlushFailed),
            },
        }
    }
}

} // verus!

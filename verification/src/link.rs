//! One exchange on the serial line, as a machine that is told what happened
//! and says what to do next.
//!
//! Every exchange starts by clearing the line: a lone terminator is written
//! and the line is read up to a terminator, which throws away whatever the UPS
//! had still to say. Then the command goes out, followed by a terminator, and
//! where a reply is due one line is read and returned without its terminator.

use vstd::prelude::*;
use crate::ups::{CommError, Exchange, TERMINATOR};
use crate::wire::append;

verus! {

/// How far an exchange has got.
#[derive(Clone, Copy, Debug, PartialEq, Eq, Structural)]
pub enum LinkPhase {
    /// Nothing was done yet.
    Start,
    /// The lone terminator went out; the line that answers it is awaited.
    Syncing,
    /// The command went out; its reply is awaited.
    AwaitingReply,
    /// The command is being written; no reply is due.
    Sending,
    /// The exchange is over.
    Finished,
}

/// What happened on the line.
#[derive(Debug)]
pub enum LinkEvent {
    /// The port is open with the line's settings.
    Opened,
    /// A read up to the terminator returned these bytes.
    Line(Vec<u8>),
    /// A write that is followed by no read went through.
    Written,
    /// Opening, writing or reading failed or timed out.
    Failed(String),
}

/// What to do next on the line.
#[derive(Debug)]
pub enum LinkAction {
    /// Write these bytes, then read up to the terminator and report the line.
    WriteThenRead(Vec<u8>),
    /// Write these bytes and report that they went through.
    Write(Vec<u8>),
    /// Nothing more: the exchange went well, with this reply if one was due.
    Complete(Option<Vec<u8>>),
    /// Nothing more: the exchange failed.
    Fail(CommError),
}

/// An event without its storage.
pub enum EventModel {
    Opened,
    Line(Seq<u8>),
    Written,
    Failed(Seq<char>),
}

/// An action without its storage.
pub enum ActionModel {
    WriteThenRead(Seq<u8>),
    Write(Seq<u8>),
    Complete(Option<Seq<u8>>),
    Fail,
}

impl View for LinkEvent {
    type V = EventModel;

    open spec fn view(&self) -> EventModel {
        match self {
            LinkEvent::Opened => EventModel::Opened,
            LinkEvent::Line(bytes) => EventModel::Line(bytes@),
            LinkEvent::Written => EventModel::Written,
            LinkEvent::Failed(text) => EventModel::Failed(text@),
        }
    }
}

impl View for LinkAction {
    type V = ActionModel;

    open spec fn view(&self) -> ActionModel {
        match self {
            LinkAction::WriteThenRead(bytes) => ActionModel::WriteThenRead(bytes@),
            LinkAction::Write(bytes) => ActionModel::Write(bytes@),
            LinkAction::Complete(Some(bytes)) => ActionModel::Complete(Some(bytes@)),
            LinkAction::Complete(None) => ActionModel::Complete(None),
            LinkAction::Fail(_) => ActionModel::Fail,
        }
    }
}

/// The line ends with the terminator.
pub open spec fn is_terminated(line: Seq<u8>) -> bool {
    line.len() >= 1 && line.last() == TERMINATOR
}

/// A command as it goes over the line: its bytes, then the terminator.
pub open spec fn frame(command: Seq<u8>) -> Seq<u8> {
    command.push(TERMINATOR)
}

/// A line without the terminator that ends it, if one does.
pub open spec fn payload(line: Seq<u8>) -> Seq<u8> {
    if is_terminated(line) {
        line.drop_last()
    } else {
        line
    }
}

/// The phase and the action that follow an event.
pub open spec fn link_step(
    command: Seq<u8>,
    need_response: bool,
    phase: LinkPhase,
    event: EventModel,
) -> (LinkPhase, ActionModel) {
    match (phase, event) {
        (LinkPhase::Start, EventModel::Opened) => (
            LinkPhase::Syncing,
            ActionModel::WriteThenRead(seq![TERMINATOR]),
        ),
        (LinkPhase::Syncing, EventModel::Line(line)) => if !is_terminated(line) {
            (LinkPhase::Finished, ActionModel::Fail)
        } else if need_response {
            (LinkPhase::AwaitingReply, ActionModel::WriteThenRead(frame(command)))
        } else {
            (LinkPhase::Sending, ActionModel::Write(frame(command)))
        },
        (LinkPhase::Sending, EventModel::Written) => (
            LinkPhase::Finished,
            ActionModel::Complete(None),
        ),
        (LinkPhase::AwaitingReply, EventModel::Line(line)) => (
            LinkPhase::Finished,
            ActionModel::Complete(Some(payload(line))),
        ),
        _ => (LinkPhase::Finished, ActionModel::Fail),
    }
}

/// The bytes of `command`, then the terminator.
pub fn frame_command(command: &Vec<u8>) -> (bytes: Vec<u8>)
    ensures
        bytes@ == frame(command@),
{
    let mut bytes: Vec<u8> = Vec::new();
    append(&mut bytes, command.as_slice());
    bytes.push(TERMINATOR);
    bytes
}

/// Takes the terminator off the end of a line, if it is there.
pub fn strip_terminator(line: Vec<u8>) -> (bytes: Vec<u8>)
    ensures
        bytes@ == payload(line@),
{
    let mut bytes = line;
    if bytes.len() >= 1 && bytes[bytes.len() - 1] == TERMINATOR {
        bytes.pop();
    }
    bytes
}

/// One step of an exchange: from the phase it is in and what happened on the
/// line to the next phase and what to do.
///
/// The exchange fails when the line that answers the lone terminator does not
/// end with one, when the line reports a failure, and when an event comes that
/// the phase does not wait for. A reported failure hands its text on.
pub fn ups_send(exchange: &Exchange, phase: LinkPhase, event: LinkEvent) -> (next: (
    LinkPhase,
    LinkAction,
))
    ensures
        (next.0, next.1@) == link_step(
            exchange.command@,
            exchange.need_response,
            phase,
            event@,
        ),
        match (event, next.1) {
            (LinkEvent::Failed(text), LinkAction::Fail(error)) => error.description@ == text@,
            _ => true,
        },
{
    match (phase, event) {
        (LinkPhase::Start, LinkEvent::Opened) => {
            let mut bytes: Vec<u8> = Vec::new();
            bytes.push(TERMINATOR);
            proof {
                assert(bytes@ =~= seq![TERMINATOR]);
            }
            (LinkPhase::Syncing, LinkAction::WriteThenRead(bytes))
        },
        (LinkPhase::Syncing, LinkEvent::Line(line)) => {
            if line.len() == 0 || line[line.len() - 1] != TERMINATOR {
                (
                    LinkPhase::Finished,
                    LinkAction::Fail(
                        CommError { description: "UPS did not respond correctly".to_owned() },
                    ),
                )
            } else if exchange.need_response {
                (
                    LinkPhase::AwaitingReply,
                    LinkAction::WriteThenRead(frame_command(&exchange.command)),
                )
            } else {
                (LinkPhase::Sending, LinkAction::Write(frame_command(&exchange.command)))
            }
        },
        (LinkPhase::Sending, LinkEvent::Written) => (
            LinkPhase::Finished,
            LinkAction::Complete(None),
        ),
        (LinkPhase::AwaitingReply, LinkEvent::Line(line)) => (
            LinkPhase::Finished,
            LinkAction::Complete(Some(strip_terminator(line))),
        ),
        (_, LinkEvent::Failed(text)) => (
            LinkPhase::Finished,
            LinkAction::Fail(CommError { description: text }),
        ),
        _ => (
            LinkPhase::Finished,
            LinkAction::Fail(CommError { description: "unexpected event on the line".to_owned() }),
        ),
    }
}

/// The settings of the serial line.
#[derive(Clone, Copy, Debug, PartialEq, Eq, Structural)]
pub struct LineSettings {
    pub baud_rate: u32,
    pub data_bits: u8,
    pub parity: bool,
    pub stop_bits: u8,
    pub flow_control: bool,
    /// How long a read or a write may take, in milliseconds.
    pub timeout_millis: u64,
}

/// The line of a Megatec UPS: 2400 baud, eight data bits, no parity, one stop
/// bit, no flow control; half a second for every read and write.
pub open spec fn megatec_line() -> LineSettings {
    LineSettings {
        baud_rate: 2400,
        data_bits: 8,
        parity: false,
        stop_bits: 1,
        flow_control: false,
        timeout_millis: 500,
    }
}

/// The settings to open the serial port with.
pub fn line_settings() -> (settings: LineSettings)
    ensures
        settings == megatec_line(),
{
    LineSettings {
        baud_rate: 2400,
        data_bits: 8,
        parity: false,
        stop_bits: 1,
        flow_control: false,
        timeout_millis: 500,
    }
}

/// An exchange with a reply, on a line that behaves: the lone terminator goes
/// out first, the framed command after the line is clear, and the exchange
/// ends with the reply less its terminator.
pub proof fn law_query_returns_the_reply(command: Seq<u8>, clearing: Seq<u8>, reply: Seq<u8>)
    requires
        is_terminated(clearing),
    ensures
        ({
            let first = link_step(command, true, LinkPhase::Start, EventModel::Opened);
            let second = link_step(command, true, first.0, EventModel::Line(clearing));
            let third = link_step(command, true, second.0, EventModel::Line(reply));
            &&& first.1 == ActionModel::WriteThenRead(seq![TERMINATOR])
            &&& second.1 == ActionModel::WriteThenRead(frame(command))
            &&& third == (LinkPhase::Finished, ActionModel::Complete(Some(payload(reply))))
        }),
{
}

/// An exchange without a reply, on a line that behaves: the lone terminator
/// goes out first, the framed command after the line is clear, and nothing is
/// read after it.
pub proof fn law_command_reads_no_reply(command: Seq<u8>, clearing: Seq<u8>)
    requires
        is_terminated(clearing),
    ensures
        ({
            let first = link_step(command, false, LinkPhase::Start, EventModel::Opened);
            let second = link_step(command, false, first.0, EventModel::Line(clearing));
            let third = link_step(command, false, second.0, EventModel::Written);
            &&& first.1 == ActionModel::WriteThenRead(seq![TERMINATOR])
            &&& second.1 == ActionModel::Write(frame(command))
            &&& third == (LinkPhase::Finished, ActionModel::Complete(None))
        }),
{
}

/// The command never goes out on a line that was not cleared: where the line
/// read after the lone terminator does not end with one, the exchange fails at
/// once. And an exchange that is over stays over.
pub proof fn law_exchange_fails_closed(
    command: Seq<u8>,
    need_response: bool,
    clearing: Seq<u8>,
    event: EventModel,
)
    ensures
        !is_terminated(clearing) ==> link_step(
            command,
            need_response,
            LinkPhase::Syncing,
            EventModel::Line(clearing),
        ) == (LinkPhase::Finished, ActionModel::Fail),
        link_step(command, need_response, LinkPhase::Finished, event) == (
            LinkPhase::Finished,
            ActionModel::Fail,
        ),
        event is Failed ==> forall|phase: LinkPhase|
            #[trigger] link_step(command, need_response, phase, event) == (
                LinkPhase::Finished,
                ActionModel::Fail,
            ),
{
}

} // verus!

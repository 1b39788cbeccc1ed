//! What the game announces, and the channel it announces it on.
//!
//! Announcing is fire-and-forget: an event is rendered to one line of text and
//! handed to a broadcast channel. Nothing comes back to the game but a count of
//! the lines that no receiver was there to take.

use vstd::prelude::*;
use vstd::string::*;
use tokio::sync::broadcast::Sender;
use tokio::sync::broadcast::error::SendError;
use crate::sprites::snake::Direction;
use crate::text::{decimal, push_decimal};

verus! {

/// Something the game announces.
#[derive(Clone, Copy, PartialEq, Eq, Debug, Structural)]
pub enum Event {
    /// The thread that runs the game loop is up.
    GameThreadReady,
    /// The thread that forwards events to the message bus is up.
    BusThreadReady,
    /// A canvas is about to be set up for a grid of this size.
    CanvasInit { width: u16, height: u16, fps: u64 },
    /// The canvas is there.
    CanvasCreated,
    /// A snake is about to be laid out.
    SnakeInit { length: u16, start_x: u16, start_y: u16 },
    /// The snake is there.
    SnakeCreated,
    /// The terminal was resized and is still large enough.
    Resized,
    /// The head reached an egg at this cell.
    SnakeGrow { x: u16, y: u16 },
    /// The head moved to this cell.
    SnakeForward { x: u16, y: u16 },
    /// The snake took a new heading.
    SnakeTurn { direction: Direction },
}

impl Event {
    /// The line of text that announces the event.
    pub open spec fn text(self) -> Seq<char> {
        match self {
            Event::GameThreadReady =>
                "(unknown-yet) info: initialized main thread (thread 1 - game loop)"@,
            Event::BusThreadReady =>
                "(unknown-yet) info: initialized second thread (thread 2 - zbus)"@,
            Event::CanvasInit { width, height, fps } =>
                "(unknown-yet) info: initializing canvas (width: "@ + decimal(width as nat)
                    + ", height: "@ + decimal(height as nat) + ", fps: "@ + decimal(fps as nat)
                    + ")"@,
            Event::CanvasCreated => "(unknown-yet) info: canvas created"@,
            Event::SnakeInit { length, start_x, start_y } =>
                "(unknown-yet) info: initializing snake (length: "@ + decimal(length as nat)
                    + ", start_x: "@ + decimal(start_x as nat) + ", start_y: "@ + decimal(
                    start_y as nat,
                ) + ")"@,
            Event::SnakeCreated => "(unknown-yet) info: snake created"@,
            Event::Resized => "(unknown-yet) resize event detected"@,
            Event::SnakeGrow { x, y } =>
                "(unknown-yet) info: snake.grow (x: "@ + decimal(x as nat) + ", y: "@ + decimal(
                    y as nat,
                ) + ")"@,
            Event::SnakeForward { x, y } =>
                "(unknown-yet) info: snake.forward (x: "@ + decimal(x as nat) + ", y: "@
                    + decimal(y as nat) + ")"@,
            Event::SnakeTurn { direction } =>
                "(unknown-yet) info: snake.turn.direction::"@ + direction.name(),
        }
    }

    /// Renders the event to its line of text.
    pub fn message(&self) -> (s: String)
        ensures
            s@ == self.text(),
    {
        match *self {
            Event::GameThreadReady => String::from_str(
                "(unknown-yet) info: initialized main thread (thread 1 - game loop)",
            ),
            Event::BusThreadReady => String::from_str(
                "(unknown-yet) info: initialized second thread (thread 2 - zbus)",
            ),
            Event::CanvasInit { width, height, fps } => {
                let mut s = String::from_str("(unknown-yet) info: initializing canvas (width: ");
                push_decimal(&mut s, width as u64);
                s.append(", height: ");
                push_decimal(&mut s, height as u64);
                s.append(", fps: ");
                push_decimal(&mut s, fps);
                s.append(")");
                s
            },
            Event::CanvasCreated => String::from_str("(unknown-yet) info: canvas created"),
            Event::SnakeInit { length, start_x, start_y } => {
                let mut s = String::from_str("(unknown-yet) info: initializing snake (length: ");
                push_decimal(&mut s, length as u64);
                s.append(", start_x: ");
                push_decimal(&mut s, start_x as u64);
                s.append(", start_y: ");
                push_decimal(&mut s, start_y as u64);
                s.append(")");
                s
            },
            Event::SnakeCreated => String::from_str("(unknown-yet) info: snake created"),
            Event::Resized => String::from_str("(unknown-yet) resize event detected"),
            Event::SnakeGrow { x, y } => {
                let mut s = String::from_str("(unknown-yet) info: snake.grow (x: ");
                push_decimal(&mut s, x as u64);
                s.append(", y: ");
                push_decimal(&mut s, y as u64);
                s.append(")");
                s
            },
            Event::SnakeForward { x, y } => {
                let mut s = String::from_str("(unknown-yet) info: snake.forward (x: ");
                push_decimal(&mut s, x as u64);
                s.append(", y: ");
                push_decimal(&mut s, y as u64);
                s.append(")");
                s
            },
            Event::SnakeTurn { direction } => {
                let mut s = String::from_str("(unknown-yet) info: snake.turn.direction::");
                s.append(direction.label());
                s
            },
        }
    }
}

/// The sending half of `tokio::sync::broadcast`'s channel, carried as it is.
#[verifier::external_type_specification]
#[verifier::external_body]
#[verifier::reject_recursive_types(T)]
pub struct ExSender<T>(Sender<T>);

/// What `tokio::sync::broadcast::Sender::send` hands back when it fails: the
/// value that found no receiver.
#[verifier::external_type_specification]
#[verifier::external_body]
#[verifier::reject_recursive_types(T)]
pub struct ExSendError<T>(SendError<T>);

/// Calls `tokio::sync::broadcast::Sender::send` with `message`.
///
/// Whether the send succeeds depends on the receivers that are subscribed at
/// that moment, so nothing is claimed of the outcome.
#[verifier::external_body]
fn send(tx: &Sender<String>, message: String) -> (outcome: Result<usize, SendError<String>>) {
    tx.send(message)
}

/// The count after one more: it stops at the largest number it can hold.
pub open spec fn counted(n: u64) -> u64 {
    if n < u64::MAX {
        (n + 1) as u64
    } else {
        n
    }
}

/// Where events go: a broadcast channel, with a record of what went into it.
pub struct EventSink {
    tx: Sender<String>,
    sent: Ghost<Seq<Event>>,
    lost: u64,
}

impl EventSink {
    /// Every event announced through this sink so far, oldest first.
    pub closed spec fn sent(&self) -> Seq<Event> {
        self.sent@
    }

    /// How many of them no receiver was there to take.
    pub closed spec fn lost(&self) -> u64 {
        self.lost
    }

    /// A sink on `tx` through which nothing has been announced yet.
    pub fn new(tx: Sender<String>) -> (sink: EventSink)
        ensures
            sink.sent() == Seq::<Event>::empty(),
            sink.lost() == 0,
    {
        EventSink { tx, sent: Ghost(Seq::empty()), lost: 0 }
    }

    /// Notes that `event` was announced and whether a receiver took it.
    fn record(&mut self, event: Event, delivered: bool)
        ensures
            final(self).sent() == old(self).sent().push(event),
            final(self).lost() == if delivered {
                old(self).lost()
            } else {
                counted(old(self).lost())
            },
    {
        if !delivered && self.lost < u64::MAX {
            self.lost = self.lost + 1;
        }
        self.sent = Ghost(self.sent@.push(event));
    }

    /// Announces `event`: renders it and hands the line to the channel.
    ///
    /// This never fails. A line that no receiver takes is dropped, and counted.
    pub fn emit(&mut self, event: Event)
        ensures
            final(self).sent() == old(self).sent().push(event),
            final(self).lost() == old(self).lost() || final(self).lost() == counted(
                old(self).lost(),
            ),
    {
        let delivered = match send(&self.tx, event.message()) {
            Ok(_) => true,
            Err(_) => false,
        };
        self.record(event, delivered);
    }

    /// How many announced events no receiver was there to take.
    pub fn dropped(&self) -> (n: u64)
        ensures
            n == self.lost(),
    {
        self.lost
    }
}

/// What the forwarding side got when it asked the channel for the next line.
pub enum Received {
    /// A line, as it was announced.
    Line(String),
    /// The receiver fell behind and this many lines were overwritten.
    Lagged(u64),
    /// The channel failed in some other way, described here.
    Failed(String),
}

/// The text that is forwarded for what was received.
pub open spec fn forwarded(received: Received) -> Seq<char> {
    match received {
        Received::Line(line) => line@,
        Received::Lagged(_) => "lagged"@,
        Received::Failed(why) => "error: "@ + why@,
    }
}

/// The text to forward for what was received: the line itself, a marker in
/// place of lines that were lost, or the description of a failure.
pub fn payload(received: Received) -> (text: String)
    ensures
        text@ == forwarded(received),
{
    match received {
        Received::Line(line) => line,
        Received::Lagged(_) => String::from_str("lagged"),
        Received::Failed(why) => {
            let mut text = String::from_str("error: ");
            text.append(why.as_str());
            text
        },
    }
}

} // verus!

//! The two tasks of an open connection. The reader takes one socket event at
//! a time and says what to do with it; the writer says which frames to send.
//! Whoever drives them reads the socket, fills the channel to the
//! application and reports back.

use crate::error::{ChannelClosedError, RelayIOError};
use vstd::prelude::*;

verus! {

/// One frame as it comes from or goes to the socket.
#[derive(Clone, Debug, PartialEq, Eq)]
pub enum Frame {
    Text(String),
    Binary(Vec<u8>),
    Ping(Vec<u8>),
    Pong(Vec<u8>),
    Close,
}

/// A frame as contracts see it.
pub enum FrameView {
    Text(Seq<char>),
    Binary(Seq<u8>),
    Ping(Seq<u8>),
    Pong(Seq<u8>),
    Close,
}

impl View for Frame {
    type V = FrameView;

    open spec fn view(&self) -> FrameView {
        match self {
            Frame::Text(text) => FrameView::Text(text@),
            Frame::Binary(bytes) => FrameView::Binary(bytes@),
            Frame::Ping(bytes) => FrameView::Ping(bytes@),
            Frame::Pong(bytes) => FrameView::Pong(bytes@),
            Frame::Close => FrameView::Close,
        }
    }
}

/// What reading the socket once can give.
#[derive(Clone, Debug, PartialEq, Eq)]
pub enum SocketEvent {
    /// The next frame.
    Frame(Frame),
    /// The read failed.
    Failed,
    /// No frame is left: the socket is at its end.
    Ended,
}

/// A socket event as contracts see it.
pub enum SocketEventView {
    Frame(FrameView),
    Failed,
    Ended,
}

impl View for SocketEvent {
    type V = SocketEventView;

    open spec fn view(&self) -> SocketEventView {
        match self {
            SocketEvent::Frame(frame) => SocketEventView::Frame(frame@),
            SocketEvent::Failed => SocketEventView::Failed,
            SocketEvent::Ended => SocketEventView::Ended,
        }
    }
}

/// What the application is handed from the connection.
#[derive(Clone, Debug, PartialEq, Eq)]
pub enum InboundMessage {
    Text(String),
    Binary(Vec<u8>),
    Close,
}

/// An inbound message as contracts see it.
pub enum MessageView {
    Text(Seq<char>),
    Binary(Seq<u8>),
    Close,
}

impl View for InboundMessage {
    type V = MessageView;

    open spec fn view(&self) -> MessageView {
        match self {
            InboundMessage::Text(text) => MessageView::Text(text@),
            InboundMessage::Binary(bytes) => MessageView::Binary(bytes@),
            InboundMessage::Close => MessageView::Close,
        }
    }
}

/// Why the reader stopped.
#[derive(Clone, Copy, Debug, PartialEq, Eq, Structural)]
pub enum Ending {
    /// The relay closed the connection with a close frame.
    Closed,
    /// The connection broke.
    Broken(RelayIOError),
    /// The application no longer listens.
    Unheard(ChannelClosedError),
}

/// Where the reader stands.
#[derive(Clone, Copy, Debug, PartialEq, Eq, Structural)]
pub enum BridgeState {
    /// The reader waits for the next socket event.
    Reading,
    /// The reader has handed out a message and waits to hear whether the
    /// channel took it. It reads nothing meanwhile.
    Delivering,
    /// The reader has stopped for good.
    Stopped(Ending),
}

/// What the reader wants done next.
#[derive(Clone, Debug, PartialEq, Eq)]
pub enum BridgeAction {
    /// Read the socket.
    Read,
    /// Put the message into the channel, waiting for room where there is
    /// none, and report whether the channel took it.
    Deliver(InboundMessage),
    /// Put the message into the channel if there is room right now, then end
    /// the task.
    DeliverLast(InboundMessage),
    /// End the task.
    Stop,
}

/// An action as contracts see it.
pub enum ActionView {
    Read,
    Deliver(MessageView),
    DeliverLast(MessageView),
    Stop,
}

impl View for BridgeAction {
    type V = ActionView;

    open spec fn view(&self) -> ActionView {
        match self {
            BridgeAction::Read => ActionView::Read,
            BridgeAction::Deliver(message) => ActionView::Deliver(message@),
            BridgeAction::DeliverLast(message) => ActionView::DeliverLast(message@),
            BridgeAction::Stop => ActionView::Stop,
        }
    }
}

/// What a reader that waits for the socket makes of an event: text and
/// binary frames go to the application, pings and pongs are passed over, a
/// close frame and the end of the socket are announced to the application
/// and end the task, a failed read ends it at once.
pub open spec fn on_socket(event: SocketEventView) -> (BridgeState, ActionView) {
    match event {
        SocketEventView::Frame(FrameView::Text(text)) => (
            BridgeState::Delivering,
            ActionView::Deliver(MessageView::Text(text)),
        ),
        SocketEventView::Frame(FrameView::Binary(bytes)) => (
            BridgeState::Delivering,
            ActionView::Deliver(MessageView::Binary(bytes)),
        ),
        SocketEventView::Frame(FrameView::Ping(_)) => (BridgeState::Reading, ActionView::Read),
        SocketEventView::Frame(FrameView::Pong(_)) => (BridgeState::Reading, ActionView::Read),
        SocketEventView::Frame(FrameView::Close) => (
            BridgeState::Stopped(Ending::Closed),
            ActionView::DeliverLast(MessageView::Close),
        ),
        SocketEventView::Ended => (
            BridgeState::Stopped(Ending::Broken(RelayIOError::UnexpectedClose)),
            ActionView::DeliverLast(MessageView::Close),
        ),
        SocketEventView::Failed => (
            BridgeState::Stopped(Ending::Broken(RelayIOError::Read)),
            ActionView::Stop,
        ),
    }
}

/// What a reader that waits for the channel makes of the channel's answer:
/// it reads on where the message was taken, and stops where the application
/// no longer listens.
pub open spec fn on_delivery(taken: bool) -> (BridgeState, ActionView) {
    if taken {
        (BridgeState::Reading, ActionView::Read)
    } else {
        (BridgeState::Stopped(Ending::Unheard(ChannelClosedError)), ActionView::Stop)
    }
}

/// The reader of a connection's inbound side.
#[derive(Debug)]
pub struct InboundBridge {
    state: BridgeState,
}

impl View for InboundBridge {
    type V = BridgeState;

    closed spec fn view(&self) -> BridgeState {
        self.state
    }
}

impl InboundBridge {
    /// A reader that waits for the first socket event.
    pub fn new() -> (bridge: InboundBridge)
        ensures
            bridge@ == BridgeState::Reading,
    {
        InboundBridge { state: BridgeState::Reading }
    }

    /// Where the reader stands.
    pub fn state(&self) -> (state: BridgeState)
        ensures
            state == self@,
    {
        self.state
    }

    /// Takes what reading the socket gave. A reader that has stopped stays
    /// stopped and asks for nothing more.
    pub fn receive_messages(&mut self, event: SocketEvent) -> (action: BridgeAction)
        requires
            old(self)@ != BridgeState::Delivering,
        ensures
            (final(self)@, action@) == if old(self)@ == BridgeState::Reading {
                on_socket(event@)
            } else {
                (old(self)@, ActionView::Stop)
            },
    {
        match self.state {
            BridgeState::Reading => {},
            _ => {
                return BridgeAction::Stop;
            },
        }
        match event {
            SocketEvent::Frame(Frame::Text(text)) => {
                self.state = BridgeState::Delivering;
                BridgeAction::Deliver(InboundMessage::Text(text))
            },
            SocketEvent::Frame(Frame::Binary(bytes)) => {
                self.state = BridgeState::Delivering;
                BridgeAction::Deliver(InboundMessage::Binary(bytes))
            },
            SocketEvent::Frame(Frame::Ping(_)) => BridgeAction::Read,
            SocketEvent::Frame(Frame::Pong(_)) => BridgeAction::Read,
            SocketEvent::Frame(Frame::Close) => {
                self.state = BridgeState::Stopped(Ending::Closed);
                BridgeAction::DeliverLast(InboundMessage::Close)
            },
            SocketEvent::Ended => {
                self.state = BridgeState::Stopped(Ending::Broken(RelayIOError::UnexpectedClose));
                BridgeAction::DeliverLast(InboundMessage::Close)
            },
            SocketEvent::Failed => {
                self.state = BridgeState::Stopped(Ending::Broken(RelayIOError::Read));
                BridgeAction::Stop
            },
        }
    }

    /// Takes the channel's answer to the message that was handed out last:
    /// `taken` says whether the message is in the channel. A reader that has
    /// stopped stays stopped and asks for nothing more.
    pub fn delivered(&mut self, taken: bool) -> (action: BridgeAction)
        requires
            old(self)@ != BridgeState::Reading,
        ensures
            (final(self)@, action@) == if old(self)@ == BridgeState::Delivering {
                on_delivery(taken)
            } else {
                (old(self)@, ActionView::Stop)
            },
    {
        match self.state {
            BridgeState::Delivering => {},
            _ => {
                return BridgeAction::Stop;
            },
        }
        if taken {
            self.state = BridgeState::Reading;
            BridgeAction::Read
        } else {
            self.state = BridgeState::Stopped(Ending::Unheard(ChannelClosedError));
            BridgeAction::Stop
        }
    }
}

/// The text of the frame that greets the relay.
pub const GREETING: &'static str = "Hello, WebSocket Server!";

/// The frames that the writer sends once the connection stands: one text
/// frame that greets the relay.
pub fn send_messages() -> (frames: Vec<Frame>)
    ensures
        frames.len() == 1,
        frames[0]@ == FrameView::Text(GREETING@),
{
    let mut frames: Vec<Frame> = Vec::new();
    frames.push(Frame::Text(String::from_str(GREETING)));
    frames
}

/// What the writer makes of the end of one write: a failed write ends the
/// task.
pub fn written(sent: bool) -> (outcome: Result<(), RelayIOError>)
    ensures
        outcome == if sent {
            Ok::<(), RelayIOError>(())
        } else {
            Err::<(), RelayIOError>(RelayIOError::Write)
        },
{
    if sent {
        Ok(())
    } else {
        Err(RelayIOError::Write)
    }
}

/// What the application reports of a message that is no text.
pub const NON_TEXT_NOTICE: &'static str = "Received non-text message";

/// What the application reports of an inbound message: nothing of a text,
/// one line of anything else.
pub fn listen_for_messages(message: &InboundMessage) -> (notice: Option<&'static str>)
    ensures
        match notice {
            None => message@ is Text,
            Some(line) => !(message@ is Text) && line@ == NON_TEXT_NOTICE@,
        },
{
    match message {
        InboundMessage::Text(_) => None,
        _ => Some(NON_TEXT_NOTICE),
    }
}

} // verus!

//! The reader put together with the channel that it fills and the
//! application that empties the channel: a model of how the three move, and
//! what holds of every way in which they can.

use crate::bridge::{on_delivery, on_socket, ActionView, BridgeState, MessageView, SocketEventView};
use crate::service::INBOUND_CAPACITY;
use vstd::prelude::*;

verus! {

/// The reader, the channel and the application at one moment.
pub struct Pipeline {
    /// Where the reader stands.
    pub reader: BridgeState,
    /// The message that the reader has handed out and the channel has not
    /// taken yet.
    pub held: Option<MessageView>,
    /// The messages that wait in the channel, oldest first.
    pub channel: Seq<MessageView>,
    /// Whether the application still holds its end of the channel.
    pub listening: bool,
    /// The messages that the application has taken out, oldest first.
    pub received: Seq<MessageView>,
    /// The messages that the reader has handed out since the connection
    /// stands, oldest first, but for a last one that found no room.
    pub forwarded: Seq<MessageView>,
}

/// One move of the reader, the channel or the application.
pub enum Move {
    /// The socket gives the reader an event.
    Socket(SocketEventView),
    /// The message that the reader holds out goes into the channel, or is
    /// found to have no listener.
    Hand,
    /// The application takes the oldest message out of the channel.
    Take,
    /// The application lets go of its end of the channel.
    HangUp,
}

/// The pipeline of a connection that has just been opened.
pub open spec fn opened() -> Pipeline {
    Pipeline {
        reader: BridgeState::Reading,
        held: None,
        channel: Seq::empty(),
        listening: true,
        received: Seq::empty(),
        forwarded: Seq::empty(),
    }
}

/// Whether a move can be made. The reader takes a socket event only while it
/// waits for one. A message goes into a channel that is listened to only
/// while fewer than `INBOUND_CAPACITY` messages wait there: until then the
/// reader is held up.
pub open spec fn can(p: Pipeline, m: Move) -> bool {
    match m {
        Move::Socket(_) => p.reader == BridgeState::Reading,
        Move::Hand => p.reader == BridgeState::Delivering && p.held is Some && (!p.listening
            || p.channel.len() < INBOUND_CAPACITY),
        Move::Take => p.listening && p.channel.len() > 0,
        Move::HangUp => p.listening,
    }
}

/// The pipeline after a move. A move that cannot be made changes nothing.
pub open spec fn after(p: Pipeline, m: Move) -> Pipeline {
    if !can(p, m) {
        p
    } else {
        match m {
            Move::Socket(event) => {
                let (reader, action) = on_socket(event);
                match action {
                    ActionView::Deliver(message) => Pipeline {
                        reader,
                        held: Some(message),
                        forwarded: p.forwarded.push(message),
                        ..p
                    },
                    ActionView::DeliverLast(message) => {
                        if p.listening && p.channel.len() < INBOUND_CAPACITY {
                            Pipeline {
                                reader,
                                channel: p.channel.push(message),
                                forwarded: p.forwarded.push(message),
                                ..p
                            }
                        } else {
                            Pipeline { reader, ..p }
                        }
                    },
                    _ => Pipeline { reader, ..p },
                }
            },
            Move::Hand => {
                if p.listening {
                    Pipeline {
                        reader: on_delivery(true).0,
                        held: None,
                        channel: p.channel.push(p.held->0),
                        ..p
                    }
                } else {
                    Pipeline { reader: on_delivery(false).0, held: None, ..p }
                }
            },
            Move::Take => Pipeline {
                channel: p.channel.drop_first(),
                received: p.received.push(p.channel.first()),
                ..p
            },
            Move::HangUp => Pipeline { listening: false, channel: Seq::empty(), ..p },
        }
    }
}

/// The pipeline after a row of moves.
pub open spec fn after_all(p: Pipeline, moves: Seq<Move>) -> Pipeline
    decreases moves.len(),
{
    if moves.len() == 0 {
        p
    } else {
        after(after_all(p, moves.drop_last()), moves.last())
    }
}

/// The message that the reader holds out, as a row of none or one.
pub open spec fn held_row(p: Pipeline) -> Seq<MessageView> {
    match p.held {
        Some(message) => seq![message],
        None => Seq::empty(),
    }
}

/// What holds of a pipeline at every moment: the channel is never over its
/// capacity; the reader holds a message out exactly while it waits for the
/// channel; the application has received the first of what was forwarded,
/// in that order; and as long as it listens, what it has not received yet
/// waits in the channel or with the reader, in that order.
pub open spec fn sound(p: Pipeline) -> bool {
    &&& p.channel.len() <= INBOUND_CAPACITY
    &&& (p.reader == BridgeState::Delivering <==> p.held is Some)
    &&& p.received.is_prefix_of(p.forwarded)
    &&& p.listening ==> p.forwarded == p.received + p.channel + held_row(p)
}

/// No move breaks what holds of a pipeline.
pub proof fn lemma_move_keeps_sound(p: Pipeline, m: Move)
    requires
        sound(p),
    ensures
        sound(after(p, m)),
{
    let q = after(p, m);
    if can(p, m) {
        match m {
            Move::Socket(event) => {
                let (reader, action) = on_socket(event);
                assert(held_row(p) =~= Seq::<MessageView>::empty());
                match action {
                    ActionView::Deliver(message) => {
                        assert(held_row(q) =~= seq![message]);
                        if p.listening {
                            assert(q.forwarded =~= q.received + q.channel + held_row(q));
                        }
                    },
                    ActionView::DeliverLast(message) => {
                        assert(held_row(q) =~= Seq::<MessageView>::empty());
                        if p.listening {
                            assert(q.forwarded =~= q.received + q.channel + held_row(q));
                        }
                    },
                    _ => {},
                }
            },
            Move::Hand => {
                assert(held_row(p) =~= seq![p.held->0]);
                assert(held_row(q) =~= Seq::<MessageView>::empty());
                if p.listening {
                    assert(q.forwarded =~= q.received + q.channel + held_row(q));
                }
            },
            Move::Take => {
                assert(q.forwarded =~= q.received + q.channel + held_row(q));
                assert(q.received.is_prefix_of(q.forwarded));
            },
            Move::HangUp => {},
        }
    }
}

/// Whatever the socket, the channel and the application do once a
/// connection stands: no message is lost or overtaken on its way to an
/// application that listens, and never do more than `INBOUND_CAPACITY`
/// messages wait in the channel.
pub proof fn lemma_nothing_is_lost(moves: Seq<Move>)
    ensures
        sound(after_all(opened(), moves)),
    decreases moves.len(),
{
    if moves.len() == 0 {
        assert(opened().forwarded =~= opened().received + opened().channel + held_row(opened()));
    } else {
        lemma_nothing_is_lost(moves.drop_last());
        lemma_move_keeps_sound(after_all(opened(), moves.drop_last()), moves.last());
    }
}

/// With a full channel the reader is held up: the message that it holds out
/// stays with it, it takes no event from the socket, and nothing in the
/// channel is overwritten. Once the application has taken one message, the
/// held message goes in, behind all that waited before it.
pub proof fn lemma_full_channel_holds_the_reader_up(p: Pipeline, event: SocketEventView)
    requires
        sound(p),
        p.listening,
        p.channel.len() == INBOUND_CAPACITY,
        p.held is Some,
    ensures
        !can(p, Move::Hand),
        !can(p, Move::Socket(event)),
        after(p, Move::Hand) == p,
        after(p, Move::Socket(event)) == p,
        can(p, Move::Take),
        can(after(p, Move::Take), Move::Hand),
        after(after(p, Move::Take), Move::Hand).channel == p.channel.drop_first().push(p.held->0),
        after(after(p, Move::Take), Move::Hand).held is None,
        after(after(p, Move::Take), Move::Hand).reader == BridgeState::Reading,
{
}

/// Once the application has let go of the channel, the reader finds out with
/// the next message that it hands out, and stops.
pub proof fn lemma_unheard_reader_stops(p: Pipeline, event: SocketEventView)
    requires
        sound(p),
        !p.listening,
    ensures
        p.reader == BridgeState::Delivering ==> can(p, Move::Hand) && after(p, Move::Hand).reader
            is Stopped,
        p.reader == BridgeState::Reading && after(p, Move::Socket(event)).reader
            == BridgeState::Delivering ==> after(after(p, Move::Socket(event)), Move::Hand).reader
            is Stopped,
{
}

/// A reader that has stopped stays stopped, and hands out nothing more.
pub proof fn lemma_stopped_reader_hands_out_nothing(p: Pipeline, m: Move)
    requires
        sound(p),
        p.reader is Stopped,
    ensures
        after(p, m).reader == p.reader,
        after(p, m).held is None,
        after(p, m).forwarded == p.forwarded,
{
}

} // verus!

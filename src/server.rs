//! Per-connection state machine of the authoritative server.
//!
//! Each accepted socket owns one `Connection`. The socket loop reads a control
//! message, hands it over as an event, and performs the action that comes
//! back: write the reply, or shut the socket down.
use vstd::prelude::*;
use crate::codec::{controls_of, decode_control, encode_position, position_bytes};
use crate::physics::{spawned, tick, ticked, Controls, Player};

verus! {

/// What happened on a connection's socket.
#[derive(Debug)]
pub enum HandlerEvent {
    /// A complete control message arrived.
    Received(Vec<u8>),
    /// Reading failed or the peer closed the stream.
    ReadFailed,
    /// Writing the reply failed.
    WriteFailed,
}

/// What the socket loop does next.
#[derive(Clone, Copy, Debug)]
pub enum HandlerAction {
    /// Write this position message and wait for the next control message.
    Reply([u8; 6]),
    /// Shut down both halves of the socket and end the handler.
    Disconnect,
}

/// One connected player, owned by its connection alone.
#[derive(Clone, Copy, Debug, PartialEq, Eq, Structural)]
pub struct Connection {
    pub player: Player,
    /// False once the socket has failed; a closed connection stays closed.
    pub open: bool,
}

/// The controls the server applies for a control message: only the left flag
/// is consulted; right and jump are accepted on the wire and ignored.
pub open spec fn applied_controls(msg: Seq<u8>) -> Controls {
    Controls { left: controls_of(msg).left, right: false, jump: false }
}

/// A freshly accepted connection.
pub open spec fn accepted(id: u32) -> Connection {
    Connection { player: spawned(id), open: true }
}

/// The state of a connection after one event.
pub open spec fn stepped(c: Connection, e: HandlerEvent) -> Connection {
    if !c.open {
        c
    } else {
        match e {
            HandlerEvent::Received(msg) => Connection {
                player: ticked(c.player, applied_controls(msg@)),
                open: true,
            },
            _ => Connection { player: c.player, open: false },
        }
    }
}

/// Whether an event on a connection is answered with a reply.
pub open spec fn replies(c: Connection, e: HandlerEvent) -> bool {
    c.open && e is Received
}

/// The state of a connection after a sequence of its events.
pub open spec fn run_connection(c: Connection, events: Seq<HandlerEvent>) -> Connection
    decreases events.len(),
{
    if events.len() == 0 {
        c
    } else {
        stepped(run_connection(c, events.drop_last()), events.last())
    }
}

/// The events of an interleaving that carry the given tag, in order.
pub open spec fn events_tagged(t: Seq<(bool, HandlerEvent)>, tag: bool) -> Seq<HandlerEvent>
    decreases t.len(),
{
    if t.len() == 0 {
        Seq::empty()
    } else if t.last().0 == tag {
        events_tagged(t.drop_last(), tag).push(t.last().1)
    } else {
        events_tagged(t.drop_last(), tag)
    }
}

/// Two connections driven by one interleaving of events: an event tagged
/// `true` goes to the first connection, one tagged `false` to the second.
pub open spec fn run_pair(a: Connection, b: Connection, t: Seq<(bool, HandlerEvent)>) -> (
    Connection,
    Connection,
)
    decreases t.len(),
{
    if t.len() == 0 {
        (a, b)
    } else {
        let (a1, b1) = run_pair(a, b, t.drop_last());
        if t.last().0 {
            (stepped(a1, t.last().1), b1)
        } else {
            (a1, stepped(b1, t.last().1))
        }
    }
}

impl Connection {
    /// The state of a newly accepted socket: an open connection whose player
    /// stands at the spawn point.
    pub fn accept(id: u32) -> (r: Connection)
        ensures
            r == accepted(id),
    {
        Connection { player: Player::spawn(id), open: true }
    }

    /// Handles one socket event. A control message ticks this connection's
    /// player with its left flag and answers with the new position; a socket
    /// failure closes the connection for good.
    pub fn on_event(&mut self, event: &HandlerEvent) -> (r: HandlerAction)
        ensures
            *final(self) == stepped(*old(self), *event),
            replies(*old(self), *event) ==> (r matches HandlerAction::Reply(b) && b@
                == position_bytes(final(self).player.x as int, final(self).player.y as int)),
            !replies(*old(self), *event) ==> r is Disconnect,
    {
        if !self.open {
            return HandlerAction::Disconnect;
        }
        match event {
            HandlerEvent::Received(msg) => {
                let decoded = decode_control(msg.as_slice());
                let applied = Controls { left: decoded.left, right: false, jump: false };
                tick(&mut self.player, &applied);
                HandlerAction::Reply(encode_position(self.player.x, self.player.y))
            },
            _ => {
                self.open = false;
                HandlerAction::Disconnect
            },
        }
    }
}

/// Connections never see each other's state: however the events of two
/// connections interleave, each ends exactly where its own events alone
/// would have taken it.
pub proof fn lemma_connections_isolated(
    a: Connection,
    b: Connection,
    t: Seq<(bool, HandlerEvent)>,
)
    ensures
        run_pair(a, b, t) == (run_connection(a, events_tagged(t, true)), run_connection(
            b,
            events_tagged(t, false),
        )),
    decreases t.len(),
{
    if t.len() > 0 {
        lemma_connections_isolated(a, b, t.drop_last());
        let e = t.last().1;
        let ta = events_tagged(t.drop_last(), true);
        let tb = events_tagged(t.drop_last(), false);
        assert(ta.push(e).drop_last() =~= ta);
        assert(tb.push(e).drop_last() =~= tb);
    }
}

} // verus!

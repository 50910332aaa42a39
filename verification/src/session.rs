//! Per-connection session protocol: one duplex session multiplexes "status
//! changed" wake-ups against inbound control frames. A ping is answered with
//! a pong carrying the same payload, a close (or a broken stream) shuts the
//! session down exactly once, and a status wake-up pushes the latest
//! serialized snapshot. Each session is an independent value: stepping one
//! touches no other.
use vstd::prelude::*;

use crate::status::{StatusCell, StatusCellModel, StatusReader};

verus! {

/// An inbound control frame from the client.
pub enum Frame {
    Ping(Vec<u8>),
    Pong(Vec<u8>),
    Close,
    Binary(Vec<u8>),
    Text(String),
}

/// The mathematical content of a control frame.
pub enum FrameModel {
    Ping(Seq<u8>),
    Pong(Seq<u8>),
    Close,
    Binary(Seq<u8>),
    Text(Seq<char>),
}

impl View for Frame {
    type V = FrameModel;

    open spec fn view(&self) -> FrameModel {
        match self {
            Frame::Ping(p) => FrameModel::Ping(p@),
            Frame::Pong(p) => FrameModel::Pong(p@),
            Frame::Close => FrameModel::Close,
            Frame::Binary(b) => FrameModel::Binary(b@),
            Frame::Text(t) => FrameModel::Text(t@),
        }
    }
}

/// One of the two wake-ups a session reacts to, or the end of the inbound
/// stream (peer gone or transport error).
pub enum SessionEvent {
    StatusChanged,
    Inbound(Frame),
    StreamEnded,
}

/// The mathematical content of a session event.
pub enum SessionEventModel {
    StatusChanged,
    Inbound(FrameModel),
    StreamEnded,
}

impl View for SessionEvent {
    type V = SessionEventModel;

    open spec fn view(&self) -> SessionEventModel {
        match self {
            SessionEvent::StatusChanged => SessionEventModel::StatusChanged,
            SessionEvent::Inbound(f) => SessionEventModel::Inbound(f@),
            SessionEvent::StreamEnded => SessionEventModel::StreamEnded,
        }
    }
}

/// What the transport must do in reaction to one event: push the serialized
/// snapshot as a text frame, answer a ping, gracefully close the connection,
/// or nothing.
pub enum SessionAction {
    PushStatus(String),
    SendPong(Vec<u8>),
    Shutdown,
    Ignore,
}

/// The mathematical content of a session action.
pub enum SessionActionModel {
    PushStatus(Seq<char>),
    SendPong(Seq<u8>),
    Shutdown,
    Ignore,
}

impl View for SessionAction {
    type V = SessionActionModel;

    open spec fn view(&self) -> SessionActionModel {
        match self {
            SessionAction::PushStatus(s) => SessionActionModel::PushStatus(s@),
            SessionAction::SendPong(p) => SessionActionModel::SendPong(p@),
            SessionAction::Shutdown => SessionActionModel::Shutdown,
            SessionAction::Ignore => SessionActionModel::Ignore,
        }
    }
}

/// The mathematical state of one session: whether it is still open, and the
/// cell version its reader has last observed.
pub struct SessionModel {
    pub open: bool,
    pub seen: nat,
}

/// How a session reacts to one event: the successor state and the action
/// owed to the transport. A closed session reacts to nothing.
pub open spec fn session_step(s: SessionModel, cell: StatusCellModel, ev: SessionEventModel) -> (
    SessionModel,
    SessionActionModel,
) {
    if !s.open {
        (s, SessionActionModel::Ignore)
    } else {
        match ev {
            SessionEventModel::StatusChanged => if s.seen != cell.version {
                (
                    SessionModel { open: true, seen: cell.version },
                    SessionActionModel::PushStatus(cell.value),
                )
            } else {
                (s, SessionActionModel::Ignore)
            },
            SessionEventModel::Inbound(FrameModel::Ping(p)) => (
                s,
                SessionActionModel::SendPong(p),
            ),
            SessionEventModel::Inbound(FrameModel::Pong(_)) => (s, SessionActionModel::Ignore),
            SessionEventModel::Inbound(FrameModel::Close) => (
                SessionModel { open: false, ..s },
                SessionActionModel::Shutdown,
            ),
            SessionEventModel::Inbound(FrameModel::Binary(_)) => (s, SessionActionModel::Ignore),
            SessionEventModel::Inbound(FrameModel::Text(_)) => (s, SessionActionModel::Ignore),
            SessionEventModel::StreamEnded => (
                SessionModel { open: false, ..s },
                SessionActionModel::Shutdown,
            ),
        }
    }
}

/// One live session: open until the peer closes or the stream ends, holding
/// an independent reader subscribed to the status cell.
pub struct Session {
    open: bool,
    reader: StatusReader,
}

impl View for Session {
    type V = SessionModel;

    closed spec fn view(&self) -> SessionModel {
        SessionModel { open: self.open, seen: self.reader@ }
    }
}

impl Session {
    /// A newly upgraded connection: open, subscribed at the cell's present
    /// value, so the first push reflects the first change after
    /// subscription.
    pub fn new(cell: &StatusCell) -> (r: Session)
        ensures
            r@.open,
            r@.seen == cell@.version,
    {
        Session { open: true, reader: StatusReader::subscribe(cell) }
    }

    /// Whether the session loop should keep running.
    pub fn is_open(&self) -> (r: bool)
        ensures
            r == self@.open,
    {
        self.open
    }

    /// React to one event: behaves exactly as the session state machine
    /// prescribes.
    pub fn step(&mut self, cell: &StatusCell, event: SessionEvent) -> (a: SessionAction)
        ensures
            (final(self)@, a@) == session_step(old(self)@, cell@, event@),
    {
        if !self.open {
            return SessionAction::Ignore;
        }
        match event {
            SessionEvent::StatusChanged => match self.reader.poll(cell) {
                Some(v) => SessionAction::PushStatus(v),
                None => SessionAction::Ignore,
            },
            SessionEvent::Inbound(frame) => match frame {
                Frame::Ping(p) => SessionAction::SendPong(p),
                Frame::Pong(_) => SessionAction::Ignore,
                Frame::Close => {
                    self.open = false;
                    SessionAction::Shutdown
                },
                Frame::Binary(_) => SessionAction::Ignore,
                Frame::Text(_) => SessionAction::Ignore,
            },
            SessionEvent::StreamEnded => {
                self.open = false;
                SessionAction::Shutdown
            },
        }
    }
}

/// The session state and the actions emitted after reacting, in order, to a
/// sequence of events, each paired with the cell state at the moment it was
/// handled.
pub open spec fn session_run(
    s: SessionModel,
    evs: Seq<(StatusCellModel, SessionEventModel)>,
) -> (SessionModel, Seq<SessionActionModel>)
    decreases evs.len(),
{
    if evs.len() == 0 {
        (s, Seq::empty())
    } else {
        let first = session_step(s, evs.first().0, evs.first().1);
        let rest = session_run(first.0, evs.drop_first());
        (rest.0, seq![first.1] + rest.1)
    }
}

/// Whether an event ends the session: a peer-initiated close or the end of
/// the inbound stream.
pub open spec fn is_terminal(ev: SessionEventModel) -> bool {
    ev matches SessionEventModel::Inbound(FrameModel::Close) || ev is StreamEnded
}

/// Whether some event in the sequence ends the session.
pub open spec fn has_terminal(evs: Seq<(StatusCellModel, SessionEventModel)>) -> bool {
    exists|i: int| 0 <= i < evs.len() && is_terminal(#[trigger] evs[i].1)
}

/// How many of the actions shut the connection down.
pub open spec fn shutdown_count(actions: Seq<SessionActionModel>) -> nat
    decreases actions.len(),
{
    if actions.len() == 0 {
        0
    } else {
        (if actions.first() is Shutdown {
            1nat
        } else {
            0nat
        }) + shutdown_count(actions.drop_first())
    }
}

/// Every event gets exactly one action, in the order the events arrived: the
/// i-th action answers the i-th event, so a pong is sent before anything
/// reacting to a later wake-up.
pub proof fn lemma_one_action_per_event(
    s: SessionModel,
    evs: Seq<(StatusCellModel, SessionEventModel)>,
)
    ensures
        session_run(s, evs).1.len() == evs.len(),
    decreases evs.len(),
{
    if evs.len() > 0 {
        lemma_one_action_per_event(session_step(s, evs.first().0, evs.first().1).0, evs.drop_first());
    }
}

/// The graceful-shutdown law: a run shuts the connection down exactly once
/// if the session was open and some event ended it, and never otherwise — a
/// second close or a broken stream after the first never shuts down again.
pub proof fn lemma_exactly_one_shutdown(
    s: SessionModel,
    evs: Seq<(StatusCellModel, SessionEventModel)>,
)
    ensures
        shutdown_count(session_run(s, evs).1) == (if s.open && has_terminal(evs) {
            1nat
        } else {
            0nat
        }),
    decreases evs.len(),
{
    if evs.len() > 0 {
        let first = session_step(s, evs.first().0, evs.first().1);
        lemma_exactly_one_shutdown(first.0, evs.drop_first());
        let actions = session_run(s, evs).1;
        assert(actions.first() == first.1);
        assert(actions.drop_first() =~= session_run(first.0, evs.drop_first()).1);
        if !s.open {
            assert(first.0 == s);
            assert(first.1 == SessionActionModel::Ignore);
        } else if is_terminal(evs.first().1) {
            assert(has_terminal(evs)) by {
                assert(is_terminal(evs[0].1));
            }
            assert(!first.0.open);
        } else {
            assert(first.1 !is Shutdown);
            assert(first.0.open == s.open);
            assert(has_terminal(evs) == has_terminal(evs.drop_first())) by {
                if has_terminal(evs) {
                    let i = choose|i: int| 0 <= i < evs.len() && is_terminal(evs[i].1);
                    assert(i != 0);
                    assert(evs.drop_first()[i - 1] == evs[i]);
                    assert(is_terminal(evs.drop_first()[i - 1].1));
                }
                if has_terminal(evs.drop_first()) {
                    let i = choose|i: int|
                        0 <= i < evs.drop_first().len() && is_terminal(evs.drop_first()[i].1);
                    assert(evs[i + 1] == evs.drop_first()[i]);
                    assert(is_terminal(evs[i + 1].1));
                }
            }
        }
    }
}

/// The pong payloads emitted, in order.
pub open spec fn pong_payloads(actions: Seq<SessionActionModel>) -> Seq<Seq<u8>>
    decreases actions.len(),
{
    if actions.len() == 0 {
        Seq::empty()
    } else {
        match actions.first() {
            SessionActionModel::SendPong(p) => seq![p] + pong_payloads(actions.drop_first()),
            _ => pong_payloads(actions.drop_first()),
        }
    }
}

/// The ping payloads received while the session is still open, in order,
/// tracking how the session state evolves along the events.
pub open spec fn open_ping_payloads(
    s: SessionModel,
    evs: Seq<(StatusCellModel, SessionEventModel)>,
) -> Seq<Seq<u8>>
    decreases evs.len(),
{
    if evs.len() == 0 {
        Seq::empty()
    } else {
        let rest = open_ping_payloads(
            session_step(s, evs.first().0, evs.first().1).0,
            evs.drop_first(),
        );
        if s.open {
            match evs.first().1 {
                SessionEventModel::Inbound(FrameModel::Ping(p)) => seq![p] + rest,
                _ => rest,
            }
        } else {
            rest
        }
    }
}

/// The ping round-trip law: over any run, the pongs sent are exactly the
/// pings received while the session was open — one pong per ping, carrying
/// the same payload, in the same order.
pub proof fn lemma_ping_pong_round_trip(
    s: SessionModel,
    evs: Seq<(StatusCellModel, SessionEventModel)>,
)
    ensures
        pong_payloads(session_run(s, evs).1) == open_ping_payloads(s, evs),
    decreases evs.len(),
{
    if evs.len() > 0 {
        let first = session_step(s, evs.first().0, evs.first().1);
        lemma_ping_pong_round_trip(first.0, evs.drop_first());
        let actions = session_run(s, evs).1;
        assert(actions.first() == first.1);
        assert(actions.drop_first() =~= session_run(first.0, evs.drop_first()).1);
        match evs.first().1 {
            SessionEventModel::Inbound(FrameModel::Ping(p)) => {
                if s.open {
                    assert(first.1 == SessionActionModel::SendPong(p));
                } else {
                    assert(first.1 !is SendPong);
                }
            },
            _ => {
                assert(first.1 !is SendPong);
            },
        }
    }
}

} // verus!

//! Pairing synchronous requests with their replies while notifications flow
//! on the same stream.
//!
//! This is the decision half of the connection: the state of the single
//! ticket slot and what each incoming frame means for it. Whoever owns the
//! transport feeds it frames, decode failures and timeouts, and carries out
//! the actions it returns.
use crate::cmd;
use crate::cmd::error::Error;
use crate::serde_znp::{decode_fails, decodes_to};
use crate::sreq::Sreq;
use crate::znp_codec::{Frame, Subsys, Type, ZpiCmd};
use vstd::prelude::*;

verus! {

/// Why a synchronous request produced no response.
#[derive(Debug, Clone, Copy, PartialEq, Eq, Structural)]
pub enum SreqError {
    /// The reply arrived but its payload does not decode.
    BadResponse(Error),
    /// The receive side has stopped: the connection is lost.
    SerialPortGone,
    /// No matching reply arrived in time.
    TimedOut,
    /// The transport refused the request bytes.
    IO,
    /// Another synchronous request is still waiting for its reply.
    Busy,
}

/// Why an asynchronous command was not sent.
#[derive(Debug, Clone, Copy, PartialEq, Eq, Structural)]
pub enum AreqError {
    /// The transport refused the command bytes.
    IO,
}

/// The key a reply must carry to answer the request in flight.
#[derive(Debug, Clone, Copy, PartialEq, Eq, Structural)]
pub struct Ticket {
    pub subsys: Subsys,
    pub cmd_id: u8,
}

/// The state of a connection.
#[derive(Debug, Clone, Copy, PartialEq, Eq, Structural)]
pub enum LinkState {
    /// No request in flight.
    Idle,
    /// One request sent; its ticket is outstanding.
    Awaiting(Ticket),
    /// The stream desynchronised or broke the protocol: every waiter sees
    /// the connection as lost.
    Closed,
}

/// What the receive side does with one incoming frame.
#[derive(Debug)]
pub enum Action {
    /// Hand the frame to the waiting request.
    Reply(ZpiCmd),
    /// A reply nobody waits for (late, or for another key): drop it.
    Stale(ZpiCmd),
    /// Forward the classified notification to the subscribers.
    Notify(cmd::Areq),
    /// A notification the registry does not know: log it and go on.
    Unclassified(Error),
    /// An inbound POLL or SREQ: the connection is over.
    Fatal,
}

/// `f` answers ticket `t`.
pub open spec fn answers(t: Ticket, f: Frame) -> bool {
    f.typ == Type::SRSP && f.subsys == t.subsys && f.cmd_id == t.cmd_id
}

/// The state after frame `f` arrives in state `s`.
pub open spec fn next_state(s: LinkState, f: Frame) -> LinkState {
    match s {
        LinkState::Closed => LinkState::Closed,
        LinkState::Awaiting(t) => if answers(t, f) {
            LinkState::Idle
        } else if f.typ == Type::SRSP || f.typ == Type::AREQ {
            s
        } else {
            LinkState::Closed
        },
        LinkState::Idle => if f.typ == Type::SRSP || f.typ == Type::AREQ {
            s
        } else {
            LinkState::Closed
        },
    }
}

/// The state after the frames `fs` arrive one by one in state `s`.
pub open spec fn after(s: LinkState, fs: Seq<Frame>) -> LinkState
    decreases fs.len(),
{
    if fs.len() == 0 {
        s
    } else {
        next_state(after(s, fs.drop_last()), fs.last())
    }
}

/// The state after a request registers ticket `t`; only an idle
/// connection accepts one.
pub open spec fn begun(s: LinkState, t: Ticket) -> LinkState {
    if s == LinkState::Idle {
        LinkState::Awaiting(t)
    } else {
        s
    }
}

/// The state after the request in flight times out.
pub open spec fn expired(s: LinkState) -> LinkState {
    if s is Awaiting {
        LinkState::Idle
    } else {
        s
    }
}

/// `a` is the right action for frame `f` in state `s`.
pub open spec fn acts_on(s: LinkState, f: Frame, a: Action) -> bool {
    if s == LinkState::Closed || !(f.typ == Type::SRSP || f.typ == Type::AREQ) {
        a is Fatal
    } else if f.typ == Type::AREQ {
        match a {
            Action::Notify(m) => cmd::classifies(f, Ok(m)),
            Action::Unclassified(e) => cmd::classifies(f, Err(e)),
            _ => false,
        }
    } else if s matches LinkState::Awaiting(t) && answers(t, f) {
        a matches Action::Reply(c) && c@ == f
    } else {
        a matches Action::Stale(c) && c@ == f
    }
}

/// How a waiting request ended.
#[derive(Debug)]
pub enum Waited {
    /// The matching reply.
    Reply(ZpiCmd),
    /// The timeout elapsed first.
    TimedOut,
    /// The receive side stopped first.
    Gone,
}

/// The correlation state of one connection.
#[derive(Debug)]
pub struct Correlator {
    pub state: LinkState,
}

impl Correlator {
    pub fn new() -> (r: Self)
        ensures
            r.state == LinkState::Idle,
    {
        Correlator { state: LinkState::Idle }
    }

    /// Registers the ticket of a request about to be sent. The ticket must
    /// be in place before the request bytes go out.
    pub fn begin(&mut self, subsys: Subsys, cmd_id: u8) -> (r: Result<(), SreqError>)
        ensures
            final(self).state == begun(old(self).state, Ticket { subsys, cmd_id }),
            old(self).state == LinkState::Idle ==> r is Ok,
            old(self).state is Awaiting ==> r == Err::<(), SreqError>(SreqError::Busy),
            old(self).state == LinkState::Closed ==> r == Err::<(), SreqError>(
                SreqError::SerialPortGone,
            ),
    {
        match self.state {
            LinkState::Idle => {
                self.state = LinkState::Awaiting(Ticket { subsys, cmd_id });
                Ok(())
            },
            LinkState::Awaiting(_) => Err(SreqError::Busy),
            LinkState::Closed => Err(SreqError::SerialPortGone),
        }
    }

    /// Decides what an incoming frame means.
    pub fn on_frame(&mut self, frame: ZpiCmd) -> (a: Action)
        ensures
            final(self).state == next_state(old(self).state, frame@),
            acts_on(old(self).state, frame@, a),
    {
        let typ = frame.typ();
        if self.state == LinkState::Closed {
            return Action::Fatal;
        }
        match typ {
            Type::AREQ => match cmd::Areq::from_subsys(frame) {
                Ok(m) => Action::Notify(m),
                Err(e) => Action::Unclassified(e),
            },
            Type::SRSP => {
                match self.state {
                    LinkState::Awaiting(t) => {
                        if t.subsys == frame.subsys() && t.cmd_id == frame.cmd_id() {
                            self.state = LinkState::Idle;
                            return Action::Reply(frame);
                        }
                    },
                    _ => {},
                }
                Action::Stale(frame)
            },
            _ => {
                self.state = LinkState::Closed;
                Action::Fatal
            },
        }
    }

    /// The stream could not be decoded: the connection is lost.
    pub fn on_decode_error(&mut self)
        ensures
            final(self).state == LinkState::Closed,
    {
        self.state = LinkState::Closed;
    }

    /// The request in flight timed out: its ticket is released, so a late
    /// reply for it is stale and the next request can proceed.
    pub fn expire(&mut self)
        ensures
            final(self).state == expired(old(self).state),
    {
        if let LinkState::Awaiting(_) = self.state {
            self.state = LinkState::Idle;
        }
    }
}

/// The result of a synchronous request of type `S`, from how its wait ended.
pub fn finish_sreq<S: Sreq>(waited: Waited) -> (r: Result<S::Srsp, SreqError>)
    ensures
        waited is TimedOut ==> r == Err::<S::Srsp, SreqError>(SreqError::TimedOut),
        waited is Gone ==> r == Err::<S::Srsp, SreqError>(SreqError::SerialPortGone),
        waited matches Waited::Reply(c) ==> match r {
            Ok(v) => decodes_to(c.body@, &v),
            Err(SreqError::BadResponse(Error::Payload(d))) => decode_fails::<S::Srsp>(c.body@, d),
            _ => false,
        },
{
    match waited {
        Waited::Reply(c) => match S::parse_res(c) {
            Ok(v) => Ok(v),
            Err(e) => Err(SreqError::BadResponse(e)),
        },
        Waited::TimedOut => Err(SreqError::TimedOut),
        Waited::Gone => Err(SreqError::SerialPortGone),
    }
}

/// Notifications and replies for other keys leave a ticket in place.
proof fn lemma_ticket_stays(t: Ticket, fs: Seq<Frame>)
    requires
        forall|i: int|
            0 <= i < fs.len() ==> (#[trigger] fs[i]).typ == Type::AREQ || (fs[i].typ
                == Type::SRSP && !answers(t, fs[i])),
    ensures
        after(LinkState::Awaiting(t), fs) == LinkState::Awaiting(t),
    decreases fs.len(),
{
    if fs.len() > 0 {
        let init = fs.drop_last();
        assert forall|i: int| 0 <= i < init.len() implies (#[trigger] init[i]).typ == Type::AREQ
            || (init[i].typ == Type::SRSP && !answers(t, init[i])) by {
            assert(init[i] == fs[i]);
        }
        lemma_ticket_stays(t, init);
        assert(fs.last() == fs[fs.len() - 1]);
    }
}

/// While a ticket is outstanding, each notification in the stream is
/// classified and forwarded, each reply for another key is dropped as stale,
/// and none of them touches the ticket; the first reply with the ticket's
/// key is handed to the waiter and completes it.
pub proof fn lemma_correlation(t: Ticket, fs: Seq<Frame>, f: Frame)
    requires
        forall|i: int|
            0 <= i < fs.len() ==> (#[trigger] fs[i]).typ == Type::AREQ || (fs[i].typ
                == Type::SRSP && !answers(t, fs[i])),
        answers(t, f),
    ensures
        forall|i: int|
            0 <= i <= fs.len() ==> after(LinkState::Awaiting(t), #[trigger] fs.subrange(0, i))
                == LinkState::Awaiting(t),
        forall|i: int, a: Action|
            0 <= i < fs.len() && #[trigger] acts_on(
                after(LinkState::Awaiting(t), fs.subrange(0, i)),
                fs[i],
                a,
            ) ==> !(a is Reply) && (fs[i].typ == Type::AREQ ==> match a {
                Action::Notify(m) => cmd::classifies(fs[i], Ok(m)),
                Action::Unclassified(e) => cmd::classifies(fs[i], Err(e)),
                _ => false,
            }) && (fs[i].typ == Type::SRSP ==> (a matches Action::Stale(c) && c@ == fs[i])),
        forall|a: Action|
            #[trigger] acts_on(after(LinkState::Awaiting(t), fs), f, a) ==> (a matches Action::Reply(
                c,
            ) && c@ == f),
        after(LinkState::Awaiting(t), fs) == LinkState::Awaiting(t),
        next_state(after(LinkState::Awaiting(t), fs), f) == LinkState::Idle,
{
    assert forall|i: int| 0 <= i <= fs.len() implies after(
        LinkState::Awaiting(t),
        #[trigger] fs.subrange(0, i),
    ) == LinkState::Awaiting(t) by {
        let pre = fs.subrange(0, i);
        assert forall|j: int| 0 <= j < pre.len() implies (#[trigger] pre[j]).typ == Type::AREQ
            || (pre[j].typ == Type::SRSP && !answers(t, pre[j])) by {
            assert(pre[j] == fs[j]);
        }
        lemma_ticket_stays(t, pre);
    }
    assert forall|i: int, a: Action|
        0 <= i < fs.len() && #[trigger] acts_on(
            after(LinkState::Awaiting(t), fs.subrange(0, i)),
            fs[i],
            a,
        ) implies !(a is Reply) && (fs[i].typ == Type::AREQ ==> match a {
            Action::Notify(m) => cmd::classifies(fs[i], Ok(m)),
            Action::Unclassified(e) => cmd::classifies(fs[i], Err(e)),
            _ => false,
        }) && (fs[i].typ == Type::SRSP ==> (a matches Action::Stale(c) && c@ == fs[i])) by {
        assert(after(LinkState::Awaiting(t), fs.subrange(0, i)) == LinkState::Awaiting(t));
    }
    assert(fs.subrange(0, fs.len() as int) =~= fs);
    lemma_ticket_stays(t, fs);
}

/// Frames that leave an idle connection idle: replies nobody waits for and
/// notifications.
proof fn lemma_idle_stays(fs: Seq<Frame>)
    requires
        forall|i: int|
            0 <= i < fs.len() ==> (#[trigger] fs[i]).typ == Type::AREQ || fs[i].typ == Type::SRSP,
    ensures
        after(LinkState::Idle, fs) == LinkState::Idle,
    decreases fs.len(),
{
    if fs.len() > 0 {
        let init = fs.drop_last();
        assert forall|i: int| 0 <= i < init.len() implies (#[trigger] init[i]).typ == Type::AREQ
            || init[i].typ == Type::SRSP by {
            assert(init[i] == fs[i]);
        }
        lemma_idle_stays(init);
        assert(fs.last() == fs[fs.len() - 1]);
    }
}

/// A timed-out request frees the slot: once its ticket expires, late replies
/// for it are dropped, a new request is accepted, and that request's own
/// reply completes it whatever stale replies and notifications come first.
pub proof fn lemma_timeout_frees_slot(
    t: Ticket,
    late: Seq<Frame>,
    t2: Ticket,
    fs: Seq<Frame>,
    f: Frame,
)
    requires
        forall|i: int|
            0 <= i < late.len() ==> (#[trigger] late[i]).typ == Type::AREQ || late[i].typ
                == Type::SRSP,
        forall|i: int|
            0 <= i < fs.len() ==> (#[trigger] fs[i]).typ == Type::AREQ || (fs[i].typ
                == Type::SRSP && !answers(t2, fs[i])),
        answers(t2, f),
    ensures
        expired(LinkState::Awaiting(t)) == LinkState::Idle,
        after(expired(LinkState::Awaiting(t)), late) == LinkState::Idle,
        begun(after(expired(LinkState::Awaiting(t)), late), t2) == LinkState::Awaiting(t2),
        after(LinkState::Awaiting(t2), fs) == LinkState::Awaiting(t2),
        next_state(after(LinkState::Awaiting(t2), fs), f) == LinkState::Idle,
{
    lemma_idle_stays(late);
    lemma_ticket_stays(t2, fs);
}

} // verus!

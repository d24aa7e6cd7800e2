//! The connection to the frontend: what to do on each frame, each outgoing
//! message and each heartbeat tick.
//!
//! Every tick probes the peer with a ping. A tick that finds no pong since the
//! previous probe counts one miss; `max_missed` misses in a row end the link.
use vstd::prelude::*;
use crate::messages::{decode_intiface, encode_engine, EngineMessage, IntifaceMessage};

verus! {

/// A frame from the frontend's socket.
pub enum InboundFrame {
    Text(String),
    Binary,
    Ping,
    Pong,
    Close,
    /// The socket reported an error.
    Error,
    /// The socket has no more frames.
    Ended,
}

pub enum LinkEvent {
    /// The heartbeat interval passed.
    Tick,
    Frame(InboundFrame),
    /// The engine has a message for the frontend.
    Outgoing(EngineMessage),
    /// The engine dropped its sending side.
    OutgoingClosed,
    /// The owner asked the link to close.
    DisconnectRequested,
}

pub enum LinkAction {
    Continue,
    /// Hand a request to the engine.
    Deliver(IntifaceMessage),
    SendPing,
    SendText(String),
    /// Close the socket and go on until it ends.
    Close,
    /// Stop the link; cancel the connection token where `cancel` holds, and
    /// close the socket where `close` holds.
    End { cancel: bool, close: bool },
}

pub enum LinkActionView {
    Continue,
    Deliver(IntifaceMessage),
    SendPing,
    SendText(Seq<char>),
    Close,
    End { cancel: bool, close: bool },
}

impl View for LinkAction {
    type V = LinkActionView;

    open spec fn view(&self) -> LinkActionView {
        match self {
            LinkAction::Continue => LinkActionView::Continue,
            LinkAction::Deliver(m) => LinkActionView::Deliver(*m),
            LinkAction::SendPing => LinkActionView::SendPing,
            LinkAction::SendText(t) => LinkActionView::SendText(t@),
            LinkAction::Close => LinkActionView::Close,
            LinkAction::End { cancel, close } => LinkActionView::End {
                cancel: *cancel,
                close: *close,
            },
        }
    }
}

/// The link's state as contracts see it.
pub struct LinkState {
    /// Pongs since the last probe.
    pub pongs: u32,
    /// Probes in a row that found no pong.
    pub missed: u32,
    pub max_missed: u32,
}

pub struct FrontendLink {
    pongs: u32,
    missed: u32,
    max_missed: u32,
}

impl View for FrontendLink {
    type V = LinkState;

    closed spec fn view(&self) -> LinkState {
        LinkState { pongs: self.pongs, missed: self.missed, max_missed: self.max_missed }
    }
}

/// Misses in a row after a tick.
pub open spec fn misses_after_tick(s: LinkState) -> int {
    if s.pongs == 0 {
        s.missed + 1
    } else {
        0
    }
}

pub open spec fn link_reaction(s: LinkState, e: LinkEvent) -> LinkActionView {
    match e {
        LinkEvent::Tick => if misses_after_tick(s) >= s.max_missed {
            LinkActionView::End { cancel: true, close: false }
        } else {
            LinkActionView::SendPing
        },
        LinkEvent::Frame(f) => match f {
            InboundFrame::Text(t) => match decode_intiface(t@) {
                Some(m) => LinkActionView::Deliver(m),
                None => LinkActionView::Continue,
            },
            InboundFrame::Close => LinkActionView::End { cancel: true, close: true },
            InboundFrame::Error => LinkActionView::End { cancel: true, close: false },
            InboundFrame::Ended => LinkActionView::End { cancel: true, close: false },
            _ => LinkActionView::Continue,
        },
        LinkEvent::Outgoing(m) => LinkActionView::SendText(encode_engine(m@)),
        LinkEvent::OutgoingClosed => LinkActionView::End { cancel: true, close: true },
        LinkEvent::DisconnectRequested => LinkActionView::Close,
    }
}

pub open spec fn link_next(s: LinkState, e: LinkEvent) -> LinkState {
    match e {
        LinkEvent::Tick => if misses_after_tick(s) >= s.max_missed {
            s
        } else {
            LinkState { pongs: 0, missed: misses_after_tick(s) as u32, ..s }
        },
        LinkEvent::Frame(InboundFrame::Pong) => LinkState {
            pongs: if s.pongs < u32::MAX {
                (s.pongs + 1) as u32
            } else {
                s.pongs
            },
            ..s
        },
        _ => s,
    }
}

impl FrontendLink {
    /// Misses in a row stay under the limit, or there are none.
    #[verifier::type_invariant]
    closed spec fn inv(&self) -> bool {
        self.missed == 0 || self.missed < self.max_missed
    }

    /// A fresh link that ends after `max_missed` probes in a row go unanswered.
    /// It counts as answered until its first probe; with a limit of zero the
    /// first tick ends it.
    pub fn new(max_missed: u32) -> (r: FrontendLink)
        ensures
            r@ == (LinkState { pongs: 1, missed: 0, max_missed }),
    {
        FrontendLink { pongs: 1, missed: 0, max_missed }
    }

    /// Decides what to do on `e`, and moves to the next state.
    pub fn handle(&mut self, e: LinkEvent) -> (r: LinkAction)
        ensures
            r@ == link_reaction(old(self)@, e),
            final(self)@ == link_next(old(self)@, e),
    {
        proof {
            use_type_invariant(&*self);
        }
        match e {
            LinkEvent::Tick => {
                let misses = if self.pongs == 0 {
                    self.missed + 1
                } else {
                    0
                };
                if misses >= self.max_missed {
                    LinkAction::End { cancel: true, close: false }
                } else {
                    self.pongs = 0;
                    self.missed = misses;
                    LinkAction::SendPing
                }
            },
            LinkEvent::Frame(f) => match f {
                InboundFrame::Text(t) => match IntifaceMessage::decode(t.as_str()) {
                    Some(m) => LinkAction::Deliver(m),
                    None => LinkAction::Continue,
                },
                InboundFrame::Close => LinkAction::End { cancel: true, close: true },
                InboundFrame::Error => LinkAction::End { cancel: true, close: false },
                InboundFrame::Ended => LinkAction::End { cancel: true, close: false },
                InboundFrame::Pong => {
                    if self.pongs < u32::MAX {
                        self.pongs = self.pongs + 1;
                    }
                    LinkAction::Continue
                },
                _ => LinkAction::Continue,
            },
            LinkEvent::Outgoing(m) => LinkAction::SendText(m.encode()),
            LinkEvent::OutgoingClosed => LinkAction::End { cancel: true, close: true },
            LinkEvent::DisconnectRequested => LinkAction::Close,
        }
    }
}

/// With a limit of one miss, a tick that finds no pong since the last probe
/// ends the link.
pub proof fn lemma_missed_pong_ends(s: LinkState)
    requires
        s.max_missed == 1,
        s.pongs == 0,
    ensures
        link_reaction(s, LinkEvent::Tick) == (LinkActionView::End { cancel: true, close: false }),
{
}

/// A pong that comes before the next tick keeps the link: the tick probes again.
pub proof fn lemma_pong_in_time_keeps(s: LinkState)
    requires
        s.max_missed >= 1,
    ensures
        link_reaction(link_next(s, LinkEvent::Frame(InboundFrame::Pong)), LinkEvent::Tick)
            == LinkActionView::SendPing,
        link_next(link_next(s, LinkEvent::Frame(InboundFrame::Pong)), LinkEvent::Tick).missed
            == 0,
{
}

} // verus!
